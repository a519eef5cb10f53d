//! The dashboard's input timing and the numbering of its clickable regions.

use vstd::prelude::*;
use core::time::Duration;

verus! {

/// How long the dashboard waits for input before it redraws anyway.
pub struct EventHandler {
    tick_rate: Duration,
}

impl EventHandler {
    /// A handler that waits `tick_rate` for input.
    pub fn new(tick_rate: Duration) -> (r: EventHandler)
        ensures
            r.tick_rate() == tick_rate,
    {
        EventHandler { tick_rate }
    }

    /// How long the handler waits for input.
    pub closed spec fn tick_rate(&self) -> Duration {
        self.tick_rate
    }

    /// How long the handler waits for input.
    pub fn wait(&self) -> (r: Duration)
        ensures
            r == self.tick_rate(),
    {
        self.tick_rate
    }
}

/// A clickable part of the dashboard.
#[derive(Debug, Clone, Copy, PartialEq, Eq, Structural)]
pub enum ClickRegion {
    Tab(usize),
    ContainerRow(usize),
    ImageRow(usize),
    NetworkRow(usize),
    VolumeRow(usize),
    FileRow(usize),
    MarketplaceRow(usize),
    LogRow(usize),
    ActionButton(usize),
    DetailButton(usize),
    HelpButton,
    CloseButton,
}

/// The first code of each kind of region: tabs from 0, container rows from
/// 100, and so on by hundreds up to detail buttons from 900; the help
/// button is 950 and the close button 951.
pub open spec fn region_base(r: ClickRegion) -> int {
    match r {
        ClickRegion::Tab(_) => 0,
        ClickRegion::ContainerRow(_) => 100,
        ClickRegion::ImageRow(_) => 200,
        ClickRegion::NetworkRow(_) => 300,
        ClickRegion::VolumeRow(_) => 400,
        ClickRegion::FileRow(_) => 500,
        ClickRegion::MarketplaceRow(_) => 600,
        ClickRegion::LogRow(_) => 700,
        ClickRegion::ActionButton(_) => 800,
        ClickRegion::DetailButton(_) => 900,
        ClickRegion::HelpButton => 950,
        ClickRegion::CloseButton => 951,
    }
}

/// The position a region carries, cut to 16 bits; 0 for the buttons
/// without one.
pub open spec fn region_offset(r: ClickRegion) -> int {
    match r {
        ClickRegion::Tab(i) => (i as u16) as int,
        ClickRegion::ContainerRow(i) => (i as u16) as int,
        ClickRegion::ImageRow(i) => (i as u16) as int,
        ClickRegion::NetworkRow(i) => (i as u16) as int,
        ClickRegion::VolumeRow(i) => (i as u16) as int,
        ClickRegion::FileRow(i) => (i as u16) as int,
        ClickRegion::MarketplaceRow(i) => (i as u16) as int,
        ClickRegion::LogRow(i) => (i as u16) as int,
        ClickRegion::ActionButton(i) => (i as u16) as int,
        ClickRegion::DetailButton(i) => (i as u16) as int,
        ClickRegion::HelpButton => 0,
        ClickRegion::CloseButton => 0,
    }
}

impl ClickRegion {
    /// The region's code: its kind's first code plus its position.
    pub fn to_u16(&self) -> (r: u16)
        requires
            region_base(*self) + region_offset(*self) <= u16::MAX,
        ensures
            r == region_base(*self) + region_offset(*self),
    {
        match self {
            ClickRegion::Tab(i) => *i as u16,
            ClickRegion::ContainerRow(i) => 100 + *i as u16,
            ClickRegion::ImageRow(i) => 200 + *i as u16,
            ClickRegion::NetworkRow(i) => 300 + *i as u16,
            ClickRegion::VolumeRow(i) => 400 + *i as u16,
            ClickRegion::FileRow(i) => 500 + *i as u16,
            ClickRegion::MarketplaceRow(i) => 600 + *i as u16,
            ClickRegion::LogRow(i) => 700 + *i as u16,
            ClickRegion::ActionButton(i) => 800 + *i as u16,
            ClickRegion::DetailButton(i) => 900 + *i as u16,
            ClickRegion::HelpButton => 950,
            ClickRegion::CloseButton => 951,
        }
    }
}

/// The position a region carries; 0 for the buttons without one.
pub open spec fn region_position(r: ClickRegion) -> int {
    match r {
        ClickRegion::Tab(i) => i as int,
        ClickRegion::ContainerRow(i) => i as int,
        ClickRegion::ImageRow(i) => i as int,
        ClickRegion::NetworkRow(i) => i as int,
        ClickRegion::VolumeRow(i) => i as int,
        ClickRegion::FileRow(i) => i as int,
        ClickRegion::MarketplaceRow(i) => i as int,
        ClickRegion::LogRow(i) => i as int,
        ClickRegion::ActionButton(i) => i as int,
        ClickRegion::DetailButton(i) => i as int,
        ClickRegion::HelpButton => 0,
        ClickRegion::CloseButton => 0,
    }
}

/// Different regions whose positions are below 50 get different codes.
pub proof fn law_region_codes_distinct(a: ClickRegion, b: ClickRegion)
    requires
        region_position(a) < 50,
        region_position(b) < 50,
        a != b,
    ensures
        region_base(a) + region_offset(a) != region_base(b) + region_offset(b),
        region_base(a) + region_offset(a) <= u16::MAX,
{
}

} // verus!
