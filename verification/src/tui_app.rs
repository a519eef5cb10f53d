//! The state of the interactive dashboard (`qcker tui`) and the way it
//! changes. Each operation that needs the outside world (running the `qcker`
//! program, reading the data directory, writing an extension's files) does
//! not do it: it returns an [`Action`] that the terminal front end performs,
//! and the outcome comes back through a method of [`App`].

use vstd::prelude::*;
use crate::tui_text::uptime_text;
use crate::text::{
    chars_eq_str, u64_to_decimal, owned, push_owned, push_str, push_string, split_lines, split_ws, str_chars, string_of, text_lines,
    views, ws_pieces,
};

verus! {

/// The tabs of the dashboard, in the order they are shown.
#[derive(Debug, Clone, Copy, PartialEq, Eq, Structural)]
pub enum ActiveTab {
    Containers,
    Images,
    Networks,
    Volumes,
    Stats,
    Extensions,
    Logs,
}

/// What the keyboard is currently doing.
#[derive(Debug, Clone, Copy, PartialEq, Eq, Structural)]
pub enum AppMode {
    Normal,
    ConfirmDelete,
    NewContainer,
    ExecCommand,
    ImagePull,
    WatchingLogs,
}

/// The operation a yes/no question is about.
#[derive(Debug, Clone)]
pub enum ConfirmAction {
    DeleteContainer(String),
    UninstallExtension(String),
}

/// A row of the containers tab.
#[derive(Debug, Clone)]
pub struct ContainerInfo {
    pub id: String,
    pub name: String,
    pub status: String,
    pub image: String,
    pub pid: Option<i32>,
    pub created: String,
}

/// A row of the images tab.
#[derive(Debug, Clone)]
pub struct ImageInfo {
    pub id: String,
    pub tags: String,
    pub size: String,
    pub created: String,
}

/// A row of the networks tab.
#[derive(Debug, Clone)]
pub struct NetworkInfo {
    pub id: String,
    pub name: String,
    pub driver: String,
    pub subnet: String,
}

/// A row of the volumes tab.
#[derive(Debug, Clone)]
pub struct VolumeInfo {
    pub name: String,
    pub driver: String,
    pub mountpoint: String,
}

/// A row of the extensions tab.
#[derive(Debug, Clone)]
pub struct MarketplaceExt {
    pub id: String,
    pub name: String,
    pub version: String,
    pub description: String,
    pub author: String,
    pub category: String,
    pub built_in: bool,
    pub installed: bool,
}

/// The lists the dashboard shows, as read from the data directory.
#[derive(Debug, Clone)]
pub struct Listing {
    pub containers: Vec<ContainerInfo>,
    pub images: Vec<ImageInfo>,
    pub networks: Vec<NetworkInfo>,
    pub volumes: Vec<VolumeInfo>,
    pub extensions: Vec<MarketplaceExt>,
}

/// The dashboard's state.
#[derive(Debug)]
pub struct App {
    pub active_tab: ActiveTab,
    pub mode: AppMode,
    pub containers: Vec<ContainerInfo>,
    pub images: Vec<ImageInfo>,
    pub networks: Vec<NetworkInfo>,
    pub volumes: Vec<VolumeInfo>,
    pub extensions: Vec<MarketplaceExt>,
    pub logs: Vec<String>,
    pub selected_index: usize,
    pub selected_action: usize,
    pub show_help: bool,
    pub data_dir: String,
    pub should_quit: bool,
    pub status_message: String,
    pub selected_container: Option<String>,
    pub confirm_message: String,
    pub confirm_action: Option<ConfirmAction>,
    pub new_name: String,
    pub new_image: String,
    pub new_cmd: String,
    pub exec_cmd: String,
    pub pull_input: String,
    pub scroll_offset: usize,
}

/// What a question is about, by the text of its target.
pub ghost enum Confirm {
    Delete(Seq<char>),
    Uninstall(Seq<char>),
}

/// The dashboard's state with its texts as character sequences.
pub ghost struct AppView {
    pub active_tab: ActiveTab,
    pub mode: AppMode,
    pub containers: Seq<ContainerInfo>,
    pub images: Seq<ImageInfo>,
    pub networks: Seq<NetworkInfo>,
    pub volumes: Seq<VolumeInfo>,
    pub extensions: Seq<MarketplaceExt>,
    pub logs: Seq<Seq<char>>,
    pub selected_index: usize,
    pub selected_action: usize,
    pub show_help: bool,
    pub data_dir: Seq<char>,
    pub should_quit: bool,
    pub status: Seq<char>,
    pub selected_container: Option<Seq<char>>,
    pub confirm_message: Seq<char>,
    pub confirm_action: Option<Confirm>,
    pub new_name: Seq<char>,
    pub new_image: Seq<char>,
    pub new_cmd: Seq<char>,
    pub exec_cmd: Seq<char>,
    pub pull_input: Seq<char>,
    pub scroll_offset: usize,
}

/// The text of an optional string.
pub open spec fn opt_text(o: Option<String>) -> Option<Seq<char>> {
    match o {
        Some(s) => Some(s@),
        None => None,
    }
}

/// What a pending question is about.
pub open spec fn confirm_view(c: Option<ConfirmAction>) -> Option<Confirm> {
    match c {
        Some(ConfirmAction::DeleteContainer(id)) => Some(Confirm::Delete(id@)),
        Some(ConfirmAction::UninstallExtension(id)) => Some(Confirm::Uninstall(id@)),
        None => None,
    }
}

impl View for App {
    type V = AppView;

    open spec fn view(&self) -> AppView {
        AppView {
            active_tab: self.active_tab,
            mode: self.mode,
            containers: self.containers@,
            images: self.images@,
            networks: self.networks@,
            volumes: self.volumes@,
            extensions: self.extensions@,
            logs: views(self.logs@),
            selected_index: self.selected_index,
            selected_action: self.selected_action,
            show_help: self.show_help,
            data_dir: self.data_dir@,
            should_quit: self.should_quit,
            status: self.status_message@,
            selected_container: opt_text(self.selected_container),
            confirm_message: self.confirm_message@,
            confirm_action: confirm_view(self.confirm_action),
            new_name: self.new_name@,
            new_image: self.new_image@,
            new_cmd: self.new_cmd@,
            exec_cmd: self.exec_cmd@,
            pull_input: self.pull_input@,
            scroll_offset: self.scroll_offset,
        }
    }
}

/// The dashboard as it opens: the containers tab, nothing loaded yet.
pub open spec fn initial_view(data_dir: Seq<char>) -> AppView {
    AppView {
        active_tab: ActiveTab::Containers,
        mode: AppMode::Normal,
        containers: Seq::empty(),
        images: Seq::empty(),
        networks: Seq::empty(),
        volumes: Seq::empty(),
        extensions: Seq::empty(),
        logs: Seq::empty(),
        selected_index: 0,
        selected_action: 0,
        show_help: false,
        data_dir,
        should_quit: false,
        status: "Qcker Dashboard \u{2014} Press h for help"@,
        selected_container: None,
        confirm_message: Seq::empty(),
        confirm_action: None,
        new_name: Seq::empty(),
        new_image: Seq::empty(),
        new_cmd: Seq::empty(),
        exec_cmd: Seq::empty(),
        pull_input: Seq::empty(),
        scroll_offset: 0,
    }
}

/// The number of containers whose status reads `running`.
pub open spec fn running_count(cs: Seq<ContainerInfo>) -> nat
    decreases cs.len(),
{
    if cs.len() == 0 {
        0
    } else {
        running_count(cs.drop_last()) + (if cs.last().status@ == "running"@ { 1nat } else { 0nat })
    }
}

/// The tab at a position below 7.
pub open spec fn tab_at(i: int) -> ActiveTab {
    if i == 0 {
        ActiveTab::Containers
    } else if i == 1 {
        ActiveTab::Images
    } else if i == 2 {
        ActiveTab::Networks
    } else if i == 3 {
        ActiveTab::Volumes
    } else if i == 4 {
        ActiveTab::Stats
    } else if i == 5 {
        ActiveTab::Extensions
    } else {
        ActiveTab::Logs
    }
}

/// The tab after `t`, the logs tab wrapping round to the containers tab.
pub open spec fn tab_after(t: ActiveTab) -> ActiveTab {
    match t {
        ActiveTab::Containers => ActiveTab::Images,
        ActiveTab::Images => ActiveTab::Networks,
        ActiveTab::Networks => ActiveTab::Volumes,
        ActiveTab::Volumes => ActiveTab::Stats,
        ActiveTab::Stats => ActiveTab::Extensions,
        ActiveTab::Extensions => ActiveTab::Logs,
        ActiveTab::Logs => ActiveTab::Containers,
    }
}

/// The tab before `t`, the containers tab wrapping round to the logs tab.
pub open spec fn tab_before(t: ActiveTab) -> ActiveTab {
    match t {
        ActiveTab::Containers => ActiveTab::Logs,
        ActiveTab::Images => ActiveTab::Containers,
        ActiveTab::Networks => ActiveTab::Images,
        ActiveTab::Volumes => ActiveTab::Networks,
        ActiveTab::Stats => ActiveTab::Volumes,
        ActiveTab::Extensions => ActiveTab::Stats,
        ActiveTab::Logs => ActiveTab::Extensions,
    }
}

/// The title of a tab.
pub open spec fn tab_title(t: ActiveTab) -> Seq<char> {
    match t {
        ActiveTab::Containers => "Containers"@,
        ActiveTab::Images => "Images"@,
        ActiveTab::Networks => "Networks"@,
        ActiveTab::Volumes => "Volumes"@,
        ActiveTab::Stats => "Stats"@,
        ActiveTab::Extensions => "Extensions"@,
        ActiveTab::Logs => "Logs"@,
    }
}

/// The number of rows of the current tab; the stats tab has none.
pub open spec fn max_items_of(a: AppView) -> int {
    match a.active_tab {
        ActiveTab::Containers => a.containers.len() as int,
        ActiveTab::Images => a.images.len() as int,
        ActiveTab::Networks => a.networks.len() as int,
        ActiveTab::Volumes => a.volumes.len() as int,
        ActiveTab::Stats => 0,
        ActiveTab::Extensions => a.extensions.len() as int,
        ActiveTab::Logs => a.logs.len() as int,
    }
}

/// Showing tab `t`, at its first row and first action.
pub open spec fn show_tab(a: AppView, t: ActiveTab) -> AppView {
    AppView { active_tab: t, selected_index: 0, scroll_offset: 0, selected_action: 0, ..a }
}

/// The selection moved one row down, wrapping round to the first row, with
/// the view scrolled so that it is at most 12 rows below the top.
pub open spec fn next_item_view(a: AppView) -> AppView {
    let max = max_items_of(a);
    if max > 0 {
        let sel = ((a.selected_index + 1) % max) as usize;
        let scroll = if sel > a.scroll_offset + 12 {
            (sel - 12) as usize
        } else {
            a.scroll_offset
        };
        AppView { selected_index: sel, scroll_offset: scroll, ..a }
    } else {
        a
    }
}

/// The selection moved one row up, wrapping round to the last row, with
/// the view scrolled up to it when it went above the top.
pub open spec fn prev_item_view(a: AppView) -> AppView {
    let max = max_items_of(a);
    if max > 0 {
        let sel = if a.selected_index == 0 {
            (max - 1) as usize
        } else {
            (a.selected_index - 1) as usize
        };
        let scroll = if sel < a.scroll_offset {
            sel
        } else {
            a.scroll_offset
        };
        AppView { selected_index: sel, scroll_offset: scroll, ..a }
    } else {
        a
    }
}

/// The help shown if it was hidden, hidden if it was shown.
pub open spec fn help_toggled(a: AppView) -> AppView {
    AppView { show_help: !a.show_help, ..a }
}

/// Back to the normal mode, saying that what was going on was cancelled.
pub open spec fn cancelled_view(a: AppView) -> AppView {
    AppView { mode: AppMode::Normal, status: "Cancelled"@, ..a }
}

/// Starts typing a new container, from empty name, image and command.
pub open spec fn open_new_view(a: AppView) -> AppView {
    AppView {
        new_name: Seq::empty(),
        new_image: Seq::empty(),
        new_cmd: Seq::empty(),
        mode: AppMode::NewContainer,
        status: "Container name:"@,
        ..a
    }
}

/// The container under the selection, on the containers tab.
pub open spec fn selected_container_of(a: AppView) -> Option<ContainerInfo> {
    if a.active_tab == ActiveTab::Containers && a.selected_index < a.containers.len() {
        Some(a.containers[a.selected_index as int])
    } else {
        None
    }
}

impl App {
    /// A dashboard over the data directory `data_dir`, with nothing loaded.
    pub fn new(data_dir: String) -> (r: App)
        ensures
            r@ == initial_view(data_dir@),
    {
        let r = App {
            active_tab: ActiveTab::Containers,
            mode: AppMode::Normal,
            containers: Vec::new(),
            images: Vec::new(),
            networks: Vec::new(),
            volumes: Vec::new(),
            extensions: Vec::new(),
            logs: Vec::new(),
            selected_index: 0,
            selected_action: 0,
            show_help: false,
            data_dir,
            should_quit: false,
            status_message: owned("Qcker Dashboard \u{2014} Press h for help"),
            selected_container: None,
            confirm_message: String::new(),
            confirm_action: None,
            new_name: String::new(),
            new_image: String::new(),
            new_cmd: String::new(),
            exec_cmd: String::new(),
            pull_input: String::new(),
            scroll_offset: 0,
        };
        assert(views(r.logs@) =~= Seq::empty());
        r
    }

    /// The title of the current tab.
    pub fn tab_label(&self) -> (r: &'static str)
        ensures
            r@ == tab_title(self.active_tab),
    {
        match self.active_tab {
            ActiveTab::Containers => "Containers",
            ActiveTab::Images => "Images",
            ActiveTab::Networks => "Networks",
            ActiveTab::Volumes => "Volumes",
            ActiveTab::Stats => "Stats",
            ActiveTab::Extensions => "Extensions",
            ActiveTab::Logs => "Logs",
        }
    }

    /// Goes to the next tab.
    pub fn next_tab(&mut self)
        ensures
            final(self)@ == show_tab(old(self)@, tab_after(old(self).active_tab)),
    {
        self.active_tab = match self.active_tab {
            ActiveTab::Containers => ActiveTab::Images,
            ActiveTab::Images => ActiveTab::Networks,
            ActiveTab::Networks => ActiveTab::Volumes,
            ActiveTab::Volumes => ActiveTab::Stats,
            ActiveTab::Stats => ActiveTab::Extensions,
            ActiveTab::Extensions => ActiveTab::Logs,
            ActiveTab::Logs => ActiveTab::Containers,
        };
        self.selected_index = 0;
        self.scroll_offset = 0;
        self.selected_action = 0;
    }

    /// Goes to the previous tab.
    pub fn prev_tab(&mut self)
        ensures
            final(self)@ == show_tab(old(self)@, tab_before(old(self).active_tab)),
    {
        self.active_tab = match self.active_tab {
            ActiveTab::Containers => ActiveTab::Logs,
            ActiveTab::Images => ActiveTab::Containers,
            ActiveTab::Networks => ActiveTab::Images,
            ActiveTab::Volumes => ActiveTab::Networks,
            ActiveTab::Stats => ActiveTab::Volumes,
            ActiveTab::Extensions => ActiveTab::Stats,
            ActiveTab::Logs => ActiveTab::Extensions,
        };
        self.selected_index = 0;
        self.scroll_offset = 0;
        self.selected_action = 0;
    }

    /// Goes to the tab at position `index` (when there is one), back in
    /// the normal mode, and says so in the status line.
    pub fn click_tab(&mut self, index: usize)
        ensures
            index < 7 ==> final(self)@ == (AppView {
                mode: AppMode::Normal,
                status: "Switched to "@ + tab_title(tab_at(index as int)) + " tab"@,
                ..show_tab(old(self)@, tab_at(index as int))
            }),
            index >= 7 ==> final(self)@ == old(self)@,
    {
        if index < 7 {
            self.active_tab = if index == 0 {
                ActiveTab::Containers
            } else if index == 1 {
                ActiveTab::Images
            } else if index == 2 {
                ActiveTab::Networks
            } else if index == 3 {
                ActiveTab::Volumes
            } else if index == 4 {
                ActiveTab::Stats
            } else if index == 5 {
                ActiveTab::Extensions
            } else {
                ActiveTab::Logs
            };
            self.selected_index = 0;
            self.scroll_offset = 0;
            self.selected_action = 0;
            self.mode = AppMode::Normal;
            let mut msg = owned("Switched to ");
            push_str(&mut msg, self.tab_label());
            push_str(&mut msg, " tab");
            self.status_message = msg;
        }
    }

    /// How many listed containers are running, and how many are not.
    pub fn container_counts(&self) -> (r: (usize, usize))
        ensures
            r.0 == running_count(self.containers@),
            r.0 + r.1 == self.containers@.len(),
    {
        let mut running: usize = 0;
        let mut i: usize = 0;
        while i < self.containers.len()
            invariant
                i <= self.containers@.len(),
                running == running_count(self.containers@.take(i as int)),
                running <= i,
            decreases self.containers@.len() - i,
        {
            assert(self.containers@.take(i + 1).drop_last() =~= self.containers@.take(i as int));
            if chars_eq_str(&str_chars(self.containers[i].status.as_str()), "running") {
                running += 1;
            }
            i += 1;
        }
        assert(self.containers@.take(i as int) =~= self.containers@);
        (running, self.containers.len() - running)
    }

    /// The number of rows of the current tab.
    pub fn max_items(&self) -> (r: usize)
        ensures
            r == max_items_of(self@),
    {
        match self.active_tab {
            ActiveTab::Containers => self.containers.len(),
            ActiveTab::Images => self.images.len(),
            ActiveTab::Networks => self.networks.len(),
            ActiveTab::Volumes => self.volumes.len(),
            ActiveTab::Stats => 0,
            ActiveTab::Extensions => self.extensions.len(),
            ActiveTab::Logs => self.logs.len(),
        }
    }

    /// Moves the selection one row down.
    pub fn next_item(&mut self)
        requires
            max_items_of(old(self)@) > 0 ==> old(self).selected_index < usize::MAX,
            max_items_of(old(self)@) > 0 ==> old(self).scroll_offset <= usize::MAX - 12,
        ensures
            final(self)@ == next_item_view(old(self)@),
    {
        let max = self.max_items();
        if max > 0 {
            self.selected_index = (self.selected_index + 1) % max;
            if self.selected_index > self.scroll_offset + 12 {
                self.scroll_offset = self.selected_index - 12;
            }
        }
    }

    /// Moves the selection one row up.
    pub fn prev_item(&mut self)
        ensures
            final(self)@ == prev_item_view(old(self)@),
    {
        let max = self.max_items();
        if max > 0 {
            self.selected_index = if self.selected_index == 0 {
                max - 1
            } else {
                self.selected_index - 1
            };
            if self.selected_index < self.scroll_offset {
                self.scroll_offset = self.selected_index;
            }
        }
    }

    /// The selected container, on the containers tab.
    pub fn get_selected_container(&self) -> (r: Option<&ContainerInfo>)
        ensures
            match r {
                Some(c) => selected_container_of(self@) == Some(*c),
                None => selected_container_of(self@) is None,
            },
    {
        if self.active_tab == ActiveTab::Containers && self.selected_index < self.containers.len() {
            Some(&self.containers[self.selected_index])
        } else {
            None
        }
    }

    /// Shows or hides the help.
    pub fn toggle_help(&mut self)
        ensures
            final(self)@ == help_toggled(old(self)@),
    {
        self.show_help = !self.show_help;
    }
}

/// What the front end does for the dashboard after a change of state.
#[derive(Debug)]
pub enum Action {
    /// Nothing outside the state.
    Nothing,
    /// Read every list again and hand them to [`App::refreshed`] with the
    /// time of day.
    Refresh,
    /// Read every list again and hand them to [`App::reloaded`].
    Reload,
    /// Read the extensions again and hand them to [`App::set_extensions`].
    ReloadExtensions,
    /// Run `qcker` with these arguments, ignore what it prints, then do as
    /// for [`Action::Reload`].
    RunAndReload(Vec<String>),
    /// Run `qcker` with these arguments, ignore what it prints, then do as
    /// for [`Action::Refresh`].
    RunAndRefresh(Vec<String>),
    /// Run `qcker` with these arguments to create a container, and hand
    /// the outcome to [`App::created`].
    Create(Vec<String>),
    /// Run `qcker` with these arguments, and hand what it printed (or
    /// `None` when it could not be started) to [`App::exec_done`].
    Exec(Vec<String>),
    /// Write `manifest` as the manifest of the extension `id`, and hand
    /// `name` and whether that worked to [`App::installed`].
    Install { id: String, name: String, manifest: String },
    /// Remove the directory of the extension, if there is one; when there
    /// was one, do as for [`Action::ReloadExtensions`].
    Uninstall(String),
}

/// An [`Action`] with its texts as character sequences.
pub ghost enum Effect {
    Nothing,
    Refresh,
    Reload,
    ReloadExtensions,
    RunAndReload(Seq<Seq<char>>),
    RunAndRefresh(Seq<Seq<char>>),
    Create(Seq<Seq<char>>),
    Exec(Seq<Seq<char>>),
    Install(Seq<char>, Seq<char>, Seq<char>),
    Uninstall(Seq<char>),
}

impl View for Action {
    type V = Effect;

    open spec fn view(&self) -> Effect {
        match self {
            Action::Nothing => Effect::Nothing,
            Action::Refresh => Effect::Refresh,
            Action::Reload => Effect::Reload,
            Action::ReloadExtensions => Effect::ReloadExtensions,
            Action::RunAndReload(v) => Effect::RunAndReload(views(v@)),
            Action::RunAndRefresh(v) => Effect::RunAndRefresh(views(v@)),
            Action::Create(v) => Effect::Create(views(v@)),
            Action::Exec(v) => Effect::Exec(views(v@)),
            Action::Install { id, name, manifest } => Effect::Install(id@, name@, manifest@),
            Action::Uninstall(id) => Effect::Uninstall(id@),
        }
    }
}

/// The lists of `a` replaced by those of `l`.
pub open spec fn with_listing(a: AppView, l: Listing) -> AppView {
    AppView {
        containers: l.containers@,
        images: l.images@,
        networks: l.networks@,
        volumes: l.volumes@,
        extensions: l.extensions@,
        ..a
    }
}

/// The extension under the selection (on whatever tab).
pub open spec fn selected_extension_of(a: AppView) -> Option<MarketplaceExt> {
    if a.selected_index < a.extensions.len() {
        Some(a.extensions[a.selected_index as int])
    } else {
        None
    }
}

/// Runs `qcker <verb> <id>` for the container picked earlier, saying
/// `<done><id>` in the status line.
pub open spec fn run_on_picked(a: AppView, verb: Seq<char>, done: Seq<char>) -> (AppView, Effect) {
    match a.selected_container {
        Some(id) => (AppView { status: done + id, ..a }, Effect::RunAndReload(seq![verb, id])),
        None => (a, Effect::Nothing),
    }
}

/// Asks whether to delete the selected container.
pub open spec fn delete_view(a: AppView) -> AppView {
    match selected_container_of(a) {
        Some(c) => AppView {
            confirm_message: "Delete '"@ + c.name@ + "'?"@,
            confirm_action: Some(Confirm::Delete(c.id@)),
            mode: AppMode::ConfirmDelete,
            ..a
        },
        None => a,
    }
}

/// Starts typing a command to run in the selected container.
pub open spec fn exec_prompt_view(a: AppView) -> AppView {
    match selected_container_of(a) {
        Some(c) => AppView {
            selected_container: Some(c.id@),
            exec_cmd: Seq::empty(),
            mode: AppMode::ExecCommand,
            status: "Exec command:"@,
            ..a
        },
        None => a,
    }
}

/// Runs the typed command in the container picked earlier, when there is
/// one and something was typed.
pub open spec fn exec_step(a: AppView) -> Effect {
    match a.selected_container {
        Some(id) => if a.exec_cmd.len() > 0 {
            Effect::Exec(seq!["exec"@, id, a.exec_cmd])
        } else {
            Effect::Nothing
        },
        None => Effect::Nothing,
    }
}

/// The log after a command ran: the command after `$ `, then the lines it
/// printed, when it could be started.
pub open spec fn exec_log(a: AppView, output: Option<Seq<char>>) -> Seq<Seq<char>> {
    match output {
        Some(s) => a.logs.push("$ "@ + a.exec_cmd) + text_lines(s),
        None => a.logs,
    }
}

/// Back from running a command: the log grown, the command cleared, the
/// logs tab shown.
pub open spec fn exec_done_view(a: AppView, output: Option<Seq<char>>) -> AppView {
    AppView {
        logs: exec_log(a, output),
        exec_cmd: Seq::empty(),
        mode: AppMode::Normal,
        active_tab: ActiveTab::Logs,
        ..a
    }
}

/// Follows the logs of the selected container.
pub open spec fn watch_step(a: AppView) -> (AppView, Effect) {
    match selected_container_of(a) {
        Some(c) => (
            AppView {
                selected_container: Some(c.id@),
                mode: AppMode::WatchingLogs,
                status: "Watching logs: "@ + c.id@,
                ..a
            },
            Effect::RunAndReload(seq!["logs"@, c.id@]),
        ),
        None => (a, Effect::Nothing),
    }
}

/// The manifest written for an extension installed from the dashboard.
pub open spec fn extension_manifest(e: MarketplaceExt) -> Seq<char> {
    "{\"extension\":{\"id\":\""@ + e.id@ + "\",\"name\":\""@ + e.name@ + "\",\"version\":\""@
        + e.version@ + "\",\"api_version\":\"1.0.0\",\"author\":\""@ + e.author@
        + "\",\"description\":\""@ + e.description@
        + "\",\"capabilities\":[\"ContainerLifecycle\"]}}"@
}

/// Installs the selected extension, unless it is built in or installed.
pub open spec fn install_step(a: AppView) -> (AppView, Effect) {
    match selected_extension_of(a) {
        Some(e) => if e.built_in {
            (AppView { status: "Built-in: "@ + e.name@, ..a }, Effect::Nothing)
        } else if e.installed {
            (AppView { status: "Already installed: "@ + e.name@, ..a }, Effect::Nothing)
        } else {
            (a, Effect::Install(e.id@, e.name@, extension_manifest(e)))
        },
        None => (a, Effect::Nothing),
    }
}

/// Turns the selected extension on or off (`verb` is `enable` or
/// `disable`), when it is installed.
pub open spec fn toggle_extension_step(a: AppView, verb: Seq<char>, done: Seq<char>) -> (
    AppView,
    Effect,
) {
    match selected_extension_of(a) {
        Some(e) => if !e.installed {
            (AppView { status: "Not installed: "@ + e.name@, ..a }, Effect::Nothing)
        } else {
            (
                AppView { status: done + e.name@, ..a },
                Effect::RunAndReload(seq!["extension"@, verb, e.id@]),
            )
        },
        None => (a, Effect::Nothing),
    }
}

/// Asks whether to uninstall the selected extension, when it can be.
pub open spec fn uninstall_view(a: AppView) -> AppView {
    match selected_extension_of(a) {
        Some(e) => if e.built_in {
            AppView { status: "Cannot uninstall built-in"@, ..a }
        } else if !e.installed {
            AppView { status: "Not installed: "@ + e.name@, ..a }
        } else {
            AppView {
                confirm_message: "Uninstall "@ + e.name@ + "?"@,
                confirm_action: Some(Confirm::Uninstall(e.id@)),
                mode: AppMode::ConfirmDelete,
                ..a
            }
        },
        None => a,
    }
}

/// The arguments of `qcker run` for a container made in the dashboard:
/// its name, its image when one was typed, and the words of the command,
/// or `/bin/sh` when none was typed.
pub open spec fn new_container_args(name: Seq<char>, image: Seq<char>, cmd: Seq<char>) -> Seq<
    Seq<char>,
> {
    seq!["run"@, "--name"@, name] + (if image.len() > 0 {
        seq!["--image"@, image]
    } else {
        Seq::empty()
    }) + (if cmd.len() > 0 {
        ws_pieces(cmd)
    } else {
        seq!["/bin/sh"@]
    })
}

/// Creates the container typed in, which needs a name.
pub open spec fn new_container_step(a: AppView) -> (AppView, Effect) {
    if a.new_name.len() == 0 {
        (AppView { status: "Name required!"@, ..a }, Effect::Nothing)
    } else {
        (
            AppView { mode: AppMode::Normal, ..a },
            Effect::Create(new_container_args(a.new_name, a.new_image, a.new_cmd)),
        )
    }
}

/// Pulls the image typed in, when something was typed. The status line
/// names the input after it has been cleared.
pub open spec fn pull_step(a: AppView) -> (AppView, Effect) {
    if a.pull_input.len() > 0 {
        (
            AppView {
                pull_input: Seq::empty(),
                mode: AppMode::Normal,
                status: "Pulled: "@,
                ..a
            },
            Effect::RunAndReload(seq!["pull"@, a.pull_input]),
        )
    } else {
        (a, Effect::Nothing)
    }
}

/// Carries out the pending question's operation, then back to the normal
/// mode with no question pending.
pub open spec fn confirm_step(a: AppView) -> (AppView, Effect) {
    let b = AppView { mode: AppMode::Normal, confirm_action: None, ..a };
    match a.confirm_action {
        Some(Confirm::Delete(id)) => (
            AppView { status: "Deleted: "@ + id, ..b },
            Effect::RunAndReload(seq!["delete"@, "--force"@, id]),
        ),
        Some(Confirm::Uninstall(id)) => (AppView { status: "Uninstalled"@, ..b }, Effect::Uninstall(id)),
        None => (b, Effect::Nothing),
    }
}

impl App {
    /// Takes freshly read lists and shows the time of the reading.
    pub fn refreshed(&mut self, listing: Listing, clock: &str)
        ensures
            final(self)@ == (AppView {
                status: tab_title(old(self).active_tab) + " ("@ + clock@ + ")"@,
                ..with_listing(old(self)@, listing)
            }),
    {
        let ghost l = listing;
        self.containers = listing.containers;
        self.images = listing.images;
        self.networks = listing.networks;
        self.volumes = listing.volumes;
        self.extensions = listing.extensions;
        let mut msg = owned(self.tab_label());
        push_str(&mut msg, " (");
        push_str(&mut msg, clock);
        push_str(&mut msg, ")");
        self.status_message = msg;
        assert(self@ =~= (AppView {
            status: tab_title(old(self).active_tab) + " ("@ + clock@ + ")"@,
            ..with_listing(old(self)@, l)
        }));
    }

    /// Takes freshly read lists, keeping the status line.
    pub fn reloaded(&mut self, listing: Listing)
        ensures
            final(self)@ == with_listing(old(self)@, listing),
    {
        self.containers = listing.containers;
        self.images = listing.images;
        self.networks = listing.networks;
        self.volumes = listing.volumes;
        self.extensions = listing.extensions;
    }

    /// Takes freshly read extensions.
    pub fn set_extensions(&mut self, extensions: Vec<MarketplaceExt>)
        ensures
            final(self)@ == (AppView { extensions: extensions@, ..old(self)@ }),
    {
        self.extensions = extensions;
    }

    fn run_on_picked(&mut self, verb: &str, done: &str) -> (r: Action)
        ensures
            (final(self)@, r@) == run_on_picked(old(self)@, verb@, done@),
    {
        let id = match &self.selected_container {
            Some(id) => id.clone(),
            None => return Action::Nothing,
        };
        let mut msg = owned(done);
        push_str(&mut msg, id.as_str());
        self.status_message = msg;
        let mut args: Vec<String> = Vec::new();
        push_owned(&mut args, verb);
        push_string(&mut args, id);
        assert(views(args@) =~= seq![verb@, old(self)@.selected_container->0]);
        Action::RunAndReload(args)
    }

    /// Starts the container picked earlier.
    pub fn start_container(&mut self) -> (r: Action)
        ensures
            (final(self)@, r@) == run_on_picked(old(self)@, "start"@, "Started: "@),
    {
        self.run_on_picked("start", "Started: ")
    }

    /// Stops the container picked earlier (with `qcker kill`).
    pub fn stop_container(&mut self) -> (r: Action)
        ensures
            (final(self)@, r@) == run_on_picked(old(self)@, "kill"@, "Stopped: "@),
    {
        self.run_on_picked("kill", "Stopped: ")
    }

    /// Asks whether to delete the selected container.
    pub fn delete_container(&mut self)
        ensures
            final(self)@ == delete_view(old(self)@),
    {
        let (id, name) = match self.get_selected_container() {
            Some(c) => (c.id.clone(), c.name.clone()),
            None => return ,
        };
        let mut msg = owned("Delete '");
        push_str(&mut msg, name.as_str());
        push_str(&mut msg, "'?");
        self.confirm_message = msg;
        self.confirm_action = Some(ConfirmAction::DeleteContainer(id));
        self.mode = AppMode::ConfirmDelete;
    }

    /// Asks whether to delete the selected container (the same as
    /// [`App::delete_container`]).
    pub fn confirm_delete(&mut self)
        ensures
            final(self)@ == delete_view(old(self)@),
    {
        self.delete_container()
    }

    /// Starts typing a command to run in the selected container.
    pub fn exec_in_container(&mut self)
        ensures
            final(self)@ == exec_prompt_view(old(self)@),
    {
        let id = match self.get_selected_container() {
            Some(c) => c.id.clone(),
            None => return ,
        };
        self.selected_container = Some(id);
        self.exec_cmd = String::new();
        self.mode = AppMode::ExecCommand;
        self.status_message = owned("Exec command:");
    }

    /// Runs the typed command in the container picked earlier.
    pub fn execute_exec(&self) -> (r: Action)
        ensures
            r@ == exec_step(self@),
    {
        let id = match &self.selected_container {
            Some(id) => id.clone(),
            None => return Action::Nothing,
        };
        if self.exec_cmd.as_str().is_empty() {
            return Action::Nothing;
        }
        let mut args: Vec<String> = Vec::new();
        push_owned(&mut args, "exec");
        push_string(&mut args, id);
        push_string(&mut args, self.exec_cmd.clone());
        assert(views(args@) =~= seq!["exec"@, self@.selected_container->0, self@.exec_cmd]);
        Action::Exec(args)
    }

    /// Back from running a command with what it printed.
    pub fn exec_done(&mut self, output: Option<String>) -> (r: Action)
        ensures
            final(self)@ == exec_done_view(old(self)@, opt_text(output)),
            r is Refresh,
    {
        if let Some(s) = output {
            let mut line = owned("$ ");
            push_str(&mut line, self.exec_cmd.as_str());
            push_string(&mut self.logs, line);
            let cs = str_chars(s.as_str());
            let lines = split_lines(&cs);
            let ghost start = views(self.logs@);
            let ghost before = self@;
            assert(start == old(self)@.logs.push("$ "@ + old(self)@.exec_cmd));
            let mut i: usize = 0;
            while i < lines.len()
                invariant
                    i <= lines.len(),
                    self@ == (AppView { logs: views(self.logs@), ..before }),
                    lines.deep_view() == text_lines(s@),
                    views(self.logs@) == start + lines.deep_view().take(i as int),
                decreases lines.len() - i,
            {
                proof { assert(lines@[i as int].deep_view() =~= lines@[i as int]@); }
                push_string(&mut self.logs, string_of(&lines[i]));
                i += 1;
                assert(views(self.logs@) =~= start + lines.deep_view().take(i as int));
            }
            assert(lines.deep_view().take(lines.len() as int) =~= lines.deep_view());
            assert(views(self.logs@) =~= exec_log(old(self)@, opt_text(Some(s))));
        }
        self.exec_cmd = String::new();
        self.mode = AppMode::Normal;
        self.active_tab = ActiveTab::Logs;
        Action::Refresh
    }

    /// Follows the logs of the selected container.
    pub fn watch_logs(&mut self) -> (r: Action)
        ensures
            (final(self)@, r@) == watch_step(old(self)@),
    {
        let id = match self.get_selected_container() {
            Some(c) => c.id.clone(),
            None => return Action::Nothing,
        };
        self.selected_container = Some(id.clone());
        self.mode = AppMode::WatchingLogs;
        let mut msg = owned("Watching logs: ");
        push_str(&mut msg, id.as_str());
        self.status_message = msg;
        let mut args: Vec<String> = Vec::new();
        push_owned(&mut args, "logs");
        push_string(&mut args, id);
        assert(views(args@) =~= seq!["logs"@, selected_container_of(old(self)@)->0.id@]);
        Action::RunAndReload(args)
    }
}

impl App {
    fn selected_extension(&self) -> (r: Option<&MarketplaceExt>)
        ensures
            match r {
                Some(e) => selected_extension_of(self@) == Some(*e),
                None => selected_extension_of(self@) is None,
            },
    {
        if self.selected_index < self.extensions.len() {
            Some(&self.extensions[self.selected_index])
        } else {
            None
        }
    }

    /// Installs the selected extension.
    pub fn install_extension(&mut self) -> (r: Action)
        ensures
            (final(self)@, r@) == install_step(old(self)@),
    {
        let (id, name, version, author, description, built_in, installed) = match self.selected_extension() {
            Some(e) => (
                e.id.clone(),
                e.name.clone(),
                e.version.clone(),
                e.author.clone(),
                e.description.clone(),
                e.built_in,
                e.installed,
            ),
            None => return Action::Nothing,
        };
        if built_in {
            let mut msg = owned("Built-in: ");
            push_str(&mut msg, name.as_str());
            self.status_message = msg;
            return Action::Nothing;
        }
        if installed {
            let mut msg = owned("Already installed: ");
            push_str(&mut msg, name.as_str());
            self.status_message = msg;
            return Action::Nothing;
        }
        let mut m = owned("{\"extension\":{\"id\":\"");
        push_str(&mut m, id.as_str());
        push_str(&mut m, "\",\"name\":\"");
        push_str(&mut m, name.as_str());
        push_str(&mut m, "\",\"version\":\"");
        push_str(&mut m, version.as_str());
        push_str(&mut m, "\",\"api_version\":\"1.0.0\",\"author\":\"");
        push_str(&mut m, author.as_str());
        push_str(&mut m, "\",\"description\":\"");
        push_str(&mut m, description.as_str());
        push_str(&mut m, "\",\"capabilities\":[\"ContainerLifecycle\"]}}");
        Action::Install { id, name, manifest: m }
    }

    /// Back from writing an extension's manifest.
    pub fn installed(&mut self, name: &str, written: bool) -> (r: Action)
        ensures
            written ==> final(self)@ == (AppView { status: "Installed: "@ + name@, ..old(self)@ })
                && r is ReloadExtensions,
            !written ==> final(self)@ == (AppView { status: "Install failed"@, ..old(self)@ })
                && r is Nothing,
    {
        if written {
            let mut msg = owned("Installed: ");
            push_str(&mut msg, name);
            self.status_message = msg;
            Action::ReloadExtensions
        } else {
            self.status_message = owned("Install failed");
            Action::Nothing
        }
    }

    fn toggle_extension(&mut self, verb: &str, done: &str) -> (r: Action)
        ensures
            (final(self)@, r@) == toggle_extension_step(old(self)@, verb@, done@),
    {
        let (id, name, installed) = match self.selected_extension() {
            Some(e) => (e.id.clone(), e.name.clone(), e.installed),
            None => return Action::Nothing,
        };
        if !installed {
            let mut msg = owned("Not installed: ");
            push_str(&mut msg, name.as_str());
            self.status_message = msg;
            return Action::Nothing;
        }
        let mut msg = owned(done);
        push_str(&mut msg, name.as_str());
        self.status_message = msg;
        let mut args: Vec<String> = Vec::new();
        push_owned(&mut args, "extension");
        push_owned(&mut args, verb);
        push_string(&mut args, id);
        assert(views(args@) =~= seq!["extension"@, verb@, selected_extension_of(old(self)@)->0.id@]);
        Action::RunAndReload(args)
    }

    /// Turns the selected extension on.
    pub fn enable_extension(&mut self) -> (r: Action)
        ensures
            (final(self)@, r@) == toggle_extension_step(old(self)@, "enable"@, "Enabled: "@),
    {
        self.toggle_extension("enable", "Enabled: ")
    }

    /// Turns the selected extension off.
    pub fn disable_extension(&mut self) -> (r: Action)
        ensures
            (final(self)@, r@) == toggle_extension_step(old(self)@, "disable"@, "Disabled: "@),
    {
        self.toggle_extension("disable", "Disabled: ")
    }

    /// Asks whether to uninstall the selected extension.
    pub fn uninstall_extension(&mut self)
        ensures
            final(self)@ == uninstall_view(old(self)@),
    {
        let (id, name, built_in, installed) = match self.selected_extension() {
            Some(e) => (e.id.clone(), e.name.clone(), e.built_in, e.installed),
            None => return ,
        };
        if built_in {
            self.status_message = owned("Cannot uninstall built-in");
            return ;
        }
        if !installed {
            let mut msg = owned("Not installed: ");
            push_str(&mut msg, name.as_str());
            self.status_message = msg;
            return ;
        }
        let mut msg = owned("Uninstall ");
        push_str(&mut msg, name.as_str());
        push_str(&mut msg, "?");
        self.confirm_message = msg;
        self.confirm_action = Some(ConfirmAction::UninstallExtension(id));
        self.mode = AppMode::ConfirmDelete;
    }

    /// Starts typing a new container: its name, image and command.
    pub fn open_new_container(&mut self)
        ensures
            final(self)@ == open_new_view(old(self)@),
    {
        self.new_name = String::new();
        self.new_image = String::new();
        self.new_cmd = String::new();
        self.mode = AppMode::NewContainer;
        self.status_message = owned("Container name:");
    }

    /// Creates the container typed in.
    pub fn execute_new_container(&mut self) -> (r: Action)
        ensures
            (final(self)@, r@) == new_container_step(old(self)@),
    {
        if self.new_name.as_str().is_empty() {
            self.status_message = owned("Name required!");
            return Action::Nothing;
        }
        let mut args: Vec<String> = Vec::new();
        push_owned(&mut args, "run");
        push_owned(&mut args, "--name");
        push_string(&mut args, self.new_name.clone());
        if !self.new_image.as_str().is_empty() {
            push_owned(&mut args, "--image");
            push_string(&mut args, self.new_image.clone());
        }
        let ghost head = views(args@);
        if !self.new_cmd.as_str().is_empty() {
            let cs = str_chars(self.new_cmd.as_str());
            let words = split_ws(&cs);
            let mut i: usize = 0;
            while i < words.len()
                invariant
                    i <= words.len(),
                    words.deep_view() == ws_pieces(self.new_cmd@),
                    views(args@) == head + words.deep_view().take(i as int),
                decreases words.len() - i,
            {
                proof { assert(words@[i as int].deep_view() =~= words@[i as int]@); }
                push_string(&mut args, string_of(&words[i]));
                i += 1;
                assert(views(args@) =~= head + words.deep_view().take(i as int));
            }
            assert(words.deep_view().take(words.len() as int) =~= words.deep_view());
        } else {
            push_owned(&mut args, "/bin/sh");
        }
        assert(views(args@) =~= new_container_args(self.new_name@, self.new_image@, self.new_cmd@));
        self.mode = AppMode::Normal;
        Action::Create(args)
    }

    /// Back from creating a container, with the error when it could not be
    /// run.
    pub fn created(&mut self, outcome: Result<(), String>) -> (r: Action)
        ensures
            outcome is Ok ==> final(self)@ == (AppView {
                status: "Created: "@ + old(self).new_name@,
                ..old(self)@
            }) && r is Reload,
            outcome matches Err(e) ==> final(self)@ == (AppView {
                status: "Failed: "@ + e@,
                ..old(self)@
            }) && r is Nothing,
    {
        match outcome {
            Ok(()) => {
                let mut msg = owned("Created: ");
                push_str(&mut msg, self.new_name.as_str());
                self.status_message = msg;
                Action::Reload
            },
            Err(e) => {
                let mut msg = owned("Failed: ");
                push_str(&mut msg, e.as_str());
                self.status_message = msg;
                Action::Nothing
            },
        }
    }

    /// Gives up typing a new container.
    pub fn exit_new_container(&mut self)
        ensures
            final(self)@ == cancelled_view(old(self)@),
    {
        self.mode = AppMode::Normal;
        self.status_message = owned("Cancelled");
    }

    /// Pulls the image typed in.
    pub fn pull_image(&mut self) -> (r: Action)
        ensures
            (final(self)@, r@) == pull_step(old(self)@),
    {
        if self.pull_input.as_str().is_empty() {
            return Action::Nothing;
        }
        let mut args: Vec<String> = Vec::new();
        push_owned(&mut args, "pull");
        push_string(&mut args, self.pull_input.clone());
        assert(views(args@) =~= seq!["pull"@, old(self)@.pull_input]);
        self.pull_input = String::new();
        self.mode = AppMode::Normal;
        let mut msg = owned("Pulled: ");
        push_str(&mut msg, self.pull_input.as_str());
        self.status_message = msg;
        Action::RunAndReload(args)
    }

    /// Answers no to the pending question.
    pub fn cancel_confirm(&mut self)
        ensures
            final(self)@ == (AppView { confirm_action: None, ..cancelled_view(old(self)@) }),
    {
        self.confirm_action = None;
        self.mode = AppMode::Normal;
        self.status_message = owned("Cancelled");
    }

    /// Answers yes to the pending question.
    pub fn execute_confirm(&mut self) -> (r: Action)
        ensures
            (final(self)@, r@) == confirm_step(old(self)@),
    {
        let pending = self.confirm_action.take();
        self.mode = AppMode::Normal;
        self.confirm_action = None;
        match pending {
            Some(ConfirmAction::DeleteContainer(id)) => {
                let mut msg = owned("Deleted: ");
                push_str(&mut msg, id.as_str());
                self.status_message = msg;
                let mut args: Vec<String> = Vec::new();
                push_owned(&mut args, "delete");
                push_owned(&mut args, "--force");
                push_string(&mut args, id);
                assert(views(args@) =~= seq!["delete"@, "--force"@, id@]);
                Action::RunAndReload(args)
            },
            Some(ConfirmAction::UninstallExtension(id)) => {
                self.status_message = owned("Uninstalled");
                Action::Uninstall(id)
            },
            None => Action::Nothing,
        }
    }
}

impl App {
    /// How long a machine has been up: `XdYhZm`, `YhZm` or `Zm`.
    pub fn format_uptime(secs: u64) -> (r: String)
        ensures
            r@ == uptime_text(secs as nat),
    {
        let d = secs / 86400;
        let h = (secs % 86400) / 3600;
        let m = (secs % 3600) / 60;
        let mut r = String::new();
        if d > 0 {
            let t = u64_to_decimal(d);
            push_str(&mut r, t.as_str());
            push_str(&mut r, "d");
        }
        if d > 0 || h > 0 {
            let t = u64_to_decimal(h);
            push_str(&mut r, t.as_str());
            push_str(&mut r, "h");
        }
        let t = u64_to_decimal(m);
        push_str(&mut r, t.as_str());
        push_str(&mut r, "m");
        r
    }
}

} // verus!
