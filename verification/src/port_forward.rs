//! The table of host ports forwarded into the micro-VM, keyed by host port.

use vstd::prelude::*;
use std::collections::HashMap;
use crate::error::QckerError;
use crate::text::owned;
use crate::types::{PortForwardSpec, Protocol};
use vstd::std_specs::iter::IteratorSpec;

verus! {

broadcast use vstd::std_specs::hash::group_hash_axioms;

/// The guest's address on the micro-VM's user-mode network, 10.0.2.15.
pub open spec fn guest_address() -> Seq<u8> {
    seq![10u8, 0u8, 2u8, 15u8]
}

/// The name under which a protocol is forwarded.
pub open spec fn protocol_name(p: Protocol) -> Seq<char> {
    match p {
        Protocol::Tcp => "tcp"@,
        Protocol::Udp => "udp"@,
    }
}

/// The table after a container's ports are forwarded to the guest, each
/// in turn, a later one for the same host port replacing an earlier one.
pub open spec fn with_container_ports(m: Map<u16, ForwardView>, ports: Seq<PortForwardSpec>) -> Map<
    u16,
    ForwardView,
>
    decreases ports.len(),
{
    if ports.len() == 0 {
        m
    } else {
        let p = ports.last();
        with_container_ports(m, ports.drop_last()).insert(
            p.host_port,
            ForwardView {
                guest_ip: guest_address(),
                guest_port: p.guest_port,
                protocol: protocol_name(p.protocol),
            },
        )
    }
}

/// One forwarded port.
#[derive(Debug, Clone)]
pub struct PortForward {
    pub host_port: u16,
    /// The guest's IPv4 address, most significant octet first.
    pub guest_ip: [u8; 4],
    pub guest_port: u16,
    pub protocol: String,
}

/// What a forward is, as plain values: guest address, guest port and
/// protocol name.
pub struct ForwardView {
    pub guest_ip: Seq<u8>,
    pub guest_port: u16,
    pub protocol: Seq<char>,
}

/// The view of one forward.
pub open spec fn forward_view(f: PortForward) -> ForwardView {
    ForwardView { guest_ip: f.guest_ip@, guest_port: f.guest_port, protocol: f.protocol@ }
}

/// The forwards in effect, at most one per host port.
pub struct PortForwarder {
    forwards: HashMap<u16, PortForward>,
}

impl PortForwarder {
    /// Each forward is filed under its own host port.
    pub closed spec fn wf(&self) -> bool {
        forall|k: u16| #[trigger] self.forwards@.contains_key(k) ==> self.forwards@[k].host_port == k
    }

    /// The forwards, by host port.
    pub closed spec fn view(&self) -> Map<u16, ForwardView> {
        self.forwards@.map_values(|f: PortForward| forward_view(f))
    }

    /// An empty table.
    pub fn new() -> (r: Self)
        ensures
            r.wf(),
            r.view() == Map::<u16, ForwardView>::empty(),
    {
        let r = PortForwarder { forwards: HashMap::new() };
        assert(r.view() =~= Map::<u16, ForwardView>::empty());
        r
    }

    /// Forwards `host_port` to `guest_port` at `guest_ip`, replacing any
    /// forward of that host port. Always succeeds.
    pub fn add_forward(&mut self, host_port: u16, guest_ip: [u8; 4], guest_port: u16, protocol: &str) -> (r:
        Result<(), QckerError>)
        requires
            old(self).wf(),
        ensures
            final(self).wf(),
            final(self).view() == old(self).view().insert(
                host_port,
                ForwardView { guest_ip: guest_ip@, guest_port, protocol: protocol@ },
            ),
            r is Ok,
    {
        let f = PortForward { host_port, guest_ip, guest_port, protocol: owned(protocol) };
        self.forwards.insert(host_port, f);
        assert(self.view() =~= old(self).view().insert(
            host_port,
            ForwardView { guest_ip: guest_ip@, guest_port, protocol: protocol@ },
        ));
        Ok(())
    }

    /// Stops forwarding `host_port`.
    pub fn remove_forward(&mut self, host_port: u16)
        requires
            old(self).wf(),
        ensures
            final(self).wf(),
            final(self).view() == old(self).view().remove(host_port),
    {
        self.forwards.remove(&host_port);
        assert(self.view() =~= old(self).view().remove(host_port));
    }

    /// Every forward as (host port, guest address, guest port, protocol),
    /// each once. The order is that in which the map yields its keys, which
    /// depends on hashing, so only the contents are stated.
    pub fn list_forwards(&self) -> (r: Vec<(u16, [u8; 4], u16, String)>)
        requires
            self.wf(),
        ensures
            r@.len() == self.view().dom().len(),
            forall|i: int| 0 <= i < r@.len() ==> #[trigger] self.view().contains_key(r@[i].0)
                && self.view()[r@[i].0] == (ForwardView {
                    guest_ip: r@[i].1@,
                    guest_port: r@[i].2,
                    protocol: r@[i].3@,
                }),
            forall|k: u16| #[trigger] self.view().contains_key(k) ==> exists|i: int|
                0 <= i < r@.len() && r@[i].0 == k,
    {
        let mut out: Vec<(u16, [u8; 4], u16, String)> = Vec::new();
        let ghost dom = self.forwards@.dom();
        let ghost ks = vstd::std_specs::hash::spec_keys_iter(&self.forwards).remaining().unref();
        for k in it: self.forwards.keys()
            invariant
                self.wf(),
                it.seq().unref() == ks,
                ks.to_set() == dom,
                ks.len() == dom.len(),
                dom == self.forwards@.dom(),
                out@.len() == it.index(),
                forall|j: int| 0 <= j < it.index() ==> #[trigger] out@[j].0 == ks[j],
                forall|j: int| 0 <= j < out@.len() ==> #[trigger] self.view().contains_key(out@[j].0)
                    && self.view()[out@[j].0] == (ForwardView {
                        guest_ip: out@[j].1@,
                        guest_port: out@[j].2,
                        protocol: out@[j].3@,
                    }),
        {
            let kk = *k;
            assert(it.seq().unref()[it.index() as int] == kk);
            assert(ks.to_set().contains(kk));
            assert(self.forwards@.contains_key(kk));
            let f = self.forwards.get(&kk).unwrap();
            assert(*f == self.forwards@[kk]);
            let entry = (kk, f.guest_ip, f.guest_port, f.protocol.clone());
            assert(self.view()[kk] == forward_view(*f));
            assert(self.view().contains_key(kk));
            let ghost old_out = out@;
            out.push(entry);
            assert(out@[out@.len() - 1] == entry);
            assert(forall|j: int| 0 <= j < old_out.len() ==> out@[j] == old_out[j]);
        }
        assert(self.view().dom() =~= dom);
        assert forall|k: u16| #[trigger] self.view().contains_key(k) implies exists|i: int|
            0 <= i < out@.len() && out@[i].0 == k by {
            assert(dom.contains(k));
            assert(ks.to_set().contains(k));
            let i = choose|i: int| 0 <= i < ks.len() && ks[i] == k;
            assert(out@[i].0 == k);
        }
        out
    }

    /// Forwards each of a new container's ports to the guest at
    /// [`guest_address`], in order. Always succeeds.
    pub fn forward_container_ports(&mut self, ports: &Vec<PortForwardSpec>) -> (r: Result<(), QckerError>)
        requires
            old(self).wf(),
        ensures
            final(self).wf(),
            final(self).view() == with_container_ports(old(self).view(), ports@),
            r is Ok,
    {
        let mut i: usize = 0;
        while i < ports.len()
            invariant
                i <= ports@.len(),
                self.wf(),
                self.view() == with_container_ports(old(self).view(), ports@.take(i as int)),
            decreases ports@.len() - i,
        {
            let p = &ports[i];
            let protocol = match p.protocol {
                Protocol::Tcp => "tcp",
                Protocol::Udp => "udp",
            };
            let r = self.add_forward(p.host_port, [10u8, 0u8, 2u8, 15u8], p.guest_port, protocol);
            match r {
                Ok(()) => {},
                Err(e) => {
                    return Err(e);
                },
            }
            proof {
                let t = ports@.take(i + 1);
                assert(t.drop_last() =~= ports@.take(i as int));
                assert(t.last() == ports@[i as int]);
                assert([10u8, 0u8, 2u8, 15u8]@ =~= guest_address());
            }
            i += 1;
        }
        assert(ports@.take(i as int) =~= ports@);
        Ok(())
    }

    /// Removes every forward.
    pub fn clear(&mut self)
        ensures
            final(self).wf(),
            final(self).view() == Map::<u16, ForwardView>::empty(),
    {
        self.forwards.clear();
        assert(self.view() =~= Map::<u16, ForwardView>::empty());
    }
}

/// A forward just added is in effect with what was given; adding a port
/// again replaces its forward rather than adding a second one; a removed
/// port is no longer forwarded; other ports are never touched.
pub proof fn law_forward_table(m: Map<u16, ForwardView>, port: u16, other: u16, v: ForwardView, w: ForwardView)
    requires
        port != other,
    ensures
        m.insert(port, v).contains_key(port) && m.insert(port, v)[port] == v,
        m.insert(port, v).insert(port, w) == m.insert(port, w),
        !m.insert(port, v).remove(port).contains_key(port),
        m.insert(port, v).contains_key(other) == m.contains_key(other),
        m.contains_key(other) ==> m.insert(port, v)[other] == m[other],
        m.remove(port).contains_key(other) == m.contains_key(other),
{
    assert(m.insert(port, v).insert(port, w) =~= m.insert(port, w));
}

} // verus!
