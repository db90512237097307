//! Relays wired to the ports of a board module. A relay does not talk to the board
//! itself: setting its state yields the frame to write, which the caller sends.
use crate::comboard::ModuleConfig;
use crate::text::{debug_list, decimal, usize_list_to_debug, usize_to_decimal};
use vstd::prelude::*;

verus! {

/// Number of ports of a relay module frame.
pub const FRAME_LEN: usize = 8;

/// The byte that leaves a port as it is.
pub const UNCHANGED: u8 = 255;

/// A frame that leaves every port as it is.
pub open spec fn blank_frame() -> Seq<u8> {
    Seq::new(8, |_i: int| 255u8)
}

/// `buf` with every index listed in `ports` set to `v`.
pub open spec fn fill_ports(buf: Seq<u8>, ports: Seq<usize>, v: u8) -> Seq<u8> {
    Seq::new(buf.len(), |i: int| if ports.contains(i as usize) { v } else { buf[i] })
}

/// Every index in `ports` addresses a port of a frame.
pub open spec fn ports_in_frame(ports: Seq<usize>) -> bool {
    forall|k: int| 0 <= k < ports.len() ==> ports[k] < 8
}

/// Builds a frame that leaves every port as it is.
pub fn blank_buffer() -> (r: Vec<u8>)
    ensures
        r@ == blank_frame(),
{
    let mut v: Vec<u8> = Vec::new();
    while v.len() < FRAME_LEN
        invariant
            v.len() <= 8,
            forall|k: int| 0 <= k < v.len() ==> v@[k] == 255u8,
        decreases 8 - v.len(),
    {
        v.push(UNCHANGED);
    }
    assert(v@ =~= blank_frame());
    v
}

/// Writes `value` at port `i` of a frame.
pub fn set_port_value(i: usize, x: &mut Vec<u8>, value: u8)
    requires
        i < old(x).len(),
    ensures
        final(x)@ == old(x)@.update(i as int, value),
{
    x.set(i, value);
}

/// One relay: port `action_port` of the module plugged at `port`.
pub struct PhysicalRelay {
    pub port: i32,
    pub action_port: usize,
}

impl PhysicalRelay {
    /// The frame that sets this relay to `state` and leaves the other ports as they are.
    pub fn set_state(&self, state: u8) -> (r: ModuleConfig)
        requires
            self.action_port < 8,
        ensures
            r.port == self.port,
            r.data@ == blank_frame().update(self.action_port as int, state),
    {
        let mut buffer = blank_buffer();
        set_port_value(self.action_port, &mut buffer, state);
        ModuleConfig { port: self.port, data: buffer }
    }

    /// The key under which the relay's running task is kept: its port index in decimal.
    pub fn id(&self) -> (r: String)
        ensures
            r@ == decimal(self.action_port as nat),
    {
        usize_to_decimal(self.action_port)
    }

    pub fn clone_me(&self) -> (r: PhysicalRelay)
        ensures
            r == *self,
    {
        PhysicalRelay { port: self.port, action_port: self.action_port }
    }
}

/// Either a single port or a list of ports.
pub struct ActionPortUnion {
    pub is_array: bool,
    pub port: usize,
    pub ports: Vec<usize>,
}

impl ActionPortUnion {
    pub fn new_port(port: usize) -> (r: ActionPortUnion)
        ensures
            !r.is_array,
            r.port == port,
            r.ports@.len() == 0,
    {
        ActionPortUnion { is_array: false, port: port, ports: Vec::new() }
    }

    pub fn new_ports(ports: Vec<usize>) -> (r: ActionPortUnion)
        ensures
            r.is_array,
            r.port == 0,
            r.ports@ == ports@,
    {
        ActionPortUnion { is_array: true, ports: ports, port: 0 }
    }

    /// The ports this union addresses.
    pub open spec fn targets(self) -> Seq<usize> {
        if self.is_array { self.ports@ } else { seq![self.port] }
    }

    pub open spec fn in_frame(self) -> bool {
        ports_in_frame(self.targets())
    }
}

/// Several ports of one module, set in a shared frame. With `auto_send` every state change
/// yields the frame at once and starts a blank one; otherwise the changes accumulate
/// until `execute`.
pub struct BatchPhysicalRelay {
    pub buffer: Vec<u8>,
    pub port: i32,
    pub auto_send: bool,
    pub action_port: ActionPortUnion,
}

/// A relay that a task or a group drives.
pub enum RelayHandle {
    Physical(PhysicalRelay),
    Batch(BatchPhysicalRelay),
}

impl BatchPhysicalRelay {
    /// The frame is eight bytes long and the targeted ports lie in it.
    pub open spec fn well_formed(&self) -> bool {
        &&& self.buffer@.len() == 8
        &&& self.action_port.in_frame()
    }

    /// Sets the targeted ports to `state` in the frame; with `auto_send` the frame is
    /// returned to be sent and the relay starts over from a blank frame.
    pub fn set_state(&mut self, state: u8) -> (r: Option<ModuleConfig>)
        requires
            old(self).well_formed(),
        ensures
            final(self).well_formed(),
            final(self).port == old(self).port,
            final(self).auto_send == old(self).auto_send,
            final(self).action_port == old(self).action_port,
            ({
                let filled = fill_ports(old(self).buffer@, old(self).action_port.targets(), state);
                if old(self).auto_send {
                    &&& r is Some
                    &&& r->0.port == old(self).port
                    &&& r->0.data@ == filled
                    &&& final(self).buffer@ == blank_frame()
                } else {
                    &&& r is None
                    &&& final(self).buffer@ == filled
                }
            }),
    {
        let ghost targets = self.action_port.targets();
        let ghost buf0 = self.buffer@;
        if self.action_port.is_array {
            let mut k: usize = 0;
            while k < self.action_port.ports.len()
                invariant
                    k <= self.action_port.ports.len(),
                    self.port == old(self).port,
                    self.auto_send == old(self).auto_send,
                    self.action_port == old(self).action_port,
                    self.action_port.is_array,
                    targets == self.action_port.ports@,
                    ports_in_frame(targets),
                    self.buffer@.len() == 8,
                    buf0.len() == 8,
                    forall|i: int| 0 <= i < 8 ==> self.buffer@[i] == (if targets.subrange(0, k as int).contains(i as usize) { state } else { buf0[i] }),
                decreases self.action_port.ports.len() - k,
            {
                let x = self.action_port.ports[k];
                self.buffer.set(x, state);
                proof {
                    let pre = targets.subrange(0, k as int);
                    let nxt = targets.subrange(0, k + 1);
                    assert(nxt =~= pre.push(x));
                    assert forall|i: int| 0 <= i < 8 implies self.buffer@[i] == (if nxt.contains(i as usize) { state } else { buf0[i] }) by {
                        if pre.contains(i as usize) {
                            let j = choose|j: int| 0 <= j < pre.len() && pre[j] == i as usize;
                            assert(nxt[j] == i as usize);
                        }
                        if i == x as int {
                            assert(nxt[k as int] == x);
                        } else if nxt.contains(i as usize) {
                            let j = choose|j: int| 0 <= j < nxt.len() && nxt[j] == i as usize;
                            assert(j != k);
                            assert(pre[j] == i as usize);
                        }
                    }
                }
                k = k + 1;
            }
            proof {
                assert(targets.subrange(0, targets.len() as int) =~= targets);
                assert(self.buffer@ =~= fill_ports(buf0, targets, state));
            }
        } else {
            let p = self.action_port.port;
            proof {
                assert(targets[0] == p);
            }
            self.buffer.set(p, state);
            proof {
                assert forall|i: int| 0 <= i < 8 implies self.buffer@[i] == fill_ports(buf0, targets, state)[i] by {
                    if i == p as int {
                        assert(targets[0] == p);
                    } else {
                        if targets.contains(i as usize) {
                            let j = choose|j: int| 0 <= j < targets.len() && targets[j] == i as usize;
                            assert(j == 0);
                        }
                    }
                }
                assert(self.buffer@ =~= fill_ports(buf0, targets, state));
            }
        }
        if self.auto_send {
            let msg = ModuleConfig { port: self.port, data: self.buffer.clone() };
            self.buffer = blank_buffer();
            return Some(msg);
        }
        None
    }

    /// The frame gathered so far, to be sent to the module.
    pub fn execute(&self) -> (r: ModuleConfig)
        ensures
            r.port == self.port,
            r.data@ == self.buffer@,
    {
        ModuleConfig { port: self.port, data: self.buffer.clone() }
    }

    /// The key of the relay: the list of its ports as `{:?}` writes it, or its single port
    /// in decimal.
    pub fn id(&self) -> (r: String)
        ensures
            self.action_port.is_array ==> r@ == debug_list(self.action_port.ports@),
            !self.action_port.is_array ==> r@ == decimal(self.action_port.port as nat),
    {
        if self.action_port.is_array {
            usize_list_to_debug(&self.action_port.ports)
        } else {
            usize_to_decimal(self.action_port.port)
        }
    }

    /// The relay a background task drives in place of this one: a self-sending batch over
    /// the same ports, or the single port as a plain relay.
    pub fn clone_me(&self) -> (r: RelayHandle)
        ensures
            self.action_port.is_array ==> (r matches RelayHandle::Batch(b) && b.port == self.port && b.auto_send
                && b.buffer@ == blank_frame() && b.action_port.is_array && b.action_port.port == 0
                && b.action_port.ports@ == self.action_port.ports@),
            !self.action_port.is_array ==> r == RelayHandle::Physical(
                PhysicalRelay { port: self.port, action_port: self.action_port.port },
            ),
    {
        if self.action_port.is_array {
            RelayHandle::Batch(BatchPhysicalRelay {
                port: self.port,
                auto_send: true,
                buffer: blank_buffer(),
                action_port: ActionPortUnion { ports: self.action_port.ports.clone(), port: 0, is_array: true },
            })
        } else {
            RelayHandle::Physical(PhysicalRelay { port: self.port, action_port: self.action_port.port })
        }
    }
}

impl RelayHandle {
    /// A single port inside the frame, or a self-sending batch over ports inside the frame
    /// that holds no pending change.
    pub open spec fn well_formed(&self) -> bool {
        match self {
            RelayHandle::Physical(p) => p.action_port < 8,
            RelayHandle::Batch(b) => b.well_formed() && b.auto_send && b.buffer@ == blank_frame(),
        }
    }

    /// The frame that setting the relay to `state` sends.
    pub open spec fn frame_for(self, state: u8) -> (i32, Seq<u8>) {
        match self {
            RelayHandle::Physical(p) => (p.port, blank_frame().update(p.action_port as int, state)),
            RelayHandle::Batch(b) => (b.port, fill_ports(b.buffer@, b.action_port.targets(), state)),
        }
    }

    /// A relay that sends the same frames as this one.
    pub fn clone_me(&self) -> (r: RelayHandle)
        requires
            self.well_formed(),
        ensures
            r.well_formed(),
            forall|state: u8| #[trigger] r.frame_for(state) == self.frame_for(state),
    {
        match self {
            RelayHandle::Physical(p) => RelayHandle::Physical(p.clone_me()),
            RelayHandle::Batch(b) => {
                let r = b.clone_me();
                proof {
                    if !b.action_port.is_array {
                        let p = b.action_port.port;
                        let t = b.action_port.targets();
                        assert(t[0] == p);
                        assert(p < 8);
                        assert forall|state: u8| #[trigger] r.frame_for(state) == self.frame_for(state) by {
                            assert forall|i: int| 0 <= i < 8 implies #[trigger] t.contains(i as usize) == (i == p as int) by {
                                if t.contains(i as usize) {
                                    let j = choose|j: int| 0 <= j < t.len() && t[j] == i as usize;
                                    assert(j == 0);
                                }
                                if i == p as int {
                                    assert(t[0] == i as usize);
                                }
                            }
                            assert(blank_frame().update(p as int, state) =~= fill_ports(blank_frame(), t, state));
                        }
                    }
                }
                r
            },
        }
    }

    /// Sets the relay to `state`; the frame to send is returned.
    pub fn set_state(&mut self, state: u8) -> (r: ModuleConfig)
        requires
            old(self).well_formed(),
        ensures
            final(self).well_formed(),
            (r.port, r.data@) == old(self).frame_for(state),
            forall|s: u8| #[trigger] final(self).frame_for(s) == old(self).frame_for(s),
            match *old(self) {
                RelayHandle::Physical(p) => *final(self) == *old(self),
                RelayHandle::Batch(b) => true,
            },
    {
        match self {
            RelayHandle::Physical(p) => p.set_state(state),
            RelayHandle::Batch(b) => {
                let r = b.set_state(state);
                r.unwrap()
            }
        }
    }
}

} // verus!
