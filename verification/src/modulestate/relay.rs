pub mod alarm;
pub mod configure;
pub mod cycle;
pub mod duration;
pub mod physical_relay;
pub mod virtual_relay;

use crate::comboard::ModuleConfig;
use crate::protos::module::RelayOutletData;
use physical_relay::{BatchPhysicalRelay, PhysicalRelay, RelayHandle};
use vstd::prelude::*;

verus! {

/// The state a relay reports for a raw port byte: 1 is on, anything else is off.
pub open spec fn outlet_state(value: u8) -> bool {
    value == 1
}

/// What a port byte reports, given what the port reported before: the new state, stamped
/// with `now` when it differs from the previous one and with the previous stamp otherwise.
pub open spec fn outlet_data(value: u8, previous: RelayOutletData, now: i32) -> RelayOutletData {
    let state = outlet_state(value);
    RelayOutletData {
        state,
        timestamp: if state != previous.state { now } else { previous.timestamp },
    }
}

/// Reads the state of one relay port from its raw byte; `now` is the current time in
/// seconds, kept as the change time when the state differs from `previous_value`.
pub fn get_outlet_data(value: u8, previous_value: &RelayOutletData, now: i32) -> (r: Option<RelayOutletData>)
    ensures
        r == Some(outlet_data(value, *previous_value, now)),
{
    let mut data = RelayOutletData::new();
    if value == 0 {
        data.state = false;
    } else if value == 1 {
        data.state = true;
    }
    if data.state != previous_value.state {
        data.timestamp = now;
    } else {
        data.timestamp = previous_value.timestamp;
    }
    Some(data)
}

/// The frames a list of configuration frames carries: port and bytes.
pub open spec fn frames_view(s: Seq<ModuleConfig>) -> Seq<(i32, Seq<u8>)> {
    s.map_values(|m: ModuleConfig| (m.port, m.data@))
}

/// Something that can be switched to a state: setting it yields the frames to send.
pub trait State {
    /// The relay can take a state.
    spec fn ready(&self) -> bool;

    /// The frames that setting the relay to `state` sends.
    spec fn frames_for(&self, state: u8) -> Seq<(i32, Seq<u8>)>;

    fn set_state(&mut self, state: u8) -> (r: Vec<ModuleConfig>)
        requires
            old(self).ready(),
        ensures
            final(self).ready(),
            frames_view(r@) == old(self).frames_for(state);
}

/// A relay that a job can drive, known by a key.
pub trait Relay: State {
    /// The key under which the relay's job is kept.
    spec fn key(&self) -> Seq<char>;

    fn id(&self) -> (r: String)
        ensures
            r@ == self.key();
}

/// A relay that gathers several changes before sending them.
pub trait BatchRelay: Relay {
    /// The frame gathered so far.
    spec fn pending(&self) -> (i32, Seq<u8>);

    fn execute(&self) -> (r: ModuleConfig)
        ensures
            (r.port, r.data@) == self.pending();
}

impl State for PhysicalRelay {
    open spec fn ready(&self) -> bool {
        self.action_port < 8
    }

    open spec fn frames_for(&self, state: u8) -> Seq<(i32, Seq<u8>)> {
        seq![(self.port, physical_relay::blank_frame().update(self.action_port as int, state))]
    }

    fn set_state(&mut self, state: u8) -> Vec<ModuleConfig> {
        let f = PhysicalRelay::set_state(self, state);
        let r = vec![f];
        assert(frames_view(r@) =~= self.frames_for(state));
        r
    }
}

impl Relay for PhysicalRelay {
    open spec fn key(&self) -> Seq<char> {
        crate::text::decimal(self.action_port as nat)
    }

    fn id(&self) -> String {
        PhysicalRelay::id(self)
    }
}

impl State for RelayHandle {
    open spec fn ready(&self) -> bool {
        self.well_formed()
    }

    open spec fn frames_for(&self, state: u8) -> Seq<(i32, Seq<u8>)> {
        seq![self.frame_for(state)]
    }

    fn set_state(&mut self, state: u8) -> Vec<ModuleConfig> {
        let ghost before = *self;
        let f = RelayHandle::set_state(self, state);
        let r = vec![f];
        assert(frames_view(r@) =~= before.frames_for(state));
        r
    }
}

impl State for BatchPhysicalRelay {
    open spec fn ready(&self) -> bool {
        self.well_formed()
    }

    /// A self-sending batch sends its frame at once; another sends nothing until it runs.
    open spec fn frames_for(&self, state: u8) -> Seq<(i32, Seq<u8>)> {
        if self.auto_send {
            seq![(self.port, physical_relay::fill_ports(self.buffer@, self.action_port.targets(), state))]
        } else {
            Seq::empty()
        }
    }

    fn set_state(&mut self, state: u8) -> Vec<ModuleConfig> {
        let ghost before = *self;
        let r = match BatchPhysicalRelay::set_state(self, state) {
            Some(f) => vec![f],
            None => Vec::new(),
        };
        assert(frames_view(r@) =~= before.frames_for(state));
        r
    }
}

impl Relay for BatchPhysicalRelay {
    open spec fn key(&self) -> Seq<char> {
        if self.action_port.is_array {
            crate::text::debug_list(self.action_port.ports@)
        } else {
            crate::text::decimal(self.action_port.port as nat)
        }
    }

    fn id(&self) -> String {
        BatchPhysicalRelay::id(self)
    }
}

impl BatchRelay for BatchPhysicalRelay {
    open spec fn pending(&self) -> (i32, Seq<u8>) {
        (self.port, self.buffer@)
    }

    fn execute(&self) -> ModuleConfig {
        BatchPhysicalRelay::execute(self)
    }
}

} // verus!
