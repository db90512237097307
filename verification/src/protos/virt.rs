//! The scenario a virtual board plays: items that each change a port of the board.
use vstd::prelude::*;

verus! {

/// One step of a scenario: the event kind, the port and module id it concerns, a state,
/// raw bytes, and a delay.
pub struct VirtualScenarioItem {
    pub event_type: String,
    pub port: i32,
    pub id: String,
    pub state: bool,
    pub buffer: Vec<u8>,
    pub timeout: i32,
}

impl VirtualScenarioItem {
    pub fn new() -> (r: VirtualScenarioItem)
        ensures
            r.event_type@.len() == 0,
            r.port == 0,
            r.id@.len() == 0,
            !r.state,
            r.buffer@.len() == 0,
            r.timeout == 0,
    {
        VirtualScenarioItem {
            event_type: String::new(),
            port: 0,
            id: String::new(),
            state: false,
            buffer: Vec::new(),
            timeout: 0,
        }
    }

    pub fn get_event_type(&self) -> (r: &str)
        ensures
            r@ == self.event_type@,
    {
        self.event_type.as_str()
    }

    pub fn clear_event_type(&mut self)
        ensures
            final(self).event_type@.len() == 0,
            final(self).port == old(self).port,
            final(self).id == old(self).id,
            final(self).state == old(self).state,
            final(self).buffer == old(self).buffer,
            final(self).timeout == old(self).timeout,
    {
        self.event_type = String::new();
    }

    pub fn set_event_type(&mut self, v: String)
        ensures
            *final(self) == (VirtualScenarioItem { event_type: v, ..*old(self) }),
    {
        self.event_type = v;
    }

    pub fn mut_event_type(&mut self) -> (r: &mut String)
        ensures
            *r == old(self).event_type,
            *final(self) == (VirtualScenarioItem { event_type: *final(r), ..*old(self) }),
    {
        &mut self.event_type
    }

    pub fn take_event_type(&mut self) -> (r: String)
        ensures
            r == old(self).event_type,
            final(self).event_type@.len() == 0,
            final(self).port == old(self).port,
            final(self).id == old(self).id,
            final(self).state == old(self).state,
            final(self).buffer == old(self).buffer,
            final(self).timeout == old(self).timeout,
    {
        let mut v = String::new();
        std::mem::swap(&mut v, &mut self.event_type);
        v
    }

    pub fn get_port(&self) -> (r: i32)
        ensures
            r == self.port,
    {
        self.port
    }

    pub fn clear_port(&mut self)
        ensures
            *final(self) == (VirtualScenarioItem { port: 0, ..*old(self) }),
    {
        self.port = 0;
    }

    pub fn set_port(&mut self, v: i32)
        ensures
            *final(self) == (VirtualScenarioItem { port: v, ..*old(self) }),
    {
        self.port = v;
    }

    pub fn get_id(&self) -> (r: &str)
        ensures
            r@ == self.id@,
    {
        self.id.as_str()
    }

    pub fn clear_id(&mut self)
        ensures
            final(self).id@.len() == 0,
            final(self).event_type == old(self).event_type,
            final(self).port == old(self).port,
            final(self).state == old(self).state,
            final(self).buffer == old(self).buffer,
            final(self).timeout == old(self).timeout,
    {
        self.id = String::new();
    }

    pub fn set_id(&mut self, v: String)
        ensures
            *final(self) == (VirtualScenarioItem { id: v, ..*old(self) }),
    {
        self.id = v;
    }

    pub fn mut_id(&mut self) -> (r: &mut String)
        ensures
            *r == old(self).id,
            *final(self) == (VirtualScenarioItem { id: *final(r), ..*old(self) }),
    {
        &mut self.id
    }

    pub fn take_id(&mut self) -> (r: String)
        ensures
            r == old(self).id,
            final(self).id@.len() == 0,
            final(self).event_type == old(self).event_type,
            final(self).port == old(self).port,
            final(self).state == old(self).state,
            final(self).buffer == old(self).buffer,
            final(self).timeout == old(self).timeout,
    {
        let mut v = String::new();
        std::mem::swap(&mut v, &mut self.id);
        v
    }

    pub fn get_state(&self) -> (r: bool)
        ensures
            r == self.state,
    {
        self.state
    }

    pub fn clear_state(&mut self)
        ensures
            *final(self) == (VirtualScenarioItem { state: false, ..*old(self) }),
    {
        self.state = false;
    }

    pub fn set_state(&mut self, v: bool)
        ensures
            *final(self) == (VirtualScenarioItem { state: v, ..*old(self) }),
    {
        self.state = v;
    }

    pub fn get_buffer(&self) -> (r: &[u8])
        ensures
            r@ == self.buffer@,
    {
        self.buffer.as_slice()
    }

    pub fn clear_buffer(&mut self)
        ensures
            final(self).buffer@.len() == 0,
            final(self).event_type == old(self).event_type,
            final(self).port == old(self).port,
            final(self).id == old(self).id,
            final(self).state == old(self).state,
            final(self).timeout == old(self).timeout,
    {
        self.buffer = Vec::new();
    }

    pub fn set_buffer(&mut self, v: Vec<u8>)
        ensures
            *final(self) == (VirtualScenarioItem { buffer: v, ..*old(self) }),
    {
        self.buffer = v;
    }

    pub fn mut_buffer(&mut self) -> (r: &mut Vec<u8>)
        ensures
            *r == old(self).buffer,
            *final(self) == (VirtualScenarioItem { buffer: *final(r), ..*old(self) }),
    {
        &mut self.buffer
    }

    pub fn take_buffer(&mut self) -> (r: Vec<u8>)
        ensures
            r == old(self).buffer,
            final(self).buffer@.len() == 0,
            final(self).event_type == old(self).event_type,
            final(self).port == old(self).port,
            final(self).id == old(self).id,
            final(self).state == old(self).state,
            final(self).timeout == old(self).timeout,
    {
        let mut v = Vec::new();
        std::mem::swap(&mut v, &mut self.buffer);
        v
    }

    pub fn get_timeout(&self) -> (r: i32)
        ensures
            r == self.timeout,
    {
        self.timeout
    }

    pub fn clear_timeout(&mut self)
        ensures
            *final(self) == (VirtualScenarioItem { timeout: 0, ..*old(self) }),
    {
        self.timeout = 0;
    }

    pub fn set_timeout(&mut self, v: i32)
        ensures
            *final(self) == (VirtualScenarioItem { timeout: v, ..*old(self) }),
    {
        self.timeout = v;
    }
}

/// A whole scenario: its items, in order.
pub struct VirtualScenarioItems {
    pub items: Vec<VirtualScenarioItem>,
}

impl VirtualScenarioItems {
    pub fn new() -> (r: VirtualScenarioItems)
        ensures
            r.items@.len() == 0,
    {
        VirtualScenarioItems { items: Vec::new() }
    }

    pub fn get_items(&self) -> (r: &[VirtualScenarioItem])
        ensures
            r@ == self.items@,
    {
        self.items.as_slice()
    }

    pub fn clear_items(&mut self)
        ensures
            final(self).items@.len() == 0,
    {
        self.items = Vec::new();
    }

    pub fn set_items(&mut self, v: Vec<VirtualScenarioItem>)
        ensures
            final(self).items == v,
    {
        self.items = v;
    }

    pub fn mut_items(&mut self) -> (r: &mut Vec<VirtualScenarioItem>)
        ensures
            *r == old(self).items,
            final(self).items == *final(r),
    {
        &mut self.items
    }

    pub fn take_items(&mut self) -> (r: Vec<VirtualScenarioItem>)
        ensures
            r == old(self).items,
            final(self).items@.len() == 0,
    {
        let mut v = Vec::new();
        std::mem::swap(&mut v, &mut self.items);
        v
    }
}

} // verus!
