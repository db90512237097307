use vstd::prelude::*;

verus! {

/// A configuration frame for the board a module is plugged in: the module's port on
/// the board and the raw bytes to write to it.
pub struct ModuleConfig {
    pub port: i32,
    pub data: Vec<u8>,
}

impl ModuleConfig {
    /// A copy of the frame, field for field.
    pub fn clone_value(&self) -> (r: ModuleConfig)
        ensures
            r.port == self.port,
            r.data@ == self.data@,
    {
        ModuleConfig { port: self.port, data: self.data.clone() }
    }
}

/// A module plugged in (`state`) or pulled out of a port of a board.
pub struct ModuleStateChangeEvent {
    pub board: String,
    pub board_addr: String,
    pub port: i32,
    pub id: String,
    pub state: bool,
}

} // verus!
