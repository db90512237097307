//! The air module (type AAA): temperature and humidity, written by the board as text.
use crate::modulestate::interface::{ModuleError, ModuleStateCmd};
use vstd::prelude::*;

verus! {

/// The shortest frame that carries both readings: temperature text at byte 0, humidity
/// text at byte 100.
pub const AAA_FRAME_LEN: usize = 105;

/// The air module keeps no state between readings.
pub struct AAAValidator {}

impl AAAValidator {
    pub fn new() -> (r: AAAValidator) {
        AAAValidator {}
    }

    /// Checks that a raw frame is long enough to hold both readings; a shorter one is
    /// refused.
    pub fn check_frame(&self, buffer: &Vec<u8>) -> (r: Result<(), ModuleError>)
        ensures
            r is Ok <==> buffer@.len() >= AAA_FRAME_LEN,
            r matches Err(e) ==> e.message@ == "could not parse value from buffer"@ && e.status == 0,
    {
        if buffer.len() >= AAA_FRAME_LEN {
            Ok(())
        } else {
            proof {
                reveal_strlit("could not parse value from buffer");
            }
            Err(ModuleError::new().message(String::from_str("could not parse value from buffer")))
        }
    }

    /// The air module takes no configuration.
    pub fn apply_parse_config(&mut self, _port: i32) -> (r: Result<(), ModuleError>)
        ensures
            r matches Err(e) && e.message@.len() == 0 && e.status == 0,
    {
        Err(ModuleError::new())
    }

    pub fn remove_config(&mut self) -> (r: Result<(), ModuleError>)
        ensures
            r is Ok,
    {
        Ok(())
    }

    /// The air module answers no command.
    pub fn handle_command_validator(&mut self, _cmd: &str) -> (r: Result<Option<Vec<ModuleStateCmd>>, ModuleError>)
        ensures
            r matches Ok(None),
    {
        Ok(None)
    }
}

} // verus!
