//! The phone position module (type PPO): its readings are protobuf messages; it takes no
//! configuration.
use crate::modulestate::interface::{ModuleError, ModuleStateCmd};
use vstd::prelude::*;

verus! {

/// The position module keeps no state between readings.
pub struct PPOValidator {}

impl PPOValidator {
    pub fn new() -> (r: PPOValidator) {
        PPOValidator {}
    }

    /// The reading decoded from the board's frame; a decoding failure becomes a blank
    /// error.
    pub fn convert_to_value<T>(&mut self, decoded: Option<T>) -> (r: Result<T, ModuleError>)
        ensures
            match decoded {
                Some(v) => r == Ok::<T, ModuleError>(v),
                None => r matches Err(e) && e.message@.len() == 0 && e.status == 0,
            },
    {
        match decoded {
            Some(v) => Ok(v),
            None => Err(ModuleError::new()),
        }
    }

    /// The position module takes no configuration.
    pub fn apply_parse_config(&mut self, _port: i32) -> (r: Result<(), ModuleError>)
        ensures
            r matches Err(e) && e.message@.len() == 0 && e.status == 0,
    {
        Err(ModuleError::new())
    }

    pub fn remove_config(&mut self) -> (r: Result<(), ModuleError>)
        ensures
            r is Ok,
    {
        Ok(())
    }

    /// Every reading counts as a change, with no value change for the alarms.
    pub fn have_data_change(&self) -> (r: (bool, Vec<crate::modulestate::alarm::model::ValueChange<i32>>))
        ensures
            r.0,
            r.1@.len() == 0,
    {
        (true, Vec::new())
    }

    /// The position module answers no command.
    pub fn handle_command_validator(&mut self, _cmd: &str) -> (r: Result<Option<Vec<ModuleStateCmd>>, ModuleError>)
        ensures
            r matches Ok(None),
    {
        Ok(None)
    }
}

} // verus!
