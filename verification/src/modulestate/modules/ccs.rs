//! The computer streaming module (type CCS): its readings and its configuration are
//! protobuf messages that the board passes on as they are.
use crate::comboard::ModuleConfig;
use crate::modulestate::interface::{ModuleError, ModuleStateCmd};
use vstd::prelude::*;

verus! {

/// The streaming module keeps no state between readings.
pub struct CCSValidator {}

impl CCSValidator {
    pub fn new() -> (r: CCSValidator) {
        CCSValidator {}
    }

    /// The reading decoded from the board's frame; a decoding failure becomes an error
    /// with its text.
    pub fn convert_to_value<T>(&mut self, decoded: Result<T, String>) -> (r: Result<T, ModuleError>)
        ensures
            match decoded {
                Ok(v) => r == Ok::<T, ModuleError>(v),
                Err(text) => r matches Err(e) && e.message@ == text@ && e.status == 0,
            },
    {
        match decoded {
            Ok(v) => Ok(v),
            Err(text) => Err(ModuleError::new().message(text)),
        }
    }

    /// Applies the configuration `data` to the module at `port`: once it decodes
    /// (`decoded`), it is sent to the module unchanged; a decoding failure becomes an error
    /// with its text.
    pub fn apply_parse_config(&mut self, port: i32, data: &Vec<u8>, decoded: Result<(), String>) -> (r: Result<ModuleConfig, ModuleError>)
        ensures
            match decoded {
                Ok(_) => r matches Ok(m) && m.port == port && m.data@ == data@,
                Err(text) => r matches Err(e) && e.message@ == text@ && e.status == 0,
            },
    {
        match decoded {
            Ok(_) => Ok(ModuleConfig { port, data: data.clone() }),
            Err(text) => Err(ModuleError::new().message(text)),
        }
    }

    pub fn remove_config(&mut self) -> (r: Result<(), ModuleError>)
        ensures
            r is Ok,
    {
        Ok(())
    }

    /// Every reading of a streaming module counts as a change, with no value change for
    /// the alarms.
    pub fn have_data_change(&self) -> (r: (bool, Vec<crate::modulestate::alarm::model::ValueChange<i32>>))
        ensures
            r.0,
            r.1@.len() == 0,
    {
        (true, Vec::new())
    }

    /// The streaming module answers no command.
    pub fn handle_command_validator(&mut self, _cmd: &str) -> (r: Result<Option<Vec<ModuleStateCmd>>, ModuleError>)
        ensures
            r matches Ok(None),
    {
        Ok(None)
    }
}

} // verus!
