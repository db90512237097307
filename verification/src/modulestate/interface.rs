use crate::mainboardstate::error::MainboardError;
use crate::protos::module::Actor;
use vstd::prelude::*;

verus! {

/// A value that a module reports or is configured with.
pub trait ModuleValue {}

/// A module value that travels as a message to the cloud.
pub trait ModuleValueParsable: ModuleValue {}

/// Status of an error about a module that is not connected.
pub const MODULE_NOT_FOUND: u32 = 404;

/// Status of an error about a module whose board has no sender.
pub const SENDER_NOT_FOUND: u32 = 405;

/// Status of an error about a command that a module does not support.
pub const CMD_NOT_SUPPORTED: u32 = 400;

/// An error about a module: what happened, on which module and port, with a status code.
#[derive(Debug)]
pub struct ModuleError {
    pub message: String,
    pub module_id: String,
    pub port: i32,
    pub status: u32,
}

/// The message the state task gives when a module it looks for is not connected.
pub open spec fn not_found_text() -> Seq<char> {
    "module not found"@
}

/// The message the state task gives when a module's board has no sender.
pub open spec fn sender_not_found_text() -> Seq<char> {
    "sender not found"@
}

impl ModuleError {
    pub fn new() -> (r: ModuleError)
        ensures
            r.message@ == Seq::<char>::empty(),
            r.module_id@ == Seq::<char>::empty(),
            r.port == -1,
            r.status == 0,
    {
        ModuleError { message: String::new(), module_id: String::new(), port: -1, status: 0 }
    }

    pub fn not_found(module_id: &str) -> (r: ModuleError)
        ensures
            r.message@ == not_found_text(),
            r.module_id@ == module_id@,
            r.port == -1,
            r.status == MODULE_NOT_FOUND,
    {
        ModuleError {
            message: String::from_str("module not found"),
            module_id: String::from_str(module_id),
            port: -1,
            status: MODULE_NOT_FOUND,
        }
    }

    pub fn sender_not_found(module_id: &str) -> (r: ModuleError)
        ensures
            r.message@ == sender_not_found_text(),
            r.module_id@ == module_id@,
            r.port == -1,
            r.status == SENDER_NOT_FOUND,
    {
        ModuleError {
            message: String::from_str("sender not found"),
            module_id: String::from_str(module_id),
            port: -1,
            status: SENDER_NOT_FOUND,
        }
    }

    /// An error raised by the storage layer on `module_id`, described by `text`.
    pub fn from_rusqlite_err(module_id: &str, text: String) -> (r: ModuleError)
        ensures
            r.message@ == text@,
            r.module_id@ == module_id@,
            r.port == -1,
            r.status == MODULE_NOT_FOUND,
    {
        ModuleError { message: text, module_id: String::from_str(module_id), port: -1, status: MODULE_NOT_FOUND }
    }

    /// An error raised while decoding a message of `module_id`, described by `text`.
    pub fn from_protobuf_err(module_id: &str, text: String) -> (r: ModuleError)
        ensures
            r.message@ == text@,
            r.module_id@ == module_id@,
            r.port == -1,
            r.status == MODULE_NOT_FOUND,
    {
        ModuleError { message: text, module_id: String::from_str(module_id), port: -1, status: MODULE_NOT_FOUND }
    }

    pub fn message(self, message: String) -> (r: ModuleError)
        ensures
            r.message@ == message@,
            r.module_id@ == self.module_id@,
            r.port == self.port,
            r.status == self.status,
    {
        let mut s = self;
        s.message = message;
        s
    }

    pub fn status(self, status: u32) -> (r: ModuleError)
        ensures
            r.message@ == self.message@,
            r.module_id@ == self.module_id@,
            r.port == self.port,
            r.status == status,
    {
        let mut s = self;
        s.status = status;
        s
    }

    pub fn module_id(self, module_id: String) -> (r: ModuleError)
        ensures
            r.message@ == self.message@,
            r.module_id@ == module_id@,
            r.port == self.port,
            r.status == self.status,
    {
        let mut s = self;
        s.module_id = module_id;
        s
    }
}

/// Turns a mainboard error about `module_id` into a module error that keeps its message.
pub fn conv_err(module_id: String, err: MainboardError) -> (r: ModuleError)
    ensures
        r.message@ == err.message@,
        r.module_id@ == module_id@,
        r.port == -1,
        r.status == 0,
{
    ModuleError::new().message(err.message).module_id(module_id)
}

/// A command for the module state task: what to do, on which topic, with which payload,
/// on behalf of which actor.
pub struct ModuleStateCmd {
    pub cmd: String,
    pub topic: String,
    pub data: Vec<u8>,
    pub actor: Actor,
}

impl ModuleValue for crate::protos::module::ModuleData {}
impl ModuleValueParsable for crate::protos::module::ModuleData {}
impl ModuleValue for crate::protos::module::RelayModuleData {}
impl ModuleValueParsable for crate::protos::module::RelayModuleData {}
impl ModuleValue for crate::protos::module::RelayModuleConfig {}
impl ModuleValueParsable for crate::protos::module::RelayModuleConfig {}
impl ModuleValue for crate::protos::module::WCModuleData {}
impl ModuleValueParsable for crate::protos::module::WCModuleData {}
impl ModuleValue for crate::protos::module::WCModuleConfig {}
impl ModuleValueParsable for crate::protos::module::WCModuleConfig {}
impl ModuleValue for crate::protos::module::SOILModuleData {}
impl ModuleValueParsable for crate::protos::module::SOILModuleData {}
impl ModuleValue for crate::protos::module::SOILModuleConfig {}
impl ModuleValueParsable for crate::protos::module::SOILModuleConfig {}
impl ModuleValue for crate::protos::module::SOILCalibrationStepEvent {}
impl ModuleValueParsable for crate::protos::module::SOILCalibrationStepEvent {}
impl ModuleValue for crate::protos::module::RelayOutletConfig {}
impl ModuleValueParsable for crate::protos::module::RelayOutletConfig {}
impl ModuleValue for crate::protos::module::RelayOutletData {}
impl ModuleValueParsable for crate::protos::module::RelayOutletData {}
impl ModuleValue for crate::protos::module::VirtualRelayData {}
impl ModuleValueParsable for crate::protos::module::VirtualRelayData {}
impl ModuleValue for crate::protos::module::VirtualRelayState {}
impl ModuleValueParsable for crate::protos::module::VirtualRelayState {}

} // verus!
