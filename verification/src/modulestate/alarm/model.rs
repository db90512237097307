use crate::protos::alarm::AlarmZone;
use vstd::prelude::*;

verus! {

/// The last known standing of a watched value against its alarm.
pub struct ModuleAlarmState<T> {
    pub property: String,
    pub current_value: T,
    pub previous_value: T,
    pub last_diff: T,
    pub zone: AlarmZone,
}

/// The changes of a module's values, sent to the alarm checks.
pub struct ModuleValueChange<T> {
    pub module_id: String,
    pub changes: Vec<ValueChange<T>>,
}

/// One value of a module that changed.
pub struct ValueChange<T> {
    pub property: String,
    pub current_value: T,
    pub previous_value: T,
}

} // verus!
