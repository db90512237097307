pub mod aas;
pub mod actor;
pub mod alarm;
pub mod cmd;
pub mod controller;
pub mod handle_state;
pub mod handle_value;
pub mod interface;
pub mod modules;
pub mod relay;
pub mod state_manager;
pub mod store;
