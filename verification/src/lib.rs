pub mod comboard;
pub mod mainboardstate;
pub mod modulestate;
pub mod plateform;
pub mod protos;
pub mod server;
pub mod socket;
pub mod text;
pub mod utils;
