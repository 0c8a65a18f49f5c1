pub mod config_storage;
pub mod gate;
pub mod gate_laws;
pub mod homeassistant;
pub mod http;
pub mod parse;
pub mod pure;
pub mod state;
pub mod telemetry;
