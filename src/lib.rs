//! Control core of an AC charging station (J1772 control pilot): signal
//! conditioning, pilot classification, the station state machine and the
//! ordered command scripts that drive the hardware facade.

pub mod adc;
pub mod machine;
pub mod pilot;
pub mod facade;
pub mod script;
pub mod controller;
pub mod sensors;
pub mod mcp3xxx;
