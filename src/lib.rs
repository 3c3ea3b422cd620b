pub mod address;
pub mod command;
pub mod config;
pub mod driverstation;
pub mod fpga;
pub mod hal_call;
pub mod joystick;
pub mod pipeline;
pub mod robot_base;
pub mod robot_state;
pub mod script;
