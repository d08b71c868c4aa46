//! Remote actuator for a motorised shutter: one command byte per connection
//! pulses one of three GPIO lines (up, down, stop).
pub mod command;
pub mod gpio;
pub mod actuator;
