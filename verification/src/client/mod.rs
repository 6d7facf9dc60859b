//! The client's side of a device: handles for its actuators, its sensors and
//! its raw channels. A handle builds the messages for its feature and reads
//! the replies; sending and receiving is left to the program around it.

pub mod device_actuator;
pub mod device_sensor;
pub mod device_raw;
