//! Application layer: the data transfer objects, the responses the use cases
//! build, and the port through which environment variables are read.

pub mod dto;
pub mod ports;
pub mod use_cases;
