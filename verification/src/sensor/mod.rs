pub mod calibration;
pub mod data;
pub mod detection;
pub mod drivers;
pub mod hw;
pub mod sampling;
