pub mod command;
pub mod detection;
pub mod device;
pub mod drivers;
pub mod hw;
pub mod partition;
pub mod queue;
pub mod lifecycle;
