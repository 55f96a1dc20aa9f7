pub mod detection;
pub mod drivers;
pub mod hw;
pub mod polling;
pub mod protocol;
pub mod tag;
pub mod lifecycle;
