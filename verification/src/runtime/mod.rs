pub mod handle;
pub mod monitor;
pub mod platform;
pub mod resources;
pub mod worker;
pub mod hal;
pub mod system;
pub mod entry;
