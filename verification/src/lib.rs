pub mod arch;
pub mod arith;
pub mod bits;
pub mod bytes;
pub mod devicetree;
pub mod driver_state;
pub mod nfc;
pub mod pci;
pub mod runtime;
pub mod security;
pub mod sensor;
pub mod storage;
pub mod power;
pub mod thermal;
pub mod syscall;
pub mod timer;
pub mod sys;
