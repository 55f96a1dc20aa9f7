use vstd::prelude::*;
use crate::storage::detection::StorageController;

verus! {

/// A detected storage controller and, once mapped, the address of its register window.
pub struct Device {
    pub info: StorageController,
    pub mmio_base: Option<usize>,
}

} // verus!
