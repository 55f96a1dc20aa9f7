use vstd::prelude::*;

verus! {

/// Driver life-cycle codes.
pub const STATE_STOPPED: u8 = 0;
pub const STATE_PROBED: u8 = 1;
pub const STATE_ACTIVE: u8 = 2;

/// A driver's life-cycle state, shared by every probe, init and shutdown of that driver.
pub struct DriverState {
    code: u8,
}

impl DriverState {
    pub closed spec fn code(&self) -> u8 {
        self.code
    }

    /// A driver that has not been probed.
    pub fn new() -> (s: Self)
        ensures
            s.code() == STATE_STOPPED,
    {
        DriverState { code: STATE_STOPPED }
    }

    /// Records a new life-cycle code.
    pub fn set(&mut self, code: u8)
        ensures
            final(self).code() == code,
    {
        self.code = code;
    }

    /// The current life-cycle code.
    pub fn get(&self) -> (code: u8)
        ensures
            code == self.code(),
    {
        self.code
    }
}

} // verus!
