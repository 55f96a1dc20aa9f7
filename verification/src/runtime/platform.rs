use vstd::prelude::*;

verus! {

/// Where the runtime runs: directly on the hardware or as a process under an operating system.
#[derive(Clone, Copy, PartialEq, Eq, Structural)]
pub enum Platform {
    Unknown,
    BareMetal,
    Hosted,
}

/// The platform once determined, by its code (0 while undetermined).
pub struct PlatformCache {
    code: u8,
}

pub open spec fn platform_code(p: Platform) -> u8 {
    match p {
        Platform::Unknown => 0,
        Platform::BareMetal => 1,
        Platform::Hosted => 2,
    }
}

pub open spec fn platform_of_code(v: u8) -> Platform {
    if v == 1 {
        Platform::BareMetal
    } else if v == 2 {
        Platform::Hosted
    } else {
        Platform::Unknown
    }
}

/// Firmware tables (UEFI or SMBIOS) or boot-reported usable RAM mean bare metal.
pub open spec fn classify(uefi: bool, smbios: bool, usable_ram: usize) -> Platform {
    if uefi || smbios || usable_ram > 0 { Platform::BareMetal } else { Platform::Hosted }
}

impl PlatformCache {
    pub closed spec fn code(&self) -> u8 {
        self.code
    }

    /// The cache only ever holds the code of a platform.
    #[verifier::type_invariant]
    spec fn holds_platform_code(self) -> bool {
        self.code <= 2
    }

    /// Undetermined.
    pub fn new() -> (c: Self)
        ensures
            c.code() == 0,
    {
        PlatformCache { code: 0 }
    }
}

fn platform_to_u8(p: Platform) -> (v: u8)
    ensures
        v == platform_code(p),
{
    match p {
        Platform::Unknown => 0,
        Platform::BareMetal => 1,
        Platform::Hosted => 2,
    }
}

/// The platform: the determined one if any, otherwise classified from what the firmware and the
/// boot loader report (see `classify`) and remembered.
pub fn detect(c: &mut PlatformCache, uefi: bool, smbios: bool, usable_ram: usize) -> (p: Platform)
    ensures
        p != Platform::Unknown,
        final(c).code() == platform_code(p),
        old(c).code() != 0 ==> p == platform_of_code(old(c).code()) && final(c).code() == old(c).code(),
        old(c).code() == 0 ==> p == classify(uefi, smbios, usable_ram) && final(c).code() == platform_code(p),
{
    proof {
        use_type_invariant(&*c);
    }
    let cached = c.code;
    if cached != 0 {
        return from_u8(cached);
    }
    let result = if uefi || smbios || usable_ram > 0 {
        Platform::BareMetal
    } else {
        Platform::Hosted
    };
    c.code = platform_to_u8(result);
    result
}

/// Records the platform.
pub fn set(c: &mut PlatformCache, p: Platform)
    ensures
        final(c).code() == platform_code(p),
{
    c.code = platform_to_u8(p);
}

/// The recorded platform.
pub fn current(c: &PlatformCache) -> (p: Platform)
    ensures
        p == platform_of_code(c.code()),
        c.code() == platform_code(p),
{
    proof {
        use_type_invariant(c);
    }
    from_u8(c.code)
}

/// The platform a code names; unknown codes name `Unknown`.
pub fn from_u8(v: u8) -> (p: Platform)
    ensures
        p == platform_of_code(v),
{
    match v {
        1 => Platform::BareMetal,
        2 => Platform::Hosted,
        _ => Platform::Unknown,
    }
}

/// A recorded platform reads back as recorded.
pub proof fn law_set_then_current(p: Platform)
    ensures
        platform_of_code(platform_code(p)) == p,
{
}

/// Once determined, the platform stays determined: its code is not the undetermined one, and
/// the cache gives it back, so a later detection returns it again.
pub proof fn law_detection_is_final(p: Platform)
    requires
        p != Platform::Unknown,
    ensures
        platform_code(p) != 0,
        platform_of_code(platform_code(p)) == p,
{
}

} // verus!
