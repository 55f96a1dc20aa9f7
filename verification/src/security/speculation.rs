use vstd::prelude::*;
use crate::arch::Architecture;

verus! {

/// Speculative-execution mitigations.
#[derive(Copy, Clone, PartialEq, Eq, Structural)]
pub enum SpeculationMitigation {
    NoMitigation,
    Ibrs,
    Ibpb,
    Stibp,
    Ssbd,
    Retpoline,
}

/// The mitigation in force, by its one-byte code (0 for none).
pub struct MitigationState {
    code: u8,
}

/// The mitigation a code names; unknown codes name none.
pub open spec fn mitigation_of_code(v: u8) -> SpeculationMitigation {
    if v == 1 {
        SpeculationMitigation::Ibrs
    } else if v == 2 {
        SpeculationMitigation::Ibpb
    } else if v == 3 {
        SpeculationMitigation::Stibp
    } else if v == 4 {
        SpeculationMitigation::Ssbd
    } else if v == 5 {
        SpeculationMitigation::Retpoline
    } else {
        SpeculationMitigation::NoMitigation
    }
}

/// The code that choosing mitigations records: on x86-64, IBRS (1) when CPUID leaf 7 EDX bit 26
/// is set, else SSBD (4) when bit 31 is set, else retpolines (5), including when the leaf cannot
/// be read; on AArch64, IBRS (1); elsewhere the recorded code stays.
pub open spec fn chosen_code(arch: Architecture, leaf7: Option<(u32, u32, u32, u32)>, current: u8) -> u8 {
    if arch == Architecture::X86_64 {
        match leaf7 {
            Some(r) => if r.3 & 0x0400_0000 != 0 {
                1
            } else if r.3 & 0x8000_0000 != 0 {
                4
            } else {
                5
            },
            None => 5,
        }
    } else if arch == Architecture::AArch64 {
        1
    } else {
        current
    }
}

/// The codes a mitigation state can hold: none, IBRS, SSBD or retpoline (the only ones that
/// `chosen_code` gives).
pub open spec fn recordable_code(v: u8) -> bool {
    v == 0 || v == 1 || v == 4 || v == 5
}

impl MitigationState {
    pub closed spec fn code(&self) -> u8 {
        self.code
    }

    /// Only the codes that choosing a mitigation gives are ever recorded.
    #[verifier::type_invariant]
    spec fn holds_recordable_code(self) -> bool {
        recordable_code(self.code)
    }

    /// No mitigation chosen yet.
    pub fn new() -> (s: Self)
        ensures
            s.code() == 0,
    {
        MitigationState { code: 0 }
    }
}

/// Some mitigation is in force.
pub fn mitigations_active(s: &MitigationState) -> (b: bool)
    ensures
        b == (s.code() != 0),
        recordable_code(s.code()),
{
    proof {
        use_type_invariant(s);
    }
    s.code != 0
}

/// The mitigation in force.
pub fn active_mitigation(s: &MitigationState) -> (m: SpeculationMitigation)
    ensures
        m == mitigation_of_code(s.code()),
        recordable_code(s.code()),
{
    proof {
        use_type_invariant(s);
    }
    match s.code {
        1 => SpeculationMitigation::Ibrs,
        2 => SpeculationMitigation::Ibpb,
        3 => SpeculationMitigation::Stibp,
        4 => SpeculationMitigation::Ssbd,
        5 => SpeculationMitigation::Retpoline,
        _ => SpeculationMitigation::NoMitigation,
    }
}

/// Chooses the mitigation for the platform (see `chosen_code`).
pub fn mitigations(s: &mut MitigationState, arch: Architecture, leaf7: Option<(u32, u32, u32, u32)>)
    ensures
        final(s).code() == chosen_code(arch, leaf7, old(s).code()),
        recordable_code(final(s).code()),
{
    proof {
        use_type_invariant(&*s);
    }
    match arch {
        Architecture::X86_64 => {
            if let Some((_eax, _ebx, _ecx, edx)) = leaf7 {
                if edx & 0x0400_0000 != 0 {
                    s.code = 1;
                    return;
                }
                if edx & 0x8000_0000 != 0 {
                    s.code = 4;
                    return;
                }
            }
            s.code = 5;
        },
        Architecture::AArch64 => {
            s.code = 1;
        },
        _ => {},
    }
}

/// After mitigations have been chosen on x86-64 or AArch64, some mitigation is in force.
pub proof fn law_chosen_mitigation_active(arch: Architecture, leaf7: Option<(u32, u32, u32, u32)>, current: u8)
    requires
        arch != Architecture::Other,
    ensures
        chosen_code(arch, leaf7, current) != 0,
        mitigation_of_code(chosen_code(arch, leaf7, current)) != SpeculationMitigation::NoMitigation,
{
}

/// Choosing a mitigation records a code that can be recorded, and of such a code, some mitigation
/// is active exactly when one other than none is reported, which is IBRS, SSBD or retpoline
/// (IBPB and STIBP are never reported).
pub proof fn law_reported_mitigations(arch: Architecture, leaf7: Option<(u32, u32, u32, u32)>, code: u8)
    requires
        recordable_code(code),
    ensures
        recordable_code(chosen_code(arch, leaf7, code)),
        (code != 0) == (mitigation_of_code(code) != SpeculationMitigation::NoMitigation),
        mitigation_of_code(code) != SpeculationMitigation::Ibpb,
        mitigation_of_code(code) != SpeculationMitigation::Stibp,
{
}

} // verus!
