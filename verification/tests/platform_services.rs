use lib::arch::Architecture;
use lib::power::dvfs::{current_frequency, set_frequency, FrequencyCache};
use lib::power::governor::{Governor, GovernorPolicy, PolicyStore};
use lib::power::sleep::{current_state, suspend, SleepAction, SleepState, SleepStateStore};
use lib::power::thermal::check_temp;
use lib::security::enclaves::{create_enclave, enclave_count, enclave_info, sgx_supported, EnclaveTable};
use lib::security::isolation::{create_domain, domain_count, domain_level, isolate, DomainTable, IsolationLevel};
use lib::security::speculation::{active_mitigation, mitigations, mitigations_active, MitigationState, SpeculationMitigation};
use lib::sys::file::{trim_trailing, valid_path, DirEntry};
use lib::sys::io::{fmt_u64, parse_decimal_u64, parse_hex_u16_pub};
use lib::syscall::api::{register_syscall, resolve_syscall, SyscallResult, SyscallTable};
use lib::thermal::api::{probe_zones, read_thermal_zone, register_zone, zone_count, ThermalZones};
use lib::timer::arm_generic::{ArmGenericTimer, TimerFrequency};
use lib::timer::clockevent::{self, ClockEvents};
use lib::timer::clocksource::{self, tsc_frequency, ClockSources};
use lib::timer::hpet::Hpet;
use lib::timer::pit::{Pit, PIT_FREQ};

#[test]
fn decimal_formatting() {
    let mut buf = [0u8; 20];
    assert_eq!(fmt_u64(0, &mut buf), b"0");
    assert_eq!(fmt_u64(7, &mut buf), b"7");
    assert_eq!(fmt_u64(1234567890, &mut buf), b"1234567890");
    assert_eq!(fmt_u64(u64::MAX, &mut buf), b"18446744073709551615");
    for n in [1u64, 9, 10, 99, 100, 65535, 1_000_000_007] {
        let text = fmt_u64(n, &mut buf).to_vec();
        assert_eq!(text, n.to_string().into_bytes());
        assert_eq!(parse_decimal_u64(&text), n);
    }
}

#[test]
fn decimal_parsing_stops_at_the_first_non_digit() {
    assert_eq!(parse_decimal_u64(b"42\n"), 42);
    assert_eq!(parse_decimal_u64(b"3400000 kHz"), 3_400_000);
    assert_eq!(parse_decimal_u64(b""), 0);
    assert_eq!(parse_decimal_u64(b"abc"), 0);
    assert_eq!(parse_decimal_u64(b"18446744073709551615"), u64::MAX);
}

#[test]
fn hex_parsing() {
    assert_eq!(parse_hex_u16_pub(b"0x8086"), 0x8086);
    assert_eq!(parse_hex_u16_pub(b"0XaBcD"), 0xABCD);
    assert_eq!(parse_hex_u16_pub(b"10de\n"), 0x10DE);
    assert_eq!(parse_hex_u16_pub(b"0x"), 0);
    assert_eq!(parse_hex_u16_pub(b""), 0);
    assert_eq!(parse_hex_u16_pub(b"zz"), 0);
    // digits past the fourth shift the older ones out
    assert_eq!(parse_hex_u16_pub(b"0x123456"), 0x3456);
}

#[test]
fn paths_and_trimming() {
    assert!(valid_path(b"/sys/class\0"));
    assert!(!valid_path(b"/sys/class"));
    assert!(!valid_path(b""));
    assert_eq!(trim_trailing(b"schedutil\n", 10), 9);
    assert_eq!(trim_trailing(b"abc \r\n  ", 8), 3);
    assert_eq!(trim_trailing(b"   ", 3), 0);
    assert_eq!(trim_trailing(b"abc\n", 2), 2);
    let d = DirEntry { name: [0; 128], name_len: 0, d_type: 4 };
    assert_eq!(d.d_type, 4);
}

#[test]
fn syscall_table_registration() {
    let mut t = SyscallTable::new();
    assert!(matches!(resolve_syscall(&t, 1), Err(SyscallResult::NotFound)));
    assert!(register_syscall(&mut t, 1, 0xDEAD));
    assert!(register_syscall(&mut t, 255, 0xBEEF));
    assert!(!register_syscall(&mut t, 256, 0xBAD));
    assert!(matches!(resolve_syscall(&t, 1), Ok(0xDEAD)));
    assert!(matches!(resolve_syscall(&t, 255), Ok(0xBEEF)));
    assert!(matches!(resolve_syscall(&t, 2), Err(SyscallResult::NotFound)));
    assert!(matches!(resolve_syscall(&t, 256), Err(SyscallResult::NotFound)));
    assert!(matches!(resolve_syscall(&t, usize::MAX), Err(SyscallResult::NotFound)));
    // registering a zero handler removes the entry
    assert!(register_syscall(&mut t, 1, 0));
    assert!(matches!(resolve_syscall(&t, 1), Err(SyscallResult::NotFound)));
}

#[test]
fn thermal_zones() {
    let mut z = ThermalZones::new();
    assert_eq!(zone_count(&z), 0);
    assert_eq!(read_thermal_zone(&mut z, 0), None);
    assert!(register_zone(&mut z, 2, 45_000));
    assert_eq!(zone_count(&z), 3);
    assert_eq!(probe_zones(&z), 3);
    assert_eq!(read_thermal_zone(&mut z, 2), Some(45_000));
    assert_eq!(read_thermal_zone(&mut z, 1), None);
    assert_eq!(read_thermal_zone(&mut z, 3), None);
    assert!(register_zone(&mut z, 0, 30_000));
    assert_eq!(zone_count(&z), 3);
    assert_eq!(read_thermal_zone(&mut z, 0), Some(30_000));
    assert!(!register_zone(&mut z, 8, 1));
    assert_eq!(zone_count(&z), 3);
}

#[test]
fn pit_divisors() {
    assert_eq!(Pit::set_frequency(0), None);
    assert_eq!(Pit::set_frequency(1000), Some((1193, PIT_FREQ / 1193)));
    // too slow: the divisor saturates
    assert_eq!(Pit::set_frequency(1), Some((0xFFFF, PIT_FREQ / 0xFFFF)));
    // too fast: the divisor is at least one
    assert_eq!(Pit::set_frequency(2_000_000), Some((1, PIT_FREQ)));
    assert_eq!(Pit::set_frequency(PIT_FREQ), Some((1, PIT_FREQ)));
}

#[test]
fn arm_timer_frequency_is_read_once() {
    let mut cache = TimerFrequency::new();
    assert_eq!(ArmGenericTimer::frequency(&mut cache, 24_000_000), 24_000_000);
    assert_eq!(ArmGenericTimer::frequency(&mut cache, 1), 24_000_000);
    assert_eq!(ArmGenericTimer::elapsed_ns(0, 0, 100), 0);
    assert_eq!(ArmGenericTimer::elapsed_ns(24_000_000, 0, 24), 1000);
    assert_eq!(ArmGenericTimer::elapsed_ns(1_000_000_000, 10, 35), 25);
    // the counter wrapped between the two reads
    assert_eq!(ArmGenericTimer::elapsed_ns(1_000_000_000, u64::MAX - 4, 5), 10);
}

#[test]
fn clock_event_source_installs_once() {
    let mut e = ClockEvents::new();
    assert!(!clockevent::fire(&mut e));
    assert_eq!(clockevent::event_count(&e), 0);
    assert!(clockevent::register(&mut e, 1_000_000));
    assert_eq!(clockevent::interval(&e), 1_000_000);
    assert!(clockevent::fire(&mut e));
    assert!(clockevent::fire(&mut e));
    assert_eq!(clockevent::event_count(&e), 2);
    assert!(!clockevent::register(&mut e, 5));
    assert!(clockevent::fire(&mut e));
    assert_eq!(clockevent::event_count(&e), 3);
}

#[test]
fn clock_source_installs_once() {
    let mut s = ClockSources::new();
    assert_eq!(clocksource::frequency(&s), 0);
    assert!(clocksource::register(&mut s, 3_000_000_000));
    assert_eq!(clocksource::frequency(&s), 3_000_000_000);
    assert!(!clocksource::register(&mut s, 1));
}

#[test]
fn tsc_frequency_prefers_sysfs_then_detection() {
    assert_eq!(tsc_frequency(2_000_000_000, Some(3), 4), 2_000_000_000);
    assert_eq!(tsc_frequency(0, Some(3_000_000_000), 4), 3_000_000_000);
    assert_eq!(tsc_frequency(0, Some(0), 1_000_000_000), 1_000_000_000);
    assert_eq!(tsc_frequency(0, None, 1_000_000_000), 1_000_000_000);
}

#[test]
fn hpet_keeps_its_window() {
    assert_eq!(Hpet::new(0xFED0_0000).base_addr, 0xFED0_0000);
}

#[test]
fn frequency_cache() {
    let mut c = FrequencyCache::new();
    assert_eq!(current_frequency(&mut c, 0), 0);
    assert_eq!(current_frequency(&mut c, 2_400_000), 2_400_000);
    assert_eq!(current_frequency(&mut c, 1), 2_400_000);
    set_frequency(&mut c, 800_000);
    assert_eq!(current_frequency(&mut c, 1), 800_000);
}

#[test]
fn governor_policies() {
    let mut store = PolicyStore::new();
    assert_eq!(Governor::get_policy(&mut store), GovernorPolicy::Unknown);
    for p in [
        GovernorPolicy::Performance,
        GovernorPolicy::Powersave,
        GovernorPolicy::OnDemand,
        GovernorPolicy::Conservative,
        GovernorPolicy::Schedutil,
        GovernorPolicy::Unknown,
    ] {
        Governor::set_policy(&mut store, p);
        assert_eq!(Governor::get_policy(&mut store), p);
    }
}

#[test]
fn governor_applies_its_policy_to_the_frequency() {
    let g = Governor;
    let mut store = PolicyStore::new();
    let mut freq = FrequencyCache::new();

    Governor::set_policy(&mut store, GovernorPolicy::Conservative);
    g.apply(&mut store, &mut freq, 2_000_000);
    assert_eq!(current_frequency(&mut freq, 0), 1_000_000);

    Governor::set_policy(&mut store, GovernorPolicy::Performance);
    g.apply(&mut store, &mut freq, 0);
    assert_eq!(current_frequency(&mut freq, 0), 1_000_000);

    Governor::set_policy(&mut store, GovernorPolicy::Powersave);
    let mut fresh = FrequencyCache::new();
    g.apply(&mut store, &mut fresh, 3_000_000);
    // powersave leaves what was read in place
    assert_eq!(current_frequency(&mut fresh, 0), 3_000_000);

    let mut unknown = PolicyStore::new();
    let mut none = FrequencyCache::new();
    g.apply(&mut unknown, &mut none, 0);
    assert_eq!(current_frequency(&mut none, 0), 0);
}

#[test]
fn sleep_states() {
    let mut store = SleepStateStore::new();
    assert_eq!(current_state(&store), SleepState::S0);
    assert_eq!(suspend(&mut store, SleepState::S1), SleepAction::SleepNs(100_000_000));
    assert_eq!(current_state(&store), SleepState::S1);
    assert_eq!(suspend(&mut store, SleepState::S3), SleepAction::SleepSecs(1));
    assert_eq!(current_state(&store), SleepState::S3);
    assert_eq!(suspend(&mut store, SleepState::S5), SleepAction::PowerOff);
    assert_eq!(current_state(&store), SleepState::S5);
    assert_eq!(suspend(&mut store, SleepState::S0), SleepAction::Stay);
    assert_eq!(current_state(&store), SleepState::S0);
}

#[test]
fn cpu_temperature_field() {
    assert_eq!(check_temp(None), None);
    assert_eq!(check_temp(Some(0x0045_0000)), Some(0x45));
    assert_eq!(check_temp(Some(0xFFFF_FFFF_FFFF_FFFF)), Some(0x7F));
}

#[test]
fn speculation_mitigation_choice() {
    let mut s = MitigationState::new();
    assert!(!mitigations_active(&s));
    assert!(active_mitigation(&s) == SpeculationMitigation::NoMitigation);
    mitigations(&mut s, Architecture::Other, None);
    assert!(!mitigations_active(&s));
    mitigations(&mut s, Architecture::X86_64, Some((0, 0, 0, 0x0400_0000)));
    assert!(active_mitigation(&s) == SpeculationMitigation::Ibrs);
    mitigations(&mut s, Architecture::X86_64, Some((0, 0, 0, 0x8000_0000)));
    assert!(active_mitigation(&s) == SpeculationMitigation::Ssbd);
    mitigations(&mut s, Architecture::X86_64, Some((0, 0, 0, 0)));
    assert!(active_mitigation(&s) == SpeculationMitigation::Retpoline);
    mitigations(&mut s, Architecture::X86_64, None);
    assert!(active_mitigation(&s) == SpeculationMitigation::Retpoline);
    mitigations(&mut s, Architecture::AArch64, None);
    assert!(active_mitigation(&s) == SpeculationMitigation::Ibrs);
    assert!(mitigations_active(&s));
    // another architecture keeps what is in force
    mitigations(&mut s, Architecture::Other, Some((0, 0, 0, 0)));
    assert!(active_mitigation(&s) == SpeculationMitigation::Ibrs);
}

#[test]
fn isolation_domains() {
    let mut t = DomainTable::new();
    assert_eq!(domain_count(&t), 0);
    let d = create_domain(&mut t, IsolationLevel::Enclave).unwrap();
    assert_eq!(d.id, 0);
    assert!(d.level == IsolationLevel::Enclave);
    assert!(domain_level(&t, 0) == IsolationLevel::Enclave);
    assert!(domain_level(&t, 1) == IsolationLevel::NoIsolation);
    assert!(domain_level(&t, 200) == IsolationLevel::NoIsolation);
    for i in 1..16u8 {
        assert_eq!(create_domain(&mut t, IsolationLevel::Process).unwrap().id, i);
    }
    assert!(create_domain(&mut t, IsolationLevel::Hardware).is_none());
    assert_eq!(domain_count(&t), 16);
}

#[test]
fn isolation_follows_the_architecture() {
    let off = MitigationState::new();
    let mut on = MitigationState::new();
    mitigations(&mut on, Architecture::X86_64, None);

    let mut t = DomainTable::new();
    isolate(&mut t, Architecture::X86_64, &off);
    assert_eq!(domain_count(&t), 0);
    isolate(&mut t, Architecture::X86_64, &on);
    assert_eq!(domain_count(&t), 1);
    assert!(domain_level(&t, 0) == IsolationLevel::Hardware);
    isolate(&mut t, Architecture::AArch64, &off);
    assert!(domain_level(&t, 1) == IsolationLevel::Process);
    isolate(&mut t, Architecture::Other, &on);
    assert_eq!(domain_count(&t), 2);
}

#[test]
fn enclaves() {
    assert!(sgx_supported(Architecture::X86_64, Some((0, 0x4, 0, 0))));
    assert!(!sgx_supported(Architecture::X86_64, Some((0, 0x3, 0, 0))));
    assert!(!sgx_supported(Architecture::X86_64, None));
    assert!(!sgx_supported(Architecture::AArch64, Some((0, 0x4, 0, 0))));
    let mut t = EnclaveTable::new();
    assert_eq!(enclave_count(&t), 0);
    assert!(enclave_info(&t, 0).is_none());
    for i in 0..8u8 {
        let e = create_enclave(&mut t, 0x1000 * (i as usize + 1), 0x100).unwrap();
        assert_eq!((e.id, e.base, e.size), (i, 0x1000 * (i as usize + 1), 0x100));
    }
    assert!(create_enclave(&mut t, 0, 0).is_none());
    assert_eq!(enclave_count(&t), 8);
    let e = enclave_info(&t, 3).unwrap();
    assert_eq!((e.id, e.base, e.size), (3, 0x4000, 0x100));
    assert!(enclave_info(&t, 8).is_none());
}

#[test]
fn formatting_leaves_the_front_of_the_buffer() {
    let mut buf = [b'x'; 20];
    let n = fmt_u64(4096, &mut buf).len();
    assert_eq!(n, 4);
    assert_eq!(&buf[..16], &[b'x'; 16][..]);
    assert_eq!(&buf[16..], b"4096");
    let mut full = [0u8; 20];
    assert_eq!(fmt_u64(u64::MAX, &mut full).len(), 20);
    assert_eq!(&full, b"18446744073709551615");
}

#[test]
fn only_chosen_mitigations_are_reported() {
    let mut s = MitigationState::new();
    for (arch, leaf) in [
        (Architecture::X86_64, Some((0, 0, 0, 0x0400_0000))),
        (Architecture::X86_64, Some((0, 0, 0, 0x8000_0000))),
        (Architecture::X86_64, None),
        (Architecture::AArch64, None),
        (Architecture::Other, None),
    ] {
        mitigations(&mut s, arch, leaf);
        let m = active_mitigation(&s);
        assert!(m != SpeculationMitigation::Ibpb && m != SpeculationMitigation::Stibp);
        assert_eq!(mitigations_active(&s), m != SpeculationMitigation::NoMitigation);
    }
}
