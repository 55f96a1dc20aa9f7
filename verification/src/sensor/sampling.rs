use vstd::prelude::*;

verus! {

/// Output data rates.
#[derive(Clone, Copy, PartialEq, Eq, Structural)]
pub enum SampleRate {
    Hz1,
    Hz10,
    Hz25,
    Hz50,
    Hz100,
    Hz200,
    Hz400,
    Hz800,
}

/// The shared sampling setting: the current rate in Hz.
pub struct SamplingConfig {
    rate_hz: u32,
}

/// The frequency of each rate, in Hz.
pub open spec fn hz_of(rate: SampleRate) -> u32 {
    match rate {
        SampleRate::Hz1 => 1,
        SampleRate::Hz10 => 10,
        SampleRate::Hz25 => 25,
        SampleRate::Hz50 => 50,
        SampleRate::Hz100 => 100,
        SampleRate::Hz200 => 200,
        SampleRate::Hz400 => 400,
        SampleRate::Hz800 => 800,
    }
}

/// The rate-register code of each rate: 1 for the slowest up to 8 for the fastest.
pub open spec fn register_code_of(rate: SampleRate) -> u32 {
    match rate {
        SampleRate::Hz1 => 0x01,
        SampleRate::Hz10 => 0x02,
        SampleRate::Hz25 => 0x03,
        SampleRate::Hz50 => 0x04,
        SampleRate::Hz100 => 0x05,
        SampleRate::Hz200 => 0x06,
        SampleRate::Hz400 => 0x07,
        SampleRate::Hz800 => 0x08,
    }
}

impl SamplingConfig {
    pub closed spec fn rate(&self) -> u32 {
        self.rate_hz
    }

    /// The power-on setting: 100 Hz.
    pub fn new() -> (c: Self)
        ensures
            c.rate() == 100,
    {
        SamplingConfig { rate_hz: 100 }
    }
}

pub fn rate_to_hz(rate: SampleRate) -> (hz: u32)
    ensures
        hz == hz_of(rate),
        1 <= hz <= 800,
{
    match rate {
        SampleRate::Hz1 => 1,
        SampleRate::Hz10 => 10,
        SampleRate::Hz25 => 25,
        SampleRate::Hz50 => 50,
        SampleRate::Hz100 => 100,
        SampleRate::Hz200 => 200,
        SampleRate::Hz400 => 400,
        SampleRate::Hz800 => 800,
    }
}

pub fn rate_to_register(rate: SampleRate) -> (code: u32)
    ensures
        code == register_code_of(rate),
{
    match rate {
        SampleRate::Hz1 => 0x01,
        SampleRate::Hz10 => 0x02,
        SampleRate::Hz25 => 0x03,
        SampleRate::Hz50 => 0x04,
        SampleRate::Hz100 => 0x05,
        SampleRate::Hz200 => 0x06,
        SampleRate::Hz400 => 0x07,
        SampleRate::Hz800 => 0x08,
    }
}

/// Faster rates have larger register codes: the code orders rates as their frequencies do.
pub proof fn law_register_code_monotone(a: SampleRate, b: SampleRate)
    ensures
        hz_of(a) < hz_of(b) <==> register_code_of(a) < register_code_of(b),
{
}

/// Records `rate` as the current rate.
pub fn set_rate(cfg: &mut SamplingConfig, rate: SampleRate)
    ensures
        final(cfg).rate() == hz_of(rate),
{
    cfg.rate_hz = rate_to_hz(rate);
}

/// The current rate in Hz.
pub fn current_rate_hz(cfg: &SamplingConfig) -> (hz: u32)
    ensures
        hz == cfg.rate(),
{
    cfg.rate_hz
}

/// The sampling period in microseconds, rounded down.
pub fn period_us(rate: SampleRate) -> (us: u32)
    ensures
        us == 1_000_000u32 / hz_of(rate),
{
    let hz = rate_to_hz(rate);
    if hz == 0 {
        return 0;
    }
    1_000_000 / hz
}

/// The number of whole samples taken in `ms` milliseconds, when `hz * ms` fits in `u32`.
pub fn samples_for_duration_ms(rate: SampleRate, ms: u32) -> (n: u32)
    requires
        hz_of(rate) * ms <= u32::MAX,
    ensures
        n == (hz_of(rate) * ms) / 1000,
{
    let hz = rate_to_hz(rate);
    (hz * ms) / 1000
}

} // verus!
