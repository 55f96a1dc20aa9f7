use vstd::prelude::*;

verus! {

pub const MAX_ZONES: usize = 8;

/// The thermal zones the platform has registered: the last temperature (millidegrees) of each
/// of up to eight zones, and how many zones exist (one past the highest registered index).
pub struct ThermalZones {
    temps: [usize; 8],
    count: usize,
}

impl ThermalZones {
    pub closed spec fn wf(&self) -> bool {
        &&& self.count <= 8
        &&& forall|i: int| 0 <= i < 8 ==> self.temps@[i] <= u32::MAX
    }

    /// The number of zones.
    pub closed spec fn zones(&self) -> nat {
        self.count as nat
    }

    /// There are never more than `MAX_ZONES` zones.
    pub proof fn law_zone_count_bounded(&self)
        requires
            self.wf(),
        ensures
            self.zones() <= MAX_ZONES,
    {
    }

    /// The recorded temperature of zone `i`.
    pub closed spec fn temp(&self, i: int) -> u32 {
        self.temps@[i] as u32
    }

    /// No zone registered.
    pub fn new() -> (z: Self)
        ensures
            z.wf(),
            z.zones() == 0,
            forall|i: int| 0 <= i < 8 ==> z.temp(i) == 0,
    {
        ThermalZones { temps: [0; 8], count: 0 }
    }
}

fn read_sysfs_temp(z: &ThermalZones, zone: usize) -> (t: u32)
    requires
        z.wf(),
        zone < 8,
    ensures
        t == z.temp(zone as int),
{
    let raw = z.temps[zone];
    raw as u32
}

/// The number of zones the platform has registered.
pub fn probe_zones(z: &ThermalZones) -> (n: usize)
    ensures
        n == z.zones(),
{
    z.count
}

/// The number of zones.
pub fn zone_count(z: &ThermalZones) -> (n: usize)
    ensures
        n == z.zones(),
{
    let c = z.count;
    if c == 0 {
        return probe_zones(z);
    }
    c
}

/// What reading zone `zone` gives: its temperature, or `None` for a zone that does not exist or
/// reads zero.
pub open spec fn zone_reading(z: ThermalZones, zone: usize) -> Option<u32> {
    if zone >= z.zones() || z.temp(zone as int) == 0 {
        None
    } else {
        Some(z.temp(zone as int))
    }
}

/// The temperature of zone `zone` (see `zone_reading`).
pub fn read_thermal_zone(z: &mut ThermalZones, zone: usize) -> (t: Option<u32>)
    requires
        old(z).wf(),
    ensures
        final(z).wf(),
        final(z).zones() == old(z).zones(),
        forall|i: int| 0 <= i < 8 ==> final(z).temp(i) == old(z).temp(i),
        t == zone_reading(*old(z), zone),
{
    if zone >= zone_count(z) {
        return None;
    }
    let live = read_sysfs_temp(z, zone);
    if live > 0 {
        z.temps[zone] = live as usize;
        return Some(live);
    }
    let raw = z.temps[zone];
    if raw == 0 {
        None
    } else {
        Some(raw as u32)
    }
}

/// Records `temp_millideg` for zone `zone` (0 to 7), extending the zone count to cover it;
/// returns false, changing nothing, for a zone index of 8 or more.
pub fn register_zone(z: &mut ThermalZones, zone: usize, temp_millideg: u32) -> (ok: bool)
    requires
        old(z).wf(),
    ensures
        final(z).wf(),
        ok == (zone < MAX_ZONES),
        ok ==> final(z).temp(zone as int) == temp_millideg,
        ok ==> forall|i: int| 0 <= i < 8 && i != zone ==> final(z).temp(i) == old(z).temp(i),
        ok ==> final(z).zones() == if zone >= old(z).zones() { zone + 1 } else { old(z).zones() as int },
        !ok ==> final(z).zones() == old(z).zones() && forall|i: int| 0 <= i < 8 ==> final(z).temp(i) == old(z).temp(i),
{
    if zone >= MAX_ZONES {
        return false;
    }
    z.temps[zone] = temp_millideg as usize;
    let count = z.count;
    if zone >= count {
        z.count = zone + 1;
    }
    true
}

/// Reading a zone gives back the temperature last registered for it (a zero temperature reads
/// as none), and registering one zone does not change what another reads.
pub proof fn law_register_then_read(before: ThermalZones, after: ThermalZones, zone: usize, temp_millideg: u32)
    requires
        before.wf(),
        zone < MAX_ZONES,
        after.temp(zone as int) == temp_millideg,
        forall|i: int| 0 <= i < 8 && i != zone ==> after.temp(i) == before.temp(i),
        after.zones() == if zone >= before.zones() { zone + 1 } else { before.zones() as int },
    ensures
        zone_reading(after, zone) == if temp_millideg != 0 { Some(temp_millideg) } else { None::<u32> },
        forall|other: usize| other != zone && other < before.zones() ==> #[trigger] zone_reading(after, other) == zone_reading(before, other),
{
    before.law_zone_count_bounded();
}

} // verus!
