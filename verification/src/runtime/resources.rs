use vstd::prelude::*;
use crate::arith::{add_wrap, sub_wrap};

verus! {

/// The resource accounting shared by the runtime: bytes and allocation counts of DMA, memory
/// and swap, registered interrupts, claimed CPU threads, the limits, whether they are enforced,
/// and the time (in ns) of the last activity of each kind.
pub struct Resources {
    dma_allocated: usize,
    dma_limit: usize,
    dma_alloc_count: usize,
    mem_allocated: usize,
    mem_limit: usize,
    mem_alloc_count: usize,
    irq_registered: usize,
    irq_limit: usize,
    swap_allocated: usize,
    swap_alloc_count: usize,
    cpu_threads: usize,
    last_activity_dma: u64,
    last_activity_mem: u64,
    last_activity_irq: u64,
    last_activity_swap: u64,
    last_activity_cpu: u64,
    limits_enforced: bool,
}

/// The abstract state of the resource accounting.
#[verifier::ext_equal]
pub ghost struct ResourceView {
    pub dma_allocated: usize,
    pub dma_limit: usize,
    pub dma_alloc_count: usize,
    pub mem_allocated: usize,
    pub mem_limit: usize,
    pub mem_alloc_count: usize,
    pub irq_registered: usize,
    pub irq_limit: usize,
    pub swap_allocated: usize,
    pub swap_alloc_count: usize,
    pub cpu_threads: usize,
    pub last_activity_dma: u64,
    pub last_activity_mem: u64,
    pub last_activity_irq: u64,
    pub last_activity_swap: u64,
    pub last_activity_cpu: u64,
    pub limits_enforced: bool,
}

impl View for Resources {
    type V = ResourceView;

    closed spec fn view(&self) -> ResourceView {
        ResourceView {
            dma_allocated: self.dma_allocated,
            dma_limit: self.dma_limit,
            dma_alloc_count: self.dma_alloc_count,
            mem_allocated: self.mem_allocated,
            mem_limit: self.mem_limit,
            mem_alloc_count: self.mem_alloc_count,
            irq_registered: self.irq_registered,
            irq_limit: self.irq_limit,
            swap_allocated: self.swap_allocated,
            swap_alloc_count: self.swap_alloc_count,
            cpu_threads: self.cpu_threads,
            last_activity_dma: self.last_activity_dma,
            last_activity_mem: self.last_activity_mem,
            last_activity_irq: self.last_activity_irq,
            last_activity_swap: self.last_activity_swap,
            last_activity_cpu: self.last_activity_cpu,
            limits_enforced: self.limits_enforced,
        }
    }
}

/// The limit check of a DMA or memory request: it passes the platform gate, and, when limits
/// are enforced, the new total stays within the limit.
pub open spec fn admits(enforced: bool, gate_ok: bool, current: usize, bytes: usize, limit: usize) -> bool {
    gate_ok && (!enforced || current + bytes <= limit)
}

/// The state after granting `bytes` of DMA memory at time `now`.
pub open spec fn granted_dma(v: ResourceView, bytes: usize, now: u64) -> ResourceView {
    ResourceView {
        dma_allocated: add_wrap(v.dma_allocated, bytes),
        dma_alloc_count: add_wrap(v.dma_alloc_count, 1),
        last_activity_dma: now,
        ..v
    }
}

/// The state after returning `bytes` of DMA memory at time `now`.
pub open spec fn freed_dma(v: ResourceView, bytes: usize, now: u64) -> ResourceView {
    ResourceView {
        dma_allocated: sub_wrap(v.dma_allocated, bytes),
        dma_alloc_count: if v.dma_allocated >= bytes { sub_wrap(v.dma_alloc_count, 1) } else { v.dma_alloc_count },
        last_activity_dma: now,
        ..v
    }
}

/// The state after granting `bytes` of memory at time `now`.
pub open spec fn granted_mem(v: ResourceView, bytes: usize, now: u64) -> ResourceView {
    ResourceView {
        mem_allocated: add_wrap(v.mem_allocated, bytes),
        mem_alloc_count: add_wrap(v.mem_alloc_count, 1),
        last_activity_mem: now,
        ..v
    }
}

/// The state after returning `bytes` of memory at time `now`.
pub open spec fn freed_mem(v: ResourceView, bytes: usize, now: u64) -> ResourceView {
    ResourceView {
        mem_allocated: sub_wrap(v.mem_allocated, bytes),
        mem_alloc_count: if v.mem_allocated >= bytes { sub_wrap(v.mem_alloc_count, 1) } else { v.mem_alloc_count },
        last_activity_mem: now,
        ..v
    }
}

/// The state after granting `bytes` of swap at time `now`.
pub open spec fn granted_swap(v: ResourceView, bytes: usize, now: u64) -> ResourceView {
    ResourceView {
        swap_allocated: add_wrap(v.swap_allocated, bytes),
        swap_alloc_count: add_wrap(v.swap_alloc_count, 1),
        last_activity_swap: now,
        ..v
    }
}

/// The state after returning `bytes` of swap at time `now`.
pub open spec fn freed_swap(v: ResourceView, bytes: usize, now: u64) -> ResourceView {
    ResourceView {
        swap_allocated: sub_wrap(v.swap_allocated, bytes),
        swap_alloc_count: if v.swap_allocated >= bytes { sub_wrap(v.swap_alloc_count, 1) } else { v.swap_alloc_count },
        last_activity_swap: now,
        ..v
    }
}

/// The state after zeroing every count, total and activity time.
pub open spec fn counters_reset(v: ResourceView) -> ResourceView {
    ResourceView {
        dma_allocated: 0,
        dma_alloc_count: 0,
        mem_allocated: 0,
        mem_alloc_count: 0,
        irq_registered: 0,
        swap_allocated: 0,
        swap_alloc_count: 0,
        cpu_threads: 0,
        last_activity_dma: 0,
        last_activity_mem: 0,
        last_activity_irq: 0,
        last_activity_swap: 0,
        last_activity_cpu: 0,
        ..v
    }
}

impl Resources {
    /// The state with nothing allocated and no limit enforced: DMA and memory limits at
    /// `usize::MAX`, at most 256 interrupts.
    pub open spec fn new_view() -> ResourceView {
        ResourceView {
            dma_allocated: 0,
            dma_limit: usize::MAX,
            dma_alloc_count: 0,
            mem_allocated: 0,
            mem_limit: usize::MAX,
            mem_alloc_count: 0,
            irq_registered: 0,
            irq_limit: 256,
            swap_allocated: 0,
            swap_alloc_count: 0,
            cpu_threads: 0,
            last_activity_dma: 0,
            last_activity_mem: 0,
            last_activity_irq: 0,
            last_activity_swap: 0,
            last_activity_cpu: 0,
            limits_enforced: false,
        }
    }

    /// Nothing allocated, no limit enforced (see `new_view`).
    pub fn new() -> (r: Self)
        ensures
            r@ == Self::new_view(),
            r@ == (ResourceView {
                dma_allocated: 0,
                dma_limit: usize::MAX,
                dma_alloc_count: 0,
                mem_allocated: 0,
                mem_limit: usize::MAX,
                mem_alloc_count: 0,
                irq_registered: 0,
                irq_limit: 256,
                swap_allocated: 0,
                swap_alloc_count: 0,
                cpu_threads: 0,
                last_activity_dma: 0,
                last_activity_mem: 0,
                last_activity_irq: 0,
                last_activity_swap: 0,
                last_activity_cpu: 0,
                limits_enforced: false,
            }),
    {
        Resources {
            dma_allocated: 0,
            dma_limit: usize::MAX,
            dma_alloc_count: 0,
            mem_allocated: 0,
            mem_limit: usize::MAX,
            mem_alloc_count: 0,
            irq_registered: 0,
            irq_limit: 256,
            swap_allocated: 0,
            swap_alloc_count: 0,
            cpu_threads: 0,
            last_activity_dma: 0,
            last_activity_mem: 0,
            last_activity_irq: 0,
            last_activity_swap: 0,
            last_activity_cpu: 0,
            limits_enforced: false,
        }
    }
}

pub fn enforce_limits(r: &mut Resources, enable: bool)
    ensures
        final(r)@ == (ResourceView { limits_enforced: enable, ..old(r)@ }),
{
    r.limits_enforced = enable;
}

pub fn limits_active(r: &Resources) -> (b: bool)
    ensures
        b == r@.limits_enforced,
{
    r.limits_enforced
}

pub fn set_dma_limit(r: &mut Resources, bytes: usize)
    ensures
        final(r)@ == (ResourceView { dma_limit: bytes, ..old(r)@ }),
{
    r.dma_limit = bytes;
}

pub fn dma_limit(r: &Resources) -> (n: usize)
    ensures
        n == r@.dma_limit,
{
    r.dma_limit
}

/// Grants `bytes` of DMA memory when the platform gate (`gate_ok`) allows it and, with limits
/// enforced, the total stays within the DMA limit; a grant adds the bytes (wrapping), counts
/// one allocation and stamps the DMA activity time with `now`. Returns whether it granted.
pub fn try_alloc_dma(r: &mut Resources, bytes: usize, gate_ok: bool, now: u64) -> (ok: bool)
    requires
        gate_ok && old(r)@.limits_enforced ==> old(r)@.dma_allocated + bytes <= usize::MAX,
    ensures
        ok == admits(old(r)@.limits_enforced, gate_ok, old(r)@.dma_allocated, bytes, old(r)@.dma_limit),
        ok ==> final(r)@ == granted_dma(old(r)@, bytes, now),
        !ok ==> final(r)@ == old(r)@,
{
    let current = r.dma_allocated;
    if !gate_ok {
        return false;
    }
    if !r.limits_enforced {
        r.dma_allocated = r.dma_allocated.wrapping_add(bytes);
        r.dma_alloc_count = r.dma_alloc_count.wrapping_add(1);
        r.last_activity_dma = now;
        return true;
    }
    let limit = r.dma_limit;
    if current + bytes > limit {
        return false;
    }
    r.dma_allocated = r.dma_allocated.wrapping_add(bytes);
    r.dma_alloc_count = r.dma_alloc_count.wrapping_add(1);
    r.last_activity_dma = now;
    true
}

/// Returns `bytes` of DMA memory (wrapping); the allocation count drops by one when at least
/// that many bytes were outstanding. Stamps the DMA activity time.
pub fn free_dma(r: &mut Resources, bytes: usize, now: u64)
    ensures
        final(r)@ == freed_dma(old(r)@, bytes, now),
{
    let prev = r.dma_allocated;
    r.dma_allocated = r.dma_allocated.wrapping_sub(bytes);
    if prev >= bytes {
        r.dma_alloc_count = r.dma_alloc_count.wrapping_sub(1);
    }
    r.last_activity_dma = now;
}

pub fn dma_allocated(r: &Resources) -> (n: usize)
    ensures
        n == r@.dma_allocated,
{
    r.dma_allocated
}

pub fn dma_alloc_count(r: &Resources) -> (n: usize)
    ensures
        n == r@.dma_alloc_count,
{
    r.dma_alloc_count
}

pub fn set_memory_limit(r: &mut Resources, bytes: usize)
    ensures
        final(r)@ == (ResourceView { mem_limit: bytes, ..old(r)@ }),
{
    r.mem_limit = bytes;
}

pub fn memory_limit(r: &Resources) -> (n: usize)
    ensures
        n == r@.mem_limit,
{
    r.mem_limit
}

/// Grants `bytes` of memory under the same rule as DMA, against the memory limit.
pub fn try_alloc_memory(r: &mut Resources, bytes: usize, gate_ok: bool, now: u64) -> (ok: bool)
    requires
        gate_ok && old(r)@.limits_enforced ==> old(r)@.mem_allocated + bytes <= usize::MAX,
    ensures
        ok == admits(old(r)@.limits_enforced, gate_ok, old(r)@.mem_allocated, bytes, old(r)@.mem_limit),
        ok ==> final(r)@ == granted_mem(old(r)@, bytes, now),
        !ok ==> final(r)@ == old(r)@,
{
    let current = r.mem_allocated;
    if !gate_ok {
        return false;
    }
    if !r.limits_enforced {
        r.mem_allocated = r.mem_allocated.wrapping_add(bytes);
        r.mem_alloc_count = r.mem_alloc_count.wrapping_add(1);
        r.last_activity_mem = now;
        return true;
    }
    let limit = r.mem_limit;
    if current + bytes > limit {
        return false;
    }
    r.mem_allocated = r.mem_allocated.wrapping_add(bytes);
    r.mem_alloc_count = r.mem_alloc_count.wrapping_add(1);
    r.last_activity_mem = now;
    true
}

/// Returns `bytes` of memory under the same rule as DMA.
pub fn free_memory(r: &mut Resources, bytes: usize, now: u64)
    ensures
        final(r)@ == freed_mem(old(r)@, bytes, now),
{
    let prev = r.mem_allocated;
    r.mem_allocated = r.mem_allocated.wrapping_sub(bytes);
    if prev >= bytes {
        r.mem_alloc_count = r.mem_alloc_count.wrapping_sub(1);
    }
    r.last_activity_mem = now;
}

pub fn memory_allocated(r: &Resources) -> (n: usize)
    ensures
        n == r@.mem_allocated,
{
    r.mem_allocated
}

pub fn memory_alloc_count(r: &Resources) -> (n: usize)
    ensures
        n == r@.mem_alloc_count,
{
    r.mem_alloc_count
}

pub fn set_irq_limit(r: &mut Resources, max: usize)
    ensures
        final(r)@ == (ResourceView { irq_limit: max, ..old(r)@ }),
{
    r.irq_limit = max;
}

/// Registers one interrupt when the platform gate allows it and, with limits enforced, fewer
/// than the limit are registered; stamps the interrupt activity time. Returns whether it did.
pub fn try_register_irq(r: &mut Resources, gate_ok: bool, now: u64) -> (ok: bool)
    ensures
        ok == (gate_ok && (!old(r)@.limits_enforced || old(r)@.irq_registered < old(r)@.irq_limit)),
        ok ==> final(r)@ == (ResourceView {
            irq_registered: add_wrap(old(r)@.irq_registered, 1),
            last_activity_irq: now,
            ..old(r)@
        }),
        !ok ==> final(r)@ == old(r)@,
{
    let current = r.irq_registered;
    if !gate_ok {
        return false;
    }
    if !r.limits_enforced {
        r.irq_registered = r.irq_registered.wrapping_add(1);
        r.last_activity_irq = now;
        return true;
    }
    let limit = r.irq_limit;
    if current >= limit {
        return false;
    }
    r.irq_registered = r.irq_registered.wrapping_add(1);
    r.last_activity_irq = now;
    true
}

/// Unregisters one interrupt (wrapping) and stamps the interrupt activity time.
pub fn unregister_irq(r: &mut Resources, now: u64)
    ensures
        final(r)@ == (ResourceView {
            irq_registered: sub_wrap(old(r)@.irq_registered, 1),
            last_activity_irq: now,
            ..old(r)@
        }),
{
    r.irq_registered = r.irq_registered.wrapping_sub(1);
    r.last_activity_irq = now;
}

pub fn irq_registered(r: &Resources) -> (n: usize)
    ensures
        n == r@.irq_registered,
{
    r.irq_registered
}

/// Grants `bytes` of swap when the platform gate allows it (no limit applies to swap).
pub fn try_alloc_swap(r: &mut Resources, bytes: usize, gate_ok: bool, now: u64) -> (ok: bool)
    ensures
        ok == gate_ok,
        ok ==> final(r)@ == granted_swap(old(r)@, bytes, now),
        !ok ==> final(r)@ == old(r)@,
{
    if !gate_ok {
        return false;
    }
    r.swap_allocated = r.swap_allocated.wrapping_add(bytes);
    r.swap_alloc_count = r.swap_alloc_count.wrapping_add(1);
    r.last_activity_swap = now;
    true
}

/// Returns `bytes` of swap under the same rule as DMA.
pub fn free_swap(r: &mut Resources, bytes: usize, now: u64)
    ensures
        final(r)@ == freed_swap(old(r)@, bytes, now),
{
    let prev = r.swap_allocated;
    r.swap_allocated = r.swap_allocated.wrapping_sub(bytes);
    if prev >= bytes {
        r.swap_alloc_count = r.swap_alloc_count.wrapping_sub(1);
    }
    r.last_activity_swap = now;
}

pub fn swap_allocated(r: &Resources) -> (n: usize)
    ensures
        n == r@.swap_allocated,
{
    r.swap_allocated
}

pub fn swap_alloc_count(r: &Resources) -> (n: usize)
    ensures
        n == r@.swap_alloc_count,
{
    r.swap_alloc_count
}

/// Claims `threads` CPU threads when the platform gate allows it.
pub fn try_alloc_cpu(r: &mut Resources, threads: usize, gate_ok: bool, now: u64) -> (ok: bool)
    ensures
        ok == gate_ok,
        ok ==> final(r)@ == (ResourceView {
            cpu_threads: add_wrap(old(r)@.cpu_threads, threads),
            last_activity_cpu: now,
            ..old(r)@
        }),
        !ok ==> final(r)@ == old(r)@,
{
    if !gate_ok {
        return false;
    }
    r.cpu_threads = r.cpu_threads.wrapping_add(threads);
    r.last_activity_cpu = now;
    true
}

/// Releases `threads` CPU threads (wrapping) and stamps the CPU activity time.
pub fn free_cpu(r: &mut Resources, threads: usize, now: u64)
    ensures
        final(r)@ == (ResourceView {
            cpu_threads: sub_wrap(old(r)@.cpu_threads, threads),
            last_activity_cpu: now,
            ..old(r)@
        }),
{
    r.cpu_threads = r.cpu_threads.wrapping_sub(threads);
    r.last_activity_cpu = now;
}

pub fn cpu_threads(r: &Resources) -> (n: usize)
    ensures
        n == r@.cpu_threads,
{
    r.cpu_threads
}

/// Zeroes every count, total and activity time; limits and their enforcement stay.
pub fn reset_counters(r: &mut Resources)
    ensures
        final(r)@ == counters_reset(old(r)@),
{
    r.dma_allocated = 0;
    r.dma_alloc_count = 0;
    r.mem_allocated = 0;
    r.mem_alloc_count = 0;
    r.irq_registered = 0;
    r.swap_allocated = 0;
    r.swap_alloc_count = 0;
    r.cpu_threads = 0;
    r.last_activity_dma = 0;
    r.last_activity_mem = 0;
    r.last_activity_irq = 0;
    r.last_activity_swap = 0;
    r.last_activity_cpu = 0;
}

pub fn last_activity_dma(r: &Resources) -> (t: u64)
    ensures
        t == r@.last_activity_dma,
{
    r.last_activity_dma
}

pub fn last_activity_mem(r: &Resources) -> (t: u64)
    ensures
        t == r@.last_activity_mem,
{
    r.last_activity_mem
}

pub fn last_activity_irq(r: &Resources) -> (t: u64)
    ensures
        t == r@.last_activity_irq,
{
    r.last_activity_irq
}

pub fn last_activity_swap(r: &Resources) -> (t: u64)
    ensures
        t == r@.last_activity_swap,
{
    r.last_activity_swap
}

pub fn last_activity_cpu(r: &Resources) -> (t: u64)
    ensures
        t == r@.last_activity_cpu,
{
    r.last_activity_cpu
}

/// Forgets all DMA allocations.
pub fn force_reset_dma(r: &mut Resources)
    ensures
        final(r)@ == (ResourceView { dma_allocated: 0, dma_alloc_count: 0, last_activity_dma: 0, ..old(r)@ }),
{
    r.dma_allocated = 0;
    r.dma_alloc_count = 0;
    r.last_activity_dma = 0;
}

/// Forgets all memory allocations.
pub fn force_reset_mem(r: &mut Resources)
    ensures
        final(r)@ == (ResourceView { mem_allocated: 0, mem_alloc_count: 0, last_activity_mem: 0, ..old(r)@ }),
{
    r.mem_allocated = 0;
    r.mem_alloc_count = 0;
    r.last_activity_mem = 0;
}

/// Forgets all interrupt registrations.
pub fn force_reset_irq(r: &mut Resources)
    ensures
        final(r)@ == (ResourceView { irq_registered: 0, last_activity_irq: 0, ..old(r)@ }),
{
    r.irq_registered = 0;
    r.last_activity_irq = 0;
}

/// Forgets all swap allocations.
pub fn force_reset_swap(r: &mut Resources)
    ensures
        final(r)@ == (ResourceView { swap_allocated: 0, swap_alloc_count: 0, last_activity_swap: 0, ..old(r)@ }),
{
    r.swap_allocated = 0;
    r.swap_alloc_count = 0;
    r.last_activity_swap = 0;
}

/// Forgets all claimed CPU threads.
pub fn force_reset_cpu(r: &mut Resources)
    ensures
        final(r)@ == (ResourceView { cpu_threads: 0, last_activity_cpu: 0, ..old(r)@ }),
{
    r.cpu_threads = 0;
    r.last_activity_cpu = 0;
}

/// What an idle-reaping pass released.
pub struct ReapResult {
    pub dma_reaped: bool,
    pub mem_reaped: bool,
    pub irq_reaped: bool,
    pub swap_reaped: bool,
    pub cpu_reaped: bool,
    pub workers_killed: usize,
}

/// A copy of the accounting state (activity times left out).
pub struct ResourceSnapshot {
    pub dma_allocated: usize,
    pub dma_limit: usize,
    pub dma_alloc_count: usize,
    pub mem_allocated: usize,
    pub mem_limit: usize,
    pub mem_alloc_count: usize,
    pub irq_registered: usize,
    pub irq_limit: usize,
    pub limits_enforced: bool,
    pub swap_allocated: usize,
    pub swap_alloc_count: usize,
    pub cpu_threads: usize,
}

/// The snapshot a state gives.
pub open spec fn snapshot_of(v: ResourceView) -> ResourceSnapshot {
    ResourceSnapshot {
        dma_allocated: v.dma_allocated,
        dma_limit: v.dma_limit,
        dma_alloc_count: v.dma_alloc_count,
        mem_allocated: v.mem_allocated,
        mem_limit: v.mem_limit,
        mem_alloc_count: v.mem_alloc_count,
        irq_registered: v.irq_registered,
        irq_limit: v.irq_limit,
        limits_enforced: v.limits_enforced,
        swap_allocated: v.swap_allocated,
        swap_alloc_count: v.swap_alloc_count,
        cpu_threads: v.cpu_threads,
    }
}

pub fn snapshot(r: &Resources) -> (s: ResourceSnapshot)
    ensures
        s == snapshot_of(r@),
{
    ResourceSnapshot {
        dma_allocated: r.dma_allocated,
        dma_limit: r.dma_limit,
        dma_alloc_count: r.dma_alloc_count,
        mem_allocated: r.mem_allocated,
        mem_limit: r.mem_limit,
        mem_alloc_count: r.mem_alloc_count,
        irq_registered: r.irq_registered,
        irq_limit: r.irq_limit,
        limits_enforced: r.limits_enforced,
        swap_allocated: r.swap_allocated,
        swap_alloc_count: r.swap_alloc_count,
        cpu_threads: r.cpu_threads,
    }
}

/// With limits enforced, a granted DMA or memory request leaves the allocated total within its
/// limit, so an accounting that starts within its limits stays within them.
pub proof fn law_enforced_limits_hold(v: ResourceView, bytes: usize, gate_ok: bool, now: u64)
    requires
        v.limits_enforced,
    ensures
        admits(v.limits_enforced, gate_ok, v.dma_allocated, bytes, v.dma_limit)
            ==> granted_dma(v, bytes, now).dma_allocated <= v.dma_limit
            && granted_dma(v, bytes, now).dma_limit == v.dma_limit,
        admits(v.limits_enforced, gate_ok, v.mem_allocated, bytes, v.mem_limit)
            ==> granted_mem(v, bytes, now).mem_allocated <= v.mem_limit
            && granted_mem(v, bytes, now).mem_limit == v.mem_limit,
{
}

/// Freeing what was just allocated gives the allocated total back in every case (both wrap
/// modulo 2^usize::BITS), and, unless the allocation carried the total past `usize::MAX`,
/// restores the accounting as it was before the allocation, the allocation count included (it
/// wraps back too), except for the time of the last activity.
pub proof fn law_free_undoes_alloc(v: ResourceView, bytes: usize, t1: u64, t2: u64)
    ensures
        freed_dma(granted_dma(v, bytes, t1), bytes, t2).dma_allocated == v.dma_allocated,
        freed_mem(granted_mem(v, bytes, t1), bytes, t2).mem_allocated == v.mem_allocated,
        freed_swap(granted_swap(v, bytes, t1), bytes, t2).swap_allocated == v.swap_allocated,
        v.dma_allocated + bytes <= usize::MAX
            ==> freed_dma(granted_dma(v, bytes, t1), bytes, t2) == (ResourceView { last_activity_dma: t2, ..v }),
        v.mem_allocated + bytes <= usize::MAX
            ==> freed_mem(granted_mem(v, bytes, t1), bytes, t2) == (ResourceView { last_activity_mem: t2, ..v }),
        v.swap_allocated + bytes <= usize::MAX
            ==> freed_swap(granted_swap(v, bytes, t1), bytes, t2) == (ResourceView { last_activity_swap: t2, ..v }),
{
}

} // verus!
