use vstd::prelude::*;
use crate::arch::Architecture;
use crate::bits::any_bit;

verus! {

/// Kinds of accelerator.
#[derive(Clone, Copy, PartialEq, Eq, Structural)]
pub enum AcceleratorKind {
    Gpu,
    Tpu,
    Lpu,
}

/// A registered accelerator: its kind, the architecture it is driven on, its register window
/// and its PCI identity.
pub struct AccelHandle {
    pub kind: AcceleratorKind,
    pub arch: Architecture,
    pub mmio_base: usize,
    pub mmio_size: usize,
    pub initialized: bool,
    pub vendor_id: usize,
    pub device_id: usize,
}

/// Offset of an accelerator's control register (writing 1 resets it).
pub const ACCEL_CTRL: usize = 0x00;
/// Offset of an accelerator's status register.
pub const ACCEL_STATUS: usize = 0x04;

impl AccelHandle {
    /// A status register value (offset 0x04) reports the accelerator ready (bit 0).
    pub fn is_ready(&self, status: u32) -> (b: bool)
        ensures
            b == any_bit(status, 0x01),
    {
        status & 0x01 != 0
    }

    /// A status register value (offset 0x04) reports an error (bit 2).
    pub fn is_error(&self, status: u32) -> (b: bool)
        ensures
            b == any_bit(status, 0x04),
    {
        status & 0x04 != 0
    }

    /// The accelerator's registers can be read and written: only on x86-64 and AArch64. On any
    /// other architecture a register read gives 0 and a write does nothing.
    pub fn registers_reachable(&self) -> (b: bool)
        ensures
            b == (self.arch == Architecture::X86_64 || self.arch == Architecture::AArch64),
    {
        match (self.kind, self.arch) {
            (AcceleratorKind::Gpu, Architecture::X86_64) => true,
            (AcceleratorKind::Gpu, Architecture::AArch64) => true,
            (AcceleratorKind::Tpu, Architecture::X86_64) => true,
            (AcceleratorKind::Tpu, Architecture::AArch64) => true,
            (AcceleratorKind::Lpu, Architecture::X86_64) => true,
            (AcceleratorKind::Lpu, Architecture::AArch64) => true,
            _ => false,
        }
    }
}

/// One registration slot: the window, the identity and whether the slot is filled.
#[derive(Clone, Copy)]
pub struct AccelSlot {
    pub base: usize,
    pub size: usize,
    pub vendor: usize,
    pub devid: usize,
    pub ready: bool,
}

impl AccelSlot {
    /// An empty slot.
    pub fn new() -> (s: Self)
        ensures
            s == (AccelSlot { base: 0, size: 0, vendor: 0, devid: 0, ready: false }),
    {
        AccelSlot { base: 0, size: 0, vendor: 0, devid: 0, ready: false }
    }
}

/// The accelerator registry: one slot per kind.
pub struct AccelRegistry {
    pub gpu: AccelSlot,
    pub tpu: AccelSlot,
    pub lpu: AccelSlot,
}

impl AccelRegistry {
    /// No accelerator registered.
    pub fn new() -> (r: Self)
        ensures
            !r.gpu.ready && !r.tpu.ready && !r.lpu.ready,
    {
        AccelRegistry { gpu: AccelSlot::new(), tpu: AccelSlot::new(), lpu: AccelSlot::new() }
    }

    /// The slot of a kind.
    pub open spec fn slot(&self, kind: AcceleratorKind) -> AccelSlot {
        match kind {
            AcceleratorKind::Gpu => self.gpu,
            AcceleratorKind::Tpu => self.tpu,
            AcceleratorKind::Lpu => self.lpu,
        }
    }
}

/// The handle a filled slot gives on architecture `arch`.
pub open spec fn handle_of(kind: AcceleratorKind, s: AccelSlot, arch: Architecture) -> Option<AccelHandle> {
    if s.ready {
        Some(AccelHandle {
            kind,
            arch,
            mmio_base: s.base,
            mmio_size: s.size,
            initialized: true,
            vendor_id: s.vendor,
            device_id: s.devid,
        })
    } else {
        None
    }
}

pub fn register_gpu(r: &mut AccelRegistry, base: usize, size: usize, vendor: usize, devid: usize)
    ensures
        final(r).gpu == (AccelSlot { base, size, vendor, devid, ready: true }),
        final(r).tpu == old(r).tpu,
        final(r).lpu == old(r).lpu,
{
    r.gpu = AccelSlot { base, size, vendor, devid, ready: true };
}

pub fn register_tpu(r: &mut AccelRegistry, base: usize, size: usize, vendor: usize, devid: usize)
    ensures
        final(r).tpu == (AccelSlot { base, size, vendor, devid, ready: true }),
        final(r).gpu == old(r).gpu,
        final(r).lpu == old(r).lpu,
{
    r.tpu = AccelSlot { base, size, vendor, devid, ready: true };
}

pub fn register_lpu(r: &mut AccelRegistry, base: usize, size: usize, vendor: usize, devid: usize)
    ensures
        final(r).lpu == (AccelSlot { base, size, vendor, devid, ready: true }),
        final(r).gpu == old(r).gpu,
        final(r).tpu == old(r).tpu,
{
    r.lpu = AccelSlot { base, size, vendor, devid, ready: true };
}

fn slot_handle(kind: AcceleratorKind, s: &AccelSlot, arch: Architecture) -> (h: Option<AccelHandle>)
    ensures
        h == handle_of(kind, *s, arch),
{
    if !s.ready {
        return None;
    }
    Some(AccelHandle {
        kind,
        arch,
        mmio_base: s.base,
        mmio_size: s.size,
        initialized: true,
        vendor_id: s.vendor,
        device_id: s.devid,
    })
}

/// The GPU's handle, if one is registered.
pub fn gpu_handle(r: &AccelRegistry, arch: Architecture) -> (h: Option<AccelHandle>)
    ensures
        h == handle_of(AcceleratorKind::Gpu, r.gpu, arch),
{
    slot_handle(AcceleratorKind::Gpu, &r.gpu, arch)
}

/// The TPU's handle, if one is registered.
pub fn tpu_handle(r: &AccelRegistry, arch: Architecture) -> (h: Option<AccelHandle>)
    ensures
        h == handle_of(AcceleratorKind::Tpu, r.tpu, arch),
{
    slot_handle(AcceleratorKind::Tpu, &r.tpu, arch)
}

/// The LPU's handle, if one is registered.
pub fn lpu_handle(r: &AccelRegistry, arch: Architecture) -> (h: Option<AccelHandle>)
    ensures
        h == handle_of(AcceleratorKind::Lpu, r.lpu, arch),
{
    slot_handle(AcceleratorKind::Lpu, &r.lpu, arch)
}

/// What the architecture's bring-up reports of the accelerators: which ones its drivers
/// initialised, the GPU's register window on x86-64, and on AArch64 what the devicetree lookups
/// of "arm,gpu", "arm,tpu" and "arm,lpu" found (base, size, interrupt).
#[derive(Clone, Copy)]
pub struct AccelProbe {
    pub gpu_initialized: bool,
    pub tpu_initialized: bool,
    pub lpu_initialized: bool,
    pub gpu_window: (usize, usize),
    pub dt_gpu: Option<(usize, usize, u32)>,
    pub dt_tpu: Option<(usize, usize, u32)>,
    pub dt_lpu: Option<(usize, usize, u32)>,
}

/// A slot registered with a window and no PCI identity.
pub open spec fn window_slot(base: usize, size: usize) -> AccelSlot {
    AccelSlot { base, size, vendor: 0, devid: 0, ready: true }
}

/// The window a devicetree lookup found, or (0, 0) when it found nothing.
pub open spec fn dt_window(found: Option<(usize, usize, u32)>) -> (usize, usize) {
    match found {
        Some(n) => (n.0, n.1),
        None => (0, 0),
    }
}

/// The registry after the architecture's bring-up has registered what its drivers initialised:
/// on x86-64 the GPU with its register window and the TPU and LPU with an empty one; on AArch64
/// each with the window its devicetree lookup found (empty when none); nothing elsewhere.
pub open spec fn probed_registry(r: AccelRegistry, arch: Architecture, p: AccelProbe) -> AccelRegistry {
    if arch == Architecture::X86_64 {
        AccelRegistry {
            gpu: if p.gpu_initialized { window_slot(p.gpu_window.0, p.gpu_window.1) } else { r.gpu },
            tpu: if p.tpu_initialized { window_slot(0, 0) } else { r.tpu },
            lpu: if p.lpu_initialized { window_slot(0, 0) } else { r.lpu },
        }
    } else if arch == Architecture::AArch64 {
        AccelRegistry {
            gpu: if p.gpu_initialized { window_slot(dt_window(p.dt_gpu).0, dt_window(p.dt_gpu).1) } else { r.gpu },
            tpu: if p.tpu_initialized { window_slot(dt_window(p.dt_tpu).0, dt_window(p.dt_tpu).1) } else { r.tpu },
            lpu: if p.lpu_initialized { window_slot(dt_window(p.dt_lpu).0, dt_window(p.dt_lpu).1) } else { r.lpu },
        }
    } else {
        r
    }
}

fn dt_window_of(found: Option<(usize, usize, u32)>) -> (w: (usize, usize))
    ensures
        w == dt_window(found),
{
    match found {
        Some((base, size, _irq)) => (base, size),
        None => (0, 0),
    }
}

/// Registers the accelerators the architecture's bring-up initialised (see `probed_registry`).
pub fn register_probed(r: &mut AccelRegistry, arch: Architecture, p: &AccelProbe)
    ensures
        *final(r) == probed_registry(*old(r), arch, *p),
{
    match arch {
        Architecture::X86_64 => {
            if p.gpu_initialized {
                register_gpu(r, p.gpu_window.0, p.gpu_window.1, 0, 0);
            }
            if p.tpu_initialized {
                register_tpu(r, 0, 0, 0, 0);
            }
            if p.lpu_initialized {
                register_lpu(r, 0, 0, 0, 0);
            }
        },
        Architecture::AArch64 => {
            if p.gpu_initialized {
                let (gb, gs) = dt_window_of(p.dt_gpu);
                register_gpu(r, gb, gs, 0, 0);
            }
            if p.tpu_initialized {
                let (tb, ts) = dt_window_of(p.dt_tpu);
                register_tpu(r, tb, ts, 0, 0);
            }
            if p.lpu_initialized {
                let (lb, ls) = dt_window_of(p.dt_lpu);
                register_lpu(r, lb, ls, 0, 0);
            }
        },
        _ => {},
    }
}

} // verus!
