use vstd::prelude::*;

verus! {

/// Block-device operations.
#[derive(Copy, Clone, PartialEq, Eq, Structural)]
pub enum CommandOpcode {
    Read,
    Write,
    Flush,
    Trim,
    Identify,
}

/// One block-device command: what to do, where on the device, how many sectors, and the
/// buffer address involved.
#[derive(Copy, Clone)]
pub struct Command {
    pub opcode: CommandOpcode,
    pub lba: u64,
    pub sector_count: u32,
    pub buffer_addr: u64,
    pub flags: u32,
}

/// Reads `sectors` sectors starting at `lba` into the buffer at `buf`.
pub fn read_cmd(lba: u64, sectors: u32, buf: u64) -> (c: Command)
    ensures
        c == (Command { opcode: CommandOpcode::Read, lba, sector_count: sectors, buffer_addr: buf, flags: 0 }),
{
    Command { opcode: CommandOpcode::Read, lba, sector_count: sectors, buffer_addr: buf, flags: 0 }
}

/// Writes `sectors` sectors starting at `lba` from the buffer at `buf`.
pub fn write_cmd(lba: u64, sectors: u32, buf: u64) -> (c: Command)
    ensures
        c == (Command { opcode: CommandOpcode::Write, lba, sector_count: sectors, buffer_addr: buf, flags: 0 }),
{
    Command { opcode: CommandOpcode::Write, lba, sector_count: sectors, buffer_addr: buf, flags: 0 }
}

/// Flushes the device's write cache; it addresses nothing.
pub fn flush_cmd() -> (c: Command)
    ensures
        c == (Command { opcode: CommandOpcode::Flush, lba: 0, sector_count: 0, buffer_addr: 0, flags: 0 }),
{
    Command { opcode: CommandOpcode::Flush, lba: 0, sector_count: 0, buffer_addr: 0, flags: 0 }
}

/// Discards `sectors` sectors starting at `lba`; no buffer is involved.
pub fn trim_cmd(lba: u64, sectors: u32) -> (c: Command)
    ensures
        c == (Command { opcode: CommandOpcode::Trim, lba, sector_count: sectors, buffer_addr: 0, flags: 0 }),
{
    Command { opcode: CommandOpcode::Trim, lba, sector_count: sectors, buffer_addr: 0, flags: 0 }
}

/// Reads the device's one-sector identification block into the buffer at `buf`.
pub fn identify_cmd(buf: u64) -> (c: Command)
    ensures
        c == (Command { opcode: CommandOpcode::Identify, lba: 0, sector_count: 1, buffer_addr: buf, flags: 0 }),
{
    Command { opcode: CommandOpcode::Identify, lba: 0, sector_count: 1, buffer_addr: buf, flags: 0 }
}

} // verus!
