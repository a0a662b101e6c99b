//! The console's CPU address map: region bounds, the interrupt vectors,
//! and the mirroring rules that make every 16-bit address land on a
//! backing cell.
use vstd::prelude::*;

verus! {

/// Internal RAM occupies the first 2 KiB and is mirrored up to 0x1FFF.
pub const RAM_START: u16 = 0x0000;
pub const RAM_END: u16 = 0x07FF;
pub const RAM_MIRROR_END: u16 = 0x1FFF;

/// Zero page: the first 256 bytes, used by the short addressing modes.
pub const ZERO_PAGE_START: u16 = 0x0000;
pub const ZERO_PAGE_END: u16 = 0x00FF;

/// The stack page: 0x0100 + SP addresses this region.
pub const STACK_START: u16 = 0x0100;
pub const STACK_END: u16 = 0x01FF;

/// PPU registers, eight of them, mirrored through 0x3FFF.
pub const PPU_START: u16 = 0x2000;
pub const PPU_END: u16 = 0x2007;
pub const PPU_MIRROR_END: u16 = 0x3FFF;

/// APU and I/O registers.
pub const APU_IO_START: u16 = 0x4000;
pub const APU_IO_END: u16 = 0x4017;

/// Cartridge space; PRG-ROM is mapped here.
pub const CARTRIDGE_START: u16 = 0x4020;
pub const CARTRIDGE_END: u16 = 0xFFFF;

/// Interrupt vectors: each a little-endian pointer in high memory.
pub const NMI_VECTOR: u16 = 0xFFFA;
pub const RESET_VECTOR: u16 = 0xFFFC;
pub const IRQ_BRK_VECTOR: u16 = 0xFFFE;

/// The backing cell that an address reaches once mirroring is applied:
/// internal RAM repeats every 0x0800 up to 0x1FFF, the eight PPU registers
/// repeat through 0x3FFF, and everything above is mapped flat.
pub open spec fn phys(addr: u16) -> int {
    if addr < 0x2000 {
        (addr as int) % 0x800
    } else if addr < 0x4000 {
        0x2000 + (addr as int - 0x2000) % 8
    } else {
        addr as int
    }
}

/// Mirror an internal-RAM address onto the 2 KiB backing region.
pub fn mirror_ram(addr: u16) -> (r: u16)
    requires
        addr <= RAM_MIRROR_END,
    ensures
        r as int == phys(addr),
{
    proof {
        assert(addr < 0x2000 ==> (addr & 0x07FF) == addr as int % 0x800) by (bit_vector);
    }
    addr & 0x07FF
}

/// Mirror a PPU-register address onto the eight registers at 0x2000.
pub fn mirror_ppu(addr: u16) -> (r: u16)
    requires
        PPU_START <= addr <= PPU_MIRROR_END,
    ensures
        r as int == phys(addr),
{
    proof {
        assert(0x2000 <= addr < 0x4000 ==> (0x2000 | (addr & 0x0007)) == 0x2000 + (addr as int
            - 0x2000) % 8) by (bit_vector);
    }
    0x2000 | (addr & 0x0007)
}

/// Apply the full mirroring policy to any address.
pub fn mirror(addr: u16) -> (r: u16)
    ensures
        r as int == phys(addr),
{
    if addr <= RAM_MIRROR_END {
        mirror_ram(addr)
    } else if addr <= PPU_MIRROR_END {
        mirror_ppu(addr)
    } else {
        addr
    }
}

} // verus!
