//! The mathematical model of the processor: a ghost machine state and one
//! spec-level transformer per instruction family. Every executable method
//! of the interpreter is specified as producing exactly the state that the
//! matching transformer describes.
use vstd::prelude::*;
use crate::mmap::{phys, IRQ_BRK_VECTOR, NMI_VECTOR};

verus! {

/// Processor-status bit masks, layout N V 1 B D I Z C (bit 7 down to bit 0).
pub const FLAG_C: u8 = 0x01;
pub const FLAG_Z: u8 = 0x02;
pub const FLAG_I: u8 = 0x04;
pub const FLAG_D: u8 = 0x08;
pub const FLAG_B: u8 = 0x10;
pub const FLAG_U: u8 = 0x20;
pub const FLAG_V: u8 = 0x40;
pub const FLAG_N: u8 = 0x80;

/// The abstract machine state: register file plus the 64 KiB memory image.
pub ghost struct CpuState {
    pub pc: u16,
    pub sp: u8,
    pub a: u8,
    pub x: u8,
    pub y: u8,
    pub p: u8,
    pub ram: Seq<u8>,
}

/// A state is well formed when its memory image covers the whole address
/// space and the status byte keeps bit 5 set and bit 4 clear; the B bit
/// exists only in bytes pushed on the stack.
pub open spec fn st_wf(s: CpuState) -> bool {
    &&& s.ram.len() == 0x10000
    &&& s.p & 0x30 == 0x20
}

/// Read one byte, with mirroring applied.
pub open spec fn mread(ram: Seq<u8>, addr: u16) -> u8 {
    ram[phys(addr)]
}

/// Write one byte, with mirroring applied.
pub open spec fn mwrite(ram: Seq<u8>, addr: u16, v: u8) -> Seq<u8> {
    ram.update(phys(addr), v)
}

/// Set or clear one status bit.
pub open spec fn flag_set(p: u8, mask: u8, on: bool) -> u8 {
    if on {
        p | mask
    } else {
        p & !mask
    }
}

/// Test one status bit.
pub open spec fn flag_get(p: u8, mask: u8) -> bool {
    p & mask != 0
}

/// The numeric value of the carry bit, 0 or 1.
pub open spec fn carry_val(p: u8) -> u8 {
    p & 1
}

/// Update Z and N from a result byte.
pub open spec fn set_nz(p: u8, v: u8) -> u8 {
    flag_set(flag_set(p, FLAG_Z, v == 0), FLAG_N, v & 0x80 != 0)
}

/// A 16-bit word from its little-endian halves.
pub open spec fn word(lo: u8, hi: u8) -> u16 {
    (lo as u16) | ((hi as u16) << 8)
}

pub open spec fn lo8(w: u16) -> u8 {
    (w & 0xFF) as u8
}

pub open spec fn hi8(w: u16) -> u8 {
    (w >> 8) as u8
}

/// Where in memory the stack pointer points: page 1, indexed by SP.
pub open spec fn stack_addr(sp: u8) -> u16 {
    (0x0100 + sp) as u16
}

/// Two addresses share a page when their high bytes agree.
pub open spec fn same_page(c: u16, d: u16) -> bool {
    c & 0xFF00 == d & 0xFF00
}

/// A branch target: the signed 8-bit offset added to the address of the
/// next instruction, with 16-bit wrap-around.
pub open spec fn branch_dest(pc: u16, off: u8) -> u16 {
    pc.wrapping_add(if off >= 0x80 {
        (off as u16) | 0xFF00
    } else {
        off as u16
    })
}

/// A 16-bit pointer fetched from the zero page; its high byte wraps within
/// the zero page rather than spilling into page 1.
pub open spec fn ind_ptr(ram: Seq<u8>, zp: u8) -> u16 {
    word(mread(ram, zp as u16), mread(ram, zp.wrapping_add(1) as u16))
}

/// Where an indirect JMP reads the high byte of its target: on a page
/// boundary the increment wraps within the page instead of carrying.
pub open spec fn ind_hi_addr(ptr: u16) -> u16 {
    if ptr & 0x00FF == 0x00FF {
        ptr & 0xFF00
    } else {
        ptr.wrapping_add(1)
    }
}

/// The sum an ADC computes, in unbounded arithmetic.
pub open spec fn adc_sum(a: u8, m: u8, c: u8) -> int {
    a + m + c
}

/// The accumulator after an ADC: the sum reduced modulo 256.
pub open spec fn adc_res(a: u8, m: u8, c: u8) -> u8 {
    ((a + m + c) % 0x100) as u8
}

/// The signed-overflow predicate: set when the operands agree in sign and
/// the result disagrees with them.
pub open spec fn adc_overflow(a: u8, m: u8, r: u8) -> bool {
    (a ^ r) & (m ^ r) & 0x80 != 0
}

// ---- state transformers, one per instruction family ----

/// Advance the program counter over an instruction of the given length.
pub open spec fn adv_tr(s: CpuState, n: u16) -> CpuState {
    CpuState { pc: s.pc.wrapping_add(n), ..s }
}

pub open spec fn adc_tr(s: CpuState, m: u8) -> CpuState {
    let c = carry_val(s.p);
    let r = adc_res(s.a, m, c);
    CpuState {
        a: r,
        p: set_nz(
            flag_set(
                flag_set(s.p, FLAG_C, adc_sum(s.a, m, c) > 0xFF),
                FLAG_V,
                adc_overflow(s.a, m, r),
            ),
            r,
        ),
        ..s
    }
}

/// SBC is ADC of the one's complement of the operand.
pub open spec fn sbc_tr(s: CpuState, m: u8) -> CpuState {
    adc_tr(s, !m)
}

pub open spec fn and_tr(s: CpuState, m: u8) -> CpuState {
    CpuState { a: s.a & m, p: set_nz(s.p, s.a & m), ..s }
}

pub open spec fn ora_tr(s: CpuState, m: u8) -> CpuState {
    CpuState { a: s.a | m, p: set_nz(s.p, s.a | m), ..s }
}

pub open spec fn eor_tr(s: CpuState, m: u8) -> CpuState {
    CpuState { a: s.a ^ m, p: set_nz(s.p, s.a ^ m), ..s }
}

/// Flags after comparing a register value against a memory value; the
/// register itself is left alone.
pub open spec fn cmp_p(p: u8, r: u8, m: u8) -> u8 {
    flag_set(
        flag_set(flag_set(p, FLAG_C, r >= m), FLAG_Z, r == m),
        FLAG_N,
        r.wrapping_sub(m) & 0x80 != 0,
    )
}

pub open spec fn cmp_tr(s: CpuState, m: u8) -> CpuState {
    CpuState { p: cmp_p(s.p, s.a, m), ..s }
}

pub open spec fn cpx_tr(s: CpuState, m: u8) -> CpuState {
    CpuState { p: cmp_p(s.p, s.x, m), ..s }
}

pub open spec fn cpy_tr(s: CpuState, m: u8) -> CpuState {
    CpuState { p: cmp_p(s.p, s.y, m), ..s }
}

/// BIT: Z from A AND M, N and V copied from bits 7 and 6 of the memory
/// value; the accumulator is left alone.
pub open spec fn bit_tr(s: CpuState, addr: u16) -> CpuState {
    let m = mread(s.ram, addr);
    CpuState {
        p: flag_set(
            flag_set(flag_set(s.p, FLAG_Z, s.a & m == 0), FLAG_N, m & 0x80 != 0),
            FLAG_V,
            m & 0x40 != 0,
        ),
        ..s
    }
}

pub open spec fn lda_tr(s: CpuState, v: u8) -> CpuState {
    CpuState { a: v, p: set_nz(s.p, v), ..s }
}

pub open spec fn ldx_tr(s: CpuState, v: u8) -> CpuState {
    CpuState { x: v, p: set_nz(s.p, v), ..s }
}

pub open spec fn ldy_tr(s: CpuState, v: u8) -> CpuState {
    CpuState { y: v, p: set_nz(s.p, v), ..s }
}

pub open spec fn sta_tr(s: CpuState, addr: u16) -> CpuState {
    CpuState { ram: mwrite(s.ram, addr, s.a), ..s }
}

pub open spec fn stx_tr(s: CpuState, addr: u16) -> CpuState {
    CpuState { ram: mwrite(s.ram, addr, s.x), ..s }
}

pub open spec fn sty_tr(s: CpuState, addr: u16) -> CpuState {
    CpuState { ram: mwrite(s.ram, addr, s.y), ..s }
}

// Shifts and rotates on the accumulator. The ejected bit lands in C;
// rotates inject the old carry at the far end.

pub open spec fn asl_a_tr(s: CpuState) -> CpuState {
    let r = s.a << 1;
    CpuState { a: r, p: set_nz(flag_set(s.p, FLAG_C, s.a & 0x80 != 0), r), ..s }
}

pub open spec fn lsr_a_tr(s: CpuState) -> CpuState {
    let r = s.a >> 1;
    CpuState { a: r, p: set_nz(flag_set(s.p, FLAG_C, s.a & 0x01 != 0), r), ..s }
}

pub open spec fn rol_a_tr(s: CpuState) -> CpuState {
    let r = (s.a << 1) | carry_val(s.p);
    CpuState { a: r, p: set_nz(flag_set(s.p, FLAG_C, s.a & 0x80 != 0), r), ..s }
}

pub open spec fn ror_a_tr(s: CpuState) -> CpuState {
    let r = (s.a >> 1) | (carry_val(s.p) << 7);
    CpuState { a: r, p: set_nz(flag_set(s.p, FLAG_C, s.a & 0x01 != 0), r), ..s }
}

// The same four, read-modify-write on a memory cell.

pub open spec fn asl_m_tr(s: CpuState, addr: u16) -> CpuState {
    let v = mread(s.ram, addr);
    let r = v << 1;
    CpuState {
        ram: mwrite(s.ram, addr, r),
        p: set_nz(flag_set(s.p, FLAG_C, v & 0x80 != 0), r),
        ..s
    }
}

pub open spec fn lsr_m_tr(s: CpuState, addr: u16) -> CpuState {
    let v = mread(s.ram, addr);
    let r = v >> 1;
    CpuState {
        ram: mwrite(s.ram, addr, r),
        p: set_nz(flag_set(s.p, FLAG_C, v & 0x01 != 0), r),
        ..s
    }
}

pub open spec fn rol_m_tr(s: CpuState, addr: u16) -> CpuState {
    let v = mread(s.ram, addr);
    let r = (v << 1) | carry_val(s.p);
    CpuState {
        ram: mwrite(s.ram, addr, r),
        p: set_nz(flag_set(s.p, FLAG_C, v & 0x80 != 0), r),
        ..s
    }
}

pub open spec fn ror_m_tr(s: CpuState, addr: u16) -> CpuState {
    let v = mread(s.ram, addr);
    let r = (v >> 1) | (carry_val(s.p) << 7);
    CpuState {
        ram: mwrite(s.ram, addr, r),
        p: set_nz(flag_set(s.p, FLAG_C, v & 0x01 != 0), r),
        ..s
    }
}

pub open spec fn inc_m_tr(s: CpuState, addr: u16) -> CpuState {
    let r = mread(s.ram, addr).wrapping_add(1);
    CpuState { ram: mwrite(s.ram, addr, r), p: set_nz(s.p, r), ..s }
}

pub open spec fn dec_m_tr(s: CpuState, addr: u16) -> CpuState {
    let r = mread(s.ram, addr).wrapping_sub(1);
    CpuState { ram: mwrite(s.ram, addr, r), p: set_nz(s.p, r), ..s }
}

pub open spec fn inx_tr(s: CpuState) -> CpuState {
    let r = s.x.wrapping_add(1);
    CpuState { x: r, p: set_nz(s.p, r), ..s }
}

pub open spec fn iny_tr(s: CpuState) -> CpuState {
    let r = s.y.wrapping_add(1);
    CpuState { y: r, p: set_nz(s.p, r), ..s }
}

pub open spec fn dex_tr(s: CpuState) -> CpuState {
    let r = s.x.wrapping_sub(1);
    CpuState { x: r, p: set_nz(s.p, r), ..s }
}

pub open spec fn dey_tr(s: CpuState) -> CpuState {
    let r = s.y.wrapping_sub(1);
    CpuState { y: r, p: set_nz(s.p, r), ..s }
}

pub open spec fn tax_tr(s: CpuState) -> CpuState {
    CpuState { x: s.a, p: set_nz(s.p, s.a), ..s }
}

pub open spec fn tay_tr(s: CpuState) -> CpuState {
    CpuState { y: s.a, p: set_nz(s.p, s.a), ..s }
}

pub open spec fn tsx_tr(s: CpuState) -> CpuState {
    CpuState { x: s.sp, p: set_nz(s.p, s.sp), ..s }
}

pub open spec fn txa_tr(s: CpuState) -> CpuState {
    CpuState { a: s.x, p: set_nz(s.p, s.x), ..s }
}

/// TXS moves X into SP and touches no flag.
pub open spec fn txs_tr(s: CpuState) -> CpuState {
    CpuState { sp: s.x, ..s }
}

pub open spec fn tya_tr(s: CpuState) -> CpuState {
    CpuState { a: s.y, p: set_nz(s.p, s.y), ..s }
}

pub open spec fn set_flag_tr(s: CpuState, mask: u8, on: bool) -> CpuState {
    CpuState { p: flag_set(s.p, mask, on), ..s }
}

// Stack discipline: a push stores at 0x0100 + SP and decrements SP; a pop
// increments SP first and reads there. Both wrap modulo 256.

pub open spec fn push_tr(s: CpuState, v: u8) -> CpuState {
    CpuState { ram: mwrite(s.ram, stack_addr(s.sp), v), sp: s.sp.wrapping_sub(1), ..s }
}

pub open spec fn pop1_tr(s: CpuState) -> CpuState {
    CpuState { sp: s.sp.wrapping_add(1), ..s }
}

/// The byte a pop returns, without the stack-pointer motion.
pub open spec fn pop_val(s: CpuState) -> u8 {
    mread(s.ram, stack_addr(s.sp.wrapping_add(1)))
}

pub open spec fn pha_tr(s: CpuState) -> CpuState {
    push_tr(s, s.a)
}

/// PHP pushes the status byte with bit 5 and the B bit both set.
pub open spec fn php_tr(s: CpuState) -> CpuState {
    push_tr(s, s.p | 0x30)
}

pub open spec fn pla_tr(s: CpuState) -> CpuState {
    let v = pop_val(s);
    CpuState { sp: s.sp.wrapping_add(1), a: v, p: set_nz(s.p, v), ..s }
}

/// What a popped byte becomes as the live status: the pushed B bit is
/// discarded and bit 5 reads as 1.
pub open spec fn status_from_byte(v: u8) -> u8 {
    (v & 0xCF) | 0x20
}

pub open spec fn plp_tr(s: CpuState) -> CpuState {
    CpuState { sp: s.sp.wrapping_add(1), p: status_from_byte(pop_val(s)), ..s }
}

/// JSR, seen with PC already past the operand: push the return address
/// minus one, high byte first, then jump.
pub open spec fn jsr_tr(s: CpuState, target: u16) -> CpuState {
    let ret = s.pc.wrapping_sub(1);
    let s1 = push_tr(s, hi8(ret));
    let s2 = push_tr(s1, lo8(ret));
    CpuState { pc: target, ..s2 }
}

/// RTS pops low then high and resumes one past the stored address.
pub open spec fn rts_tr(s: CpuState) -> CpuState {
    let lo = pop_val(s);
    let s1 = pop1_tr(s);
    let hi = pop_val(s1);
    let s2 = pop1_tr(s1);
    CpuState { pc: word(lo, hi).wrapping_add(1), ..s2 }
}

/// RTI pops the status byte, then the return address; unlike RTS it adds
/// nothing to the address.
pub open spec fn rti_tr(s: CpuState) -> CpuState {
    let pv = pop_val(s);
    let s1 = pop1_tr(s);
    let lo = pop_val(s1);
    let s2 = pop1_tr(s1);
    let hi = pop_val(s2);
    let s3 = pop1_tr(s2);
    CpuState { p: status_from_byte(pv), pc: word(lo, hi), ..s3 }
}

/// BRK, seen with PC past the opcode byte: push PC+1 (the opcode address
/// plus two), push the status with the B bit set, set I, and jump through
/// the IRQ/BRK vector.
pub open spec fn brk_tr(s: CpuState) -> CpuState {
    let ret = s.pc.wrapping_add(1);
    let s1 = push_tr(s, hi8(ret));
    let s2 = push_tr(s1, lo8(ret));
    let s3 = push_tr(s2, s.p | 0x30);
    CpuState {
        p: s.p | FLAG_I,
        pc: word(mread(s3.ram, IRQ_BRK_VECTOR), mread(s3.ram, (IRQ_BRK_VECTOR + 1) as u16)),
        ..s3
    }
}

pub open spec fn jmp_abs_tr(s: CpuState, target: u16) -> CpuState {
    CpuState { pc: target, ..s }
}

/// Indirect JMP, including the hardware page bug: when the pointer sits at
/// the end of a page, the high byte is read from the start of that same
/// page rather than from the next one.
pub open spec fn jmp_ind_tr(s: CpuState, ptr: u16) -> CpuState {
    CpuState { pc: word(mread(s.ram, ptr), mread(s.ram, ind_hi_addr(ptr))), ..s }
}

/// A conditional branch, seen with PC already past the operand.
pub open spec fn branch_tr(s: CpuState, taken: bool, off: u8) -> CpuState {
    if taken {
        CpuState { pc: branch_dest(s.pc, off), ..s }
    } else {
        s
    }
}

/// A hardware interrupt: push PC and the status with B clear, set I, and
/// jump through the given vector. It fires between instructions, so PC is
/// pushed as it stands.
pub open spec fn interrupt_tr(s: CpuState, vector: u16) -> CpuState {
    let s1 = push_tr(s, hi8(s.pc));
    let s2 = push_tr(s1, lo8(s.pc));
    let s3 = push_tr(s2, (s.p & !FLAG_B) | FLAG_U);
    CpuState {
        p: s.p | FLAG_I,
        pc: word(mread(s3.ram, vector), mread(s3.ram, vector.wrapping_add(1))),
        ..s3
    }
}

pub open spec fn nmi_tr(s: CpuState) -> CpuState {
    interrupt_tr(s, NMI_VECTOR)
}

/// IRQ is maskable: with I set it does nothing.
pub open spec fn irq_tr(s: CpuState) -> CpuState {
    if flag_get(s.p, FLAG_I) {
        s
    } else {
        interrupt_tr(s, IRQ_BRK_VECTOR)
    }
}

} // verus!
