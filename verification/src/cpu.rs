//! The register file, the memory image, and the opcode methods that do not
//! touch an operand in memory: flag operations, transfers, the stack, jumps
//! and branches. The addressed loads, stores, arithmetic and shifts live in
//! the neighbouring operations module.
use vstd::prelude::*;
use crate::mmap::{mirror, CARTRIDGE_START, IRQ_BRK_VECTOR, NMI_VECTOR, RESET_VECTOR};
use crate::state::{
    branch_dest, branch_tr, brk_tr, dex_tr, dey_tr, flag_get, flag_set, ind_ptr, interrupt_tr,
    inx_tr, iny_tr, irq_tr, jmp_abs_tr, jmp_ind_tr, jsr_tr, mread, mwrite, nmi_tr, pha_tr,
    php_tr, pla_tr, plp_tr, pop1_tr, pop_val, push_tr, rti_tr, rts_tr, set_nz, status_from_byte,
    st_wf, tax_tr, tay_tr, tsx_tr, txa_tr, txs_tr, tya_tr, word, CpuState, FLAG_B, FLAG_C,
    FLAG_D, FLAG_I, FLAG_N, FLAG_U, FLAG_V, FLAG_Z,
};

verus! {

/// The processor: registers, status byte, and its 64 KiB memory image.
/// The status byte always carries bit 5 set and bit 4 clear; the B bit is
/// materialised only in bytes pushed on the stack.
pub struct CPU {
    /// program counter
    pub pc: u16,
    /// stack pointer into page 1; pushes decrement, pops pre-increment
    pub sp: u8,
    /// accumulator
    pub a: u8,
    /// index register X
    pub x: u8,
    /// index register Y
    pub y: u8,
    /// processor status, layout N V 1 B D I Z C
    pub p: u8,
    /// the flat memory image; mirroring is applied on every access
    pub ram: Vec<u8>,
}

impl View for CPU {
    type V = CpuState;

    open spec fn view(&self) -> CpuState {
        CpuState {
            pc: self.pc,
            sp: self.sp,
            a: self.a,
            x: self.x,
            y: self.y,
            p: self.p,
            ram: self.ram@,
        }
    }
}

/// The state right after a reset, before the reset vector is consulted:
/// registers cleared, SP at 0xFD, only the interrupt-disable flag set.
pub open spec fn power_on(ram: Seq<u8>) -> CpuState {
    CpuState { pc: 0, sp: 0xFD, a: 0, x: 0, y: 0, p: 0x24, ram }
}

impl Default for CPU {
    /// A freshly powered-on processor over zeroed memory.
    fn default() -> (cpu: CPU)
        ensures
            cpu.wf(),
            cpu@ == power_on(Seq::new(0x10000, |i: int| 0u8)),
    {
        let mut ram: Vec<u8> = Vec::new();
        let mut i: usize = 0;
        while i < 0x10000
            invariant
                i <= 0x10000,
                ram@.len() == i,
                forall|j: int| 0 <= j < i ==> ram@[j] == 0u8,
            decreases 0x10000 - i,
        {
            ram.push(0);
            i = i + 1;
        }
        proof {
            assert(ram@ =~= Seq::new(0x10000, |i: int| 0u8));
            lemma_status_from_byte_wf(0);
        }
        CPU { pc: 0, sp: 0xFD, a: 0, x: 0, y: 0, p: 0x24, ram }
    }
}

/// The branch target: the offset is sign-extended and added to the address
/// of the next instruction, wrapping at 16 bits.
pub fn branch_target(pc: u16, off: u8) -> (dest: u16)
    ensures
        dest == branch_dest(pc, off),
{
    let delta: u16 = if off >= 0x80 {
        (off as u16) | 0xFF00
    } else {
        off as u16
    };
    pc.wrapping_add(delta)
}

proof fn lemma_status_bits(p: u8, mask: u8)
    by (bit_vector)
    requires
        p & 0x30 == 0x20,
        mask == 0x01 || mask == 0x02 || mask == 0x04 || mask == 0x08 || mask == 0x40 || mask
            == 0x80,
    ensures
        (p | mask) & 0x30 == 0x20,
        (p & !mask) & 0x30 == 0x20,
{
}

proof fn lemma_status_from_byte_wf(v: u8)
    by (bit_vector)
    ensures
        ((v & 0xCF) | 0x20) & 0x30 == 0x20,
        0x24u8 & 0x30 == 0x20,
{
}

impl CPU {
    /// Well-formedness: the memory image spans the address space and the
    /// status byte keeps its fixed bits.
    pub open spec fn wf(&self) -> bool {
        st_wf(self@)
    }

    /// Read one byte from memory, applying the mirroring rules.
    pub fn read8(&self, addr: u16) -> (v: u8)
        requires
            self.wf(),
        ensures
            v == mread(self@.ram, addr),
    {
        let i = mirror(addr);
        self.ram[i as usize]
    }

    /// Write one byte to memory, applying the mirroring rules.
    pub fn write8(&mut self, addr: u16, v: u8)
        requires
            old(self).wf(),
        ensures
            final(self).wf(),
            final(self)@ == (CpuState { ram: mwrite(old(self)@.ram, addr, v), ..old(self)@ }),
    {
        let i = mirror(addr);
        self.ram[i as usize] = v;
    }

    /// Copy a program image into the cartridge region at 0x4020.
    pub fn load_rom(&mut self, prg_rom: Vec<u8>)
        requires
            old(self).wf(),
            prg_rom@.len() <= 0x10000 - CARTRIDGE_START,
        ensures
            final(self).wf(),
            final(self)@ == (CpuState {
                ram: Seq::new(
                    0x10000,
                    |i: int|
                        if CARTRIDGE_START <= i < CARTRIDGE_START + prg_rom@.len() {
                            prg_rom@[i - CARTRIDGE_START]
                        } else {
                            old(self)@.ram[i]
                        },
                ),
                ..old(self)@
            }),
    {
        let ghost pre = self@;
        let mut j: usize = 0;
        proof {
            assert(pre.ram =~= pre.ram.map(
                |i: int, v: u8|
                    if CARTRIDGE_START <= i < CARTRIDGE_START + 0 {
                        prg_rom@[i - CARTRIDGE_START]
                    } else {
                        v
                    },
            ));
        }
        while j < prg_rom.len()
            invariant
                st_wf(self@),
                prg_rom@.len() <= 0x10000 - CARTRIDGE_START,
                j <= prg_rom@.len(),
                self@ == (CpuState {
                    ram: pre.ram.map(
                        |i: int, v: u8|
                            if CARTRIDGE_START <= i < CARTRIDGE_START + j {
                                prg_rom@[i - CARTRIDGE_START]
                            } else {
                                v
                            },
                    ),
                    ..pre
                }),
            decreases prg_rom@.len() - j,
        {
            let addr: usize = CARTRIDGE_START as usize + j;
            self.ram[addr] = prg_rom[j];
            proof {
                assert(self@.ram =~= pre.ram.map(
                    |i: int, v: u8|
                        if CARTRIDGE_START <= i < CARTRIDGE_START + (j + 1) {
                            prg_rom@[i - CARTRIDGE_START]
                        } else {
                            v
                        },
                ));
            }
            j = j + 1;
        }
        proof {
            assert(self@.ram =~= Seq::new(
                0x10000,
                |i: int|
                    if CARTRIDGE_START <= i < CARTRIDGE_START + prg_rom@.len() {
                        prg_rom@[i - CARTRIDGE_START]
                    } else {
                        pre.ram[i]
                    },
            ));
        }
    }

    /// The status byte as read by software: bit 5 set, bit 4 clear.
    pub fn get_status(&self) -> (v: u8)
        ensures
            v == self@.p,
    {
        self.p
    }

    /// Install a status byte popped or supplied from outside: the B bit is
    /// discarded and bit 5 forced on.
    pub fn set_status(&mut self, status_byte: u8)
        ensures
            final(self).wf() == (old(self)@.ram.len() == 0x10000),
            final(self)@ == (CpuState { p: status_from_byte(status_byte), ..old(self)@ }),
    {
        proof {
            lemma_status_from_byte_wf(status_byte);
        }
        self.p = (status_byte & 0xCF) | 0x20;
    }

    /// Set or clear one status bit other than the two fixed ones.
    pub fn set_flag(&mut self, mask: u8, on: bool)
        requires
            old(self).wf(),
            mask == FLAG_C || mask == FLAG_Z || mask == FLAG_I || mask == FLAG_D || mask
                == FLAG_V || mask == FLAG_N,
        ensures
            final(self).wf(),
            final(self)@ == (CpuState { p: flag_set(old(self)@.p, mask, on), ..old(self)@ }),
    {
        proof {
            lemma_status_bits(self.p, mask);
        }
        if on {
            self.p = self.p | mask;
        } else {
            self.p = self.p & !mask;
        }
    }

    /// Update Z and N from a result byte.
    pub fn set_zn(&mut self, v: u8)
        requires
            old(self).wf(),
        ensures
            final(self).wf(),
            final(self)@ == (CpuState { p: set_nz(old(self)@.p, v), ..old(self)@ }),
    {
        self.set_flag(FLAG_Z, v == 0);
        self.set_flag(FLAG_N, v & 0x80 != 0);
    }

    pub fn get_carry(&self) -> (b: bool)
        ensures
            b == flag_get(self@.p, FLAG_C),
    {
        self.p & FLAG_C != 0
    }

    pub fn set_carry(&mut self, on: bool)
        requires
            old(self).wf(),
        ensures
            final(self).wf(),
            final(self)@ == (CpuState { p: flag_set(old(self)@.p, FLAG_C, on), ..old(self)@ }),
    {
        self.set_flag(FLAG_C, on);
    }

    pub fn get_zero(&self) -> (b: bool)
        ensures
            b == flag_get(self@.p, FLAG_Z),
    {
        self.p & FLAG_Z != 0
    }

    pub fn set_zero(&mut self, on: bool)
        requires
            old(self).wf(),
        ensures
            final(self).wf(),
            final(self)@ == (CpuState { p: flag_set(old(self)@.p, FLAG_Z, on), ..old(self)@ }),
    {
        self.set_flag(FLAG_Z, on);
    }

    pub fn get_interrupt_disable(&self) -> (b: bool)
        ensures
            b == flag_get(self@.p, FLAG_I),
    {
        self.p & FLAG_I != 0
    }

    pub fn set_interrupt_disable(&mut self, on: bool)
        requires
            old(self).wf(),
        ensures
            final(self).wf(),
            final(self)@ == (CpuState { p: flag_set(old(self)@.p, FLAG_I, on), ..old(self)@ }),
    {
        self.set_flag(FLAG_I, on);
    }

    pub fn get_decimal(&self) -> (b: bool)
        ensures
            b == flag_get(self@.p, FLAG_D),
    {
        self.p & FLAG_D != 0
    }

    pub fn set_decimal(&mut self, on: bool)
        requires
            old(self).wf(),
        ensures
            final(self).wf(),
            final(self)@ == (CpuState { p: flag_set(old(self)@.p, FLAG_D, on), ..old(self)@ }),
    {
        self.set_flag(FLAG_D, on);
    }

    pub fn get_overflow(&self) -> (b: bool)
        ensures
            b == flag_get(self@.p, FLAG_V),
    {
        self.p & FLAG_V != 0
    }

    pub fn set_overflow(&mut self, on: bool)
        requires
            old(self).wf(),
        ensures
            final(self).wf(),
            final(self)@ == (CpuState { p: flag_set(old(self)@.p, FLAG_V, on), ..old(self)@ }),
    {
        self.set_flag(FLAG_V, on);
    }

    pub fn get_negative(&self) -> (b: bool)
        ensures
            b == flag_get(self@.p, FLAG_N),
    {
        self.p & FLAG_N != 0
    }

    pub fn set_negative(&mut self, on: bool)
        requires
            old(self).wf(),
        ensures
            final(self).wf(),
            final(self)@ == (CpuState { p: flag_set(old(self)@.p, FLAG_N, on), ..old(self)@ }),
    {
        self.set_flag(FLAG_N, on);
    }

    /// Resolve a zero-page pointer: low byte at the operand, high byte at
    /// the next zero-page cell, wrapping within the page.
    pub fn get_indirect_addr(&self, operand: u8) -> (addr: u16)
        requires
            self.wf(),
        ensures
            addr == ind_ptr(self@.ram, operand),
    {
        let lo = self.read8(operand as u16);
        let hi = self.read8(operand.wrapping_add(1) as u16);
        (lo as u16) | ((hi as u16) << 8)
    }

    /// Store at 0x0100 + SP, then decrement SP with wrap-around.
    pub fn push_to_stack(&mut self, val: u8)
        requires
            old(self).wf(),
        ensures
            final(self).wf(),
            final(self)@ == push_tr(old(self)@, val),
    {
        let addr: u16 = 0x0100 + self.sp as u16;
        self.write8(addr, val);
        self.sp = self.sp.wrapping_sub(1);
    }

    /// Increment SP with wrap-around, then read at 0x0100 + SP.
    pub fn pop_from_stack(&mut self) -> (val: u8)
        requires
            old(self).wf(),
        ensures
            final(self).wf(),
            final(self)@ == pop1_tr(old(self)@),
            val == pop_val(old(self)@),
    {
        self.sp = self.sp.wrapping_add(1);
        let addr: u16 = 0x0100 + self.sp as u16;
        self.read8(addr)
    }

    // --- stack instructions ---

    /// PHA
    pub fn pha48(&mut self)
        requires
            old(self).wf(),
        ensures
            final(self).wf(),
            final(self)@ == pha_tr(old(self)@),
    {
        let v = self.a;
        self.push_to_stack(v);
    }

    /// PHP; the pushed byte carries B and bit 5 set.
    pub fn php08(&mut self)
        requires
            old(self).wf(),
        ensures
            final(self).wf(),
            final(self)@ == php_tr(old(self)@),
    {
        let v = self.p | 0x30;
        self.push_to_stack(v);
    }

    /// PLA; the loaded accumulator sets Z and N.
    pub fn pla68(&mut self)
        requires
            old(self).wf(),
        ensures
            final(self).wf(),
            final(self)@ == pla_tr(old(self)@),
    {
        let v = self.pop_from_stack();
        self.a = v;
        self.set_zn(v);
    }

    /// PLP; the popped byte loses its B bit and bit 5 reads as 1.
    pub fn plp28(&mut self)
        requires
            old(self).wf(),
        ensures
            final(self).wf(),
            final(self)@ == plp_tr(old(self)@),
    {
        let status = self.pop_from_stack();
        self.set_status(status);
    }

    // --- jumps, calls, interrupts ---

    /// JMP absolute.
    pub fn jmp4c(&mut self, operand: u16)
        requires
            old(self).wf(),
        ensures
            final(self).wf(),
            final(self)@ == jmp_abs_tr(old(self)@, operand),
    {
        self.pc = operand;
    }

    /// JMP indirect, reproducing the page-boundary bug: a pointer at
    /// 0xnnFF takes its high byte from 0xnn00.
    pub fn jmp6c(&mut self, operand: u16)
        requires
            old(self).wf(),
        ensures
            final(self).wf(),
            final(self)@ == jmp_ind_tr(old(self)@, operand),
    {
        let lo = self.read8(operand);
        let hi_addr: u16 = if operand & 0x00FF == 0x00FF {
            operand & 0xFF00
        } else {
            operand.wrapping_add(1)
        };
        let hi = self.read8(hi_addr);
        self.pc = (lo as u16) | ((hi as u16) << 8);
    }

    /// JSR, called with PC already past the operand: pushes the return
    /// address minus one, high byte first.
    pub fn jsr20(&mut self, operand: u16)
        requires
            old(self).wf(),
        ensures
            final(self).wf(),
            final(self)@ == jsr_tr(old(self)@, operand),
    {
        let ret = self.pc.wrapping_sub(1);
        self.push_to_stack((ret >> 8) as u8);
        self.push_to_stack((ret & 0xFF) as u8);
        self.pc = operand;
    }

    /// RTS: pop low then high, resume one past the stored address.
    pub fn rts60(&mut self)
        requires
            old(self).wf(),
        ensures
            final(self).wf(),
            final(self)@ == rts_tr(old(self)@),
    {
        let lo = self.pop_from_stack();
        let hi = self.pop_from_stack();
        self.pc = ((lo as u16) | ((hi as u16) << 8)).wrapping_add(1);
    }

    /// RTI: pop the status (B discarded, bit 5 forced), then the address.
    pub fn rti40(&mut self)
        requires
            old(self).wf(),
        ensures
            final(self).wf(),
            final(self)@ == rti_tr(old(self)@),
    {
        let status = self.pop_from_stack();
        let lo = self.pop_from_stack();
        let hi = self.pop_from_stack();
        self.set_status(status);
        self.pc = (lo as u16) | ((hi as u16) << 8);
    }

    /// BRK, called with PC past the opcode: pushes the opcode address plus
    /// two, pushes the status with B set, sets I, and takes the IRQ/BRK
    /// vector.
    pub fn brk00(&mut self)
        requires
            old(self).wf(),
        ensures
            final(self).wf(),
            final(self)@ == brk_tr(old(self)@),
    {
        let ret = self.pc.wrapping_add(1);
        self.push_to_stack((ret >> 8) as u8);
        self.push_to_stack((ret & 0xFF) as u8);
        let status = self.p | 0x30;
        self.push_to_stack(status);
        self.set_flag(FLAG_I, true);
        let lo = self.read8(IRQ_BRK_VECTOR);
        let hi = self.read8(IRQ_BRK_VECTOR + 1);
        self.pc = (lo as u16) | ((hi as u16) << 8);
    }

    /// A hardware interrupt through the given vector: PC and the status
    /// with B clear are pushed, I is set.
    fn interrupt(&mut self, vector: u16)
        requires
            old(self).wf(),
        ensures
            final(self).wf(),
            final(self)@ == interrupt_tr(old(self)@, vector),
    {
        let pc = self.pc;
        self.push_to_stack((pc >> 8) as u8);
        self.push_to_stack((pc & 0xFF) as u8);
        let status = (self.p & !FLAG_B) | FLAG_U;
        self.push_to_stack(status);
        self.set_flag(FLAG_I, true);
        let lo = self.read8(vector);
        let hi = self.read8(vector.wrapping_add(1));
        self.pc = (lo as u16) | ((hi as u16) << 8);
    }

    /// The non-maskable interrupt; it cannot be suppressed.
    pub fn nmi(&mut self)
        requires
            old(self).wf(),
        ensures
            final(self).wf(),
            final(self)@ == nmi_tr(old(self)@),
    {
        self.interrupt(NMI_VECTOR);
    }

    /// A maskable interrupt request; ignored while I is set.
    pub fn irq(&mut self)
        requires
            old(self).wf(),
        ensures
            final(self).wf(),
            final(self)@ == irq_tr(old(self)@),
    {
        if self.p & FLAG_I == 0 {
            self.interrupt(IRQ_BRK_VECTOR);
        }
    }

    /// Reset: registers cleared, SP at 0xFD, I set, PC loaded from the
    /// reset vector; memory is left as it stands.
    pub fn reset(&mut self)
        requires
            old(self).wf(),
        ensures
            final(self).wf(),
            final(self)@ == (CpuState {
                pc: word(
                    mread(old(self)@.ram, RESET_VECTOR),
                    mread(old(self)@.ram, (RESET_VECTOR + 1) as u16),
                ),
                ..power_on(old(self)@.ram)
            }),
    {
        self.a = 0;
        self.x = 0;
        self.y = 0;
        self.sp = 0xFD;
        self.p = 0x24;
        proof {
            lemma_status_from_byte_wf(0);
        }
        let lo = self.read8(RESET_VECTOR);
        let hi = self.read8(RESET_VECTOR + 1);
        self.pc = (lo as u16) | ((hi as u16) << 8);
    }

    // --- branches; each is called with PC already past the operand ---

    /// BCC
    pub fn bcc90(&mut self, operand: u8)
        requires
            old(self).wf(),
        ensures
            final(self).wf(),
            final(self)@ == branch_tr(old(self)@, !flag_get(old(self)@.p, FLAG_C), operand),
    {
        if self.p & FLAG_C == 0 {
            self.pc = branch_target(self.pc, operand);
        }
    }

    /// BCS
    pub fn bcsb0(&mut self, operand: u8)
        requires
            old(self).wf(),
        ensures
            final(self).wf(),
            final(self)@ == branch_tr(old(self)@, flag_get(old(self)@.p, FLAG_C), operand),
    {
        if self.p & FLAG_C != 0 {
            self.pc = branch_target(self.pc, operand);
        }
    }

    /// BEQ
    pub fn beqf0(&mut self, operand: u8)
        requires
            old(self).wf(),
        ensures
            final(self).wf(),
            final(self)@ == branch_tr(old(self)@, flag_get(old(self)@.p, FLAG_Z), operand),
    {
        if self.p & FLAG_Z != 0 {
            self.pc = branch_target(self.pc, operand);
        }
    }

    /// BNE
    pub fn bned0(&mut self, operand: u8)
        requires
            old(self).wf(),
        ensures
            final(self).wf(),
            final(self)@ == branch_tr(old(self)@, !flag_get(old(self)@.p, FLAG_Z), operand),
    {
        if self.p & FLAG_Z == 0 {
            self.pc = branch_target(self.pc, operand);
        }
    }

    /// BMI
    pub fn bmi30(&mut self, operand: u8)
        requires
            old(self).wf(),
        ensures
            final(self).wf(),
            final(self)@ == branch_tr(old(self)@, flag_get(old(self)@.p, FLAG_N), operand),
    {
        if self.p & FLAG_N != 0 {
            self.pc = branch_target(self.pc, operand);
        }
    }

    /// BPL
    pub fn bpl10(&mut self, operand: u8)
        requires
            old(self).wf(),
        ensures
            final(self).wf(),
            final(self)@ == branch_tr(old(self)@, !flag_get(old(self)@.p, FLAG_N), operand),
    {
        if self.p & FLAG_N == 0 {
            self.pc = branch_target(self.pc, operand);
        }
    }

    /// BVC
    pub fn bvc50(&mut self, operand: u8)
        requires
            old(self).wf(),
        ensures
            final(self).wf(),
            final(self)@ == branch_tr(old(self)@, !flag_get(old(self)@.p, FLAG_V), operand),
    {
        if self.p & FLAG_V == 0 {
            self.pc = branch_target(self.pc, operand);
        }
    }

    /// BVS
    pub fn bvs70(&mut self, operand: u8)
        requires
            old(self).wf(),
        ensures
            final(self).wf(),
            final(self)@ == branch_tr(old(self)@, flag_get(old(self)@.p, FLAG_V), operand),
    {
        if self.p & FLAG_V != 0 {
            self.pc = branch_target(self.pc, operand);
        }
    }

    // --- flag instructions ---

    /// CLC
    pub fn clc18(&mut self)
        requires
            old(self).wf(),
        ensures
            final(self).wf(),
            final(self)@ == (CpuState {
                p: flag_set(old(self)@.p, FLAG_C, false),
                ..old(self)@
            }),
    {
        self.set_flag(FLAG_C, false);
    }

    /// CLD
    pub fn cldd8(&mut self)
        requires
            old(self).wf(),
        ensures
            final(self).wf(),
            final(self)@ == (CpuState {
                p: flag_set(old(self)@.p, FLAG_D, false),
                ..old(self)@
            }),
    {
        self.set_flag(FLAG_D, false);
    }

    /// CLI
    pub fn cli58(&mut self)
        requires
            old(self).wf(),
        ensures
            final(self).wf(),
            final(self)@ == (CpuState {
                p: flag_set(old(self)@.p, FLAG_I, false),
                ..old(self)@
            }),
    {
        self.set_flag(FLAG_I, false);
    }

    /// CLV
    pub fn clvb8(&mut self)
        requires
            old(self).wf(),
        ensures
            final(self).wf(),
            final(self)@ == (CpuState {
                p: flag_set(old(self)@.p, FLAG_V, false),
                ..old(self)@
            }),
    {
        self.set_flag(FLAG_V, false);
    }

    /// SEC
    pub fn sec38(&mut self)
        requires
            old(self).wf(),
        ensures
            final(self).wf(),
            final(self)@ == (CpuState { p: flag_set(old(self)@.p, FLAG_C, true), ..old(self)@ }),
    {
        self.set_flag(FLAG_C, true);
    }

    /// SED; the decimal flag is stored but never consulted on this CPU.
    pub fn sedf8(&mut self)
        requires
            old(self).wf(),
        ensures
            final(self).wf(),
            final(self)@ == (CpuState { p: flag_set(old(self)@.p, FLAG_D, true), ..old(self)@ }),
    {
        self.set_flag(FLAG_D, true);
    }

    /// SEI
    pub fn sei78(&mut self)
        requires
            old(self).wf(),
        ensures
            final(self).wf(),
            final(self)@ == (CpuState { p: flag_set(old(self)@.p, FLAG_I, true), ..old(self)@ }),
    {
        self.set_flag(FLAG_I, true);
    }

    // --- register transfers and register increments ---

    /// TAX
    pub fn taxaa(&mut self)
        requires
            old(self).wf(),
        ensures
            final(self).wf(),
            final(self)@ == tax_tr(old(self)@),
    {
        let v = self.a;
        self.x = v;
        self.set_zn(v);
    }

    /// TAY
    pub fn taya8(&mut self)
        requires
            old(self).wf(),
        ensures
            final(self).wf(),
            final(self)@ == tay_tr(old(self)@),
    {
        let v = self.a;
        self.y = v;
        self.set_zn(v);
    }

    /// TSX
    pub fn tsxba(&mut self)
        requires
            old(self).wf(),
        ensures
            final(self).wf(),
            final(self)@ == tsx_tr(old(self)@),
    {
        let v = self.sp;
        self.x = v;
        self.set_zn(v);
    }

    /// TXA
    pub fn txa8a(&mut self)
        requires
            old(self).wf(),
        ensures
            final(self).wf(),
            final(self)@ == txa_tr(old(self)@),
    {
        let v = self.x;
        self.a = v;
        self.set_zn(v);
    }

    /// TXS; no flags are touched.
    pub fn txs9a(&mut self)
        requires
            old(self).wf(),
        ensures
            final(self).wf(),
            final(self)@ == txs_tr(old(self)@),
    {
        self.sp = self.x;
    }

    /// TYA
    pub fn tya98(&mut self)
        requires
            old(self).wf(),
        ensures
            final(self).wf(),
            final(self)@ == tya_tr(old(self)@),
    {
        let v = self.y;
        self.a = v;
        self.set_zn(v);
    }

    /// INX
    pub fn inxe8(&mut self)
        requires
            old(self).wf(),
        ensures
            final(self).wf(),
            final(self)@ == inx_tr(old(self)@),
    {
        let v = self.x.wrapping_add(1);
        self.x = v;
        self.set_zn(v);
    }

    /// INY
    pub fn inyc8(&mut self)
        requires
            old(self).wf(),
        ensures
            final(self).wf(),
            final(self)@ == iny_tr(old(self)@),
    {
        let v = self.y.wrapping_add(1);
        self.y = v;
        self.set_zn(v);
    }

    /// DEX
    pub fn dexca(&mut self)
        requires
            old(self).wf(),
        ensures
            final(self).wf(),
            final(self)@ == dex_tr(old(self)@),
    {
        let v = self.x.wrapping_sub(1);
        self.x = v;
        self.set_zn(v);
    }

    /// DEY
    pub fn dey88(&mut self)
        requires
            old(self).wf(),
        ensures
            final(self).wf(),
            final(self)@ == dey_tr(old(self)@),
    {
        let v = self.y.wrapping_sub(1);
        self.y = v;
        self.set_zn(v);
    }
}

} // verus!
