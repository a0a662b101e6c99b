//! The addressed instructions: loads, stores, logic, arithmetic, compares
//! and the read-modify-write shifts, one method per opcode as the opcode
//! table lists them. Each method resolves its addressing mode, reads or
//! writes through the mirrored memory image, and is specified exactly by
//! the state transformer of its family.
use vstd::prelude::*;
use crate::cpu::CPU;
use crate::state::{
    adc_overflow, adc_res, adc_sum, adc_tr, and_tr, asl_a_tr, asl_m_tr, bit_tr, carry_val, cmp_p,
    cmp_tr, cpx_tr, cpy_tr, dec_m_tr, eor_tr, flag_set, inc_m_tr, ind_ptr, lda_tr, ldx_tr,
    ldy_tr, lsr_a_tr, lsr_m_tr, mread, ora_tr, rol_a_tr, rol_m_tr, ror_a_tr, ror_m_tr, sbc_tr,
    set_nz, sta_tr, stx_tr, sty_tr, FLAG_C, FLAG_N, FLAG_V, FLAG_Z,
};

verus! {

impl CPU {
    /// ADC #$44; the core of every add-with-carry mode. The result,
    /// carry, signed overflow, zero and negative all follow the
    /// nine-bit sum of accumulator, operand and carry-in.
    pub fn adc69(&mut self, operand: u8)
        requires
            old(self).wf(),
        ensures
            final(self).wf(),
            final(self)@ == adc_tr(old(self)@, operand),
    {
        let a = self.a;
        let c: u8 = self.p & FLAG_C;
        let sum: u16 = a as u16 + operand as u16 + c as u16;
        let r: u8 = (sum % 0x100) as u8;
        self.set_flag(FLAG_C, sum > 0xFF);
        self.set_flag(FLAG_V, (a ^ r) & (operand ^ r) & 0x80 != 0);
        self.a = r;
        self.set_zn(r);
    }

    /// SBC #$44: add-with-carry of the one's complement of the operand.
    pub fn sbce9(&mut self, operand: u8)
        requires
            old(self).wf(),
        ensures
            final(self).wf(),
            final(self)@ == sbc_tr(old(self)@, operand),
    {
        self.adc69(!operand);
    }

    /// AND #$44; Z and N follow the result.
    pub fn and29(&mut self, operand: u8)
        requires
            old(self).wf(),
        ensures
            final(self).wf(),
            final(self)@ == and_tr(old(self)@, operand),
    {
        let a = self.a;
        let r: u8 = a & operand;
        self.a = r;
        self.set_zn(r);
    }

    /// ORA #$44; Z and N follow the result.
    pub fn ora09(&mut self, operand: u8)
        requires
            old(self).wf(),
        ensures
            final(self).wf(),
            final(self)@ == ora_tr(old(self)@, operand),
    {
        let a = self.a;
        let r: u8 = a | operand;
        self.a = r;
        self.set_zn(r);
    }

    /// EOR #$44; Z and N follow the result.
    pub fn eor49(&mut self, operand: u8)
        requires
            old(self).wf(),
        ensures
            final(self).wf(),
            final(self)@ == eor_tr(old(self)@, operand),
    {
        let a = self.a;
        let r: u8 = a ^ operand;
        self.a = r;
        self.set_zn(r);
    }

    /// LDA #$44; Z and N follow the loaded value.
    pub fn ldaa9(&mut self, operand: u8)
        requires
            old(self).wf(),
        ensures
            final(self).wf(),
            final(self)@ == lda_tr(old(self)@, operand),
    {
        self.a = operand;
        self.set_zn(operand);
    }

    /// LDX #$44; Z and N follow the loaded value.
    pub fn ldxa2(&mut self, operand: u8)
        requires
            old(self).wf(),
        ensures
            final(self).wf(),
            final(self)@ == ldx_tr(old(self)@, operand),
    {
        self.x = operand;
        self.set_zn(operand);
    }

    /// LDY #$44; Z and N follow the loaded value.
    pub fn ldya0(&mut self, operand: u8)
        requires
            old(self).wf(),
        ensures
            final(self).wf(),
            final(self)@ == ldy_tr(old(self)@, operand),
    {
        self.y = operand;
        self.set_zn(operand);
    }

    /// CMP #$44: carry when the register is not below the operand,
    /// zero on equality, negative from the wrapped difference; the
    /// register is left alone.
    pub fn cmpc9(&mut self, operand: u8)
        requires
            old(self).wf(),
        ensures
            final(self).wf(),
            final(self)@ == cmp_tr(old(self)@, operand),
    {
        let r = self.a;
        let d = r.wrapping_sub(operand);
        self.set_flag(FLAG_C, r >= operand);
        self.set_flag(FLAG_Z, r == operand);
        self.set_flag(FLAG_N, d & 0x80 != 0);
    }

    /// CPX #$44: carry when the register is not below the operand,
    /// zero on equality, negative from the wrapped difference; the
    /// register is left alone.
    pub fn cpxe0(&mut self, operand: u8)
        requires
            old(self).wf(),
        ensures
            final(self).wf(),
            final(self)@ == cpx_tr(old(self)@, operand),
    {
        let r = self.x;
        let d = r.wrapping_sub(operand);
        self.set_flag(FLAG_C, r >= operand);
        self.set_flag(FLAG_Z, r == operand);
        self.set_flag(FLAG_N, d & 0x80 != 0);
    }

    /// CPY #$44: carry when the register is not below the operand,
    /// zero on equality, negative from the wrapped difference; the
    /// register is left alone.
    pub fn cpyc0(&mut self, operand: u8)
        requires
            old(self).wf(),
        ensures
            final(self).wf(),
            final(self)@ == cpy_tr(old(self)@, operand),
    {
        let r = self.y;
        let d = r.wrapping_sub(operand);
        self.set_flag(FLAG_C, r >= operand);
        self.set_flag(FLAG_Z, r == operand);
        self.set_flag(FLAG_N, d & 0x80 != 0);
    }

    /// The BIT test against the byte at the given address: Z from the
    /// conjunction with A, N and V copied from bits 7 and 6 of memory.
    pub fn bit_helper(&mut self, operand: u16)
        requires
            old(self).wf(),
        ensures
            final(self).wf(),
            final(self)@ == bit_tr(old(self)@, operand),
    {
        let m = self.read8(operand);
        let a = self.a;
        self.set_flag(FLAG_Z, a & m == 0);
        self.set_flag(FLAG_N, m & 0x80 != 0);
        self.set_flag(FLAG_V, m & 0x40 != 0);
    }

    /// ASL A: the ejected bit lands in C, Z and N follow the result.
    pub fn asl0a(&mut self)
        requires
            old(self).wf(),
        ensures
            final(self).wf(),
            final(self)@ == asl_a_tr(old(self)@),
    {
        let v = self.a;
        let r: u8 = v << 1;
        self.set_flag(FLAG_C, v & 0x80 != 0);
        self.a = r;
        self.set_zn(r);
    }

    /// LSR A: the ejected bit lands in C, Z and N follow the result.
    pub fn lsr4a(&mut self)
        requires
            old(self).wf(),
        ensures
            final(self).wf(),
            final(self)@ == lsr_a_tr(old(self)@),
    {
        let v = self.a;
        let r: u8 = v >> 1;
        self.set_flag(FLAG_C, v & 0x01 != 0);
        self.a = r;
        self.set_zn(r);
    }

    /// ROL A: the ejected bit lands in C, Z and N follow the result.
    pub fn rol2a(&mut self)
        requires
            old(self).wf(),
        ensures
            final(self).wf(),
            final(self)@ == rol_a_tr(old(self)@),
    {
        let v = self.a;
        let r: u8 = (v << 1) | (self.p & FLAG_C);
        self.set_flag(FLAG_C, v & 0x80 != 0);
        self.a = r;
        self.set_zn(r);
    }

    /// ROR A: the ejected bit lands in C, Z and N follow the result.
    pub fn ror6a(&mut self)
        requires
            old(self).wf(),
        ensures
            final(self).wf(),
            final(self)@ == ror_a_tr(old(self)@),
    {
        let v = self.a;
        let r: u8 = (v >> 1) | ((self.p & FLAG_C) << 7);
        self.set_flag(FLAG_C, v & 0x01 != 0);
        self.a = r;
        self.set_zn(r);
    }

    /// ASL $4400: the cell is shifted in place; the ejected bit lands
    /// in C, Z and N follow the stored result.
    pub fn asl0e(&mut self, operand: u16)
        requires
            old(self).wf(),
        ensures
            final(self).wf(),
            final(self)@ == asl_m_tr(old(self)@, operand),
    {
        let v = self.read8(operand);
        let r: u8 = v << 1;
        self.set_flag(FLAG_C, v & 0x80 != 0);
        self.write8(operand, r);
        self.set_zn(r);
    }

    /// LSR $4400: the cell is shifted in place; the ejected bit lands
    /// in C, Z and N follow the stored result.
    pub fn lsr4e(&mut self, operand: u16)
        requires
            old(self).wf(),
        ensures
            final(self).wf(),
            final(self)@ == lsr_m_tr(old(self)@, operand),
    {
        let v = self.read8(operand);
        let r: u8 = v >> 1;
        self.set_flag(FLAG_C, v & 0x01 != 0);
        self.write8(operand, r);
        self.set_zn(r);
    }

    /// ROL $4400: the cell is shifted in place; the ejected bit lands
    /// in C, Z and N follow the stored result.
    pub fn rol2e(&mut self, operand: u16)
        requires
            old(self).wf(),
        ensures
            final(self).wf(),
            final(self)@ == rol_m_tr(old(self)@, operand),
    {
        let v = self.read8(operand);
        let r: u8 = (v << 1) | (self.p & FLAG_C);
        self.set_flag(FLAG_C, v & 0x80 != 0);
        self.write8(operand, r);
        self.set_zn(r);
    }

    /// ROR $4400: the cell is shifted in place; the ejected bit lands
    /// in C, Z and N follow the stored result.
    pub fn ror6e(&mut self, operand: u16)
        requires
            old(self).wf(),
        ensures
            final(self).wf(),
            final(self)@ == ror_m_tr(old(self)@, operand),
    {
        let v = self.read8(operand);
        let r: u8 = (v >> 1) | ((self.p & FLAG_C) << 7);
        self.set_flag(FLAG_C, v & 0x01 != 0);
        self.write8(operand, r);
        self.set_zn(r);
    }

    /// INC $4400: the cell moves by one with wrap-around; Z and N follow.
    pub fn incee(&mut self, operand: u16)
        requires
            old(self).wf(),
        ensures
            final(self).wf(),
            final(self)@ == inc_m_tr(old(self)@, operand),
    {
        let r = self.read8(operand).wrapping_add(1);
        self.write8(operand, r);
        self.set_zn(r);
    }

    /// DEC $4400: the cell moves by one with wrap-around; Z and N follow.
    pub fn decce(&mut self, operand: u16)
        requires
            old(self).wf(),
        ensures
            final(self).wf(),
            final(self)@ == dec_m_tr(old(self)@, operand),
    {
        let r = self.read8(operand).wrapping_sub(1);
        self.write8(operand, r);
        self.set_zn(r);
    }

    /// STA $4400; no flag moves.
    pub fn sta8d(&mut self, operand: u16)
        requires
            old(self).wf(),
        ensures
            final(self).wf(),
            final(self)@ == sta_tr(old(self)@, operand),
    {
        let v = self.a;
        self.write8(operand, v);
    }

    /// STX $4400; no flag moves.
    pub fn stx8e(&mut self, operand: u16)
        requires
            old(self).wf(),
        ensures
            final(self).wf(),
            final(self)@ == stx_tr(old(self)@, operand),
    {
        let v = self.x;
        self.write8(operand, v);
    }

    /// STY $4400; no flag moves.
    pub fn sty8c(&mut self, operand: u16)
        requires
            old(self).wf(),
        ensures
            final(self).wf(),
            final(self)@ == sty_tr(old(self)@, operand),
    {
        let v = self.y;
        self.write8(operand, v);
    }

    /// ADC $44
    pub fn adc65(&mut self, operand: u8)
        requires
            old(self).wf(),
        ensures
            final(self).wf(),
            final(self)@ == adc_tr(old(self)@, mread(old(self)@.ram, operand as u16)),
    {
        let addr: u16 = operand as u16;
        let m = self.read8(addr);
        self.adc69(m);
    }

    /// ADC $44,X
    pub fn adc75(&mut self, operand: u8)
        requires
            old(self).wf(),
        ensures
            final(self).wf(),
            final(self)@ == adc_tr(
                old(self)@,
                mread(old(self)@.ram, old(self)@.x.wrapping_add(operand) as u16),
            ),
    {
        let addr: u16 = self.x.wrapping_add(operand) as u16;
        let m = self.read8(addr);
        self.adc69(m);
    }

    /// ADC $4400
    pub fn adc6d(&mut self, operand: u16)
        requires
            old(self).wf(),
        ensures
            final(self).wf(),
            final(self)@ == adc_tr(old(self)@, mread(old(self)@.ram, operand)),
    {
        let addr: u16 = operand;
        let m = self.read8(addr);
        self.adc69(m);
    }

    /// ADC $4400,X
    pub fn adc7d(&mut self, operand: u16)
        requires
            old(self).wf(),
        ensures
            final(self).wf(),
            final(self)@ == adc_tr(
                old(self)@,
                mread(old(self)@.ram, operand.wrapping_add(old(self)@.x as u16)),
            ),
    {
        let addr: u16 = operand.wrapping_add(self.x as u16);
        let m = self.read8(addr);
        self.adc69(m);
    }

    /// ADC $4400,Y
    pub fn adc79(&mut self, operand: u16)
        requires
            old(self).wf(),
        ensures
            final(self).wf(),
            final(self)@ == adc_tr(
                old(self)@,
                mread(old(self)@.ram, operand.wrapping_add(old(self)@.y as u16)),
            ),
    {
        let addr: u16 = operand.wrapping_add(self.y as u16);
        let m = self.read8(addr);
        self.adc69(m);
    }

    /// ADC ($44,X)
    pub fn adc61(&mut self, operand: u8)
        requires
            old(self).wf(),
        ensures
            final(self).wf(),
            final(self)@ == adc_tr(
                old(self)@,
                mread(old(self)@.ram, ind_ptr(old(self)@.ram, operand.wrapping_add(old(self)@.x))),
            ),
    {
        let addr: u16 = self.get_indirect_addr(operand.wrapping_add(self.x));
        let m = self.read8(addr);
        self.adc69(m);
    }

    /// ADC ($44),Y
    pub fn adc71(&mut self, operand: u8)
        requires
            old(self).wf(),
        ensures
            final(self).wf(),
            final(self)@ == adc_tr(
                old(self)@,
                mread(old(self)@.ram, ind_ptr(old(self)@.ram, operand).wrapping_add(old(self)@.y as u16)),
            ),
    {
        let addr: u16 = self.get_indirect_addr(operand).wrapping_add(self.y as u16);
        let m = self.read8(addr);
        self.adc69(m);
    }

    /// SBC $44
    pub fn sbce5(&mut self, operand: u8)
        requires
            old(self).wf(),
        ensures
            final(self).wf(),
            final(self)@ == sbc_tr(old(self)@, mread(old(self)@.ram, operand as u16)),
    {
        let addr: u16 = operand as u16;
        let m = self.read8(addr);
        self.sbce9(m);
    }

    /// SBC $44,X
    pub fn sbcf5(&mut self, operand: u8)
        requires
            old(self).wf(),
        ensures
            final(self).wf(),
            final(self)@ == sbc_tr(
                old(self)@,
                mread(old(self)@.ram, old(self)@.x.wrapping_add(operand) as u16),
            ),
    {
        let addr: u16 = self.x.wrapping_add(operand) as u16;
        let m = self.read8(addr);
        self.sbce9(m);
    }

    /// SBC $4400
    pub fn sbced(&mut self, operand: u16)
        requires
            old(self).wf(),
        ensures
            final(self).wf(),
            final(self)@ == sbc_tr(old(self)@, mread(old(self)@.ram, operand)),
    {
        let addr: u16 = operand;
        let m = self.read8(addr);
        self.sbce9(m);
    }

    /// SBC $4400,X
    pub fn sbcfd(&mut self, operand: u16)
        requires
            old(self).wf(),
        ensures
            final(self).wf(),
            final(self)@ == sbc_tr(
                old(self)@,
                mread(old(self)@.ram, operand.wrapping_add(old(self)@.x as u16)),
            ),
    {
        let addr: u16 = operand.wrapping_add(self.x as u16);
        let m = self.read8(addr);
        self.sbce9(m);
    }

    /// SBC $4400,Y
    pub fn sbcf9(&mut self, operand: u16)
        requires
            old(self).wf(),
        ensures
            final(self).wf(),
            final(self)@ == sbc_tr(
                old(self)@,
                mread(old(self)@.ram, operand.wrapping_add(old(self)@.y as u16)),
            ),
    {
        let addr: u16 = operand.wrapping_add(self.y as u16);
        let m = self.read8(addr);
        self.sbce9(m);
    }

    /// SBC ($44,X)
    pub fn sbce1(&mut self, operand: u8)
        requires
            old(self).wf(),
        ensures
            final(self).wf(),
            final(self)@ == sbc_tr(
                old(self)@,
                mread(old(self)@.ram, ind_ptr(old(self)@.ram, operand.wrapping_add(old(self)@.x))),
            ),
    {
        let addr: u16 = self.get_indirect_addr(operand.wrapping_add(self.x));
        let m = self.read8(addr);
        self.sbce9(m);
    }

    /// SBC ($44),Y
    pub fn sbcf1(&mut self, operand: u8)
        requires
            old(self).wf(),
        ensures
            final(self).wf(),
            final(self)@ == sbc_tr(
                old(self)@,
                mread(old(self)@.ram, ind_ptr(old(self)@.ram, operand).wrapping_add(old(self)@.y as u16)),
            ),
    {
        let addr: u16 = self.get_indirect_addr(operand).wrapping_add(self.y as u16);
        let m = self.read8(addr);
        self.sbce9(m);
    }

    /// AND $44
    pub fn and25(&mut self, operand: u8)
        requires
            old(self).wf(),
        ensures
            final(self).wf(),
            final(self)@ == and_tr(old(self)@, mread(old(self)@.ram, operand as u16)),
    {
        let addr: u16 = operand as u16;
        let m = self.read8(addr);
        self.and29(m);
    }

    /// AND $44,X
    pub fn and35(&mut self, operand: u8)
        requires
            old(self).wf(),
        ensures
            final(self).wf(),
            final(self)@ == and_tr(
                old(self)@,
                mread(old(self)@.ram, old(self)@.x.wrapping_add(operand) as u16),
            ),
    {
        let addr: u16 = self.x.wrapping_add(operand) as u16;
        let m = self.read8(addr);
        self.and29(m);
    }

    /// AND $4400
    pub fn and2d(&mut self, operand: u16)
        requires
            old(self).wf(),
        ensures
            final(self).wf(),
            final(self)@ == and_tr(old(self)@, mread(old(self)@.ram, operand)),
    {
        let addr: u16 = operand;
        let m = self.read8(addr);
        self.and29(m);
    }

    /// AND $4400,X
    pub fn and3d(&mut self, operand: u16)
        requires
            old(self).wf(),
        ensures
            final(self).wf(),
            final(self)@ == and_tr(
                old(self)@,
                mread(old(self)@.ram, operand.wrapping_add(old(self)@.x as u16)),
            ),
    {
        let addr: u16 = operand.wrapping_add(self.x as u16);
        let m = self.read8(addr);
        self.and29(m);
    }

    /// AND $4400,Y
    pub fn and39(&mut self, operand: u16)
        requires
            old(self).wf(),
        ensures
            final(self).wf(),
            final(self)@ == and_tr(
                old(self)@,
                mread(old(self)@.ram, operand.wrapping_add(old(self)@.y as u16)),
            ),
    {
        let addr: u16 = operand.wrapping_add(self.y as u16);
        let m = self.read8(addr);
        self.and29(m);
    }

    /// AND ($44,X)
    pub fn and21(&mut self, operand: u8)
        requires
            old(self).wf(),
        ensures
            final(self).wf(),
            final(self)@ == and_tr(
                old(self)@,
                mread(old(self)@.ram, ind_ptr(old(self)@.ram, operand.wrapping_add(old(self)@.x))),
            ),
    {
        let addr: u16 = self.get_indirect_addr(operand.wrapping_add(self.x));
        let m = self.read8(addr);
        self.and29(m);
    }

    /// AND ($44),Y
    pub fn and31(&mut self, operand: u8)
        requires
            old(self).wf(),
        ensures
            final(self).wf(),
            final(self)@ == and_tr(
                old(self)@,
                mread(old(self)@.ram, ind_ptr(old(self)@.ram, operand).wrapping_add(old(self)@.y as u16)),
            ),
    {
        let addr: u16 = self.get_indirect_addr(operand).wrapping_add(self.y as u16);
        let m = self.read8(addr);
        self.and29(m);
    }

    /// ORA $44
    pub fn ora05(&mut self, operand: u8)
        requires
            old(self).wf(),
        ensures
            final(self).wf(),
            final(self)@ == ora_tr(old(self)@, mread(old(self)@.ram, operand as u16)),
    {
        let addr: u16 = operand as u16;
        let m = self.read8(addr);
        self.ora09(m);
    }

    /// ORA $44,X
    pub fn ora15(&mut self, operand: u8)
        requires
            old(self).wf(),
        ensures
            final(self).wf(),
            final(self)@ == ora_tr(
                old(self)@,
                mread(old(self)@.ram, old(self)@.x.wrapping_add(operand) as u16),
            ),
    {
        let addr: u16 = self.x.wrapping_add(operand) as u16;
        let m = self.read8(addr);
        self.ora09(m);
    }

    /// ORA $4400
    pub fn ora0d(&mut self, operand: u16)
        requires
            old(self).wf(),
        ensures
            final(self).wf(),
            final(self)@ == ora_tr(old(self)@, mread(old(self)@.ram, operand)),
    {
        let addr: u16 = operand;
        let m = self.read8(addr);
        self.ora09(m);
    }

    /// ORA $4400,X
    pub fn ora1d(&mut self, operand: u16)
        requires
            old(self).wf(),
        ensures
            final(self).wf(),
            final(self)@ == ora_tr(
                old(self)@,
                mread(old(self)@.ram, operand.wrapping_add(old(self)@.x as u16)),
            ),
    {
        let addr: u16 = operand.wrapping_add(self.x as u16);
        let m = self.read8(addr);
        self.ora09(m);
    }

    /// ORA $4400,Y
    pub fn ora19(&mut self, operand: u16)
        requires
            old(self).wf(),
        ensures
            final(self).wf(),
            final(self)@ == ora_tr(
                old(self)@,
                mread(old(self)@.ram, operand.wrapping_add(old(self)@.y as u16)),
            ),
    {
        let addr: u16 = operand.wrapping_add(self.y as u16);
        let m = self.read8(addr);
        self.ora09(m);
    }

    /// ORA ($44,X)
    pub fn ora01(&mut self, operand: u8)
        requires
            old(self).wf(),
        ensures
            final(self).wf(),
            final(self)@ == ora_tr(
                old(self)@,
                mread(old(self)@.ram, ind_ptr(old(self)@.ram, operand.wrapping_add(old(self)@.x))),
            ),
    {
        let addr: u16 = self.get_indirect_addr(operand.wrapping_add(self.x));
        let m = self.read8(addr);
        self.ora09(m);
    }

    /// ORA ($44),Y
    pub fn ora11(&mut self, operand: u8)
        requires
            old(self).wf(),
        ensures
            final(self).wf(),
            final(self)@ == ora_tr(
                old(self)@,
                mread(old(self)@.ram, ind_ptr(old(self)@.ram, operand).wrapping_add(old(self)@.y as u16)),
            ),
    {
        let addr: u16 = self.get_indirect_addr(operand).wrapping_add(self.y as u16);
        let m = self.read8(addr);
        self.ora09(m);
    }

    /// EOR $44
    pub fn eor45(&mut self, operand: u8)
        requires
            old(self).wf(),
        ensures
            final(self).wf(),
            final(self)@ == eor_tr(old(self)@, mread(old(self)@.ram, operand as u16)),
    {
        let addr: u16 = operand as u16;
        let m = self.read8(addr);
        self.eor49(m);
    }

    /// EOR $44,X
    pub fn eor55(&mut self, operand: u8)
        requires
            old(self).wf(),
        ensures
            final(self).wf(),
            final(self)@ == eor_tr(
                old(self)@,
                mread(old(self)@.ram, old(self)@.x.wrapping_add(operand) as u16),
            ),
    {
        let addr: u16 = self.x.wrapping_add(operand) as u16;
        let m = self.read8(addr);
        self.eor49(m);
    }

    /// EOR $4400
    pub fn eor4d(&mut self, operand: u16)
        requires
            old(self).wf(),
        ensures
            final(self).wf(),
            final(self)@ == eor_tr(old(self)@, mread(old(self)@.ram, operand)),
    {
        let addr: u16 = operand;
        let m = self.read8(addr);
        self.eor49(m);
    }

    /// EOR $4400,X
    pub fn eor5d(&mut self, operand: u16)
        requires
            old(self).wf(),
        ensures
            final(self).wf(),
            final(self)@ == eor_tr(
                old(self)@,
                mread(old(self)@.ram, operand.wrapping_add(old(self)@.x as u16)),
            ),
    {
        let addr: u16 = operand.wrapping_add(self.x as u16);
        let m = self.read8(addr);
        self.eor49(m);
    }

    /// EOR $4400,Y
    pub fn eor59(&mut self, operand: u16)
        requires
            old(self).wf(),
        ensures
            final(self).wf(),
            final(self)@ == eor_tr(
                old(self)@,
                mread(old(self)@.ram, operand.wrapping_add(old(self)@.y as u16)),
            ),
    {
        let addr: u16 = operand.wrapping_add(self.y as u16);
        let m = self.read8(addr);
        self.eor49(m);
    }

    /// EOR ($44,X)
    pub fn eor41(&mut self, operand: u8)
        requires
            old(self).wf(),
        ensures
            final(self).wf(),
            final(self)@ == eor_tr(
                old(self)@,
                mread(old(self)@.ram, ind_ptr(old(self)@.ram, operand.wrapping_add(old(self)@.x))),
            ),
    {
        let addr: u16 = self.get_indirect_addr(operand.wrapping_add(self.x));
        let m = self.read8(addr);
        self.eor49(m);
    }

    /// EOR ($44),Y
    pub fn eor51(&mut self, operand: u8)
        requires
            old(self).wf(),
        ensures
            final(self).wf(),
            final(self)@ == eor_tr(
                old(self)@,
                mread(old(self)@.ram, ind_ptr(old(self)@.ram, operand).wrapping_add(old(self)@.y as u16)),
            ),
    {
        let addr: u16 = self.get_indirect_addr(operand).wrapping_add(self.y as u16);
        let m = self.read8(addr);
        self.eor49(m);
    }

    /// LDA $44
    pub fn ldaa5(&mut self, operand: u8)
        requires
            old(self).wf(),
        ensures
            final(self).wf(),
            final(self)@ == lda_tr(old(self)@, mread(old(self)@.ram, operand as u16)),
    {
        let addr: u16 = operand as u16;
        let m = self.read8(addr);
        self.ldaa9(m);
    }

    /// LDA $44,X
    pub fn ldab5(&mut self, operand: u8)
        requires
            old(self).wf(),
        ensures
            final(self).wf(),
            final(self)@ == lda_tr(
                old(self)@,
                mread(old(self)@.ram, old(self)@.x.wrapping_add(operand) as u16),
            ),
    {
        let addr: u16 = self.x.wrapping_add(operand) as u16;
        let m = self.read8(addr);
        self.ldaa9(m);
    }

    /// LDA $4400
    pub fn ldaad(&mut self, operand: u16)
        requires
            old(self).wf(),
        ensures
            final(self).wf(),
            final(self)@ == lda_tr(old(self)@, mread(old(self)@.ram, operand)),
    {
        let addr: u16 = operand;
        let m = self.read8(addr);
        self.ldaa9(m);
    }

    /// LDA $4400,X
    pub fn ldabd(&mut self, operand: u16)
        requires
            old(self).wf(),
        ensures
            final(self).wf(),
            final(self)@ == lda_tr(
                old(self)@,
                mread(old(self)@.ram, operand.wrapping_add(old(self)@.x as u16)),
            ),
    {
        let addr: u16 = operand.wrapping_add(self.x as u16);
        let m = self.read8(addr);
        self.ldaa9(m);
    }

    /// LDA $4400,Y
    pub fn ldab9(&mut self, operand: u16)
        requires
            old(self).wf(),
        ensures
            final(self).wf(),
            final(self)@ == lda_tr(
                old(self)@,
                mread(old(self)@.ram, operand.wrapping_add(old(self)@.y as u16)),
            ),
    {
        let addr: u16 = operand.wrapping_add(self.y as u16);
        let m = self.read8(addr);
        self.ldaa9(m);
    }

    /// LDA ($44,X)
    pub fn ldaa1(&mut self, operand: u8)
        requires
            old(self).wf(),
        ensures
            final(self).wf(),
            final(self)@ == lda_tr(
                old(self)@,
                mread(old(self)@.ram, ind_ptr(old(self)@.ram, operand.wrapping_add(old(self)@.x))),
            ),
    {
        let addr: u16 = self.get_indirect_addr(operand.wrapping_add(self.x));
        let m = self.read8(addr);
        self.ldaa9(m);
    }

    /// LDA ($44),Y
    pub fn ldab1(&mut self, operand: u8)
        requires
            old(self).wf(),
        ensures
            final(self).wf(),
            final(self)@ == lda_tr(
                old(self)@,
                mread(old(self)@.ram, ind_ptr(old(self)@.ram, operand).wrapping_add(old(self)@.y as u16)),
            ),
    {
        let addr: u16 = self.get_indirect_addr(operand).wrapping_add(self.y as u16);
        let m = self.read8(addr);
        self.ldaa9(m);
    }

    /// LDX $44
    pub fn ldxa6(&mut self, operand: u8)
        requires
            old(self).wf(),
        ensures
            final(self).wf(),
            final(self)@ == ldx_tr(old(self)@, mread(old(self)@.ram, operand as u16)),
    {
        let addr: u16 = operand as u16;
        let m = self.read8(addr);
        self.ldxa2(m);
    }

    /// LDX $44,Y
    pub fn ldxb6(&mut self, operand: u8)
        requires
            old(self).wf(),
        ensures
            final(self).wf(),
            final(self)@ == ldx_tr(
                old(self)@,
                mread(old(self)@.ram, old(self)@.y.wrapping_add(operand) as u16),
            ),
    {
        let addr: u16 = self.y.wrapping_add(operand) as u16;
        let m = self.read8(addr);
        self.ldxa2(m);
    }

    /// LDX $4400
    pub fn ldxae(&mut self, operand: u16)
        requires
            old(self).wf(),
        ensures
            final(self).wf(),
            final(self)@ == ldx_tr(old(self)@, mread(old(self)@.ram, operand)),
    {
        let addr: u16 = operand;
        let m = self.read8(addr);
        self.ldxa2(m);
    }

    /// LDX $4400,Y
    pub fn ldxbe(&mut self, operand: u16)
        requires
            old(self).wf(),
        ensures
            final(self).wf(),
            final(self)@ == ldx_tr(
                old(self)@,
                mread(old(self)@.ram, operand.wrapping_add(old(self)@.y as u16)),
            ),
    {
        let addr: u16 = operand.wrapping_add(self.y as u16);
        let m = self.read8(addr);
        self.ldxa2(m);
    }

    /// LDY $44
    pub fn ldya4(&mut self, operand: u8)
        requires
            old(self).wf(),
        ensures
            final(self).wf(),
            final(self)@ == ldy_tr(old(self)@, mread(old(self)@.ram, operand as u16)),
    {
        let addr: u16 = operand as u16;
        let m = self.read8(addr);
        self.ldya0(m);
    }

    /// LDY $44,X
    pub fn ldyb4(&mut self, operand: u8)
        requires
            old(self).wf(),
        ensures
            final(self).wf(),
            final(self)@ == ldy_tr(
                old(self)@,
                mread(old(self)@.ram, old(self)@.x.wrapping_add(operand) as u16),
            ),
    {
        let addr: u16 = self.x.wrapping_add(operand) as u16;
        let m = self.read8(addr);
        self.ldya0(m);
    }

    /// LDY $4400
    pub fn ldyac(&mut self, operand: u16)
        requires
            old(self).wf(),
        ensures
            final(self).wf(),
            final(self)@ == ldy_tr(old(self)@, mread(old(self)@.ram, operand)),
    {
        let addr: u16 = operand;
        let m = self.read8(addr);
        self.ldya0(m);
    }

    /// LDY $4400,X
    pub fn ldybc(&mut self, operand: u16)
        requires
            old(self).wf(),
        ensures
            final(self).wf(),
            final(self)@ == ldy_tr(
                old(self)@,
                mread(old(self)@.ram, operand.wrapping_add(old(self)@.x as u16)),
            ),
    {
        let addr: u16 = operand.wrapping_add(self.x as u16);
        let m = self.read8(addr);
        self.ldya0(m);
    }

    /// CMP $44
    pub fn cmpc5(&mut self, operand: u8)
        requires
            old(self).wf(),
        ensures
            final(self).wf(),
            final(self)@ == cmp_tr(old(self)@, mread(old(self)@.ram, operand as u16)),
    {
        let addr: u16 = operand as u16;
        let m = self.read8(addr);
        self.cmpc9(m);
    }

    /// CMP $44,X
    pub fn cmpd5(&mut self, operand: u8)
        requires
            old(self).wf(),
        ensures
            final(self).wf(),
            final(self)@ == cmp_tr(
                old(self)@,
                mread(old(self)@.ram, old(self)@.x.wrapping_add(operand) as u16),
            ),
    {
        let addr: u16 = self.x.wrapping_add(operand) as u16;
        let m = self.read8(addr);
        self.cmpc9(m);
    }

    /// CMP $4400
    pub fn cmpcd(&mut self, operand: u16)
        requires
            old(self).wf(),
        ensures
            final(self).wf(),
            final(self)@ == cmp_tr(old(self)@, mread(old(self)@.ram, operand)),
    {
        let addr: u16 = operand;
        let m = self.read8(addr);
        self.cmpc9(m);
    }

    /// CMP $4400,X
    pub fn cmpdd(&mut self, operand: u16)
        requires
            old(self).wf(),
        ensures
            final(self).wf(),
            final(self)@ == cmp_tr(
                old(self)@,
                mread(old(self)@.ram, operand.wrapping_add(old(self)@.x as u16)),
            ),
    {
        let addr: u16 = operand.wrapping_add(self.x as u16);
        let m = self.read8(addr);
        self.cmpc9(m);
    }

    /// CMP $4400,Y
    pub fn cmpd9(&mut self, operand: u16)
        requires
            old(self).wf(),
        ensures
            final(self).wf(),
            final(self)@ == cmp_tr(
                old(self)@,
                mread(old(self)@.ram, operand.wrapping_add(old(self)@.y as u16)),
            ),
    {
        let addr: u16 = operand.wrapping_add(self.y as u16);
        let m = self.read8(addr);
        self.cmpc9(m);
    }

    /// CMP ($44,X)
    pub fn cmpc1(&mut self, operand: u8)
        requires
            old(self).wf(),
        ensures
            final(self).wf(),
            final(self)@ == cmp_tr(
                old(self)@,
                mread(old(self)@.ram, ind_ptr(old(self)@.ram, operand.wrapping_add(old(self)@.x))),
            ),
    {
        let addr: u16 = self.get_indirect_addr(operand.wrapping_add(self.x));
        let m = self.read8(addr);
        self.cmpc9(m);
    }

    /// CMP ($44),Y
    pub fn cmpd1(&mut self, operand: u8)
        requires
            old(self).wf(),
        ensures
            final(self).wf(),
            final(self)@ == cmp_tr(
                old(self)@,
                mread(old(self)@.ram, ind_ptr(old(self)@.ram, operand).wrapping_add(old(self)@.y as u16)),
            ),
    {
        let addr: u16 = self.get_indirect_addr(operand).wrapping_add(self.y as u16);
        let m = self.read8(addr);
        self.cmpc9(m);
    }

    /// CPX $44
    pub fn cpxe4(&mut self, operand: u8)
        requires
            old(self).wf(),
        ensures
            final(self).wf(),
            final(self)@ == cpx_tr(old(self)@, mread(old(self)@.ram, operand as u16)),
    {
        let addr: u16 = operand as u16;
        let m = self.read8(addr);
        self.cpxe0(m);
    }

    /// CPX $4400
    pub fn cpxec(&mut self, operand: u16)
        requires
            old(self).wf(),
        ensures
            final(self).wf(),
            final(self)@ == cpx_tr(old(self)@, mread(old(self)@.ram, operand)),
    {
        let addr: u16 = operand;
        let m = self.read8(addr);
        self.cpxe0(m);
    }

    /// CPY $44
    pub fn cpyc4(&mut self, operand: u8)
        requires
            old(self).wf(),
        ensures
            final(self).wf(),
            final(self)@ == cpy_tr(old(self)@, mread(old(self)@.ram, operand as u16)),
    {
        let addr: u16 = operand as u16;
        let m = self.read8(addr);
        self.cpyc0(m);
    }

    /// CPY $4400
    pub fn cpycc(&mut self, operand: u16)
        requires
            old(self).wf(),
        ensures
            final(self).wf(),
            final(self)@ == cpy_tr(old(self)@, mread(old(self)@.ram, operand)),
    {
        let addr: u16 = operand;
        let m = self.read8(addr);
        self.cpyc0(m);
    }

    /// BIT $44
    pub fn bit24(&mut self, operand: u8)
        requires
            old(self).wf(),
        ensures
            final(self).wf(),
            final(self)@ == bit_tr(old(self)@, operand as u16),
    {
        self.bit_helper(operand as u16);
    }

    /// BIT $4400
    pub fn bit2c(&mut self, operand: u16)
        requires
            old(self).wf(),
        ensures
            final(self).wf(),
            final(self)@ == bit_tr(old(self)@, operand),
    {
        self.bit_helper(operand);
    }

    /// STA $44
    pub fn sta85(&mut self, operand: u8)
        requires
            old(self).wf(),
        ensures
            final(self).wf(),
            final(self)@ == sta_tr(old(self)@, operand as u16),
    {
        let addr: u16 = operand as u16;
        self.sta8d(addr);
    }

    /// STA $44,X
    pub fn sta95(&mut self, operand: u8)
        requires
            old(self).wf(),
        ensures
            final(self).wf(),
            final(self)@ == sta_tr(old(self)@, old(self)@.x.wrapping_add(operand) as u16),
    {
        let addr: u16 = self.x.wrapping_add(operand) as u16;
        self.sta8d(addr);
    }

    /// STA $4400,X
    pub fn sta9d(&mut self, operand: u16)
        requires
            old(self).wf(),
        ensures
            final(self).wf(),
            final(self)@ == sta_tr(old(self)@, operand.wrapping_add(old(self)@.x as u16)),
    {
        let addr: u16 = operand.wrapping_add(self.x as u16);
        self.sta8d(addr);
    }

    /// STA $4400,Y
    pub fn sta99(&mut self, operand: u16)
        requires
            old(self).wf(),
        ensures
            final(self).wf(),
            final(self)@ == sta_tr(old(self)@, operand.wrapping_add(old(self)@.y as u16)),
    {
        let addr: u16 = operand.wrapping_add(self.y as u16);
        self.sta8d(addr);
    }

    /// STA ($44,X)
    pub fn sta81(&mut self, operand: u8)
        requires
            old(self).wf(),
        ensures
            final(self).wf(),
            final(self)@ == sta_tr(old(self)@, ind_ptr(old(self)@.ram, operand.wrapping_add(old(self)@.x))),
    {
        let addr: u16 = self.get_indirect_addr(operand.wrapping_add(self.x));
        self.sta8d(addr);
    }

    /// STA ($44),Y
    pub fn sta91(&mut self, operand: u8)
        requires
            old(self).wf(),
        ensures
            final(self).wf(),
            final(self)@ == sta_tr(old(self)@, ind_ptr(old(self)@.ram, operand).wrapping_add(old(self)@.y as u16)),
    {
        let addr: u16 = self.get_indirect_addr(operand).wrapping_add(self.y as u16);
        self.sta8d(addr);
    }

    /// STX $44
    pub fn stx86(&mut self, operand: u8)
        requires
            old(self).wf(),
        ensures
            final(self).wf(),
            final(self)@ == stx_tr(old(self)@, operand as u16),
    {
        let addr: u16 = operand as u16;
        self.stx8e(addr);
    }

    /// STX $44,Y
    pub fn stx96(&mut self, operand: u8)
        requires
            old(self).wf(),
        ensures
            final(self).wf(),
            final(self)@ == stx_tr(old(self)@, old(self)@.y.wrapping_add(operand) as u16),
    {
        let addr: u16 = self.y.wrapping_add(operand) as u16;
        self.stx8e(addr);
    }

    /// STY $44
    pub fn sty84(&mut self, operand: u8)
        requires
            old(self).wf(),
        ensures
            final(self).wf(),
            final(self)@ == sty_tr(old(self)@, operand as u16),
    {
        let addr: u16 = operand as u16;
        self.sty8c(addr);
    }

    /// STY $44,X
    pub fn sty94(&mut self, operand: u8)
        requires
            old(self).wf(),
        ensures
            final(self).wf(),
            final(self)@ == sty_tr(old(self)@, old(self)@.x.wrapping_add(operand) as u16),
    {
        let addr: u16 = self.x.wrapping_add(operand) as u16;
        self.sty8c(addr);
    }

    /// ASL $44
    pub fn asl06(&mut self, operand: u8)
        requires
            old(self).wf(),
        ensures
            final(self).wf(),
            final(self)@ == asl_m_tr(old(self)@, operand as u16),
    {
        let addr: u16 = operand as u16;
        self.asl0e(addr);
    }

    /// ASL $44,X
    pub fn asl16(&mut self, operand: u8)
        requires
            old(self).wf(),
        ensures
            final(self).wf(),
            final(self)@ == asl_m_tr(old(self)@, old(self)@.x.wrapping_add(operand) as u16),
    {
        let addr: u16 = self.x.wrapping_add(operand) as u16;
        self.asl0e(addr);
    }

    /// ASL $4400,X
    pub fn asl1e(&mut self, operand: u16)
        requires
            old(self).wf(),
        ensures
            final(self).wf(),
            final(self)@ == asl_m_tr(old(self)@, operand.wrapping_add(old(self)@.x as u16)),
    {
        let addr: u16 = operand.wrapping_add(self.x as u16);
        self.asl0e(addr);
    }

    /// LSR $44
    pub fn lsr46(&mut self, operand: u8)
        requires
            old(self).wf(),
        ensures
            final(self).wf(),
            final(self)@ == lsr_m_tr(old(self)@, operand as u16),
    {
        let addr: u16 = operand as u16;
        self.lsr4e(addr);
    }

    /// LSR $44,X
    pub fn lsr56(&mut self, operand: u8)
        requires
            old(self).wf(),
        ensures
            final(self).wf(),
            final(self)@ == lsr_m_tr(old(self)@, old(self)@.x.wrapping_add(operand) as u16),
    {
        let addr: u16 = self.x.wrapping_add(operand) as u16;
        self.lsr4e(addr);
    }

    /// LSR $4400,X
    pub fn lsr5e(&mut self, operand: u16)
        requires
            old(self).wf(),
        ensures
            final(self).wf(),
            final(self)@ == lsr_m_tr(old(self)@, operand.wrapping_add(old(self)@.x as u16)),
    {
        let addr: u16 = operand.wrapping_add(self.x as u16);
        self.lsr4e(addr);
    }

    /// ROL $44
    pub fn rol26(&mut self, operand: u8)
        requires
            old(self).wf(),
        ensures
            final(self).wf(),
            final(self)@ == rol_m_tr(old(self)@, operand as u16),
    {
        let addr: u16 = operand as u16;
        self.rol2e(addr);
    }

    /// ROL $44,X
    pub fn rol36(&mut self, operand: u8)
        requires
            old(self).wf(),
        ensures
            final(self).wf(),
            final(self)@ == rol_m_tr(old(self)@, old(self)@.x.wrapping_add(operand) as u16),
    {
        let addr: u16 = self.x.wrapping_add(operand) as u16;
        self.rol2e(addr);
    }

    /// ROL $4400,X
    pub fn rol3e(&mut self, operand: u16)
        requires
            old(self).wf(),
        ensures
            final(self).wf(),
            final(self)@ == rol_m_tr(old(self)@, operand.wrapping_add(old(self)@.x as u16)),
    {
        let addr: u16 = operand.wrapping_add(self.x as u16);
        self.rol2e(addr);
    }

    /// ROR $44
    pub fn ror66(&mut self, operand: u8)
        requires
            old(self).wf(),
        ensures
            final(self).wf(),
            final(self)@ == ror_m_tr(old(self)@, operand as u16),
    {
        let addr: u16 = operand as u16;
        self.ror6e(addr);
    }

    /// ROR $44,X
    pub fn ror76(&mut self, operand: u8)
        requires
            old(self).wf(),
        ensures
            final(self).wf(),
            final(self)@ == ror_m_tr(old(self)@, old(self)@.x.wrapping_add(operand) as u16),
    {
        let addr: u16 = self.x.wrapping_add(operand) as u16;
        self.ror6e(addr);
    }

    /// ROR $4400,X
    pub fn ror7e(&mut self, operand: u16)
        requires
            old(self).wf(),
        ensures
            final(self).wf(),
            final(self)@ == ror_m_tr(old(self)@, operand.wrapping_add(old(self)@.x as u16)),
    {
        let addr: u16 = operand.wrapping_add(self.x as u16);
        self.ror6e(addr);
    }

    /// INC $44
    pub fn ince6(&mut self, operand: u8)
        requires
            old(self).wf(),
        ensures
            final(self).wf(),
            final(self)@ == inc_m_tr(old(self)@, operand as u16),
    {
        let addr: u16 = operand as u16;
        self.incee(addr);
    }

    /// INC $44,X
    pub fn incf6(&mut self, operand: u8)
        requires
            old(self).wf(),
        ensures
            final(self).wf(),
            final(self)@ == inc_m_tr(old(self)@, old(self)@.x.wrapping_add(operand) as u16),
    {
        let addr: u16 = self.x.wrapping_add(operand) as u16;
        self.incee(addr);
    }

    /// INC $4400,X
    pub fn incfe(&mut self, operand: u16)
        requires
            old(self).wf(),
        ensures
            final(self).wf(),
            final(self)@ == inc_m_tr(old(self)@, operand.wrapping_add(old(self)@.x as u16)),
    {
        let addr: u16 = operand.wrapping_add(self.x as u16);
        self.incee(addr);
    }

    /// DEC $44
    pub fn decc6(&mut self, operand: u8)
        requires
            old(self).wf(),
        ensures
            final(self).wf(),
            final(self)@ == dec_m_tr(old(self)@, operand as u16),
    {
        let addr: u16 = operand as u16;
        self.decce(addr);
    }

    /// DEC $44,X
    pub fn decd6(&mut self, operand: u8)
        requires
            old(self).wf(),
        ensures
            final(self).wf(),
            final(self)@ == dec_m_tr(old(self)@, old(self)@.x.wrapping_add(operand) as u16),
    {
        let addr: u16 = self.x.wrapping_add(operand) as u16;
        self.decce(addr);
    }

    /// DEC $4400,X
    pub fn decde(&mut self, operand: u16)
        requires
            old(self).wf(),
        ensures
            final(self).wf(),
            final(self)@ == dec_m_tr(old(self)@, operand.wrapping_add(old(self)@.x as u16)),
    {
        let addr: u16 = operand.wrapping_add(self.x as u16);
        self.decce(addr);
    }

}

} // verus!
