//! One instruction per call: fetch at PC, decode, resolve the addressing
//! mode, execute, and report the cycle count with the page-cross and
//! branch-taken penalties. The spec-level step function below states the
//! whole transition; the executable cycle is verified against it arm by
//! arm. Opcode bytes outside the official set execute as single-byte
//! no-ops taking two cycles.
use vstd::prelude::*;
use crate::cpu::{branch_target, CPU};
use crate::state::{
    adc_tr, adv_tr, and_tr, asl_a_tr, asl_m_tr, bit_tr, branch_dest, branch_tr, brk_tr, cmp_tr,
    cpx_tr, cpy_tr, dec_m_tr, dex_tr, dey_tr, eor_tr, flag_get, inc_m_tr, ind_ptr, inx_tr,
    iny_tr, jmp_abs_tr, jmp_ind_tr, jsr_tr, lda_tr, ldx_tr, ldy_tr, lsr_a_tr, lsr_m_tr, mread,
    ora_tr, pha_tr, php_tr, pla_tr, plp_tr, rol_a_tr, rol_m_tr, ror_a_tr, ror_m_tr, rti_tr,
    rts_tr, same_page, sbc_tr, set_flag_tr, sta_tr, stx_tr, sty_tr, tax_tr, tay_tr, tsx_tr,
    txa_tr, txs_tr, tya_tr, word, CpuState, FLAG_C, FLAG_D, FLAG_I, FLAG_N, FLAG_V, FLAG_Z,
};

verus! {

/// The state after executing the instruction at PC, paired with its cycle
/// count. Reads of the operand bytes and of every effective address go
/// through the mirrored memory image.
pub open spec fn step_spec(pre: CpuState) -> (CpuState, u8) {
    let op = mread(pre.ram, pre.pc);
    let b1 = mread(pre.ram, pre.pc.wrapping_add(1));
    let b2 = mread(pre.ram, pre.pc.wrapping_add(2));
    let ab = word(b1, b2);
    if op == 0x00 {  // brk00
        (brk_tr(adv_tr(pre, 1)), 7)
    } else if op == 0x01 {  // ora01
        (ora_tr(adv_tr(pre, 2), mread(pre.ram, ind_ptr(pre.ram, b1.wrapping_add(pre.x)))), 6)
    } else if op == 0x05 {  // ora05
        (ora_tr(adv_tr(pre, 2), mread(pre.ram, b1 as u16)), 3)
    } else if op == 0x06 {  // asl06
        (asl_m_tr(adv_tr(pre, 2), b1 as u16), 5)
    } else if op == 0x08 {  // php08
        (php_tr(adv_tr(pre, 1)), 3)
    } else if op == 0x09 {  // ora09
        (ora_tr(adv_tr(pre, 2), b1), 2)
    } else if op == 0x0A {  // asl0a
        (asl_a_tr(adv_tr(pre, 1)), 2)
    } else if op == 0x0D {  // ora0d
        (ora_tr(adv_tr(pre, 3), mread(pre.ram, ab)), 4)
    } else if op == 0x0E {  // asl0e
        (asl_m_tr(adv_tr(pre, 3), ab), 6)
    } else if op == 0x10 {  // bpl10
        ({
            let taken = !flag_get(pre.p, FLAG_N);
            let npc = pre.pc.wrapping_add(2);
            (branch_tr(adv_tr(pre, 2), taken, b1),
                if !taken {
                    2
                } else if same_page(branch_dest(npc, b1), npc) {
                    3
                } else {
                    4
                })
        })
    } else if op == 0x11 {  // ora11
        ({
            let base = ind_ptr(pre.ram, b1);
            (ora_tr(adv_tr(pre, 2), mread(pre.ram, ind_ptr(pre.ram, b1).wrapping_add(pre.y as u16))),
                if same_page(base, base.wrapping_add(pre.y as u16)) {
                    5
                } else {
                    6
                })
        })
    } else if op == 0x15 {  // ora15
        (ora_tr(adv_tr(pre, 2), mread(pre.ram, pre.x.wrapping_add(b1) as u16)), 4)
    } else if op == 0x16 {  // asl16
        (asl_m_tr(adv_tr(pre, 2), pre.x.wrapping_add(b1) as u16), 6)
    } else if op == 0x18 {  // clc18
        (set_flag_tr(adv_tr(pre, 1), FLAG_C, false), 2)
    } else if op == 0x19 {  // ora19
        (ora_tr(adv_tr(pre, 3), mread(pre.ram, ab.wrapping_add(pre.y as u16))),
            if same_page(ab, ab.wrapping_add(pre.y as u16)) {
                4
            } else {
                5
            })
    } else if op == 0x1D {  // ora1d
        (ora_tr(adv_tr(pre, 3), mread(pre.ram, ab.wrapping_add(pre.x as u16))),
            if same_page(ab, ab.wrapping_add(pre.x as u16)) {
                4
            } else {
                5
            })
    } else if op == 0x1E {  // asl1e
        (asl_m_tr(adv_tr(pre, 3), ab.wrapping_add(pre.x as u16)), 7)
    } else if op == 0x20 {  // jsr20
        (jsr_tr(adv_tr(pre, 3), ab), 6)
    } else if op == 0x21 {  // and21
        (and_tr(adv_tr(pre, 2), mread(pre.ram, ind_ptr(pre.ram, b1.wrapping_add(pre.x)))), 6)
    } else if op == 0x24 {  // bit24
        (bit_tr(adv_tr(pre, 2), b1 as u16), 3)
    } else if op == 0x25 {  // and25
        (and_tr(adv_tr(pre, 2), mread(pre.ram, b1 as u16)), 3)
    } else if op == 0x26 {  // rol26
        (rol_m_tr(adv_tr(pre, 2), b1 as u16), 5)
    } else if op == 0x28 {  // plp28
        (plp_tr(adv_tr(pre, 1)), 4)
    } else if op == 0x29 {  // and29
        (and_tr(adv_tr(pre, 2), b1), 2)
    } else if op == 0x2A {  // rol2a
        (rol_a_tr(adv_tr(pre, 1)), 2)
    } else if op == 0x2C {  // bit2c
        (bit_tr(adv_tr(pre, 3), ab), 4)
    } else if op == 0x2D {  // and2d
        (and_tr(adv_tr(pre, 3), mread(pre.ram, ab)), 4)
    } else if op == 0x2E {  // rol2e
        (rol_m_tr(adv_tr(pre, 3), ab), 6)
    } else if op == 0x30 {  // bmi30
        ({
            let taken = flag_get(pre.p, FLAG_N);
            let npc = pre.pc.wrapping_add(2);
            (branch_tr(adv_tr(pre, 2), taken, b1),
                if !taken {
                    2
                } else if same_page(branch_dest(npc, b1), npc) {
                    3
                } else {
                    4
                })
        })
    } else if op == 0x31 {  // and31
        ({
            let base = ind_ptr(pre.ram, b1);
            (and_tr(adv_tr(pre, 2), mread(pre.ram, ind_ptr(pre.ram, b1).wrapping_add(pre.y as u16))),
                if same_page(base, base.wrapping_add(pre.y as u16)) {
                    5
                } else {
                    6
                })
        })
    } else if op == 0x35 {  // and35
        (and_tr(adv_tr(pre, 2), mread(pre.ram, pre.x.wrapping_add(b1) as u16)), 4)
    } else if op == 0x36 {  // rol36
        (rol_m_tr(adv_tr(pre, 2), pre.x.wrapping_add(b1) as u16), 6)
    } else if op == 0x38 {  // sec38
        (set_flag_tr(adv_tr(pre, 1), FLAG_C, true), 2)
    } else if op == 0x39 {  // and39
        (and_tr(adv_tr(pre, 3), mread(pre.ram, ab.wrapping_add(pre.y as u16))),
            if same_page(ab, ab.wrapping_add(pre.y as u16)) {
                4
            } else {
                5
            })
    } else if op == 0x3D {  // and3d
        (and_tr(adv_tr(pre, 3), mread(pre.ram, ab.wrapping_add(pre.x as u16))),
            if same_page(ab, ab.wrapping_add(pre.x as u16)) {
                4
            } else {
                5
            })
    } else if op == 0x3E {  // rol3e
        (rol_m_tr(adv_tr(pre, 3), ab.wrapping_add(pre.x as u16)), 7)
    } else if op == 0x40 {  // rti40
        (rti_tr(adv_tr(pre, 1)), 6)
    } else if op == 0x41 {  // eor41
        (eor_tr(adv_tr(pre, 2), mread(pre.ram, ind_ptr(pre.ram, b1.wrapping_add(pre.x)))), 6)
    } else if op == 0x45 {  // eor45
        (eor_tr(adv_tr(pre, 2), mread(pre.ram, b1 as u16)), 3)
    } else if op == 0x46 {  // lsr46
        (lsr_m_tr(adv_tr(pre, 2), b1 as u16), 5)
    } else if op == 0x48 {  // pha48
        (pha_tr(adv_tr(pre, 1)), 3)
    } else if op == 0x49 {  // eor49
        (eor_tr(adv_tr(pre, 2), b1), 2)
    } else if op == 0x4A {  // lsr4a
        (lsr_a_tr(adv_tr(pre, 1)), 2)
    } else if op == 0x4C {  // jmp4c
        (jmp_abs_tr(pre, ab), 3)
    } else if op == 0x4D {  // eor4d
        (eor_tr(adv_tr(pre, 3), mread(pre.ram, ab)), 4)
    } else if op == 0x4E {  // lsr4e
        (lsr_m_tr(adv_tr(pre, 3), ab), 6)
    } else if op == 0x50 {  // bvc50
        ({
            let taken = !flag_get(pre.p, FLAG_V);
            let npc = pre.pc.wrapping_add(2);
            (branch_tr(adv_tr(pre, 2), taken, b1),
                if !taken {
                    2
                } else if same_page(branch_dest(npc, b1), npc) {
                    3
                } else {
                    4
                })
        })
    } else if op == 0x51 {  // eor51
        ({
            let base = ind_ptr(pre.ram, b1);
            (eor_tr(adv_tr(pre, 2), mread(pre.ram, ind_ptr(pre.ram, b1).wrapping_add(pre.y as u16))),
                if same_page(base, base.wrapping_add(pre.y as u16)) {
                    5
                } else {
                    6
                })
        })
    } else if op == 0x55 {  // eor55
        (eor_tr(adv_tr(pre, 2), mread(pre.ram, pre.x.wrapping_add(b1) as u16)), 4)
    } else if op == 0x56 {  // lsr56
        (lsr_m_tr(adv_tr(pre, 2), pre.x.wrapping_add(b1) as u16), 6)
    } else if op == 0x58 {  // cli58
        (set_flag_tr(adv_tr(pre, 1), FLAG_I, false), 2)
    } else if op == 0x59 {  // eor59
        (eor_tr(adv_tr(pre, 3), mread(pre.ram, ab.wrapping_add(pre.y as u16))),
            if same_page(ab, ab.wrapping_add(pre.y as u16)) {
                4
            } else {
                5
            })
    } else if op == 0x5D {  // eor5d
        (eor_tr(adv_tr(pre, 3), mread(pre.ram, ab.wrapping_add(pre.x as u16))),
            if same_page(ab, ab.wrapping_add(pre.x as u16)) {
                4
            } else {
                5
            })
    } else if op == 0x5E {  // lsr5e
        (lsr_m_tr(adv_tr(pre, 3), ab.wrapping_add(pre.x as u16)), 7)
    } else if op == 0x60 {  // rts60
        (rts_tr(adv_tr(pre, 1)), 6)
    } else if op == 0x61 {  // adc61
        (adc_tr(adv_tr(pre, 2), mread(pre.ram, ind_ptr(pre.ram, b1.wrapping_add(pre.x)))), 6)
    } else if op == 0x65 {  // adc65
        (adc_tr(adv_tr(pre, 2), mread(pre.ram, b1 as u16)), 3)
    } else if op == 0x66 {  // ror66
        (ror_m_tr(adv_tr(pre, 2), b1 as u16), 5)
    } else if op == 0x68 {  // pla68
        (pla_tr(adv_tr(pre, 1)), 4)
    } else if op == 0x69 {  // adc69
        (adc_tr(adv_tr(pre, 2), b1), 2)
    } else if op == 0x6A {  // ror6a
        (ror_a_tr(adv_tr(pre, 1)), 2)
    } else if op == 0x6C {  // jmp6c
        (jmp_ind_tr(pre, ab), 5)
    } else if op == 0x6D {  // adc6d
        (adc_tr(adv_tr(pre, 3), mread(pre.ram, ab)), 4)
    } else if op == 0x6E {  // ror6e
        (ror_m_tr(adv_tr(pre, 3), ab), 6)
    } else if op == 0x70 {  // bvs70
        ({
            let taken = flag_get(pre.p, FLAG_V);
            let npc = pre.pc.wrapping_add(2);
            (branch_tr(adv_tr(pre, 2), taken, b1),
                if !taken {
                    2
                } else if same_page(branch_dest(npc, b1), npc) {
                    3
                } else {
                    4
                })
        })
    } else if op == 0x71 {  // adc71
        ({
            let base = ind_ptr(pre.ram, b1);
            (adc_tr(adv_tr(pre, 2), mread(pre.ram, ind_ptr(pre.ram, b1).wrapping_add(pre.y as u16))),
                if same_page(base, base.wrapping_add(pre.y as u16)) {
                    5
                } else {
                    6
                })
        })
    } else if op == 0x75 {  // adc75
        (adc_tr(adv_tr(pre, 2), mread(pre.ram, pre.x.wrapping_add(b1) as u16)), 4)
    } else if op == 0x76 {  // ror76
        (ror_m_tr(adv_tr(pre, 2), pre.x.wrapping_add(b1) as u16), 6)
    } else if op == 0x78 {  // sei78
        (set_flag_tr(adv_tr(pre, 1), FLAG_I, true), 2)
    } else if op == 0x79 {  // adc79
        (adc_tr(adv_tr(pre, 3), mread(pre.ram, ab.wrapping_add(pre.y as u16))),
            if same_page(ab, ab.wrapping_add(pre.y as u16)) {
                4
            } else {
                5
            })
    } else if op == 0x7D {  // adc7d
        (adc_tr(adv_tr(pre, 3), mread(pre.ram, ab.wrapping_add(pre.x as u16))),
            if same_page(ab, ab.wrapping_add(pre.x as u16)) {
                4
            } else {
                5
            })
    } else if op == 0x7E {  // ror7e
        (ror_m_tr(adv_tr(pre, 3), ab.wrapping_add(pre.x as u16)), 7)
    } else if op == 0x81 {  // sta81
        (sta_tr(adv_tr(pre, 2), ind_ptr(pre.ram, b1.wrapping_add(pre.x))), 6)
    } else if op == 0x84 {  // sty84
        (sty_tr(adv_tr(pre, 2), b1 as u16), 3)
    } else if op == 0x85 {  // sta85
        (sta_tr(adv_tr(pre, 2), b1 as u16), 3)
    } else if op == 0x86 {  // stx86
        (stx_tr(adv_tr(pre, 2), b1 as u16), 3)
    } else if op == 0x88 {  // dey88
        (dey_tr(adv_tr(pre, 1)), 2)
    } else if op == 0x8A {  // txa8a
        (txa_tr(adv_tr(pre, 1)), 2)
    } else if op == 0x8C {  // sty8c
        (sty_tr(adv_tr(pre, 3), ab), 4)
    } else if op == 0x8D {  // sta8d
        (sta_tr(adv_tr(pre, 3), ab), 4)
    } else if op == 0x8E {  // stx8e
        (stx_tr(adv_tr(pre, 3), ab), 4)
    } else if op == 0x90 {  // bcc90
        ({
            let taken = !flag_get(pre.p, FLAG_C);
            let npc = pre.pc.wrapping_add(2);
            (branch_tr(adv_tr(pre, 2), taken, b1),
                if !taken {
                    2
                } else if same_page(branch_dest(npc, b1), npc) {
                    3
                } else {
                    4
                })
        })
    } else if op == 0x91 {  // sta91
        (sta_tr(adv_tr(pre, 2), ind_ptr(pre.ram, b1).wrapping_add(pre.y as u16)), 6)
    } else if op == 0x94 {  // sty94
        (sty_tr(adv_tr(pre, 2), pre.x.wrapping_add(b1) as u16), 4)
    } else if op == 0x95 {  // sta95
        (sta_tr(adv_tr(pre, 2), pre.x.wrapping_add(b1) as u16), 4)
    } else if op == 0x96 {  // stx96
        (stx_tr(adv_tr(pre, 2), pre.y.wrapping_add(b1) as u16), 4)
    } else if op == 0x98 {  // tya98
        (tya_tr(adv_tr(pre, 1)), 2)
    } else if op == 0x99 {  // sta99
        (sta_tr(adv_tr(pre, 3), ab.wrapping_add(pre.y as u16)), 5)
    } else if op == 0x9A {  // txs9a
        (txs_tr(adv_tr(pre, 1)), 2)
    } else if op == 0x9D {  // sta9d
        (sta_tr(adv_tr(pre, 3), ab.wrapping_add(pre.x as u16)), 5)
    } else if op == 0xA0 {  // ldya0
        (ldy_tr(adv_tr(pre, 2), b1), 2)
    } else if op == 0xA1 {  // ldaa1
        (lda_tr(adv_tr(pre, 2), mread(pre.ram, ind_ptr(pre.ram, b1.wrapping_add(pre.x)))), 6)
    } else if op == 0xA2 {  // ldxa2
        (ldx_tr(adv_tr(pre, 2), b1), 2)
    } else if op == 0xA4 {  // ldya4
        (ldy_tr(adv_tr(pre, 2), mread(pre.ram, b1 as u16)), 3)
    } else if op == 0xA5 {  // ldaa5
        (lda_tr(adv_tr(pre, 2), mread(pre.ram, b1 as u16)), 3)
    } else if op == 0xA6 {  // ldxa6
        (ldx_tr(adv_tr(pre, 2), mread(pre.ram, b1 as u16)), 3)
    } else if op == 0xA8 {  // taya8
        (tay_tr(adv_tr(pre, 1)), 2)
    } else if op == 0xA9 {  // ldaa9
        (lda_tr(adv_tr(pre, 2), b1), 2)
    } else if op == 0xAA {  // taxaa
        (tax_tr(adv_tr(pre, 1)), 2)
    } else if op == 0xAC {  // ldyac
        (ldy_tr(adv_tr(pre, 3), mread(pre.ram, ab)), 4)
    } else if op == 0xAD {  // ldaad
        (lda_tr(adv_tr(pre, 3), mread(pre.ram, ab)), 4)
    } else if op == 0xAE {  // ldxae
        (ldx_tr(adv_tr(pre, 3), mread(pre.ram, ab)), 4)
    } else if op == 0xB0 {  // bcsb0
        ({
            let taken = flag_get(pre.p, FLAG_C);
            let npc = pre.pc.wrapping_add(2);
            (branch_tr(adv_tr(pre, 2), taken, b1),
                if !taken {
                    2
                } else if same_page(branch_dest(npc, b1), npc) {
                    3
                } else {
                    4
                })
        })
    } else if op == 0xB1 {  // ldab1
        ({
            let base = ind_ptr(pre.ram, b1);
            (lda_tr(adv_tr(pre, 2), mread(pre.ram, ind_ptr(pre.ram, b1).wrapping_add(pre.y as u16))),
                if same_page(base, base.wrapping_add(pre.y as u16)) {
                    5
                } else {
                    6
                })
        })
    } else if op == 0xB4 {  // ldyb4
        (ldy_tr(adv_tr(pre, 2), mread(pre.ram, pre.x.wrapping_add(b1) as u16)), 4)
    } else if op == 0xB5 {  // ldab5
        (lda_tr(adv_tr(pre, 2), mread(pre.ram, pre.x.wrapping_add(b1) as u16)), 4)
    } else if op == 0xB6 {  // ldxb6
        (ldx_tr(adv_tr(pre, 2), mread(pre.ram, pre.y.wrapping_add(b1) as u16)), 4)
    } else if op == 0xB8 {  // clvb8
        (set_flag_tr(adv_tr(pre, 1), FLAG_V, false), 2)
    } else if op == 0xB9 {  // ldab9
        (lda_tr(adv_tr(pre, 3), mread(pre.ram, ab.wrapping_add(pre.y as u16))),
            if same_page(ab, ab.wrapping_add(pre.y as u16)) {
                4
            } else {
                5
            })
    } else if op == 0xBA {  // tsxba
        (tsx_tr(adv_tr(pre, 1)), 2)
    } else if op == 0xBC {  // ldybc
        (ldy_tr(adv_tr(pre, 3), mread(pre.ram, ab.wrapping_add(pre.x as u16))),
            if same_page(ab, ab.wrapping_add(pre.x as u16)) {
                4
            } else {
                5
            })
    } else if op == 0xBD {  // ldabd
        (lda_tr(adv_tr(pre, 3), mread(pre.ram, ab.wrapping_add(pre.x as u16))),
            if same_page(ab, ab.wrapping_add(pre.x as u16)) {
                4
            } else {
                5
            })
    } else if op == 0xBE {  // ldxbe
        (ldx_tr(adv_tr(pre, 3), mread(pre.ram, ab.wrapping_add(pre.y as u16))),
            if same_page(ab, ab.wrapping_add(pre.y as u16)) {
                4
            } else {
                5
            })
    } else if op == 0xC0 {  // cpyc0
        (cpy_tr(adv_tr(pre, 2), b1), 2)
    } else if op == 0xC1 {  // cmpc1
        (cmp_tr(adv_tr(pre, 2), mread(pre.ram, ind_ptr(pre.ram, b1.wrapping_add(pre.x)))), 6)
    } else if op == 0xC4 {  // cpyc4
        (cpy_tr(adv_tr(pre, 2), mread(pre.ram, b1 as u16)), 3)
    } else if op == 0xC5 {  // cmpc5
        (cmp_tr(adv_tr(pre, 2), mread(pre.ram, b1 as u16)), 3)
    } else if op == 0xC6 {  // decc6
        (dec_m_tr(adv_tr(pre, 2), b1 as u16), 5)
    } else if op == 0xC8 {  // inyc8
        (iny_tr(adv_tr(pre, 1)), 2)
    } else if op == 0xC9 {  // cmpc9
        (cmp_tr(adv_tr(pre, 2), b1), 2)
    } else if op == 0xCA {  // dexca
        (dex_tr(adv_tr(pre, 1)), 2)
    } else if op == 0xCC {  // cpycc
        (cpy_tr(adv_tr(pre, 3), mread(pre.ram, ab)), 4)
    } else if op == 0xCD {  // cmpcd
        (cmp_tr(adv_tr(pre, 3), mread(pre.ram, ab)), 4)
    } else if op == 0xCE {  // decce
        (dec_m_tr(adv_tr(pre, 3), ab), 6)
    } else if op == 0xD0 {  // bned0
        ({
            let taken = !flag_get(pre.p, FLAG_Z);
            let npc = pre.pc.wrapping_add(2);
            (branch_tr(adv_tr(pre, 2), taken, b1),
                if !taken {
                    2
                } else if same_page(branch_dest(npc, b1), npc) {
                    3
                } else {
                    4
                })
        })
    } else if op == 0xD1 {  // cmpd1
        ({
            let base = ind_ptr(pre.ram, b1);
            (cmp_tr(adv_tr(pre, 2), mread(pre.ram, ind_ptr(pre.ram, b1).wrapping_add(pre.y as u16))),
                if same_page(base, base.wrapping_add(pre.y as u16)) {
                    5
                } else {
                    6
                })
        })
    } else if op == 0xD5 {  // cmpd5
        (cmp_tr(adv_tr(pre, 2), mread(pre.ram, pre.x.wrapping_add(b1) as u16)), 4)
    } else if op == 0xD6 {  // decd6
        (dec_m_tr(adv_tr(pre, 2), pre.x.wrapping_add(b1) as u16), 6)
    } else if op == 0xD8 {  // cldd8
        (set_flag_tr(adv_tr(pre, 1), FLAG_D, false), 2)
    } else if op == 0xD9 {  // cmpd9
        (cmp_tr(adv_tr(pre, 3), mread(pre.ram, ab.wrapping_add(pre.y as u16))),
            if same_page(ab, ab.wrapping_add(pre.y as u16)) {
                4
            } else {
                5
            })
    } else if op == 0xDD {  // cmpdd
        (cmp_tr(adv_tr(pre, 3), mread(pre.ram, ab.wrapping_add(pre.x as u16))),
            if same_page(ab, ab.wrapping_add(pre.x as u16)) {
                4
            } else {
                5
            })
    } else if op == 0xDE {  // decde
        (dec_m_tr(adv_tr(pre, 3), ab.wrapping_add(pre.x as u16)), 7)
    } else if op == 0xE0 {  // cpxe0
        (cpx_tr(adv_tr(pre, 2), b1), 2)
    } else if op == 0xE1 {  // sbce1
        (sbc_tr(adv_tr(pre, 2), mread(pre.ram, ind_ptr(pre.ram, b1.wrapping_add(pre.x)))), 6)
    } else if op == 0xE4 {  // cpxe4
        (cpx_tr(adv_tr(pre, 2), mread(pre.ram, b1 as u16)), 3)
    } else if op == 0xE5 {  // sbce5
        (sbc_tr(adv_tr(pre, 2), mread(pre.ram, b1 as u16)), 3)
    } else if op == 0xE6 {  // ince6
        (inc_m_tr(adv_tr(pre, 2), b1 as u16), 5)
    } else if op == 0xE8 {  // inxe8
        (inx_tr(adv_tr(pre, 1)), 2)
    } else if op == 0xE9 {  // sbce9
        (sbc_tr(adv_tr(pre, 2), b1), 2)
    } else if op == 0xEA {  // nop
        (adv_tr(pre, 1), 2)
    } else if op == 0xEC {  // cpxec
        (cpx_tr(adv_tr(pre, 3), mread(pre.ram, ab)), 4)
    } else if op == 0xED {  // sbced
        (sbc_tr(adv_tr(pre, 3), mread(pre.ram, ab)), 4)
    } else if op == 0xEE {  // incee
        (inc_m_tr(adv_tr(pre, 3), ab), 6)
    } else if op == 0xF0 {  // beqf0
        ({
            let taken = flag_get(pre.p, FLAG_Z);
            let npc = pre.pc.wrapping_add(2);
            (branch_tr(adv_tr(pre, 2), taken, b1),
                if !taken {
                    2
                } else if same_page(branch_dest(npc, b1), npc) {
                    3
                } else {
                    4
                })
        })
    } else if op == 0xF1 {  // sbcf1
        ({
            let base = ind_ptr(pre.ram, b1);
            (sbc_tr(adv_tr(pre, 2), mread(pre.ram, ind_ptr(pre.ram, b1).wrapping_add(pre.y as u16))),
                if same_page(base, base.wrapping_add(pre.y as u16)) {
                    5
                } else {
                    6
                })
        })
    } else if op == 0xF5 {  // sbcf5
        (sbc_tr(adv_tr(pre, 2), mread(pre.ram, pre.x.wrapping_add(b1) as u16)), 4)
    } else if op == 0xF6 {  // incf6
        (inc_m_tr(adv_tr(pre, 2), pre.x.wrapping_add(b1) as u16), 6)
    } else if op == 0xF8 {  // sedf8
        (set_flag_tr(adv_tr(pre, 1), FLAG_D, true), 2)
    } else if op == 0xF9 {  // sbcf9
        (sbc_tr(adv_tr(pre, 3), mread(pre.ram, ab.wrapping_add(pre.y as u16))),
            if same_page(ab, ab.wrapping_add(pre.y as u16)) {
                4
            } else {
                5
            })
    } else if op == 0xFD {  // sbcfd
        (sbc_tr(adv_tr(pre, 3), mread(pre.ram, ab.wrapping_add(pre.x as u16))),
            if same_page(ab, ab.wrapping_add(pre.x as u16)) {
                4
            } else {
                5
            })
    } else if op == 0xFE {  // incfe
        (inc_m_tr(adv_tr(pre, 3), ab.wrapping_add(pre.x as u16)), 7)
    } else {
        (adv_tr(pre, 1), 2)
    }
}

impl CPU {
    /// Execute one instruction and say how many cycles it took, penalties
    /// included. The whole transition, registers, flags, memory and cycle
    /// count alike, is the one the step function describes.
    #[verifier::rlimit(60)]
    pub fn cycle(&mut self) -> (cycles: u8)
        requires
            old(self).wf(),
        ensures
            final(self).wf(),
            final(self)@ == step_spec(old(self)@).0,
            cycles == step_spec(old(self)@).1,
    {
        let op = self.read8(self.pc);
        let b1 = self.read8(self.pc.wrapping_add(1));
        let b2 = self.read8(self.pc.wrapping_add(2));
        let ab: u16 = (b1 as u16) | ((b2 as u16) << 8);
        match op {
            0x00 => {
                self.pc = self.pc.wrapping_add(1);
                self.brk00();
                7
            }
            0x01 => {
                self.pc = self.pc.wrapping_add(2);
                self.ora01(b1);
                6
            }
            0x05 => {
                self.pc = self.pc.wrapping_add(2);
                self.ora05(b1);
                3
            }
            0x06 => {
                self.pc = self.pc.wrapping_add(2);
                self.asl06(b1);
                5
            }
            0x08 => {
                self.pc = self.pc.wrapping_add(1);
                self.php08();
                3
            }
            0x09 => {
                self.pc = self.pc.wrapping_add(2);
                self.ora09(b1);
                2
            }
            0x0A => {
                self.pc = self.pc.wrapping_add(1);
                self.asl0a();
                2
            }
            0x0D => {
                self.pc = self.pc.wrapping_add(3);
                self.ora0d(ab);
                4
            }
            0x0E => {
                self.pc = self.pc.wrapping_add(3);
                self.asl0e(ab);
                6
            }
            0x10 => {
                let taken = self.p & FLAG_N == 0;
                self.pc = self.pc.wrapping_add(2);
                let dest = branch_target(self.pc, b1);
                let cyc: u8 = if !taken {
                    2
                } else if dest & 0xFF00 == self.pc & 0xFF00 {
                    3
                } else {
                    4
                };
                self.bpl10(b1);
                cyc
            }
            0x11 => {
                let base = self.get_indirect_addr(b1);
                let pen: u8 = if base & 0xFF00 != base.wrapping_add(self.y as u16) & 0xFF00 {
                    1
                } else {
                    0
                };
                self.pc = self.pc.wrapping_add(2);
                self.ora11(b1);
                5 + pen
            }
            0x15 => {
                self.pc = self.pc.wrapping_add(2);
                self.ora15(b1);
                4
            }
            0x16 => {
                self.pc = self.pc.wrapping_add(2);
                self.asl16(b1);
                6
            }
            0x18 => {
                self.pc = self.pc.wrapping_add(1);
                self.clc18();
                2
            }
            0x19 => {
                let pen: u8 = if ab & 0xFF00 != ab.wrapping_add(self.y as u16) & 0xFF00 {
                    1
                } else {
                    0
                };
                self.pc = self.pc.wrapping_add(3);
                self.ora19(ab);
                4 + pen
            }
            0x1D => {
                let pen: u8 = if ab & 0xFF00 != ab.wrapping_add(self.x as u16) & 0xFF00 {
                    1
                } else {
                    0
                };
                self.pc = self.pc.wrapping_add(3);
                self.ora1d(ab);
                4 + pen
            }
            0x1E => {
                self.pc = self.pc.wrapping_add(3);
                self.asl1e(ab);
                7
            }
            0x20 => {
                self.pc = self.pc.wrapping_add(3);
                self.jsr20(ab);
                6
            }
            0x21 => {
                self.pc = self.pc.wrapping_add(2);
                self.and21(b1);
                6
            }
            0x24 => {
                self.pc = self.pc.wrapping_add(2);
                self.bit24(b1);
                3
            }
            0x25 => {
                self.pc = self.pc.wrapping_add(2);
                self.and25(b1);
                3
            }
            0x26 => {
                self.pc = self.pc.wrapping_add(2);
                self.rol26(b1);
                5
            }
            0x28 => {
                self.pc = self.pc.wrapping_add(1);
                self.plp28();
                4
            }
            0x29 => {
                self.pc = self.pc.wrapping_add(2);
                self.and29(b1);
                2
            }
            0x2A => {
                self.pc = self.pc.wrapping_add(1);
                self.rol2a();
                2
            }
            0x2C => {
                self.pc = self.pc.wrapping_add(3);
                self.bit2c(ab);
                4
            }
            0x2D => {
                self.pc = self.pc.wrapping_add(3);
                self.and2d(ab);
                4
            }
            0x2E => {
                self.pc = self.pc.wrapping_add(3);
                self.rol2e(ab);
                6
            }
            0x30 => {
                let taken = self.p & FLAG_N != 0;
                self.pc = self.pc.wrapping_add(2);
                let dest = branch_target(self.pc, b1);
                let cyc: u8 = if !taken {
                    2
                } else if dest & 0xFF00 == self.pc & 0xFF00 {
                    3
                } else {
                    4
                };
                self.bmi30(b1);
                cyc
            }
            0x31 => {
                let base = self.get_indirect_addr(b1);
                let pen: u8 = if base & 0xFF00 != base.wrapping_add(self.y as u16) & 0xFF00 {
                    1
                } else {
                    0
                };
                self.pc = self.pc.wrapping_add(2);
                self.and31(b1);
                5 + pen
            }
            0x35 => {
                self.pc = self.pc.wrapping_add(2);
                self.and35(b1);
                4
            }
            0x36 => {
                self.pc = self.pc.wrapping_add(2);
                self.rol36(b1);
                6
            }
            0x38 => {
                self.pc = self.pc.wrapping_add(1);
                self.sec38();
                2
            }
            0x39 => {
                let pen: u8 = if ab & 0xFF00 != ab.wrapping_add(self.y as u16) & 0xFF00 {
                    1
                } else {
                    0
                };
                self.pc = self.pc.wrapping_add(3);
                self.and39(ab);
                4 + pen
            }
            0x3D => {
                let pen: u8 = if ab & 0xFF00 != ab.wrapping_add(self.x as u16) & 0xFF00 {
                    1
                } else {
                    0
                };
                self.pc = self.pc.wrapping_add(3);
                self.and3d(ab);
                4 + pen
            }
            0x3E => {
                self.pc = self.pc.wrapping_add(3);
                self.rol3e(ab);
                7
            }
            0x40 => {
                self.pc = self.pc.wrapping_add(1);
                self.rti40();
                6
            }
            0x41 => {
                self.pc = self.pc.wrapping_add(2);
                self.eor41(b1);
                6
            }
            0x45 => {
                self.pc = self.pc.wrapping_add(2);
                self.eor45(b1);
                3
            }
            0x46 => {
                self.pc = self.pc.wrapping_add(2);
                self.lsr46(b1);
                5
            }
            0x48 => {
                self.pc = self.pc.wrapping_add(1);
                self.pha48();
                3
            }
            0x49 => {
                self.pc = self.pc.wrapping_add(2);
                self.eor49(b1);
                2
            }
            0x4A => {
                self.pc = self.pc.wrapping_add(1);
                self.lsr4a();
                2
            }
            0x4C => {
                self.jmp4c(ab);
                3
            }
            0x4D => {
                self.pc = self.pc.wrapping_add(3);
                self.eor4d(ab);
                4
            }
            0x4E => {
                self.pc = self.pc.wrapping_add(3);
                self.lsr4e(ab);
                6
            }
            0x50 => {
                let taken = self.p & FLAG_V == 0;
                self.pc = self.pc.wrapping_add(2);
                let dest = branch_target(self.pc, b1);
                let cyc: u8 = if !taken {
                    2
                } else if dest & 0xFF00 == self.pc & 0xFF00 {
                    3
                } else {
                    4
                };
                self.bvc50(b1);
                cyc
            }
            0x51 => {
                let base = self.get_indirect_addr(b1);
                let pen: u8 = if base & 0xFF00 != base.wrapping_add(self.y as u16) & 0xFF00 {
                    1
                } else {
                    0
                };
                self.pc = self.pc.wrapping_add(2);
                self.eor51(b1);
                5 + pen
            }
            0x55 => {
                self.pc = self.pc.wrapping_add(2);
                self.eor55(b1);
                4
            }
            0x56 => {
                self.pc = self.pc.wrapping_add(2);
                self.lsr56(b1);
                6
            }
            0x58 => {
                self.pc = self.pc.wrapping_add(1);
                self.cli58();
                2
            }
            0x59 => {
                let pen: u8 = if ab & 0xFF00 != ab.wrapping_add(self.y as u16) & 0xFF00 {
                    1
                } else {
                    0
                };
                self.pc = self.pc.wrapping_add(3);
                self.eor59(ab);
                4 + pen
            }
            0x5D => {
                let pen: u8 = if ab & 0xFF00 != ab.wrapping_add(self.x as u16) & 0xFF00 {
                    1
                } else {
                    0
                };
                self.pc = self.pc.wrapping_add(3);
                self.eor5d(ab);
                4 + pen
            }
            0x5E => {
                self.pc = self.pc.wrapping_add(3);
                self.lsr5e(ab);
                7
            }
            0x60 => {
                self.pc = self.pc.wrapping_add(1);
                self.rts60();
                6
            }
            0x61 => {
                self.pc = self.pc.wrapping_add(2);
                self.adc61(b1);
                6
            }
            0x65 => {
                self.pc = self.pc.wrapping_add(2);
                self.adc65(b1);
                3
            }
            0x66 => {
                self.pc = self.pc.wrapping_add(2);
                self.ror66(b1);
                5
            }
            0x68 => {
                self.pc = self.pc.wrapping_add(1);
                self.pla68();
                4
            }
            0x69 => {
                self.pc = self.pc.wrapping_add(2);
                self.adc69(b1);
                2
            }
            0x6A => {
                self.pc = self.pc.wrapping_add(1);
                self.ror6a();
                2
            }
            0x6C => {
                self.jmp6c(ab);
                5
            }
            0x6D => {
                self.pc = self.pc.wrapping_add(3);
                self.adc6d(ab);
                4
            }
            0x6E => {
                self.pc = self.pc.wrapping_add(3);
                self.ror6e(ab);
                6
            }
            0x70 => {
                let taken = self.p & FLAG_V != 0;
                self.pc = self.pc.wrapping_add(2);
                let dest = branch_target(self.pc, b1);
                let cyc: u8 = if !taken {
                    2
                } else if dest & 0xFF00 == self.pc & 0xFF00 {
                    3
                } else {
                    4
                };
                self.bvs70(b1);
                cyc
            }
            0x71 => {
                let base = self.get_indirect_addr(b1);
                let pen: u8 = if base & 0xFF00 != base.wrapping_add(self.y as u16) & 0xFF00 {
                    1
                } else {
                    0
                };
                self.pc = self.pc.wrapping_add(2);
                self.adc71(b1);
                5 + pen
            }
            0x75 => {
                self.pc = self.pc.wrapping_add(2);
                self.adc75(b1);
                4
            }
            0x76 => {
                self.pc = self.pc.wrapping_add(2);
                self.ror76(b1);
                6
            }
            0x78 => {
                self.pc = self.pc.wrapping_add(1);
                self.sei78();
                2
            }
            0x79 => {
                let pen: u8 = if ab & 0xFF00 != ab.wrapping_add(self.y as u16) & 0xFF00 {
                    1
                } else {
                    0
                };
                self.pc = self.pc.wrapping_add(3);
                self.adc79(ab);
                4 + pen
            }
            0x7D => {
                let pen: u8 = if ab & 0xFF00 != ab.wrapping_add(self.x as u16) & 0xFF00 {
                    1
                } else {
                    0
                };
                self.pc = self.pc.wrapping_add(3);
                self.adc7d(ab);
                4 + pen
            }
            0x7E => {
                self.pc = self.pc.wrapping_add(3);
                self.ror7e(ab);
                7
            }
            0x81 => {
                self.pc = self.pc.wrapping_add(2);
                self.sta81(b1);
                6
            }
            0x84 => {
                self.pc = self.pc.wrapping_add(2);
                self.sty84(b1);
                3
            }
            0x85 => {
                self.pc = self.pc.wrapping_add(2);
                self.sta85(b1);
                3
            }
            0x86 => {
                self.pc = self.pc.wrapping_add(2);
                self.stx86(b1);
                3
            }
            0x88 => {
                self.pc = self.pc.wrapping_add(1);
                self.dey88();
                2
            }
            0x8A => {
                self.pc = self.pc.wrapping_add(1);
                self.txa8a();
                2
            }
            0x8C => {
                self.pc = self.pc.wrapping_add(3);
                self.sty8c(ab);
                4
            }
            0x8D => {
                self.pc = self.pc.wrapping_add(3);
                self.sta8d(ab);
                4
            }
            0x8E => {
                self.pc = self.pc.wrapping_add(3);
                self.stx8e(ab);
                4
            }
            0x90 => {
                let taken = self.p & FLAG_C == 0;
                self.pc = self.pc.wrapping_add(2);
                let dest = branch_target(self.pc, b1);
                let cyc: u8 = if !taken {
                    2
                } else if dest & 0xFF00 == self.pc & 0xFF00 {
                    3
                } else {
                    4
                };
                self.bcc90(b1);
                cyc
            }
            0x91 => {
                self.pc = self.pc.wrapping_add(2);
                self.sta91(b1);
                6
            }
            0x94 => {
                self.pc = self.pc.wrapping_add(2);
                self.sty94(b1);
                4
            }
            0x95 => {
                self.pc = self.pc.wrapping_add(2);
                self.sta95(b1);
                4
            }
            0x96 => {
                self.pc = self.pc.wrapping_add(2);
                self.stx96(b1);
                4
            }
            0x98 => {
                self.pc = self.pc.wrapping_add(1);
                self.tya98();
                2
            }
            0x99 => {
                self.pc = self.pc.wrapping_add(3);
                self.sta99(ab);
                5
            }
            0x9A => {
                self.pc = self.pc.wrapping_add(1);
                self.txs9a();
                2
            }
            0x9D => {
                self.pc = self.pc.wrapping_add(3);
                self.sta9d(ab);
                5
            }
            0xA0 => {
                self.pc = self.pc.wrapping_add(2);
                self.ldya0(b1);
                2
            }
            0xA1 => {
                self.pc = self.pc.wrapping_add(2);
                self.ldaa1(b1);
                6
            }
            0xA2 => {
                self.pc = self.pc.wrapping_add(2);
                self.ldxa2(b1);
                2
            }
            0xA4 => {
                self.pc = self.pc.wrapping_add(2);
                self.ldya4(b1);
                3
            }
            0xA5 => {
                self.pc = self.pc.wrapping_add(2);
                self.ldaa5(b1);
                3
            }
            0xA6 => {
                self.pc = self.pc.wrapping_add(2);
                self.ldxa6(b1);
                3
            }
            0xA8 => {
                self.pc = self.pc.wrapping_add(1);
                self.taya8();
                2
            }
            0xA9 => {
                self.pc = self.pc.wrapping_add(2);
                self.ldaa9(b1);
                2
            }
            0xAA => {
                self.pc = self.pc.wrapping_add(1);
                self.taxaa();
                2
            }
            0xAC => {
                self.pc = self.pc.wrapping_add(3);
                self.ldyac(ab);
                4
            }
            0xAD => {
                self.pc = self.pc.wrapping_add(3);
                self.ldaad(ab);
                4
            }
            0xAE => {
                self.pc = self.pc.wrapping_add(3);
                self.ldxae(ab);
                4
            }
            0xB0 => {
                let taken = self.p & FLAG_C != 0;
                self.pc = self.pc.wrapping_add(2);
                let dest = branch_target(self.pc, b1);
                let cyc: u8 = if !taken {
                    2
                } else if dest & 0xFF00 == self.pc & 0xFF00 {
                    3
                } else {
                    4
                };
                self.bcsb0(b1);
                cyc
            }
            0xB1 => {
                let base = self.get_indirect_addr(b1);
                let pen: u8 = if base & 0xFF00 != base.wrapping_add(self.y as u16) & 0xFF00 {
                    1
                } else {
                    0
                };
                self.pc = self.pc.wrapping_add(2);
                self.ldab1(b1);
                5 + pen
            }
            0xB4 => {
                self.pc = self.pc.wrapping_add(2);
                self.ldyb4(b1);
                4
            }
            0xB5 => {
                self.pc = self.pc.wrapping_add(2);
                self.ldab5(b1);
                4
            }
            0xB6 => {
                self.pc = self.pc.wrapping_add(2);
                self.ldxb6(b1);
                4
            }
            0xB8 => {
                self.pc = self.pc.wrapping_add(1);
                self.clvb8();
                2
            }
            0xB9 => {
                let pen: u8 = if ab & 0xFF00 != ab.wrapping_add(self.y as u16) & 0xFF00 {
                    1
                } else {
                    0
                };
                self.pc = self.pc.wrapping_add(3);
                self.ldab9(ab);
                4 + pen
            }
            0xBA => {
                self.pc = self.pc.wrapping_add(1);
                self.tsxba();
                2
            }
            0xBC => {
                let pen: u8 = if ab & 0xFF00 != ab.wrapping_add(self.x as u16) & 0xFF00 {
                    1
                } else {
                    0
                };
                self.pc = self.pc.wrapping_add(3);
                self.ldybc(ab);
                4 + pen
            }
            0xBD => {
                let pen: u8 = if ab & 0xFF00 != ab.wrapping_add(self.x as u16) & 0xFF00 {
                    1
                } else {
                    0
                };
                self.pc = self.pc.wrapping_add(3);
                self.ldabd(ab);
                4 + pen
            }
            0xBE => {
                let pen: u8 = if ab & 0xFF00 != ab.wrapping_add(self.y as u16) & 0xFF00 {
                    1
                } else {
                    0
                };
                self.pc = self.pc.wrapping_add(3);
                self.ldxbe(ab);
                4 + pen
            }
            0xC0 => {
                self.pc = self.pc.wrapping_add(2);
                self.cpyc0(b1);
                2
            }
            0xC1 => {
                self.pc = self.pc.wrapping_add(2);
                self.cmpc1(b1);
                6
            }
            0xC4 => {
                self.pc = self.pc.wrapping_add(2);
                self.cpyc4(b1);
                3
            }
            0xC5 => {
                self.pc = self.pc.wrapping_add(2);
                self.cmpc5(b1);
                3
            }
            0xC6 => {
                self.pc = self.pc.wrapping_add(2);
                self.decc6(b1);
                5
            }
            0xC8 => {
                self.pc = self.pc.wrapping_add(1);
                self.inyc8();
                2
            }
            0xC9 => {
                self.pc = self.pc.wrapping_add(2);
                self.cmpc9(b1);
                2
            }
            0xCA => {
                self.pc = self.pc.wrapping_add(1);
                self.dexca();
                2
            }
            0xCC => {
                self.pc = self.pc.wrapping_add(3);
                self.cpycc(ab);
                4
            }
            0xCD => {
                self.pc = self.pc.wrapping_add(3);
                self.cmpcd(ab);
                4
            }
            0xCE => {
                self.pc = self.pc.wrapping_add(3);
                self.decce(ab);
                6
            }
            0xD0 => {
                let taken = self.p & FLAG_Z == 0;
                self.pc = self.pc.wrapping_add(2);
                let dest = branch_target(self.pc, b1);
                let cyc: u8 = if !taken {
                    2
                } else if dest & 0xFF00 == self.pc & 0xFF00 {
                    3
                } else {
                    4
                };
                self.bned0(b1);
                cyc
            }
            0xD1 => {
                let base = self.get_indirect_addr(b1);
                let pen: u8 = if base & 0xFF00 != base.wrapping_add(self.y as u16) & 0xFF00 {
                    1
                } else {
                    0
                };
                self.pc = self.pc.wrapping_add(2);
                self.cmpd1(b1);
                5 + pen
            }
            0xD5 => {
                self.pc = self.pc.wrapping_add(2);
                self.cmpd5(b1);
                4
            }
            0xD6 => {
                self.pc = self.pc.wrapping_add(2);
                self.decd6(b1);
                6
            }
            0xD8 => {
                self.pc = self.pc.wrapping_add(1);
                self.cldd8();
                2
            }
            0xD9 => {
                let pen: u8 = if ab & 0xFF00 != ab.wrapping_add(self.y as u16) & 0xFF00 {
                    1
                } else {
                    0
                };
                self.pc = self.pc.wrapping_add(3);
                self.cmpd9(ab);
                4 + pen
            }
            0xDD => {
                let pen: u8 = if ab & 0xFF00 != ab.wrapping_add(self.x as u16) & 0xFF00 {
                    1
                } else {
                    0
                };
                self.pc = self.pc.wrapping_add(3);
                self.cmpdd(ab);
                4 + pen
            }
            0xDE => {
                self.pc = self.pc.wrapping_add(3);
                self.decde(ab);
                7
            }
            0xE0 => {
                self.pc = self.pc.wrapping_add(2);
                self.cpxe0(b1);
                2
            }
            0xE1 => {
                self.pc = self.pc.wrapping_add(2);
                self.sbce1(b1);
                6
            }
            0xE4 => {
                self.pc = self.pc.wrapping_add(2);
                self.cpxe4(b1);
                3
            }
            0xE5 => {
                self.pc = self.pc.wrapping_add(2);
                self.sbce5(b1);
                3
            }
            0xE6 => {
                self.pc = self.pc.wrapping_add(2);
                self.ince6(b1);
                5
            }
            0xE8 => {
                self.pc = self.pc.wrapping_add(1);
                self.inxe8();
                2
            }
            0xE9 => {
                self.pc = self.pc.wrapping_add(2);
                self.sbce9(b1);
                2
            }
            0xEA => {
                self.pc = self.pc.wrapping_add(1);
                2
            }
            0xEC => {
                self.pc = self.pc.wrapping_add(3);
                self.cpxec(ab);
                4
            }
            0xED => {
                self.pc = self.pc.wrapping_add(3);
                self.sbced(ab);
                4
            }
            0xEE => {
                self.pc = self.pc.wrapping_add(3);
                self.incee(ab);
                6
            }
            0xF0 => {
                let taken = self.p & FLAG_Z != 0;
                self.pc = self.pc.wrapping_add(2);
                let dest = branch_target(self.pc, b1);
                let cyc: u8 = if !taken {
                    2
                } else if dest & 0xFF00 == self.pc & 0xFF00 {
                    3
                } else {
                    4
                };
                self.beqf0(b1);
                cyc
            }
            0xF1 => {
                let base = self.get_indirect_addr(b1);
                let pen: u8 = if base & 0xFF00 != base.wrapping_add(self.y as u16) & 0xFF00 {
                    1
                } else {
                    0
                };
                self.pc = self.pc.wrapping_add(2);
                self.sbcf1(b1);
                5 + pen
            }
            0xF5 => {
                self.pc = self.pc.wrapping_add(2);
                self.sbcf5(b1);
                4
            }
            0xF6 => {
                self.pc = self.pc.wrapping_add(2);
                self.incf6(b1);
                6
            }
            0xF8 => {
                self.pc = self.pc.wrapping_add(1);
                self.sedf8();
                2
            }
            0xF9 => {
                let pen: u8 = if ab & 0xFF00 != ab.wrapping_add(self.y as u16) & 0xFF00 {
                    1
                } else {
                    0
                };
                self.pc = self.pc.wrapping_add(3);
                self.sbcf9(ab);
                4 + pen
            }
            0xFD => {
                let pen: u8 = if ab & 0xFF00 != ab.wrapping_add(self.x as u16) & 0xFF00 {
                    1
                } else {
                    0
                };
                self.pc = self.pc.wrapping_add(3);
                self.sbcfd(ab);
                4 + pen
            }
            0xFE => {
                self.pc = self.pc.wrapping_add(3);
                self.incfe(ab);
                7
            }
            _ => {
                self.pc = self.pc.wrapping_add(1);
                2
            }
        }
    }
}

} // verus!
