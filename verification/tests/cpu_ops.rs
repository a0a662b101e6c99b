//! The opcode-method suite: each instruction family driven directly
//! through its methods, registers and memory checked afterwards.

use rune::cpu::CPU;

#[test]
fn adc_opcodes() {
    let mut cpu = CPU::default();

    cpu.a = 255;
    cpu.adc69(1);
    assert!(cpu.a == 0);
    assert!(cpu.get_carry());
    assert!(cpu.get_zero());
    cpu.adc69(254);
    assert!(cpu.get_negative());
    cpu.a = 127;
    cpu.adc69(1);
    assert!(cpu.get_overflow());

    // the following opcodes all use adc69 underneath so there's no need to test flags again
    cpu.write8(0x44, 29);
    cpu.a = 3;
    cpu.adc65(0x44);
    assert!(cpu.a == 32);

    cpu.a = 4;
    cpu.write8(0xff, 50);
    cpu.x = 0x2;
    cpu.adc75(0xfd);
    assert!(cpu.a == 54);

    cpu.write8(0x1ee, 244);
    cpu.a = 2;
    cpu.adc6d(0x1ee);
    assert!(cpu.a == 246);

    cpu.write8(0x1ee, 156);
    cpu.a = 2;
    cpu.x = 0xee;
    cpu.adc7d(0x100);
    assert!(cpu.a == 158);

    cpu.write8(0x7ee, 70);
    cpu.a = 90;
    cpu.y = 0xe0;
    cpu.adc79(0x70e);
    assert!(cpu.a == 160);

    cpu.write8(0x45, 0xab);
    cpu.write8(0x46, 0x01);
    cpu.write8(0x01ab, 222);
    cpu.a = 0;
    cpu.x = 1;
    cpu.adc61(0x44);
    assert!(cpu.a == 222);

    cpu.a = 0;
    cpu.write8(0xaa, 0xca);
    cpu.write8(0xab, 0x01);
    cpu.y = 3;
    cpu.write8(0x01cd, 111);
    cpu.adc71(0xaa);
    assert!(cpu.a == 111);
}

#[test]
fn and_opcodes() {
    let mut cpu = CPU::default();
    cpu.a = 0x0f;
    cpu.and29(0xf0);
    assert!(cpu.a == 0);
    assert!(cpu.get_zero());
    cpu.a = 0xfa;
    cpu.and29(0x0f);
    assert!(cpu.a == 0x0a);
    cpu.a = 0xff;
    cpu.and29(0xff);
    assert!(cpu.get_negative());

    // the following opcodes all use and29 underneath so there's no need to test flags again
    cpu.write8(0xaa, 0xf0);
    cpu.a = 0xea;
    cpu.and25(0xaa);
    assert!(cpu.a == 0xe0);

    cpu.write8(40, 0xff);
    cpu.a = 0xee;
    cpu.x = 2;
    cpu.and35(38);
    assert!(cpu.a == 0xee);

    cpu.write8(2000, 0x0f);
    cpu.a = 0xac;
    cpu.and2d(2000);
    assert!(cpu.a == 0xc);

    cpu.write8(2005, 0x56);
    cpu.a = 0xf0;
    cpu.x = 5;
    cpu.and3d(2000);
    assert!(cpu.a == 0x50);

    cpu.write8(2046, 0xa7);
    cpu.a = 0x0f;
    cpu.y = 10;
    cpu.and39(2036);
    assert!(cpu.a == 0x7);

    cpu.write8(10, 0x0e);
    cpu.write8(11, 0x1);
    cpu.write8(0x10e, 0xcc);
    cpu.a = 0xf0;
    cpu.x = 3;
    cpu.and21(7);
    assert!(cpu.a == 0xc0);

    cpu.write8(10, 0x0f);
    cpu.write8(11, 0x02);
    cpu.write8(0x211, 0xdd);
    cpu.a = 0x0f;
    cpu.y = 2;
    cpu.and31(10);
    assert!(cpu.a == 0xd);
}

#[test]
fn asl_opcodes() {
    let mut cpu = CPU::default();

    cpu.a = 0b1011_1111;
    cpu.asl0a();
    assert!(cpu.a == 0b0111_1110);
    assert!(cpu.get_carry());
    assert!(!cpu.get_zero());
    assert!(!cpu.get_negative());
    cpu.a = 0b1000_0000;
    cpu.asl0a();
    assert!(cpu.get_zero());
    cpu.a = 0b0100_0000;
    cpu.asl0a();
    assert!(cpu.get_negative());

    // has the same logic as asl0a so flag testing is skipped
    // also skips testing asl0e as underneath asl06 uses it to limit to 8 bits
    cpu.write8(150, 0b1011_1111);
    cpu.asl06(150);
    assert!(cpu.read8(150) == 0b0111_1110);
    // also skips the other instructions because they all rely on the opcode above
}

#[test]
fn branch_opcodes() {
    let mut cpu = CPU::default();

    cpu.set_carry(false);
    cpu.bcc90(200);
    assert!(cpu.pc == 0xffc8);
    cpu.set_carry(true);
    cpu.bcc90(50);
    assert!(cpu.pc != 250);

    cpu.pc = 0;
    cpu.set_carry(true);
    cpu.bcsb0(200);
    assert!(cpu.pc == 0xffc8);
    cpu.set_carry(false);
    cpu.bcsb0(50);
    assert!(cpu.pc != 250);

    cpu.pc = 0;
    cpu.set_zero(true);
    cpu.beqf0(100);
    assert!(cpu.pc == 100);
    cpu.set_zero(false);
    cpu.beqf0(100);
    assert!(cpu.pc != 200);

    cpu.pc = 0;
    cpu.set_negative(true);
    cpu.bmi30(100);
    assert!(cpu.pc == 100);
    cpu.set_negative(false);
    cpu.bmi30(100);
    assert!(cpu.pc != 200);

    cpu.pc = 0;
    cpu.set_zero(false);
    cpu.bned0(100);
    assert!(cpu.pc == 100);
    cpu.set_zero(true);
    cpu.bned0(100);
    assert!(cpu.pc != 200);

    cpu.pc = 0;
    cpu.set_negative(false);
    cpu.bpl10(100);
    assert!(cpu.pc == 100);
    cpu.set_negative(true);
    cpu.bpl10(100);
    assert!(cpu.pc != 200);

    cpu.pc = 0;
    cpu.set_overflow(false);
    cpu.bvc50(25);
    assert!(cpu.pc == 25);

    cpu.pc = 0;
    cpu.set_overflow(true);
    cpu.bvs70(100);
    assert!(cpu.pc == 100);
}

#[test]
fn bit_opcodes() {
    let mut cpu = CPU::default();

    cpu.a = 0b1111_0000;
    cpu.write8(55, 0b1100_1111);
    cpu.bit24(55);
    assert!(cpu.get_negative());
    assert!(cpu.get_overflow());
    cpu.a = 0b1111_0000;
    cpu.write8(55, 0b0011_1111);
    cpu.bit24(55);
    assert!(!cpu.get_negative());
    assert!(!cpu.get_overflow());
    assert!(!cpu.get_zero());
    cpu.a = 0b0000_1111;
    cpu.write8(55, 0b1111_0000);
    cpu.bit24(55);
    assert!(cpu.get_zero());
    // no need to test bit2c, it has the same implementation
}

#[test]
fn brk_opcode() {
    // the IRQ/BRK vector sits in cartridge space; the step-level suite
    // exercises BRK with a vector installed there
}

#[test]
fn clear_opcodes() {
    let mut cpu = CPU::default();
    cpu.set_carry(true);
    cpu.clc18();
    assert!(!cpu.get_carry());

    cpu.set_decimal(true);
    cpu.cldd8();
    assert!(!cpu.get_decimal());

    cpu.set_interrupt_disable(true);
    cpu.cli58();
    assert!(!cpu.get_interrupt_disable());

    cpu.set_overflow(true);
    cpu.clvb8();
    assert!(!cpu.get_overflow());
}

#[test]
fn cmp_opcodes() {
    let mut cpu = CPU::default();
    cpu.a = 0xfe;
    cpu.cmpc9(0xfe);
    assert!(cpu.get_zero());
    cpu.a = 0xfe;
    cpu.cmpc9(0x10);
    assert!(cpu.get_carry());
    assert!(cpu.get_negative());

    cpu.a = 0xfe;
    cpu.write8(0x80, 0xfe);
    cpu.cmpc5(0x80);
    assert!(cpu.get_zero());

    cpu.a = 0xfe;
    cpu.write8(0x81, 0xfe);
    cpu.x = 1;
    cpu.cmpd5(0x80);
    assert!(cpu.get_zero());

    cpu.a = 0xfe;
    cpu.write8(0x80, 0xfe);
    cpu.cmpcd(0x80);
    assert!(cpu.get_zero());

    cpu.a = 0xfe;
    cpu.write8(0x701, 0xfe);
    cpu.x = 1;
    cpu.cmpdd(0x700);
    assert!(cpu.get_zero());

    cpu.a = 0xfe;
    cpu.write8(0x701, 0xfe);
    cpu.y = 1;
    cpu.cmpd9(0x700);
    assert!(cpu.get_zero());

    cpu.a = 0xfe;
    cpu.write8(240, 0xfe);
    cpu.write8(241, 0x0);
    cpu.write8(80, 240);
    cpu.x = 1;
    cpu.cmpc1(79);

    // CMP ($44),Y
    cpu.a = 0xfe;
    cpu.write8(240, 0xfe);
    cpu.write8(241, 0x01);
    cpu.write8(0x1ff, 0xfe);
    cpu.y = 1;
    cpu.cmpd1(240);
}

#[test]
fn cpx_opcodes() {
    let mut cpu = CPU::default();
    cpu.x = 0xea;
    cpu.cpxe0(0xea);
    assert!(cpu.get_zero());

    cpu.x = 0xea;
    cpu.write8(200, 0xea);
    cpu.cpxe4(200);
    assert!(cpu.get_zero());

    cpu.x = 0xea;
    cpu.write8(2023, 0xea);
    cpu.cpxec(2023);
    assert!(cpu.get_zero());
}

#[test]
fn cpy_opcodes() {
    let mut cpu = CPU::default();
    cpu.y = 0xea;
    cpu.cpyc0(0xea);
    assert!(cpu.get_zero());

    cpu.y = 0xea;
    cpu.write8(200, 0xea);
    cpu.cpyc4(200);
    assert!(cpu.get_zero());

    cpu.y = 0xea;
    cpu.write8(2023, 0xea);
    cpu.cpycc(2023);
    assert!(cpu.get_zero());
}

#[test]
fn dec_opcodes() {
    let mut cpu = CPU::default();
    cpu.write8(0x80, 2);
    cpu.decc6(0x80);
    assert!(cpu.read8(0x80) == 1);

    cpu.x = 1;
    cpu.write8(0x81, 2);
    cpu.decd6(0x80);
    assert!(cpu.read8(0x81) == 1);

    cpu.write8(1400, 5);
    cpu.decce(1400);
    assert!(cpu.read8(1400) == 4);

    cpu.write8(1401, 5);
    cpu.decde(1400);
    assert!(cpu.read8(1401) == 4);

    cpu.x = 1;
    cpu.dexca();
    assert!(cpu.x == 0);

    cpu.y = 2;
    cpu.dey88();
    assert!(cpu.y == 1);
}

#[test]
fn eor_opcodes() {
    let mut cpu = CPU::default();
    cpu.a = 100;
    cpu.eor49(50);
    assert!(cpu.a == 86);

    cpu.a = 100;
    cpu.write8(200, 50);
    cpu.eor45(200);
    assert!(cpu.a == 86);

    cpu.a = 100;
    cpu.x = 2;
    cpu.write8(52, 100);
    cpu.eor55(50);
    assert!(cpu.get_zero());
}

#[test]
fn inc_opcodes() {
    let mut cpu = CPU::default();
    cpu.write8(122, 10);
    cpu.ince6(122);
    assert!(cpu.read8(122) == 11);

    cpu.write8(122, 255);
    cpu.ince6(122);
    assert!(cpu.read8(122) == 0);

    cpu.x = 20;
    cpu.inxe8();
    assert!(cpu.x == 21);

    cpu.y = 20;
    cpu.inyc8();
    assert!(cpu.y == 21);
}

#[test]
fn jmp_opcodes() {
    let mut cpu = CPU::default();

    cpu.jmp4c(670);
    assert!(cpu.pc == 670);

    cpu.write8(700, 0xff);
    cpu.write8(701, 0x0a);
    cpu.jmp6c(700);
    assert!(cpu.pc == 0x0aff);

    cpu.write8(0x1ff, 0xff);
    cpu.write8(0x200, 0x0a);
    cpu.write8(0x100, 0x01);
    cpu.jmp6c(0x1ff);
    assert!(cpu.pc != 0x0aff);
    assert!(cpu.pc == 0x01ff);

    cpu.jsr20(2300);
    assert!(cpu.pc == 2300);
}

#[test]
fn lda_opcodes() {
    let mut cpu = CPU::default();
    cpu.ldaa9(0xff);
    assert!(cpu.a == 0xff);

    cpu.write8(0xff, 0xfe);
    cpu.ldaa5(0xff);
    assert!(cpu.a == 0xfe);

    cpu.x = 2;
    cpu.write8(3, 59);
    cpu.ldab5(1);
    assert!(cpu.a == 59);

    cpu.write8(2000, 55);
    cpu.ldaad(2000);
    assert!(cpu.a == 55);

    cpu.x = 1;
    cpu.write8(2001, 222);
    cpu.ldabd(2000);
    assert!(cpu.a == 222);

    cpu.y = 1;
    cpu.write8(2001, 223);
    cpu.ldab9(2000);
    assert!(cpu.a == 223);

    cpu.write8(142, 0xbb);
    cpu.write8(143, 0x01);
    cpu.write8(0x01bb, 0xee);
    cpu.x = 2;
    cpu.ldaa1(140);
    assert!(cpu.a == 0xee);

    cpu.write8(142, 0xb3);
    cpu.write8(143, 0x01);
    cpu.write8(0x01b5, 0xaa);
    cpu.y = 2;
    cpu.ldab1(142);
    assert!(cpu.a == 0xaa);
}

#[test]
fn ldx_opcodes() {
    let mut cpu = CPU::default();
    cpu.ldxa2(0xff);
    assert!(cpu.x == 0xff);

    cpu.write8(0xff, 0xfe);
    cpu.ldxa6(0xff);
    assert!(cpu.x == 0xfe);

    cpu.y = 2;
    cpu.write8(3, 59);
    cpu.ldxb6(1);
    assert!(cpu.x == 59);

    cpu.write8(2000, 55);
    cpu.ldxae(2000);
    assert!(cpu.x == 55);

    cpu.y = 1;
    cpu.write8(2001, 222);
    cpu.ldxbe(2000);
    assert!(cpu.x == 222);
}

#[test]
fn ldy_opcodes() {
    let mut cpu = CPU::default();
    cpu.ldya0(0xff);
    assert!(cpu.y == 0xff);

    cpu.write8(0xff, 0xfe);
    cpu.ldya4(0xff);
    assert!(cpu.y == 0xfe);

    cpu.x = 2;
    cpu.write8(3, 59);
    cpu.ldyb4(1);
    assert!(cpu.y == 59);

    cpu.write8(2000, 55);
    cpu.ldyac(2000);
    assert!(cpu.y == 55);

    cpu.x = 1;
    cpu.write8(2001, 222);
    cpu.ldybc(2000);
    assert!(cpu.y == 222);
}

#[test]
fn lsr_opcodes() {
    let mut cpu = CPU::default();

    cpu.a = 0b0101_0101;
    cpu.lsr4a();
    assert!(cpu.a == 0b0010_1010);

    cpu.write8(100, 0b0101_0101);
    cpu.lsr4e(100);
    assert!(cpu.read8(100) == 0b0010_1010);
}

#[test]
fn ora_opcodes() {
    let mut cpu = CPU::default();

    cpu.a = 0b1010_1010;
    cpu.ora09(0b0101_0101);
    assert!(cpu.a == 0xff);

    cpu.a = 0b1010_1010;
    cpu.write8(1600, 0b0101_0101);
    cpu.ora0d(1600);
    assert!(cpu.a == 0xff);

    cpu.x = 2;
    cpu.write8(0xaa, 0x10);
    cpu.write8(0xab, 0x02);
    cpu.write8(0x0210, 0b0101_0101);
    cpu.ora01(98);
    assert!(cpu.a == 0xff);

    cpu.x = 2;
    cpu.write8(0xaa, 0x10);
    cpu.write8(0xab, 0x02);
    cpu.write8(0x0212, 0b0101_0101);
    cpu.ora11(100);
    assert!(cpu.a == 0xff);
}

#[test]
fn pha_pla_opcodes() {
    let mut cpu = CPU::default();

    cpu.a = 43;
    cpu.pha48();
    cpu.a = 23;
    cpu.pla68();
    assert!(cpu.a == 43);
}

#[test]
fn php_plp_opcodes() {
    let mut cpu = CPU::default();

    cpu.set_carry(true);
    cpu.set_negative(false);
    cpu.set_overflow(true);
    cpu.set_decimal(false);
    cpu.set_interrupt_disable(true);
    cpu.set_zero(false);
    let status = cpu.get_status();
    cpu.php08();

    cpu.set_carry(false);
    cpu.set_negative(true);
    cpu.set_overflow(false);
    cpu.set_decimal(true);
    cpu.set_interrupt_disable(true);
    cpu.set_zero(true);
    cpu.plp28();
    assert!(cpu.get_status() == status);
}

#[test]
fn rol_opcodes() {
    let mut cpu = CPU::default();

    cpu.a = 0b0111_0101;
    cpu.set_carry(true);
    cpu.rol2a();
    assert!(cpu.a == 0b1110_1011);

    cpu.write8(1200, 0b0111_0101);
    cpu.set_carry(true);
    cpu.rol2e(1200);
    assert!(cpu.read8(1200) == 0b1110_1011);

    cpu.write8(1202, 0b0111_0101);
    cpu.set_carry(true);
    cpu.x = 2;
    cpu.rol3e(1200);
    assert!(cpu.read8(1202) == 0b1110_1011);
}

#[test]
fn ror_opcodes() {
    let mut cpu = CPU::default();

    cpu.a = 0b0111_0101;
    cpu.set_carry(true);
    cpu.ror6a();
    assert!(cpu.a == 0b1011_1010);

    cpu.write8(1200, 0b0111_0101);
    cpu.set_carry(true);
    cpu.ror6e(1200);
    assert!(cpu.read8(1200) == 0b1011_1010);

    cpu.write8(1202, 0b0111_0101);
    cpu.set_carry(true);
    cpu.x = 2;
    cpu.ror7e(1200);
    assert!(cpu.read8(1202) == 0b1011_1010);
}

#[test]
fn rti_opcode() {
    let mut cpu = CPU::default();

    cpu.pc = 545;
    cpu.jsr20(200);
    cpu.set_negative(true);
    let status = cpu.get_status();
    cpu.push_to_stack(status);
    cpu.set_negative(false);
    cpu.pc = 111;
    cpu.rti40();
    assert!(cpu.pc == 544);
    assert!(cpu.get_negative());
}

#[test]
fn rts_opcode() {
    let mut cpu = CPU::default();

    cpu.pc = 200;
    cpu.jsr20(1000);
    cpu.rts60();
    assert!(cpu.pc == 200);
}

#[test]
fn sbc_opcodes() {
    let mut cpu = CPU::default();
    cpu.a = 200;
    cpu.set_carry(true);
    cpu.sbce9(20);
    assert!(cpu.a == 180);

    cpu.a = 200;
    cpu.set_carry(false);
    cpu.sbce9(20);
    assert!(cpu.a == 179);
}

#[test]
fn sec_opcode() {
    let mut cpu = CPU::default();
    assert!(!cpu.get_carry());
    cpu.sec38();
    assert!(cpu.get_carry());
}

#[test]
fn sei_opcode() {
    let mut cpu = CPU::default();
    cpu.set_interrupt_disable(false);
    cpu.sei78();
    assert!(cpu.get_interrupt_disable());
}

#[test]
fn sta_opcodes() {
    let mut cpu = CPU::default();
    cpu.a = 123;
    cpu.sta85(100);
    assert!(cpu.read8(100) == 123);
}

#[test]
fn stx_opcodes() {
    let mut cpu = CPU::default();
    cpu.x = 145;
    cpu.stx8e(1233);
    assert!(cpu.read8(1233) == 145);
}

#[test]
fn sty_opcodes() {
    let mut cpu = CPU::default();
    cpu.y = 233;
    cpu.sty8c(2000);
    assert!(cpu.read8(2000) == 233);
}

#[test]
fn txx_opcodes() {
    let mut cpu = CPU::default();

    cpu.a = 50;
    cpu.taxaa();
    assert!(cpu.x == cpu.a);

    cpu.a = 90;
    cpu.taya8();
    assert!(cpu.y == cpu.a);

    cpu.sp = 200;
    cpu.tsxba();
    assert!(cpu.x == cpu.sp);

    cpu.x = 155;
    cpu.txa8a();
    assert!(cpu.x == cpu.a);

    cpu.x = 111;
    cpu.txs9a();
    assert!(cpu.x == cpu.sp);

    cpu.y = 222;
    cpu.tya98();
    assert!(cpu.y == cpu.a);
}
