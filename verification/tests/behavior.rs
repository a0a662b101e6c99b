//! End-to-end checks through the fetch-decode-execute step: arithmetic and
//! flag scenarios, addressing-mode resolution, the indirect-JMP page bug,
//! calls and returns, cycle counts with their penalties, memory mirroring,
//! interrupts, and the cartridge loader's split and round trip.
use rune::cpu::CPU;
use rune::ines::{HeaderError, InesFile, InesHeader, RomError};

#[test]
fn adc_immediate_carry_and_zero() {
    let mut cpu = CPU::default();
    cpu.pc = 0x0200;
    cpu.write8(0x0200, 0x69);
    cpu.write8(0x0201, 0x01);
    cpu.a = 0xff;
    cpu.set_carry(false);
    let cycles = cpu.cycle();
    assert_eq!(cpu.a, 0x00);
    assert!(cpu.get_carry());
    assert!(cpu.get_zero());
    assert!(!cpu.get_overflow());
    assert!(!cpu.get_negative());
    assert_eq!(cpu.pc, 0x0202);
    assert_eq!(cycles, 2);
}

#[test]
fn adc_immediate_signed_overflow() {
    let mut cpu = CPU::default();
    cpu.pc = 0x0200;
    cpu.write8(0x0200, 0x69);
    cpu.write8(0x0201, 0x01);
    cpu.a = 0x7f;
    cpu.set_carry(false);
    cpu.cycle();
    assert_eq!(cpu.a, 0x80);
    assert!(cpu.get_overflow());
    assert!(cpu.get_negative());
    assert!(!cpu.get_carry());
}

#[test]
fn indexed_indirect_load() {
    let mut cpu = CPU::default();
    cpu.write8(0x45, 0xab);
    cpu.write8(0x46, 0x01);
    cpu.write8(0x01ab, 222);
    cpu.x = 1;
    cpu.pc = 0x0200;
    cpu.write8(0x0200, 0xa1);
    cpu.write8(0x0201, 0x44);
    let cycles = cpu.cycle();
    assert_eq!(cpu.a, 222);
    assert_eq!(cycles, 6);
}

#[test]
fn jmp_indirect_page_bug() {
    let mut cpu = CPU::default();
    cpu.write8(0x01ff, 0xff);
    cpu.write8(0x0200, 0x0a);
    cpu.write8(0x0100, 0x01);
    cpu.pc = 0x0400;
    cpu.write8(0x0400, 0x6c);
    cpu.write8(0x0401, 0xff);
    cpu.write8(0x0402, 0x01);
    let cycles = cpu.cycle();
    assert_ne!(cpu.pc, 0x0aff);
    assert_eq!(cpu.pc, 0x01ff);
    assert_eq!(cycles, 5);
}

#[test]
fn jsr_then_rts_returns_past_the_call() {
    let mut cpu = CPU::default();
    cpu.pc = 0x8000;
    cpu.sp = 0xfd;
    cpu.write8(0x8000, 0x20);
    cpu.write8(0x8001, 0x00);
    cpu.write8(0x8002, 0x90);
    cpu.write8(0x9000, 0x60);
    let c1 = cpu.cycle();
    assert_eq!(cpu.pc, 0x9000);
    assert_eq!(cpu.sp, 0xfb);
    assert_eq!(cpu.read8(0x01fd), 0x80);
    assert_eq!(cpu.read8(0x01fc), 0x02);
    let c2 = cpu.cycle();
    assert_eq!(cpu.pc, 0x8003);
    assert_eq!(cpu.sp, 0xfd);
    assert_eq!(c1, 6);
    assert_eq!(c2, 6);
}

#[test]
fn bit_zero_page() {
    let mut cpu = CPU::default();
    cpu.a = 0xf0;
    cpu.write8(0x55, 0xcf);
    cpu.pc = 0x0200;
    cpu.write8(0x0200, 0x24);
    cpu.write8(0x0201, 0x55);
    let cycles = cpu.cycle();
    assert!(!cpu.get_zero());
    assert!(cpu.get_negative());
    assert!(cpu.get_overflow());
    assert_eq!(cpu.a, 0xf0);
    assert_eq!(cycles, 3);
}

#[test]
fn branch_cycle_penalties() {
    // untaken: two cycles
    let mut cpu = CPU::default();
    cpu.pc = 0x0200;
    cpu.write8(0x0200, 0xd0);
    cpu.write8(0x0201, 0x05);
    cpu.set_zero(true);
    let c_untaken = cpu.cycle();
    assert_eq!(c_untaken, 2);
    assert_eq!(cpu.pc, 0x0202);

    // taken within the page: three cycles
    let mut cpu = CPU::default();
    cpu.pc = 0x0200;
    cpu.write8(0x0200, 0xd0);
    cpu.write8(0x0201, 0x05);
    cpu.set_zero(false);
    let c_taken = cpu.cycle();
    assert_eq!(c_taken, 3);
    assert_eq!(cpu.pc, 0x0207);

    // taken across a page boundary: four cycles
    let mut cpu = CPU::default();
    cpu.pc = 0x02f0;
    cpu.write8(0x02f0, 0xd0);
    cpu.write8(0x02f1, 0x20);
    cpu.set_zero(false);
    let c_crossed = cpu.cycle();
    assert_eq!(c_crossed, 4);
    assert_eq!(cpu.pc, 0x0312);

    // taken backwards: the offset is signed
    let mut cpu = CPU::default();
    cpu.pc = 0x0210;
    cpu.write8(0x0210, 0xd0);
    cpu.write8(0x0211, 0xfc);
    cpu.set_zero(false);
    cpu.cycle();
    assert_eq!(cpu.pc, 0x020e);
}

#[test]
fn absolute_indexed_page_cross_penalty() {
    // crossing into the next page costs one extra cycle on reads
    let mut cpu = CPU::default();
    cpu.x = 0x20;
    cpu.write8(0x4110, 77);
    cpu.pc = 0x0200;
    cpu.write8(0x0200, 0xbd);
    cpu.write8(0x0201, 0xf0);
    cpu.write8(0x0202, 0x40);
    let crossed = cpu.cycle();
    assert_eq!(cpu.a, 77);
    assert_eq!(crossed, 5);

    // the same read without a crossing stays at the base count
    let mut cpu = CPU::default();
    cpu.x = 0x10;
    cpu.write8(0x4110, 88);
    cpu.pc = 0x0200;
    cpu.write8(0x0200, 0xbd);
    cpu.write8(0x0201, 0x00);
    cpu.write8(0x0202, 0x41);
    let flat = cpu.cycle();
    assert_eq!(cpu.a, 88);
    assert_eq!(flat, 4);
}

#[test]
fn ram_and_ppu_mirroring() {
    let mut cpu = CPU::default();
    cpu.write8(0x0800, 42);
    assert_eq!(cpu.read8(0x0000), 42);
    cpu.write8(0x1fff, 7);
    assert_eq!(cpu.read8(0x07ff), 7);
    cpu.write8(0x3456, 9);
    assert_eq!(cpu.read8(0x2006), 9);
}

#[test]
fn zero_page_indexed_wraps_around() {
    let mut cpu = CPU::default();
    cpu.x = 0x10;
    cpu.write8(0x0f, 99);
    cpu.ldab5(0xff);
    assert_eq!(cpu.a, 99);
}

#[test]
fn stack_pushes_pop_in_reverse() {
    let mut cpu = CPU::default();
    let start_sp = cpu.sp;
    cpu.push_to_stack(11);
    cpu.push_to_stack(22);
    cpu.push_to_stack(33);
    assert_eq!(cpu.pop_from_stack(), 33);
    assert_eq!(cpu.pop_from_stack(), 22);
    assert_eq!(cpu.pop_from_stack(), 11);
    assert_eq!(cpu.sp, start_sp);
}

#[test]
fn stack_full_page_round_trip() {
    let mut cpu = CPU::default();
    let start_sp = cpu.sp;
    for i in 0..256u16 {
        cpu.push_to_stack(i as u8);
    }
    for i in (0..256u16).rev() {
        assert_eq!(cpu.pop_from_stack(), i as u8);
    }
    assert_eq!(cpu.sp, start_sp);
}

#[test]
fn php_pushes_b_and_bit5_set() {
    let mut cpu = CPU::default();
    cpu.set_carry(true);
    cpu.set_negative(true);
    let status = cpu.get_status();
    cpu.php08();
    let pushed = cpu.read8(0x0100 + cpu.sp.wrapping_add(1) as u16);
    assert_eq!(pushed, status | 0x30);
    cpu.plp28();
    assert_eq!(cpu.get_status(), status);
    assert_eq!(cpu.get_status() & 0x20, 0x20);
    assert_eq!(cpu.get_status() & 0x10, 0x00);
}

#[test]
fn brk_pushes_state_and_takes_the_vector() {
    let mut cpu = CPU::default();
    cpu.write8(0xfffe, 0x34);
    cpu.write8(0xffff, 0x12);
    cpu.pc = 0x0200;
    cpu.write8(0x0200, 0x00);
    let status = cpu.get_status();
    let cycles = cpu.cycle();
    assert_eq!(cpu.pc, 0x1234);
    assert_eq!(cycles, 7);
    assert!(cpu.get_interrupt_disable());
    // the pushed status carries B and bit 5; the pushed address is the
    // opcode address plus two
    assert_eq!(cpu.read8(0x0100 + cpu.sp.wrapping_add(1) as u16), status | 0x30);
    assert_eq!(cpu.read8(0x0100 + cpu.sp.wrapping_add(2) as u16), 0x02);
    assert_eq!(cpu.read8(0x0100 + cpu.sp.wrapping_add(3) as u16), 0x02);
}

#[test]
fn rti_restores_status_and_address() {
    let mut cpu = CPU::default();
    cpu.write8(0xfffe, 0x00);
    cpu.write8(0xffff, 0x80);
    cpu.pc = 0x0200;
    cpu.write8(0x0200, 0x00);
    cpu.write8(0x8000, 0x40);
    cpu.cycle();
    assert_eq!(cpu.pc, 0x8000);
    let cycles = cpu.cycle();
    assert_eq!(cpu.pc, 0x0202);
    assert_eq!(cycles, 6);
}

#[test]
fn reset_takes_the_reset_vector() {
    let mut cpu = CPU::default();
    cpu.write8(0xfffc, 0x34);
    cpu.write8(0xfffd, 0x12);
    cpu.a = 9;
    cpu.sp = 0x33;
    cpu.reset();
    assert_eq!(cpu.pc, 0x1234);
    assert_eq!(cpu.sp, 0xfd);
    assert_eq!(cpu.a, 0);
    assert_eq!(cpu.get_status(), 0x24);
}

#[test]
fn nmi_cannot_be_masked() {
    let mut cpu = CPU::default();
    cpu.write8(0xfffa, 0x00);
    cpu.write8(0xfffb, 0x90);
    cpu.set_interrupt_disable(true);
    cpu.pc = 0x1234;
    cpu.nmi();
    assert_eq!(cpu.pc, 0x9000);
    assert_eq!(cpu.read8(0x0100 + cpu.sp.wrapping_add(2) as u16), 0x34);
    assert_eq!(cpu.read8(0x0100 + cpu.sp.wrapping_add(3) as u16), 0x12);
    // the pushed status has B clear
    assert_eq!(cpu.read8(0x0100 + cpu.sp.wrapping_add(1) as u16) & 0x10, 0);
}

#[test]
fn irq_respects_the_interrupt_disable_flag() {
    let mut cpu = CPU::default();
    cpu.write8(0xfffe, 0x00);
    cpu.write8(0xffff, 0x90);
    cpu.set_interrupt_disable(true);
    cpu.pc = 0x1234;
    cpu.irq();
    assert_eq!(cpu.pc, 0x1234);
    cpu.set_interrupt_disable(false);
    cpu.irq();
    assert_eq!(cpu.pc, 0x9000);
    assert!(cpu.get_interrupt_disable());
}

#[test]
fn unassigned_opcodes_run_as_nop() {
    let mut cpu = CPU::default();
    cpu.pc = 0x0200;
    cpu.write8(0x0200, 0x02);
    cpu.a = 5;
    let cycles = cpu.cycle();
    assert_eq!(cycles, 2);
    assert_eq!(cpu.pc, 0x0201);
    assert_eq!(cpu.a, 5);
}

#[test]
fn sbc_equals_adc_of_complement() {
    let mut left = CPU::default();
    left.a = 200;
    left.set_carry(true);
    left.sbce9(20);

    let mut right = CPU::default();
    right.a = 200;
    right.set_carry(true);
    right.adc69(!20u8);

    assert_eq!(left.a, right.a);
    assert_eq!(left.get_status(), right.get_status());
}

#[test]
fn cmp_leaves_the_accumulator_alone() {
    let mut cpu = CPU::default();
    cpu.a = 5;
    cpu.cmpc9(9);
    assert_eq!(cpu.a, 5);
    assert!(!cpu.get_carry());
    assert!(!cpu.get_zero());
    cpu.cmpc9(5);
    assert!(cpu.get_carry());
    assert!(cpu.get_zero());
}

#[test]
fn load_rom_fills_the_cartridge_region() {
    let mut cpu = CPU::default();
    cpu.load_rom(vec![1, 2, 3]);
    assert_eq!(cpu.read8(0x4020), 1);
    assert_eq!(cpu.read8(0x4021), 2);
    assert_eq!(cpu.read8(0x4022), 3);
    assert_eq!(cpu.read8(0x4023), 0);
}

fn sample_header() -> InesHeader {
    InesHeader {
        constant: [0x4e, 0x45, 0x53, 0x1a],
        prg_size: 2,
        chr_size: 1,
        flags6: 0b0101_0011,
        flags7: 0b1010_0001,
        flags8: 4,
        flags9: 0,
        flags10: 0b0011_0010,
        padding: [0; 5],
    }
}

#[test]
fn header_serialize_parse_round_trip() {
    let h = sample_header();
    let bytes = h.serialize();
    assert_eq!(bytes.len(), 16);
    assert_eq!(bytes[0], 0x4e);
    assert_eq!(bytes[4], 2);
    assert_eq!(bytes[6], 0b0101_0011);
    let parsed = InesHeader::parse(&bytes).unwrap();
    assert_eq!(parsed, h);
}

#[test]
fn mapper_number_combines_both_nibbles() {
    let mut h = sample_header();
    h.flags6 = 0x50;
    h.flags7 = 0xa0;
    assert_eq!(h.get_mapper(), 0xa5);
}

#[test]
fn header_parse_error_kinds() {
    assert_eq!(InesHeader::parse(&[0u8; 8]), Err(HeaderError::ShortHeader));
    assert_eq!(InesHeader::parse(&[0u8; 16]), Err(HeaderError::InvalidMagic));
}

#[test]
fn file_split_rejects_short_input() {
    assert_eq!(InesFile::from_bytes(&[]), Err(RomError::ShortHeader));
    assert_eq!(InesFile::from_bytes(&[0u8; 15]), Err(RomError::ShortHeader));

    let bad_magic = [0u8; 16];
    assert_eq!(InesFile::from_bytes(&bad_magic), Err(RomError::InvalidMagic));

    // a header that declares one PRG-ROM bank but brings no payload
    let mut short = vec![0u8; 16];
    short[0] = 0x4e;
    short[1] = 0x45;
    short[2] = 0x53;
    short[3] = 0x1a;
    short[4] = 1;
    assert_eq!(InesFile::from_bytes(&short), Err(RomError::ShortFile));
}

#[test]
fn file_split_cuts_the_declared_payloads() {
    // one PRG bank, one CHR bank, a trainer, no INST-ROM
    let mut bytes = vec![0u8; 16 + 512 + 16384 + 8192];
    bytes[0] = 0x4e;
    bytes[1] = 0x45;
    bytes[2] = 0x53;
    bytes[3] = 0x1a;
    bytes[4] = 1;
    bytes[5] = 1;
    bytes[6] = 0b0000_0100;
    bytes[16] = 0xaa;
    bytes[16 + 511] = 0xab;
    bytes[16 + 512] = 0xbb;
    bytes[16 + 512 + 16383] = 0xbc;
    bytes[16 + 512 + 16384] = 0xcc;
    bytes[16 + 512 + 16384 + 8191] = 0xcd;

    let file = InesFile::from_bytes(&bytes).unwrap();
    let trainer = file.trainer.expect("the trainer bit is set");
    assert_eq!(trainer.len(), 512);
    assert_eq!(trainer[0], 0xaa);
    assert_eq!(trainer[511], 0xab);
    assert_eq!(file.prg_rom.len(), 16384);
    assert_eq!(file.prg_rom[0], 0xbb);
    assert_eq!(file.prg_rom[16383], 0xbc);
    assert_eq!(file.chr_rom.len(), 8192);
    assert_eq!(file.chr_rom[0], 0xcc);
    assert_eq!(file.chr_rom[8191], 0xcd);
    assert!(file.inst_rom.is_none());
    assert!(file.prom.is_none());
}

#[test]
fn file_split_takes_inst_rom_on_playchoice_images() {
    let mut bytes = vec![0u8; 16 + 16384 + 8192 + 8192];
    bytes[0] = 0x4e;
    bytes[1] = 0x45;
    bytes[2] = 0x53;
    bytes[3] = 0x1a;
    bytes[4] = 1;
    bytes[5] = 1;
    bytes[7] = 0b0000_0010;
    bytes[16 + 16384 + 8192] = 0x77;

    let file = InesFile::from_bytes(&bytes).unwrap();
    assert!(file.trainer.is_none());
    let inst = file.inst_rom.expect("the PlayChoice bit is set");
    assert_eq!(inst.len(), 8192);
    assert_eq!(inst[0], 0x77);
}

#[test]
fn store_instructions_write_through_the_step() {
    let mut cpu = CPU::default();
    cpu.a = 123;
    cpu.pc = 0x0400;
    cpu.write8(0x0400, 0x8d);
    cpu.write8(0x0401, 0x00);
    cpu.write8(0x0402, 0x05);
    let cycles = cpu.cycle();
    assert_eq!(cpu.read8(0x0500), 123);
    assert_eq!(cycles, 4);
    assert_eq!(cpu.pc, 0x0403);
}

#[test]
fn read_modify_write_through_the_step() {
    let mut cpu = CPU::default();
    cpu.write8(0x0500, 0b0100_0001);
    cpu.pc = 0x0400;
    cpu.write8(0x0400, 0x0e);
    cpu.write8(0x0401, 0x00);
    cpu.write8(0x0402, 0x05);
    let cycles = cpu.cycle();
    assert_eq!(cpu.read8(0x0500), 0b1000_0010);
    assert!(!cpu.get_carry());
    assert!(cpu.get_negative());
    assert_eq!(cycles, 6);
}
