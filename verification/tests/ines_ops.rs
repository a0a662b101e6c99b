//! The header suite: signature checking and each flag byte's predicates.
use rune::ines::{InesHeader, TVSystem};

fn zeroed_header() -> InesHeader {
    InesHeader {
        constant: [0; 4],
        prg_size: 0,
        chr_size: 0,
        flags6: 0,
        flags7: 0,
        flags8: 0,
        flags9: 0,
        flags10: 0,
        padding: [0; 5],
    }
}

#[test]
fn rejects_non_nes_files() {
    let mut header = [0u8; 16];
    assert!(InesHeader::parse(&header).is_err());

    header[0] = 0x4e;
    header[1] = 0x45;
    header[2] = 0x53;
    header[3] = 0x1a;
    assert!(InesHeader::parse(&header).is_ok());
}

#[test]
fn flags6() {
    let mut header = zeroed_header();
    header.flags6 = 1;
    assert!(header.has_vertical_arrangement());
    header.flags6 = 0;
    assert!(header.has_horizontal_arrangement());

    header.flags6 = 0b0000_0010;
    assert!(header.has_persistent_memory());
    header.flags6 = 0;
    assert!(!header.has_persistent_memory());

    header.flags6 = 0b0000_0100;
    assert!(header.has_trainer());
    header.flags6 = 0;
    assert!(!header.has_trainer());

    header.flags6 = 0b0000_1000;
    assert!(header.ignores_mirroring_ctl());
    header.flags6 = 0;
    assert!(!header.ignores_mirroring_ctl());

    header.flags6 = 0b1111_0000;
    assert!(header.get_lower_mapper_nibble() == 0b1111);
    header.flags6 = 0;
    assert!(header.get_lower_mapper_nibble() == 0);
}

#[test]
fn flags7() {
    let mut header = zeroed_header();
    header.flags7 = 1;
    assert!(header.is_vs_unisystem());
    header.flags7 = 0;
    assert!(!header.is_vs_unisystem());

    header.flags7 = 0b0000_0010;
    assert!(header.is_playchoice10());
    header.flags7 = 0;
    assert!(!header.is_playchoice10());

    header.flags7 = 0b0000_1000;
    assert!(header.is_nes20());
    header.flags7 = 0;
    assert!(!header.is_nes20());

    header.flags7 = 0b1111_0000;
    assert!(header.get_upper_mapper_nibble() == 0b1111_0000);
    header.flags7 = 0;
    assert!(header.get_upper_mapper_nibble() == 0);
}

#[test]
fn flags8() {
    let mut header = zeroed_header();
    header.flags8 = 243;
    assert!(header.get_prg_ram_size() == 243);
}

#[test]
fn flags9() {
    // not used by any ROMs in circulation thus it is ignored
}

#[test]
fn flags10() {
    let mut header = zeroed_header();
    header.flags10 = 0;
    assert!(match header.get_tv_system() {
        TVSystem::NTSC => true,
        _ => false,
    });

    header.flags10 = 1;
    assert!(match header.get_tv_system() {
        TVSystem::DUAL => true,
        _ => false,
    });
    header.flags10 = 3;
    assert!(match header.get_tv_system() {
        TVSystem::DUAL => true,
        _ => false,
    });

    header.flags10 = 2;
    assert!(match header.get_tv_system() {
        TVSystem::PAL => true,
        _ => false,
    });

    header.flags10 = 0b0001_0000;
    assert!(header.has_prg_ram());
    header.flags10 = 0;
    assert!(!header.has_prg_ram());

    header.flags10 = 0b0010_0000;
    assert!(header.has_board_conflicts());
    header.flags10 = 0;
    assert!(!header.has_board_conflicts());
}
