//! The iNES cartridge format: the 16-byte header with its flag fields, the
//! predicates the emulator reads off it, a serializer that is the parser's
//! exact inverse, and the splitter that cuts a whole file image into its
//! trainer, PRG-ROM, CHR-ROM and INST-ROM payloads.
use vstd::prelude::*;

verus! {

broadcast use vstd::array::group_array_axioms;

/// The television standard a cartridge declares.
#[derive(Debug, Clone, Copy, PartialEq, Eq)]
pub enum TVSystem {
    NTSC,
    PAL,
    DUAL,
}

/// Why a 16-byte header is rejected.
#[derive(Debug, Clone, Copy, PartialEq, Eq)]
pub enum HeaderError {
    /// fewer than 16 bytes were supplied
    ShortHeader,
    /// the first four bytes are not the file signature
    InvalidMagic,
}

/// Why a whole file image is rejected.
#[derive(Debug, Clone, Copy, PartialEq, Eq)]
pub enum RomError {
    /// fewer than 16 bytes were supplied
    ShortHeader,
    /// the first four bytes are not the file signature
    InvalidMagic,
    /// the header declares more payload than the file holds
    ShortFile,
}

/// The first 16 bytes of an iNES file.
#[derive(Debug, Clone, Copy, PartialEq, Eq)]
pub struct InesHeader {
    /// should contain [0x4E, 0x45, 0x53, 0x1A], "NES" and a break
    pub constant: [u8; 4],
    /// PRG-ROM data size in 16384-byte units
    pub prg_size: u8,
    /// CHR-ROM data size in 8192-byte units; zero means the board uses CHR RAM
    pub chr_size: u8,
    /// mapper low nibble, mirroring, battery, trainer
    pub flags6: u8,
    /// mapper high nibble, VS/PlayChoice, iNES 2.0 signature
    pub flags7: u8,
    /// PRG-RAM size in 8192-byte units
    pub flags8: u8,
    /// TV system; unused on circulating ROMs
    pub flags9: u8,
    /// TV system and PRG-RAM presence
    pub flags10: u8,
    /// should be filled with zeros
    pub padding: [u8; 5],
}

/// The first four bytes spell the file signature.
pub open spec fn magic_ok(b: Seq<u8>) -> bool {
    &&& b[0] == 0x4E
    &&& b[1] == 0x45
    &&& b[2] == 0x53
    &&& b[3] == 0x1A
}

/// The header value that 16 or more bytes denote.
pub open spec fn header_of(b: Seq<u8>) -> InesHeader {
    InesHeader {
        constant: [b[0], b[1], b[2], b[3]],
        prg_size: b[4],
        chr_size: b[5],
        flags6: b[6],
        flags7: b[7],
        flags8: b[8],
        flags9: b[9],
        flags10: b[10],
        padding: [b[11], b[12], b[13], b[14], b[15]],
    }
}

/// What parsing returns on every input: too little data, a bad signature,
/// or the denoted header.
pub open spec fn parse_spec(b: Seq<u8>) -> Result<InesHeader, HeaderError> {
    if b.len() < 16 {
        Err(HeaderError::ShortHeader)
    } else if !magic_ok(b) {
        Err(HeaderError::InvalidMagic)
    } else {
        Ok(header_of(b))
    }
}

/// The 16 bytes that a header value denotes; the parser's inverse.
pub open spec fn ser_spec(h: InesHeader) -> Seq<u8> {
    seq![
        h.constant[0],
        h.constant[1],
        h.constant[2],
        h.constant[3],
        h.prg_size,
        h.chr_size,
        h.flags6,
        h.flags7,
        h.flags8,
        h.flags9,
        h.flags10,
        h.padding[0],
        h.padding[1],
        h.padding[2],
        h.padding[3],
        h.padding[4],
    ]
}

/// A header is valid when it carries the file signature.
pub open spec fn valid_header(h: InesHeader) -> bool {
    &&& h.constant[0] == 0x4E
    &&& h.constant[1] == 0x45
    &&& h.constant[2] == 0x53
    &&& h.constant[3] == 0x1A
}

impl InesHeader {
    /// Parse the first 16 bytes of a file: rejected when fewer than 16
    /// bytes are given or the signature is wrong, the denoted header
    /// otherwise.
    pub fn parse(header: &[u8]) -> (r: Result<InesHeader, HeaderError>)
        ensures
            r == parse_spec(header@),
    {
        if header.len() < 16 {
            return Err(HeaderError::ShortHeader);
        }
        if !(header[0] == 0x4E && header[1] == 0x45 && header[2] == 0x53 && header[3] == 0x1A) {
            return Err(HeaderError::InvalidMagic);
        }
        let h = InesHeader {
            constant: [header[0], header[1], header[2], header[3]],
            prg_size: header[4],
            chr_size: header[5],
            flags6: header[6],
            flags7: header[7],
            flags8: header[8],
            flags9: header[9],
            flags10: header[10],
            padding: [header[11], header[12], header[13], header[14], header[15]],
        };
        proof {
            assert(h.constant =~= header_of(header@).constant);
            assert(h.padding =~= header_of(header@).padding);
        }
        Ok(h)
    }

    /// Write the header back as its 16 bytes; parsing the result of a
    /// valid header gives the header back.
    pub fn serialize(&self) -> (r: Vec<u8>)
        ensures
            r@ == ser_spec(*self),
    {
        let mut r: Vec<u8> = Vec::new();
        r.push(self.constant[0]);
        r.push(self.constant[1]);
        r.push(self.constant[2]);
        r.push(self.constant[3]);
        r.push(self.prg_size);
        r.push(self.chr_size);
        r.push(self.flags6);
        r.push(self.flags7);
        r.push(self.flags8);
        r.push(self.flags9);
        r.push(self.flags10);
        r.push(self.padding[0]);
        r.push(self.padding[1]);
        r.push(self.padding[2]);
        r.push(self.padding[3]);
        r.push(self.padding[4]);
        proof {
            assert(r@ =~= ser_spec(*self));
        }
        r
    }

    // flags 6

    /// Nametables are arranged for vertical (horizontal-mirroring) layout.
    #[verifier::allow_in_spec]
    pub fn has_vertical_arrangement(&self) -> bool
        returns
            self.flags6 & 0b0000_0001 == 1,
    {
        self.flags6 & 0b0000_0001 == 1
    }

    #[verifier::allow_in_spec]
    pub fn has_horizontal_arrangement(&self) -> bool
        returns
            self.flags6 & 0b0000_0001 == 0,
    {
        self.flags6 & 0b0000_0001 == 0
    }

    /// Battery-backed PRG RAM is present.
    #[verifier::allow_in_spec]
    pub fn has_persistent_memory(&self) -> bool
        returns
            self.flags6 & 0b0000_0010 == 0b10,
    {
        self.flags6 & 0b0000_0010 == 0b10
    }

    /// A 512-byte trainer precedes the PRG-ROM payload.
    #[verifier::allow_in_spec]
    pub fn has_trainer(&self) -> bool
        returns
            self.flags6 & 0b0000_0100 == 0b100,
    {
        self.flags6 & 0b0000_0100 == 0b100
    }

    /// Four-screen VRAM: the mirroring control is ignored.
    #[verifier::allow_in_spec]
    pub fn ignores_mirroring_ctl(&self) -> bool
        returns
            self.flags6 & 0b0000_1000 == 0b1000,
    {
        self.flags6 & 0b0000_1000 == 0b1000
    }

    #[verifier::allow_in_spec]
    pub fn get_lower_mapper_nibble(&self) -> u8
        returns
            (self.flags6 & 0xF0) >> 4,
    {
        (self.flags6 & 0xF0) >> 4
    }

    // flags 7

    #[verifier::allow_in_spec]
    pub fn is_vs_unisystem(&self) -> bool
        returns
            self.flags7 & 0b0000_0001 == 1,
    {
        self.flags7 & 0b0000_0001 == 1
    }

    /// A PlayChoice-10 image: 8192 bytes of INST-ROM follow the CHR-ROM.
    #[verifier::allow_in_spec]
    pub fn is_playchoice10(&self) -> bool
        returns
            self.flags7 & 0b0000_0010 == 0b10,
    {
        self.flags7 & 0b0000_0010 == 0b10
    }

    /// The iNES 2.0 signature: bits 2 and 3 read exactly binary 10.
    #[verifier::allow_in_spec]
    pub fn is_nes20(&self) -> bool
        returns
            self.flags7 & 0b0000_1100 == 0b1000,
    {
        self.flags7 & 0b0000_1100 == 0b1000
    }

    /// The mapper's high nibble, kept in place.
    #[verifier::allow_in_spec]
    pub fn get_upper_mapper_nibble(&self) -> u8
        returns
            self.flags7 & 0b1111_0000,
    {
        self.flags7 & 0b1111_0000
    }

    // flags 8

    /// PRG-RAM size in 8192-byte units.
    #[verifier::allow_in_spec]
    pub fn get_prg_ram_size(&self) -> u8
        returns
            self.flags8,
    {
        self.flags8
    }

    // flags 9 carries nothing that circulating ROMs use.

    // flags 10

    /// The declared TV system: 0 is NTSC, 2 is PAL, 1 and 3 work on both.
    #[verifier::allow_in_spec]
    pub fn get_tv_system(&self) -> TVSystem
        returns
            (if self.flags10 & 0b0000_0011 == 0 {
                TVSystem::NTSC
            } else if self.flags10 & 0b0000_0011 == 2 {
                TVSystem::PAL
            } else {
                TVSystem::DUAL
            }),
    {
        let system = self.flags10 & 0b0000_0011;
        if system == 0 {
            TVSystem::NTSC
        } else if system == 2 {
            TVSystem::PAL
        } else {
            TVSystem::DUAL
        }
    }

    #[verifier::allow_in_spec]
    pub fn has_prg_ram(&self) -> bool
        returns
            self.flags10 & 0b0001_0000 == 0b0001_0000,
    {
        self.flags10 & 0b0001_0000 == 0b0001_0000
    }

    #[verifier::allow_in_spec]
    pub fn has_board_conflicts(&self) -> bool
        returns
            self.flags10 & 0b0010_0000 == 0b0010_0000,
    {
        self.flags10 & 0b0010_0000 == 0b0010_0000
    }

    /// The mapper number: the high nibble from flags 7 over the low nibble
    /// from flags 6.
    #[verifier::allow_in_spec]
    pub fn get_mapper(&self) -> u8
        returns
            (self.flags7 & 0b1111_0000) | ((self.flags6 & 0xF0) >> 4),
    {
        self.get_upper_mapper_nibble() | self.get_lower_mapper_nibble()
    }
}

/// Parsing the serialized bytes of any valid header yields that header.
pub proof fn lemma_header_roundtrip(h: InesHeader)
    requires
        valid_header(h),
    ensures
        parse_spec(ser_spec(h)) == Ok::<InesHeader, HeaderError>(h),
{
    let b = ser_spec(h);
    let h2 = header_of(b);
    assert(h2.constant =~= h.constant);
    assert(h2.padding =~= h.padding);
}

/// A whole cartridge image, split into its payloads.
#[derive(Debug, Clone, PartialEq, Eq)]
pub struct InesFile {
    pub header: InesHeader,
    /// 512 bytes when the header declares a trainer
    pub trainer: Option<Vec<u8>>,
    /// 16384 bytes per declared unit
    pub prg_rom: Vec<u8>,
    /// 8192 bytes per declared unit
    pub chr_rom: Vec<u8>,
    /// 8192 bytes on PlayChoice-10 images
    pub inst_rom: Option<Vec<u8>>,
    /// a PROM payload is never split off here
    pub prom: Option<Vec<u8>>,
}

/// How many bytes of trainer the header declares.
pub open spec fn trainer_len(h: InesHeader) -> int {
    if h.has_trainer() {
        512
    } else {
        0
    }
}

/// How many bytes of INST-ROM the header declares.
pub open spec fn inst_len(h: InesHeader) -> int {
    if h.is_playchoice10() {
        8192
    } else {
        0
    }
}

/// How long a file with this header must at least be.
pub open spec fn total_size(h: InesHeader) -> int {
    16 + trainer_len(h) + h.prg_size * 16384 + h.chr_size * 8192 + inst_len(h)
}

/// The payloads are the declared slices of the file image, in file order:
/// trainer, PRG-ROM, CHR-ROM, INST-ROM.
pub open spec fn file_matches(f: InesFile, b: Seq<u8>) -> bool {
    let h = header_of(b);
    let tl = trainer_len(h);
    let pl = h.prg_size * 16384;
    let cl = h.chr_size * 8192;
    &&& f.header == h
    &&& (if h.has_trainer() {
        f.trainer matches Some(t) && t@ == b.subrange(16, 528)
    } else {
        f.trainer is None
    })
    &&& f.prg_rom@ == b.subrange(16 + tl, 16 + tl + pl)
    &&& f.chr_rom@ == b.subrange(16 + tl + pl, 16 + tl + pl + cl)
    &&& (if h.is_playchoice10() {
        f.inst_rom matches Some(t) && t@ == b.subrange(16 + tl + pl + cl, 16 + tl + pl + cl + 8192)
    } else {
        f.inst_rom is None
    })
    &&& f.prom is None
}

/// Copy bytes[start .. start + len] into a fresh vector.
fn copy_range(bytes: &[u8], start: usize, len: usize) -> (v: Vec<u8>)
    requires
        start + len <= bytes@.len(),
    ensures
        v@ == bytes@.subrange(start as int, start as int + len as int),
{
    let n: usize = bytes.len();
    proof {
        assert(start + len <= n);
    }
    let mut v: Vec<u8> = Vec::new();
    let mut i: usize = 0;
    while i < len
        invariant
            start + len <= bytes@.len(),
            start + len <= usize::MAX,
            i <= len,
            v@ == bytes@.subrange(start as int, start as int + i as int),
        decreases len - i,
    {
        v.push(bytes[start + i]);
        proof {
            assert(v@ =~= bytes@.subrange(start as int, start as int + (i + 1) as int));
        }
        i = i + 1;
    }
    v
}

impl InesFile {
    /// Split a whole file image into its payloads. Rejected when the
    /// header is (ShortHeader and InvalidMagic as the header parser says),
    /// or when any declared payload would overrun the file (ShortFile).
    pub fn from_bytes(bytes: &[u8]) -> (r: Result<InesFile, RomError>)
        ensures
            bytes@.len() < 16 ==> r == Err::<InesFile, RomError>(RomError::ShortHeader),
            bytes@.len() >= 16 && !magic_ok(bytes@) ==> r == Err::<InesFile, RomError>(
                RomError::InvalidMagic,
            ),
            bytes@.len() >= 16 && magic_ok(bytes@) && (bytes@.len() as int) < total_size(
                header_of(bytes@),
            ) ==> r == Err::<InesFile, RomError>(RomError::ShortFile),
            bytes@.len() >= 16 && magic_ok(bytes@) && (bytes@.len() as int) >= total_size(
                header_of(bytes@),
            ) ==> (r matches Ok(f) && file_matches(f, bytes@)),
    {
        let header = match InesHeader::parse(bytes) {
            Ok(h) => h,
            Err(HeaderError::ShortHeader) => {
                return Err(RomError::ShortHeader);
            },
            Err(HeaderError::InvalidMagic) => {
                return Err(RomError::InvalidMagic);
            },
        };
        let tl: usize = if header.has_trainer() {
            512
        } else {
            0
        };
        let pl: usize = header.prg_size as usize * 16384;
        let cl: usize = header.chr_size as usize * 8192;
        let il: usize = if header.is_playchoice10() {
            8192
        } else {
            0
        };
        let needed: usize = 16 + tl + pl + cl + il;
        if bytes.len() < needed {
            return Err(RomError::ShortFile);
        }
        let mut curr: usize = 16;
        let trainer: Option<Vec<u8>> = if header.has_trainer() {
            let t = copy_range(bytes, curr, 512);
            curr = curr + 512;
            Some(t)
        } else {
            None
        };
        let prg_rom = copy_range(bytes, curr, pl);
        curr = curr + pl;
        let chr_rom = copy_range(bytes, curr, cl);
        curr = curr + cl;
        let inst_rom: Option<Vec<u8>> = if header.is_playchoice10() {
            Some(copy_range(bytes, curr, 8192))
        } else {
            None
        };
        Ok(InesFile { header, trainer, prg_rom, chr_rom, inst_rom, prom: None })
    }
}

} // verus!
