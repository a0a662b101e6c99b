//! A verified interpreter for the 8-bit CPU at the heart of the NES: the
//! register file and flag byte, the mirrored 64 KiB memory image, the full
//! official instruction set with cycle counts, and the cartridge-image
//! loader that feeds it.
pub mod cpu;
pub mod ines;
pub mod laws;
pub mod mmap;
pub mod ops;
pub mod state;
pub mod step;
