//! An instruction-set emulator core for the ARM7TDMI processor of the
//! Game Boy Advance: bit-field helpers, the BIOS memory region, the banked
//! register file, the instruction decoder and the three-stage pipeline.

pub mod arm7tdmi;
pub mod error;
pub mod gba_emu;
pub mod text;
pub mod util;
