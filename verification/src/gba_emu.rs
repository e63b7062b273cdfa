//! The device as its user sees it: the processor core, the images that were
//! loaded, and a status line.

use crate::arm7tdmi::memory::{cursor_advanced, cursor_regressed, BIOS_SIZE};
use crate::arm7tdmi::regfile::CELLS;
use crate::arm7tdmi::{exec_state_text, reset_cells, state_text, ticked, Arm7TDMI};
use crate::error::Error;
use crate::text::{hex, number};
use vstd::prelude::*;
use vstd::slice::slice_to_vec;

verus! {

/// The status line while the ROM image `path` is loaded, given the CPSR.
pub open spec fn rom_status_text(cpsr: u32, path: Seq<char>) -> Seq<char> {
    hex(cpsr as nat, 4) + " | Loading rom file: \""@ + path + "\""@
}

/// The status line while the BIOS image `path` is loaded, given the CPSR.
pub open spec fn bios_status_text(cpsr: u32, path: Seq<char>) -> Seq<char> {
    hex(cpsr as nat, 4) + " | Loading bios file: \""@ + path + "\""@
}

/// The device: a processor core, the ROM and BIOS images that were handed
/// to it, the name of the last of them, and a status line. The core of a
/// new device is well formed, and every operation keeps it so.
pub struct Gbaemu {
    rompath: String,
    rombytes: Vec<u8>,
    biosrombytes: Vec<u8>,
    status_bar: String,
    arm_core: Arm7TDMI,
}

impl Gbaemu {
    /// The name of the image that was loaded last.
    pub closed spec fn rom_path(&self) -> Seq<char> {
        self.rompath@
    }

    /// The ROM image.
    pub closed spec fn rom(&self) -> Seq<u8> {
        self.rombytes@
    }

    /// The BIOS image as it was handed over, whatever its size.
    pub closed spec fn bios_image(&self) -> Seq<u8> {
        self.biosrombytes@
    }

    /// The status line.
    pub closed spec fn status(&self) -> Seq<char> {
        self.status_bar@
    }

    /// The processor core.
    pub closed spec fn processor(&self) -> Arm7TDMI {
        self.arm_core
    }

    /// Whether the device holds the images of `pre`, under the same name.
    pub open spec fn same_images(&self, pre: &Gbaemu) -> bool {
        &&& self.rom_path() == pre.rom_path()
        &&& self.rom() == pre.rom()
        &&& self.bios_image() == pre.bios_image()
    }

    /// A device without images, with an empty status line and a core fresh
    /// from reset: zeroed registers and memory, but for what the reset sets.
    pub fn new() -> (device: Gbaemu)
        ensures
            device.rom_path() == Seq::<char>::empty(),
            device.rom() == Seq::<u8>::empty(),
            device.bios_image() == Seq::<u8>::empty(),
            device.status() == Seq::<char>::empty(),
            device.processor().wf(),
            device.processor().clock_cycle == 0,
            device.processor().is_idle,
            device.processor().regfile.cells() == reset_cells(
                Seq::new(CELLS as nat, |i: int| 0u32),
            ),
            device.processor().memory.cursor() == 0,
            device.processor().memory.bios() == Seq::new(BIOS_SIZE as nat, |i: int| 0u8),
    {
        Gbaemu {
            rompath: String::new(),
            rombytes: Vec::new(),
            biosrombytes: Vec::new(),
            status_bar: String::new(),
            arm_core: Arm7TDMI::default(),
        }
    }

    /// Takes the ROM image `rombytes`, of any length, under the name
    /// `rompath`, and says so in the status line. The core is not touched.
    pub fn load_rom(&mut self, rompath: String, rombytes: &[u8]) -> (result: Result<(), Error>)
        ensures
            result is Ok,
            final(self).rom_path() == rompath@,
            final(self).rom() == rombytes@,
            final(self).status() == rom_status_text(old(self).processor().regfile.cpsr(), rompath@),
            final(self).bios_image() == old(self).bios_image(),
            final(self).processor() == old(self).processor(),
    {
        let mut status: String = number(self.arm_core.get_cpsr() as u64, 16, 4);
        status.append(" | Loading rom file: \"");
        status.append(rompath.as_str());
        status.append("\"");
        self.rompath = rompath;
        self.rombytes = slice_to_vec(rombytes);
        self.status_bar = status;
        Ok(())
    }

    /// Takes the BIOS image `rombytes` under the name `rompath`, says so in
    /// the status line, and loads it into the BIOS region of the core. An
    /// image of another size than the region is kept and named all the same,
    /// but the load fails and the core stays as it was.
    pub fn load_bios_rom(&mut self, rompath: String, rombytes: &[u8]) -> (result: Result<
        (),
        Error,
    >)
        ensures
            final(self).rom_path() == rompath@,
            final(self).bios_image() == rombytes@,
            final(self).status() == bios_status_text(
                old(self).processor().regfile.cpsr(),
                rompath@,
            ),
            final(self).rom() == old(self).rom(),
            old(self).processor().wf() ==> final(self).processor().wf(),
            rombytes@.len() == BIOS_SIZE ==> ({
                &&& result is Ok
                &&& final(self).processor().same_but_memory(old(self).processor())
                &&& final(self).processor().memory.bios() == rombytes@
                &&& final(self).processor().memory.cursor() == old(self).processor().memory.cursor()
            }),
            rombytes@.len() != BIOS_SIZE ==> ({
                &&& result == Err::<(), Error>(Error::SizeMismatch)
                &&& final(self).processor() == old(self).processor()
            }),
    {
        let mut status: String = number(self.arm_core.get_cpsr() as u64, 16, 4);
        status.append(" | Loading bios file: \"");
        status.append(rompath.as_str());
        status.append("\"");
        self.rompath = rompath;
        self.biosrombytes = slice_to_vec(rombytes);
        self.status_bar = status;
        self.arm_core.load_bios_rom(&self.biosrombytes)
    }

    /// Resets the core and says so in the status line.
    pub fn reset(&mut self)
        ensures
            final(self).same_images(old(self)),
            final(self).status() == "Resetting system"@,
            final(self).processor().wf(),
            final(self).processor().same_memory_and_slots(old(self).processor()),
            final(self).processor().clock_cycle == 0,
            final(self).processor().is_idle,
            final(self).processor().regfile.cells() == reset_cells(
                old(self).processor().regfile.cells(),
            ),
    {
        self.status_bar = "Resetting system".to_string();
        self.arm_core.reset()
    }

    /// Advances the core by one tick. Any other number of ticks fails and
    /// changes nothing. Without a BIOS image there is nothing to run: the
    /// status line says so and the core is left alone.
    pub fn tick_clock(&mut self, num_ticks: usize) -> (result: Result<(), Error>)
        requires
            num_ticks == 1 && old(self).bios_image().len() > 0 ==> old(self).processor().clock_cycle
                < usize::MAX,
        ensures
            final(self).same_images(old(self)),
            old(self).processor().wf() ==> final(self).processor().wf(),
            num_ticks != 1 ==> ({
                &&& result == Err::<(), Error>(Error::NotImplemented)
                &&& final(self).status() == old(self).status()
                &&& final(self).processor() == old(self).processor()
            }),
            num_ticks == 1 && old(self).bios_image().len() == 0 ==> ({
                &&& result is Ok
                &&& final(self).status() == "Skipping clock ticks without bios"@
                &&& final(self).processor() == old(self).processor()
            }),
            num_ticks == 1 && old(self).bios_image().len() > 0 ==> ({
                &&& final(self).status() == old(self).status()
                &&& ticked(old(self).processor(), final(self).processor(), result)
            }),
    {
        if num_ticks != 1 {
            return Err(Error::NotImplemented);
        }
        if self.biosrombytes.len() == 0 {
            self.status_bar = "Skipping clock ticks without bios".to_string();
            Ok(())
        } else {
            self.arm_core.tick_clock(num_ticks)
        }
    }

    /// The status line.
    pub fn get_status(&self) -> (text: String)
        ensures
            text@ == self.status(),
    {
        self.status_bar.clone()
    }

    /// The state view of the core.
    pub fn get_core_state(&self) -> (text: String)
        ensures
            text@ == state_text(self.processor()),
    {
        self.arm_core.print_state()
    }

    /// The execution view of the core.
    pub fn get_execution_state(&self) -> (text: String)
        ensures
            text@ == exec_state_text(self.processor()),
    {
        self.arm_core.print_exec_state()
    }

    /// How many ticks the core has counted since its last reset.
    pub fn clock_cycle(&self) -> (cycles: usize)
        ensures
            cycles == self.processor().clock_cycle,
    {
        self.arm_core.clock_cycle
    }

    /// Moves the hex-dump window eight bytes on; it stops at the end of the
    /// BIOS region.
    pub fn advance_mem_cursor(&mut self)
        ensures
            final(self).same_images(old(self)),
            final(self).status() == old(self).status(),
            final(self).processor().same_but_memory(old(self).processor()),
            final(self).processor().memory.bios() == old(self).processor().memory.bios(),
            final(self).processor().memory.cursor() == cursor_advanced(
                old(self).processor().memory.cursor(),
            ),
    {
        self.arm_core.memory.advance_mem_cursor()
    }

    /// Moves the hex-dump window eight bytes back; it stops at the start of
    /// the BIOS region.
    pub fn regress_mem_cursor(&mut self)
        ensures
            final(self).same_images(old(self)),
            final(self).status() == old(self).status(),
            final(self).processor().same_but_memory(old(self).processor()),
            final(self).processor().memory.bios() == old(self).processor().memory.bios(),
            final(self).processor().memory.cursor() == cursor_regressed(
                old(self).processor().memory.cursor(),
            ),
    {
        self.arm_core.memory.regress_mem_cursor()
    }
}

impl Default for Gbaemu {
    fn default() -> (device: Gbaemu)
        ensures
            device.rom_path() == Seq::<char>::empty(),
            device.rom() == Seq::<u8>::empty(),
            device.bios_image() == Seq::<u8>::empty(),
            device.status() == Seq::<char>::empty(),
            device.processor().wf(),
            device.processor().clock_cycle == 0,
            device.processor().is_idle,
            device.processor().regfile.cells() == reset_cells(
                Seq::new(CELLS as nat, |i: int| 0u32),
            ),
            device.processor().memory.cursor() == 0,
            device.processor().memory.bios() == Seq::new(BIOS_SIZE as nat, |i: int| 0u8),
    {
        Gbaemu::new()
    }
}

} // verus!
