//! The ARM7TDMI processor core: operating modes, register file, memory,
//! instructions and the pipeline that ties them together.

pub mod instruction;
pub mod memory;
pub mod regfile;

use crate::arm7tdmi::instruction::{decoded, InstrPayload, Instruction};
use crate::arm7tdmi::memory::{memory_text, word_at, Memory, BIOS_SIZE};
use crate::arm7tdmi::regfile::{
    cpsr_text,
    lemma_mode_field_kept,
    RegFile,
    CELLS,
    CELL_CPSR,
    CELL_PC,
    CELL_R14_SVC,
    CELL_SPSR_SVC,
};
use crate::error::Error;
use crate::text::{decimal, hex, push_number};
use crate::util::{field_of, get_bits, with_field};
use vstd::prelude::*;

verus! {

/// The operating modes of the processor. Only `User` and `Supervisor` are
/// wired; the others are known by name and cannot be entered.
#[derive(Debug, Clone, Copy, PartialEq, Eq, Structural)]
pub enum OpMode {
    User,
    _Fiq,
    Supervisor,
    _Abort,
    _Irq,
    _System,
    Undefined,
}

impl Default for OpMode {
    fn default() -> (mode: OpMode)
        ensures
            mode == OpMode::Undefined,
    {
        OpMode::Undefined
    }
}

impl OpMode {
    /// Whether the register file can be in this mode.
    pub open spec fn is_wired(self) -> bool {
        self == OpMode::User || self == OpMode::Supervisor
    }

    /// The five bits that stand for the mode in the CPSR; `None` for a mode
    /// that is not wired.
    pub open spec fn code(self) -> Option<u32> {
        match self {
            OpMode::User => Some(0b10000u32),
            OpMode::Supervisor => Some(0b10011u32),
            _ => None,
        }
    }

    /// The mode's name.
    pub open spec fn name_text(self) -> Seq<char> {
        match self {
            OpMode::User => "User"@,
            OpMode::_Fiq => "_Fiq"@,
            OpMode::Supervisor => "Supervisor"@,
            OpMode::_Abort => "_Abort"@,
            OpMode::_Irq => "_Irq"@,
            OpMode::_System => "_System"@,
            OpMode::Undefined => "Undefined"@,
        }
    }

    /// The mode's name, as the debug view shows it.
    pub fn name(&self) -> (text: &'static str)
        ensures
            text@ == self.name_text(),
    {
        match self {
            OpMode::User => "User",
            OpMode::_Fiq => "_Fiq",
            OpMode::Supervisor => "Supervisor",
            OpMode::_Abort => "_Abort",
            OpMode::_Irq => "_Irq",
            OpMode::_System => "_System",
            OpMode::Undefined => "Undefined",
        }
    }
}

/// The bit of the CPSR that disables IRQ interrupts.
pub const FLAG_I: u8 = 7;

/// The bit of the CPSR that disables FIQ interrupts.
pub const FLAG_F: u8 = 6;

/// The bit of the CPSR that selects Thumb state.
pub const FLAG_T: u8 = 5;

/// How many bytes the hex dump in the state view shows.
pub const DUMP_BYTES: usize = 64;

/// The CPSR after a reset, given the CPSR before it: Supervisor mode, IRQ and
/// FIQ disabled, ARM state. The other bits stay.
pub open spec fn reset_cpsr(cpsr: u32) -> u32 {
    with_field(
        with_field(with_field(with_field(cpsr, 0, 5, 0b10011), FLAG_F, 1, 1), FLAG_I, 1, 1),
        FLAG_T,
        1,
        0,
    )
}

/// The cells of the register file after a reset, given the cells before it:
/// the link register of Supervisor mode takes the program counter, the SPSR
/// of Supervisor mode takes the CPSR, the CPSR is reset and the program
/// counter is zero. Every other cell stays.
pub open spec fn reset_cells(cells: Seq<u32>) -> Seq<u32> {
    cells.update(CELL_R14_SVC as int, cells[CELL_PC as int]).update(
        CELL_SPSR_SVC as int,
        cells[CELL_CPSR as int],
    ).update(CELL_CPSR as int, reset_cpsr(cells[CELL_CPSR as int])).update(CELL_PC as int, 0)
}

/// Whether an instruction can be fetched at `address`: only the BIOS region
/// is there to fetch from.
pub open spec fn fetchable(address: int) -> bool {
    0 <= address < BIOS_SIZE
}

/// The placeholder that fills a pipeline slot when the word `raw`, fetched at
/// `address`, is no instruction.
pub open spec fn placeholder(address: u32, raw: u32) -> Instruction {
    Instruction {
        src_addr: address,
        raw_bytes: raw,
        cond: field_of(raw, 28, 4) as u8,
        inner_instr: InstrPayload::Undefined,
    }
}

/// What a pipeline slot holds after a fetch at `address`: the instruction
/// that the word there decodes to, or the placeholder where it decodes to
/// none.
pub open spec fn slot_at(bios: Seq<u8>, address: u32) -> Instruction {
    let raw = word_at(bios, address as int) as u32;
    match decoded(address, raw) {
        Ok(instr) => instr,
        Err(_) => placeholder(address, raw),
    }
}

/// The processor core: register file, memory, and the three slots of the
/// pipeline. While the core is idle the slots hold nothing of interest.
pub struct Arm7TDMI {
    pub clock_cycle: usize,
    pub opmode: OpMode,
    pub regfile: RegFile,
    pub memory: Memory,
    pub is_idle: bool,
    pub fetch_instr: Instruction,
    pub decode_instr: Instruction,
    pub exec_instr: Instruction,
}

impl Arm7TDMI {
    /// Whether the core is well formed: the mode it names is the mode of its
    /// register file, and the mode field of the CPSR holds the code of that
    /// mode. A reset makes the core well formed, and every operation of the
    /// core keeps it so.
    pub open spec fn wf(self) -> bool {
        &&& self.opmode == self.regfile.mode()
        &&& self.regfile.mode_consistent()
    }

    /// Whether memory and pipeline slots of `self` are those of `pre`.
    pub open spec fn same_memory_and_slots(self, pre: Arm7TDMI) -> bool {
        &&& self.memory == pre.memory
        &&& self.fetch_instr == pre.fetch_instr
        &&& self.decode_instr == pre.decode_instr
        &&& self.exec_instr == pre.exec_instr
    }

    /// Whether `self` differs from `pre` in its memory at most.
    pub open spec fn same_but_memory(self, pre: Arm7TDMI) -> bool {
        &&& self.regfile == pre.regfile
        &&& self.clock_cycle == pre.clock_cycle
        &&& self.opmode == pre.opmode
        &&& self.is_idle == pre.is_idle
        &&& self.fetch_instr == pre.fetch_instr
        &&& self.decode_instr == pre.decode_instr
        &&& self.exec_instr == pre.exec_instr
    }

    /// Whether `self` differs from `pre` in its mode and in the cells of its
    /// register file at most.
    pub open spec fn same_but_registers(self, pre: Arm7TDMI) -> bool {
        &&& self.same_memory_and_slots(pre)
        &&& self.clock_cycle == pre.clock_cycle
        &&& self.is_idle == pre.is_idle
    }

    /// Whether `self` differs from `pre` in the cells of its register file
    /// at most, and holds `cells` there.
    pub open spec fn same_but_cells(self, pre: Arm7TDMI, cells: Seq<u32>) -> bool {
        &&& self.same_but_registers(pre)
        &&& self.opmode == pre.opmode
        &&& self.regfile.mode() == pre.regfile.mode()
        &&& self.regfile.cells() == cells
    }

    /// Replaces the BIOS region by `bios_rom_bytes`; fails, and changes
    /// nothing, unless the image has exactly the size of the region.
    pub fn load_bios_rom(&mut self, bios_rom_bytes: &Vec<u8>) -> (result: Result<(), Error>)
        ensures
            bios_rom_bytes@.len() == BIOS_SIZE ==> ({
                &&& result is Ok
                &&& final(self).same_but_memory(*old(self))
                &&& final(self).memory.bios() == bios_rom_bytes@
                &&& final(self).memory.cursor() == old(self).memory.cursor()
            }),
            bios_rom_bytes@.len() != BIOS_SIZE ==> ({
                &&& result == Err::<(), Error>(Error::SizeMismatch)
                &&& *final(self) == *old(self)
            }),
            old(self).wf() ==> final(self).wf(),
    {
        self.memory.load_bios_rom(bios_rom_bytes)
    }

    /// Resets the processor: the program counter and the CPSR are saved in
    /// the link register and the SPSR of Supervisor mode, the processor
    /// enters Supervisor mode with IRQ and FIQ disabled and in ARM state, and
    /// the program counter is zero. The pipeline is idle and the clock at
    /// zero. Every other register, the memory and the slots stay.
    pub fn reset(&mut self)
        ensures
            final(self).same_memory_and_slots(*old(self)),
            final(self).clock_cycle == 0,
            final(self).is_idle,
            final(self).opmode == OpMode::Supervisor,
            final(self).regfile.mode() == OpMode::Supervisor,
            final(self).regfile.cells() == reset_cells(old(self).regfile.cells()),
            final(self).wf(),
            field_of(final(self).regfile.cpsr(), 0, 5) == 0b10011,
            field_of(final(self).regfile.cpsr(), FLAG_I, 1) == 1,
            field_of(final(self).regfile.cpsr(), FLAG_F, 1) == 1,
            field_of(final(self).regfile.cpsr(), FLAG_T, 1) == 0,
            final(self).regfile.pc() == 0,
    {
        proof {
            self.regfile.lemma_cells_len();
            lemma_reset_cpsr(self.regfile.cpsr());
        }
        let cur_pc: u32 = self.regfile.get_register(15);
        let cur_cpsr: u32 = self.get_cpsr();
        let _ = self.set_mode(OpMode::Supervisor);
        self.regfile.set_register(14, cur_pc);
        self.regfile.set_register(17, cur_cpsr);
        let _ = self.disable_fiq();
        let _ = self.disable_irq();
        let _ = self.enter_arm_mode();
        self.set_pc(0u32);
        self.clock_cycle = 0usize;
        self.is_idle = true;
        proof {
            assert(self.regfile.cells() =~= reset_cells(old(self).regfile.cells()));
        }
    }

    /// Reads the CPSR.
    pub fn get_cpsr(&self) -> (value: u32)
        ensures
            value == self.regfile.cpsr(),
    {
        self.regfile.get_cpsr()
    }

    /// Enters `opmode` and writes its code to the mode field of the CPSR.
    /// Fails for a mode that is not wired, and then changes nothing.
    pub fn set_mode(&mut self, opmode: OpMode) -> (result: Result<(), Error>)
        ensures
            opmode.is_wired() ==> ({
                &&& result is Ok
                &&& final(self).same_but_registers(*old(self))
                &&& final(self).opmode == opmode
                &&& final(self).regfile.mode() == opmode
                &&& final(self).regfile.cells() == old(self).regfile.cells().update(
                    CELL_CPSR as int,
                    with_field(old(self).regfile.cpsr(), 0, 5, opmode.code().unwrap()),
                )
                &&& final(self).wf()
            }),
            !opmode.is_wired() ==> ({
                &&& result == Err::<(), Error>(Error::NotImplemented)
                &&& *final(self) == *old(self)
            }),
    {
        let result = self.regfile.set_cpsr_mode(&opmode);
        if result.is_ok() {
            self.opmode = opmode;
        }
        result
    }

    /// Sets the F flag of the CPSR, which disables FIQ interrupts.
    pub fn disable_fiq(&mut self) -> (result: Result<(), Error>)
        ensures
            result is Ok,
            final(self).same_but_cells(
                *old(self),
                old(self).regfile.cells().update(
                    CELL_CPSR as int,
                    with_field(old(self).regfile.cpsr(), FLAG_F, 1, 1),
                ),
            ),
            old(self).wf() ==> final(self).wf(),
    {
        proof {
            self.regfile.lemma_cells_len();
            lemma_mode_field_kept(self.regfile.cpsr(), FLAG_F, 1, 1);
        }
        self.regfile.set_cpsr_bits(FLAG_F, 1, 0b1)
    }

    /// Sets the I flag of the CPSR, which disables IRQ interrupts.
    pub fn disable_irq(&mut self) -> (result: Result<(), Error>)
        ensures
            result is Ok,
            final(self).same_but_cells(
                *old(self),
                old(self).regfile.cells().update(
                    CELL_CPSR as int,
                    with_field(old(self).regfile.cpsr(), FLAG_I, 1, 1),
                ),
            ),
            old(self).wf() ==> final(self).wf(),
    {
        proof {
            self.regfile.lemma_cells_len();
            lemma_mode_field_kept(self.regfile.cpsr(), FLAG_I, 1, 1);
        }
        self.regfile.set_cpsr_bits(FLAG_I, 1, 0b1)
    }

    /// Clears the T flag of the CPSR: the processor is in ARM state.
    pub fn enter_arm_mode(&mut self) -> (result: Result<(), Error>)
        ensures
            result is Ok,
            final(self).same_but_cells(
                *old(self),
                old(self).regfile.cells().update(
                    CELL_CPSR as int,
                    with_field(old(self).regfile.cpsr(), FLAG_T, 1, 0),
                ),
            ),
            old(self).wf() ==> final(self).wf(),
    {
        proof {
            self.regfile.lemma_cells_len();
            lemma_mode_field_kept(self.regfile.cpsr(), FLAG_T, 1, 0);
        }
        self.regfile.set_cpsr_bits(FLAG_T, 1, 0b0)
    }

    /// Writes the program counter.
    pub fn set_pc(&mut self, new_pc: u32)
        ensures
            final(self).same_but_cells(
                *old(self),
                old(self).regfile.cells().update(CELL_PC as int, new_pc),
            ),
            old(self).wf() ==> final(self).wf(),
    {
        proof {
            self.regfile.lemma_cells_len();
        }
        self.regfile.set_pc(new_pc);
    }
}

/// After a reset the mode field of the CPSR is the code of Supervisor mode,
/// the I and the F flag are set and the T flag is clear.
pub proof fn lemma_reset_cpsr(cpsr: u32)
    ensures
        field_of(reset_cpsr(cpsr), 0, 5) == 0b10011,
        field_of(reset_cpsr(cpsr), FLAG_I, 1) == 1,
        field_of(reset_cpsr(cpsr), FLAG_F, 1) == 1,
        field_of(reset_cpsr(cpsr), FLAG_T, 1) == 0,
{
    let r = reset_cpsr(cpsr);
    assert(field_of(r, 0, 5) == 0b10011 && field_of(r, 7, 1) == 1 && field_of(r, 6, 1) == 1
        && field_of(r, 5, 1) == 0) by (bit_vector)
        requires
            r == with_field(
                with_field(with_field(with_field(cpsr, 0, 5, 0b10011), 6, 1, 1), 7, 1, 1),
                5,
                1,
                0,
            ),
    ;
}

/// What one tick makes of the core `pre`: whether `post` and `result` are
/// the core and the answer after it.
///
/// The clock counts the tick, whatever comes of it. An idle core first fills
/// all three slots at once, with what lies at the program counter and in the
/// two words after it, and goes on in the same tick; where not all three can
/// be fetched the tick fails and the core stays idle. A word that decodes to
/// no instruction fills its slot as a placeholder, which fails only when it
/// is executed. Then the instruction of the execute slot runs. If it fails,
/// so does the tick, and the slots stay as they are. If it asks for a
/// flush, the core is idle again, so that the next tick fills the slots from
/// the new program counter. Otherwise the slots move up by one and the fetch
/// slot takes what lies at the program counter; where nothing can be fetched
/// there the tick fails and the slots stay as they are. So the slots are
/// never left half moved.
pub open spec fn ticked(pre: Arm7TDMI, post: Arm7TDMI, result: Result<(), Error>) -> bool {
    let pc = pre.regfile.pc();
    let bios = pre.memory.bios();
    let exec = if pre.is_idle {
        slot_at(bios, pc)
    } else {
        pre.exec_instr
    };
    let decode = if pre.is_idle {
        slot_at(bios, (pc + 4) as u32)
    } else {
        pre.decode_instr
    };
    let fetch = if pre.is_idle {
        slot_at(bios, (pc + 8) as u32)
    } else {
        pre.fetch_instr
    };
    let cells = exec.inner_instr.cells_after(pre.regfile.cells());
    &&& post.clock_cycle == pre.clock_cycle + 1
    &&& post.opmode == pre.opmode
    &&& post.memory == pre.memory
    &&& post.regfile.mode() == pre.regfile.mode()
    &&& if pre.is_idle && !fetchable(pc + 8) {
        &&& result == Err::<(), Error>(Error::NotImplemented)
        &&& post.is_idle
        &&& post.regfile == pre.regfile
        &&& post.exec_instr == pre.exec_instr
        &&& post.decode_instr == pre.decode_instr
        &&& post.fetch_instr == pre.fetch_instr
    } else {
        &&& post.regfile.cells() == cells
        &&& match exec.inner_instr.outcome() {
            Err(e) => {
                &&& result == Err::<(), Error>(e)
                &&& !post.is_idle
                &&& post.exec_instr == exec
                &&& post.decode_instr == decode
                &&& post.fetch_instr == fetch
            },
            Ok(true) => {
                &&& result is Ok
                &&& post.is_idle
                &&& post.exec_instr == exec
                &&& post.decode_instr == decode
                &&& post.fetch_instr == fetch
            },
            Ok(false) => {
                &&& !post.is_idle
                &&& if fetchable(cells[CELL_PC as int] as int) {
                    &&& result is Ok
                    &&& post.exec_instr == decode
                    &&& post.decode_instr == fetch
                    &&& post.fetch_instr == slot_at(bios, cells[CELL_PC as int])
                } else {
                    &&& result == Err::<(), Error>(Error::NotImplemented)
                    &&& post.exec_instr == exec
                    &&& post.decode_instr == decode
                    &&& post.fetch_instr == fetch
                }
            },
        }
    }
}

impl Arm7TDMI {
    /// Fetches and decodes what lies at `address`.
    fn slot(&self, address: u32) -> (instr: Instruction)
        requires
            fetchable(address as int),
        ensures
            instr == slot_at(self.memory.bios(), address),
    {
        let raw: u32 = self.memory.get_word(address as usize);
        match Instruction::from_bytes(address, raw) {
            Ok(instr) => instr,
            Err(_) => Instruction {
                src_addr: address,
                raw_bytes: raw,
                cond: get_bits(raw, 28, 4) as u8,
                inner_instr: InstrPayload::Undefined,
            },
        }
    }

    /// Advances the pipeline by one tick: see `ticked`. Only single ticks
    /// are implemented: any other number fails and changes nothing.
    pub fn tick_clock(&mut self, num_ticks: usize) -> (result: Result<(), Error>)
        requires
            num_ticks == 1 ==> old(self).clock_cycle < usize::MAX,
        ensures
            num_ticks != 1 ==> ({
                &&& result == Err::<(), Error>(Error::NotImplemented)
                &&& *final(self) == *old(self)
            }),
            num_ticks == 1 ==> ticked(*old(self), *final(self), result),
            old(self).wf() ==> final(self).wf(),
    {
        proof {
            self.regfile.lemma_cells_len();
        }
        if num_ticks != 1 {
            return Err(Error::NotImplemented);
        }
        self.clock_cycle = self.clock_cycle + 1;
        if self.is_idle {
            let cur_pc: u32 = self.regfile.get_register(15);
            if cur_pc >= (BIOS_SIZE - 8) as u32 {
                return Err(Error::NotImplemented);
            }
            self.fetch_instr = self.slot(cur_pc + 8);
            self.decode_instr = self.slot(cur_pc + 4);
            self.exec_instr = self.slot(cur_pc);
            self.is_idle = false;
        }
        let exec: Instruction = self.exec_instr;
        let control_flow_change: bool = match exec.execute(&mut self.regfile, &mut self.memory) {
            Ok(flush) => flush,
            Err(e) => {
                return Err(e);
            },
        };
        if control_flow_change {
            self.is_idle = true;
            Ok(())
        } else {
            let cur_pc: u32 = self.regfile.get_register(15);
            if cur_pc >= BIOS_SIZE as u32 {
                return Err(Error::NotImplemented);
            }
            self.exec_instr = self.decode_instr;
            self.decode_instr = self.fetch_instr;
            self.fetch_instr = self.slot(cur_pc);
            Ok(())
        }
    }
}

/// The name of the register `idx` in the state view, with the blanks that
/// line the values up.
pub open spec fn register_label(idx: nat) -> Seq<char> {
    "R"@ + decimal(idx) + if idx < 10 {
        ":  "@
    } else {
        ": "@
    }
}

/// One line of the state view: the register `row` and, after a tabulator,
/// the register eight above it, each with eight hexadecimal digits.
pub open spec fn register_row_text(regfile: RegFile, row: nat) -> Seq<char> {
    register_label(row) + hex(regfile.register(row as int) as nat, 8) + "\t"@ + register_label(
        row + 8,
    ) + hex(regfile.register(row as int + 8) as nat, 8) + "\n"@
}

/// The first `count` lines of registers in the state view.
pub open spec fn register_rows_text(regfile: RegFile, count: nat) -> Seq<char>
    decreases count,
{
    if count == 0 {
        Seq::empty()
    } else {
        register_rows_text(regfile, (count - 1) as nat) + register_row_text(
            regfile,
            (count - 1) as nat,
        )
    }
}

/// The state view of a core: its mode, the sixteen registers of the current
/// mode in eight lines, the flags, and a hex dump of 64 bytes at the cursor.
pub open spec fn state_text(core: Arm7TDMI) -> Seq<char> {
    "Current State: "@ + core.opmode.name_text() + "\n"@ + register_rows_text(core.regfile, 8)
        + "\n"@ + cpsr_text(core.regfile.cpsr()) + "\n\n"@ + memory_text(
        core.memory.bios(),
        core.memory.cursor(),
        DUMP_BYTES as int,
    )
}

/// The three slots of the pipeline as text.
pub open spec fn slots_text(core: Arm7TDMI) -> Seq<char> {
    "Cur instrs:\nFET: "@ + core.fetch_instr.text() + "\nDEC: "@ + core.decode_instr.text()
        + "\nEXE: "@ + core.exec_instr.text() + "\n"@
}

/// The execution view of a core: whether it is idle, the clock, and the
/// slots of the pipeline unless it is idle.
pub open spec fn exec_state_text(core: Arm7TDMI) -> Seq<char> {
    "Current Exec State: "@ + (if core.is_idle {
        "IDLE"@
    } else {
        "EXEC"@
    }) + "\nClock Cycle: "@ + decimal(core.clock_cycle as nat) + "\n"@ + if core.is_idle {
        Seq::empty()
    } else {
        slots_text(core)
    }
}

impl Arm7TDMI {
    fn label(idx: u8) -> (text: String)
        ensures
            text@ == register_label(idx as nat),
    {
        let mut out = "R".to_string();
        push_number(&mut out, idx as u64, 10, 0);
        if idx < 10 {
            out.append(":  ");
        } else {
            out.append(": ");
        }
        out
    }

    fn register_row(&self, row: u8) -> (text: String)
        requires
            row < 8,
        ensures
            text@ == register_row_text(self.regfile, row as nat),
    {
        let mut out = Arm7TDMI::label(row);
        push_number(&mut out, self.regfile.get_register(row) as u64, 16, 8);
        out.append("\t");
        let high: String = Arm7TDMI::label(row + 8);
        out.append(high.as_str());
        push_number(&mut out, self.regfile.get_register(row + 8) as u64, 16, 8);
        out.append("\n");
        out
    }

    fn register_rows(&self) -> (text: String)
        ensures
            text@ == register_rows_text(self.regfile, 8),
    {
        let mut out = String::new();
        let mut row: u8 = 0;
        while row < 8
            invariant
                row <= 8,
                out@ == register_rows_text(self.regfile, row as nat),
            decreases 8 - row,
        {
            let line: String = self.register_row(row);
            out.append(line.as_str());
            row = row + 1;
        }
        out
    }

    /// The state view: see `state_text`.
    pub fn print_state(&self) -> (text: String)
        ensures
            text@ == state_text(*self),
    {
        let mut ret_str = "Current State: ".to_string();
        ret_str.append(self.opmode.name());
        ret_str.append("\n");
        let rows: String = self.register_rows();
        ret_str.append(rows.as_str());
        ret_str.append("\n");
        let flags: String = self.regfile.print_cpsr_state();
        ret_str.append(flags.as_str());
        ret_str.append("\n\n");
        let dump: String = self.memory.print_memory(DUMP_BYTES);
        ret_str.append(dump.as_str());
        ret_str
    }

    fn slots(&self) -> (text: String)
        ensures
            text@ == slots_text(*self),
    {
        let mut out = "Cur instrs:\nFET: ".to_string();
        let fetch: String = self.fetch_instr.to_text();
        out.append(fetch.as_str());
        out.append("\nDEC: ");
        let decode: String = self.decode_instr.to_text();
        out.append(decode.as_str());
        out.append("\nEXE: ");
        let exec: String = self.exec_instr.to_text();
        out.append(exec.as_str());
        out.append("\n");
        out
    }

    /// The execution view: see `exec_state_text`.
    pub fn print_exec_state(&self) -> (text: String)
        ensures
            text@ == exec_state_text(*self),
    {
        let mut ret_str = "Current Exec State: ".to_string();
        if self.is_idle {
            ret_str.append("IDLE");
        } else {
            ret_str.append("EXEC");
        }
        ret_str.append("\nClock Cycle: ");
        push_number(&mut ret_str, self.clock_cycle as u64, 10, 0);
        ret_str.append("\n");
        if !self.is_idle {
            let slots: String = self.slots();
            ret_str.append(slots.as_str());
        } else {
            assert(ret_str@ + Seq::<char>::empty() =~= ret_str@);
        }
        ret_str
    }
}

impl Default for Arm7TDMI {
    /// A core with zeroed registers and memory, taken through a reset.
    fn default() -> (core: Arm7TDMI)
        ensures
            core.clock_cycle == 0,
            core.is_idle,
            core.opmode == OpMode::Supervisor,
            core.regfile.mode() == OpMode::Supervisor,
            core.regfile.cells() == reset_cells(Seq::new(CELLS as nat, |i: int| 0u32)),
            core.wf(),
            core.memory.cursor() == 0,
            core.memory.bios() == Seq::new(BIOS_SIZE as nat, |i: int| 0u8),
            core.fetch_instr == placeholder(0, 0),
            core.decode_instr == placeholder(0, 0),
            core.exec_instr == placeholder(0, 0),
    {
        let mut constructed_val = Arm7TDMI {
            clock_cycle: 0usize,
            opmode: OpMode::User,
            regfile: RegFile::new(),
            memory: Memory::new(),
            is_idle: false,
            fetch_instr: Instruction::default(),
            decode_instr: Instruction::default(),
            exec_instr: Instruction::default(),
        };
        constructed_val.reset();
        assert(field_of(0u32, 28, 4) == 0) by (bit_vector);
        constructed_val
    }
}

/// A tick changes neither the mode nor the CPSR, so it keeps a well-formed
/// core well formed.
pub proof fn lemma_tick_keeps_cpsr(pre: Arm7TDMI, post: Arm7TDMI, result: Result<(), Error>)
    requires
        ticked(pre, post, result),
    ensures
        post.opmode == pre.opmode,
        post.regfile.mode() == pre.regfile.mode(),
        post.regfile.cpsr() == pre.regfile.cpsr(),
        pre.wf() ==> post.wf(),
{
    pre.regfile.lemma_cells_len();
}

/// A tick that fails writes no register: a tick changes the registers as a
/// whole or not at all.
pub proof fn lemma_failed_tick_keeps_registers(
    pre: Arm7TDMI,
    post: Arm7TDMI,
    result: Result<(), Error>,
)
    requires
        ticked(pre, post, result),
        result is Err,
    ensures
        post.regfile.mode() == pre.regfile.mode(),
        post.regfile.cells() == pre.regfile.cells(),
{
}

/// A tick fails in these ways only: a fetch outside the BIOS region or an
/// instruction that is not implemented, and the placeholder in the execute
/// slot. A decoding error never leaves the pipeline.
pub proof fn lemma_tick_failures(pre: Arm7TDMI, post: Arm7TDMI, result: Result<(), Error>)
    requires
        ticked(pre, post, result),
    ensures
        result is Ok || result == Err::<(), Error>(Error::NotImplemented) || result == Err::<
            (),
            Error,
        >(Error::UndefinedExecution),
{
}

/// Resetting twice is resetting once, but for the two registers in which a
/// reset saves what it finds: the second reset finds a program counter of
/// zero and the CPSR of the first.
pub proof fn lemma_reset_again(cells: Seq<u32>)
    requires
        cells.len() == CELLS,
    ensures
        reset_cpsr(reset_cpsr(cells[CELL_CPSR as int])) == reset_cpsr(cells[CELL_CPSR as int]),
        reset_cells(reset_cells(cells)) == reset_cells(cells).update(CELL_R14_SVC as int, 0).update(
            CELL_SPSR_SVC as int,
            reset_cpsr(cells[CELL_CPSR as int]),
        ),
{
    let c = cells[CELL_CPSR as int];
    let r = reset_cpsr(c);
    assert(reset_cpsr(r) == r) by (bit_vector)
        requires
            r == with_field(
                with_field(with_field(with_field(c, 0, 5, 0b10011), 6, 1, 1), 7, 1, 1),
                5,
                1,
                0,
            ),
    ;
    assert(reset_cells(reset_cells(cells)) =~= reset_cells(cells).update(
        CELL_R14_SVC as int,
        0,
    ).update(CELL_SPSR_SVC as int, r));
}

} // verus!
