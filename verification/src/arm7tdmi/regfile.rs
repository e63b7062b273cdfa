//! The banked register file and the CPSR.

use crate::arm7tdmi::OpMode;
use crate::error::Error;
use crate::text::{binary, decimal, push_number};
use crate::util::{field_of, get_bits, lemma_set_keeps_other_fields, set_bits, with_field};
use vstd::prelude::*;

verus! {

/// How many storage cells the register file has. The cells 0 to 15 are R0
/// to R15 as User mode sees them, and cell 16 is the CPSR. Then come the
/// cells that the other modes keep for themselves: 17 to 24 for FIQ (R8 to
/// R14 and the SPSR), 25 to 27 for Supervisor (R13, R14 and the SPSR), and in
/// the same way 28 to 30 for Abort, 31 to 33 for IRQ and 34 to 36 for
/// Undefined.
pub const CELLS: usize = 37;

/// The cell of the program counter, R15, which no mode banks.
pub const CELL_PC: usize = 15;

/// The cell of the CPSR, which no mode banks.
pub const CELL_CPSR: usize = 16;

/// The cell of R13 in Supervisor mode.
pub const CELL_R13_SVC: usize = 25;

/// The cell of R14 in Supervisor mode.
pub const CELL_R14_SVC: usize = 26;

/// The cell of the SPSR of Supervisor mode.
pub const CELL_SPSR_SVC: usize = 27;

/// The index that stands for the CPSR in `set_register`.
pub const INDEX_CPSR: u8 = 16;

/// The index that stands for the SPSR of the current mode in `set_register`.
pub const INDEX_SPSR: u8 = 17;

/// Whether the register index `idx` names a register in mode `mode`: 0 to 15
/// are R0 to R15, 16 is the CPSR, and 17 is the SPSR of the mode, which only
/// Supervisor mode has.
pub open spec fn has_register(mode: OpMode, idx: int) -> bool {
    0 <= idx <= INDEX_CPSR || (idx == INDEX_SPSR && mode == OpMode::Supervisor)
}

/// The cell that the register index `idx` names in mode `mode`. Supervisor
/// mode has cells of its own for R13, R14 and its SPSR; every other index
/// names the cell of that number. (The register file is only ever in User or
/// in Supervisor mode.)
pub open spec fn cell_of(mode: OpMode, idx: int) -> int {
    if mode == OpMode::Supervisor && idx == 13 {
        CELL_R13_SVC as int
    } else if mode == OpMode::Supervisor && idx == 14 {
        CELL_R14_SVC as int
    } else if mode == OpMode::Supervisor && idx == INDEX_SPSR {
        CELL_SPSR_SVC as int
    } else {
        idx
    }
}

/// The two lines that show the flags and the mode field of `cpsr`.
pub open spec fn cpsr_text(cpsr: u32) -> Seq<char> {
    "N|Z|C|V|---|I|F|T|MODES\n"@ + decimal(field_of(cpsr, 31, 1) as nat) + "|"@ + decimal(
        field_of(cpsr, 30, 1) as nat,
    ) + "|"@ + decimal(field_of(cpsr, 29, 1) as nat) + "|"@ + decimal(field_of(cpsr, 28, 1) as nat)
        + "|---|"@ + decimal(field_of(cpsr, 7, 1) as nat) + "|"@ + decimal(
        field_of(cpsr, 6, 1) as nat,
    ) + "|"@ + decimal(field_of(cpsr, 5, 1) as nat) + "|"@ + binary(field_of(cpsr, 0, 5) as nat, 5)
}

/// The registers of the processor: R0 to R15, the CPSR, and the registers
/// that the other modes keep for themselves. The mode is always a wired one.
pub struct RegFile {
    mode: OpMode,
    cells: [u32; CELLS],
}

impl RegFile {
    #[verifier::type_invariant]
    spec fn mode_is_wired(&self) -> bool {
        self.mode.is_wired()
    }

    /// The mode that the register file is in.
    pub closed spec fn mode(&self) -> OpMode {
        self.mode
    }

    /// What the storage cells hold, cell by cell.
    pub closed spec fn cells(&self) -> Seq<u32> {
        self.cells@
    }

    /// What the CPSR holds.
    pub open spec fn cpsr(&self) -> u32 {
        self.cells()[CELL_CPSR as int]
    }

    /// What the program counter holds.
    pub open spec fn pc(&self) -> u32 {
        self.cells()[CELL_PC as int]
    }

    /// What the register `idx` holds in the current mode.
    pub open spec fn register(&self, idx: int) -> u32 {
        self.cells()[cell_of(self.mode(), idx)]
    }

    /// Whether the mode field of the CPSR is the code of the current mode.
    pub open spec fn mode_consistent(&self) -> bool {
        self.mode().code() == Some(field_of(self.cpsr(), 0, 5))
    }

    /// A register file has 37 cells.
    pub proof fn lemma_cells_len(&self)
        ensures
            self.cells().len() == CELLS,
    {
    }

    /// A register file in User mode whose cells all hold zero.
    pub fn new() -> (regfile: RegFile)
        ensures
            regfile.mode() == OpMode::User,
            regfile.cells() == Seq::new(CELLS as nat, |i: int| 0u32),
    {
        let regfile = RegFile { mode: OpMode::User, cells: [0u32; CELLS] };
        assert(regfile.cells() =~= Seq::new(CELLS as nat, |i: int| 0u32));
        regfile
    }

    fn cell_index(&self, idx: u8) -> (cell: usize)
        requires
            has_register(self.mode(), idx as int),
        ensures
            cell == cell_of(self.mode(), idx as int),
            cell < CELLS,
    {
        match self.mode {
            OpMode::Supervisor => {
                if idx == 13 {
                    CELL_R13_SVC
                } else if idx == 14 {
                    CELL_R14_SVC
                } else if idx == INDEX_SPSR {
                    CELL_SPSR_SVC
                } else {
                    idx as usize
                }
            },
            _ => idx as usize,
        }
    }

    /// Reads the register `idx` of the current mode, which is User or
    /// Supervisor mode: a register file is never in another.
    pub fn get_register(&self, idx: u8) -> (value: u32)
        requires
            idx <= 15,
        ensures
            value == self.register(idx as int),
            self.mode().is_wired(),
    {
        proof {
            use_type_invariant(self);
        }
        let cell: usize = self.cell_index(idx);
        self.cells[cell]
    }

    /// Writes `value` to the register `idx` of the current mode, to the CPSR
    /// for 16, or to the SPSR of the current mode for 17. Writing the CPSR
    /// this way does not touch the mode: the caller keeps the two in step.
    pub fn set_register(&mut self, idx: u8, value: u32)
        requires
            has_register(old(self).mode(), idx as int),
        ensures
            final(self).mode() == old(self).mode(),
            final(self).cells() == old(self).cells().update(
                cell_of(old(self).mode(), idx as int),
                value,
            ),
    {
        proof {
            use_type_invariant(&*self);
        }
        let cell: usize = self.cell_index(idx);
        self.cells[cell] = value;
    }

    /// The mode that the register file is in: User or Supervisor.
    pub fn get_mode(&self) -> (mode: OpMode)
        ensures
            mode == self.mode(),
            mode.is_wired(),
    {
        proof {
            use_type_invariant(self);
        }
        self.mode
    }

    /// Reads the CPSR.
    pub fn get_cpsr(&self) -> (value: u32)
        ensures
            value == self.cpsr(),
    {
        self.cells[CELL_CPSR]
    }

    /// Replaces the `num`-bit field of the CPSR at `offset` by the low bits
    /// of `bits`.
    pub fn set_cpsr_bits(&mut self, offset: u8, num: u8, bits: u32) -> (result: Result<(), Error>)
        requires
            num <= 32,
            offset + num <= 32,
        ensures
            result is Ok,
            final(self).mode() == old(self).mode(),
            final(self).cells() == old(self).cells().update(
                CELL_CPSR as int,
                with_field(old(self).cpsr(), offset, num, bits),
            ),
    {
        proof {
            use_type_invariant(&*self);
        }
        self.cells[CELL_CPSR] = set_bits(self.cells[CELL_CPSR], offset, num, bits);
        Ok(())
    }

    /// Writes the program counter.
    pub fn set_pc(&mut self, new_pc: u32)
        ensures
            final(self).mode() == old(self).mode(),
            final(self).cells() == old(self).cells().update(CELL_PC as int, new_pc),
    {
        proof {
            use_type_invariant(&*self);
        }
        self.cells[CELL_PC] = new_pc;
    }

    /// Enters `mode` and writes its code to the mode field of the CPSR.
    /// Fails for a mode that is not wired, and then changes nothing.
    pub fn set_cpsr_mode(&mut self, mode: &OpMode) -> (result: Result<(), Error>)
        ensures
            mode.is_wired() ==> ({
                &&& result is Ok
                &&& final(self).mode() == *mode
                &&& final(self).cells() == old(self).cells().update(
                    CELL_CPSR as int,
                    with_field(old(self).cpsr(), 0, 5, mode.code().unwrap()),
                )
                &&& final(self).mode_consistent()
            }),
            !mode.is_wired() ==> ({
                &&& result == Err::<(), Error>(Error::NotImplemented)
                &&& *final(self) == *old(self)
            }),
    {
        proof {
            if mode.is_wired() {
                lemma_mode_field_written(self.cpsr(), *mode);
            }
        }
        match mode {
            OpMode::User => {
                self.mode = OpMode::User;
                self.cells[CELL_CPSR] = set_bits(self.cells[CELL_CPSR], 0, 5, 0b10000);
                Ok(())
            },
            OpMode::Supervisor => {
                self.mode = OpMode::Supervisor;
                self.cells[CELL_CPSR] = set_bits(self.cells[CELL_CPSR], 0, 5, 0b10011);
                Ok(())
            },
            _ => Err(Error::NotImplemented),
        }
    }

    /// The flags and the mode field of the CPSR as two lines of text.
    pub fn print_cpsr_state(&self) -> (text: String)
        ensures
            text@ == cpsr_text(self.cpsr()),
    {
        let cpsr: u32 = self.cells[CELL_CPSR];
        let mut ret_str = "N|Z|C|V|---|I|F|T|MODES\n".to_string();
        push_number(&mut ret_str, get_bits(cpsr, 31, 1) as u64, 10, 0);
        ret_str.append("|");
        push_number(&mut ret_str, get_bits(cpsr, 30, 1) as u64, 10, 0);
        ret_str.append("|");
        push_number(&mut ret_str, get_bits(cpsr, 29, 1) as u64, 10, 0);
        ret_str.append("|");
        push_number(&mut ret_str, get_bits(cpsr, 28, 1) as u64, 10, 0);
        ret_str.append("|---|");
        push_number(&mut ret_str, get_bits(cpsr, 7, 1) as u64, 10, 0);
        ret_str.append("|");
        push_number(&mut ret_str, get_bits(cpsr, 6, 1) as u64, 10, 0);
        ret_str.append("|");
        push_number(&mut ret_str, get_bits(cpsr, 5, 1) as u64, 10, 0);
        ret_str.append("|");
        push_number(&mut ret_str, get_bits(cpsr, 0, 5) as u64, 2, 5);
        ret_str
    }
}

impl Default for RegFile {
    fn default() -> (regfile: RegFile)
        ensures
            regfile.mode() == OpMode::User,
            regfile.cells() == Seq::new(CELLS as nat, |i: int| 0u32),
    {
        RegFile::new()
    }
}

/// Writing the code of a wired mode to the mode field of a CPSR leaves that
/// code there.
pub proof fn lemma_mode_field_written(cpsr: u32, mode: OpMode)
    requires
        mode.is_wired(),
    ensures
        field_of(with_field(cpsr, 0, 5, mode.code().unwrap()), 0, 5) == mode.code().unwrap(),
{
    let code = mode.code().unwrap();
    assert(field_of(with_field(cpsr, 0, 5, code), 0, 5) == code) by (bit_vector)
        requires
            code == 0b10000 || code == 0b10011,
    ;
}

/// Writing a field of the CPSR that lies above the mode field leaves the
/// mode field as it was: a register file whose mode field agreed with its
/// mode still has them in step.
pub proof fn lemma_mode_field_kept(cpsr: u32, offset: u8, width: u8, value: u32)
    requires
        5 <= offset,
        offset + width <= 32,
    ensures
        field_of(with_field(cpsr, offset, width, value), 0, 5) == field_of(cpsr, 0, 5),
{
    lemma_set_keeps_other_fields(cpsr, offset, width, value, 0, 5);
}

} // verus!
