//! Instructions: decoding a raw word into an operation, executing it on the
//! register file, and showing it as text.

use crate::arm7tdmi::memory::Memory;
use crate::arm7tdmi::regfile::{RegFile, CELL_PC};
use crate::error::{EncodingFault, Error};
use crate::text::{decimal, hex, push_number, push_truth, truth};
use crate::util::{field_of, get_bits};
use vstd::prelude::*;

verus! {

/// What an instruction does, with the fields of its encoding.
#[derive(Debug, Clone, Copy, PartialEq, Eq, Structural)]
pub enum InstrPayload {
    /// Stands for a word that is no instruction.
    Undefined,
    /// Branch by `offset` words, a signed number of 24 bits.
    Branch { offset: u32 },
    /// Branch by `offset` words and keep the return address.
    BranchAndLink { offset: u32 },
    /// An operation on `rn` and a rotated immediate, with its result in `rd`.
    DataProcessingImmediate { opcode: u8, s: bool, rn: u8, rd: u8, rotate: u8, immed: u8 },
    /// Load or store the registers in `reglist` at the address in `rn`.
    LSMultiple { p: bool, u: bool, s: bool, w: bool, l: bool, rn: u8, reglist: u16 },
    /// Subtract a rotated immediate from `rn`, with the result in `rd`.
    SubI { s: bool, rn: u8, rd: u8, rotate: u8, immed: u8 },
}

/// An instruction as it sits in the pipeline: where it was fetched, the raw
/// word, its condition field and what it does.
#[derive(Debug, Clone, Copy, PartialEq, Eq, Structural)]
pub struct Instruction {
    pub src_addr: u32,
    pub raw_bytes: u32,
    pub cond: u8,
    pub inner_instr: InstrPayload,
}

/// The condition field that the architecture reserves.
pub const COND_RESERVED: u32 = 0b1111;

/// The class of branch and branch with link.
pub const CLASS_BRANCH: u32 = 0b101;

/// The class of data processing with an immediate operand.
pub const CLASS_DATA_IMMEDIATE: u32 = 0b001;

/// The class of load and store multiple.
pub const CLASS_LOAD_STORE_MULTIPLE: u32 = 0b100;

/// The opcode of subtraction within data processing.
pub const OPCODE_SUB: u32 = 0b0010;

/// What the word `raw` decodes to. The condition field is bits 31 to 28, and
/// the reserved value there is an error whatever else the word holds. The
/// class is bits 27 to 25: a branch, with bit 24 for the link; data
/// processing with an immediate, where bits 24 and 23 of `10` announce a
/// move to the status register, which is not implemented; load and store
/// multiple. Any other class is an error, which holds the bits of the class.
pub open spec fn decoded_payload(raw: u32) -> Result<InstrPayload, Error> {
    if field_of(raw, 28, 4) == COND_RESERVED {
        Err(Error::InvalidEncoding(EncodingFault::ReservedCondition))
    } else if field_of(raw, 25, 3) == CLASS_BRANCH {
        if field_of(raw, 24, 1) == 1 {
            Ok(InstrPayload::BranchAndLink { offset: field_of(raw, 0, 24) })
        } else {
            Ok(InstrPayload::Branch { offset: field_of(raw, 0, 24) })
        }
    } else if field_of(raw, 25, 3) == CLASS_DATA_IMMEDIATE {
        if field_of(raw, 23, 2) == 0b10 {
            Err(Error::NotImplemented)
        } else if field_of(raw, 21, 4) == OPCODE_SUB {
            Ok(
                InstrPayload::SubI {
                    s: field_of(raw, 20, 1) != 0,
                    rn: field_of(raw, 16, 4) as u8,
                    rd: field_of(raw, 12, 4) as u8,
                    rotate: field_of(raw, 8, 4) as u8,
                    immed: field_of(raw, 0, 8) as u8,
                },
            )
        } else {
            Ok(
                InstrPayload::DataProcessingImmediate {
                    opcode: field_of(raw, 21, 4) as u8,
                    s: field_of(raw, 20, 1) != 0,
                    rn: field_of(raw, 16, 4) as u8,
                    rd: field_of(raw, 12, 4) as u8,
                    rotate: field_of(raw, 8, 4) as u8,
                    immed: field_of(raw, 0, 8) as u8,
                },
            )
        }
    } else if field_of(raw, 25, 3) == CLASS_LOAD_STORE_MULTIPLE {
        Ok(
            InstrPayload::LSMultiple {
                p: field_of(raw, 24, 1) != 0,
                u: field_of(raw, 23, 1) != 0,
                s: field_of(raw, 22, 1) != 0,
                w: field_of(raw, 21, 1) != 0,
                l: field_of(raw, 20, 1) != 0,
                rn: field_of(raw, 16, 4) as u8,
                reglist: field_of(raw, 0, 16) as u16,
            },
        )
    } else {
        Err(Error::InvalidEncoding(EncodingFault::UnknownClass(field_of(raw, 25, 3) as u8)))
    }
}

/// The instruction that the word `raw`, fetched at `fetch_addr`, decodes to.
pub open spec fn decoded(fetch_addr: u32, raw: u32) -> Result<Instruction, Error> {
    match decoded_payload(raw) {
        Ok(payload) => Ok(
            Instruction {
                src_addr: fetch_addr,
                raw_bytes: raw,
                cond: field_of(raw, 28, 4) as u8,
                inner_instr: payload,
            },
        ),
        Err(e) => Err(e),
    }
}

/// The number of words that a branch with the field `offset` jumps: its low
/// 24 bits read as a signed number.
pub open spec fn displacement(offset: u32) -> int {
    let low = offset as int % 0x100_0000;
    if low < 0x80_0000 {
        low
    } else {
        low - 0x100_0000
    }
}

/// Where a branch with the field `offset` leads from `pc`: four bytes for
/// every word of the displacement, within the 32 bits of an address.
pub open spec fn branch_target(pc: u32, offset: u32) -> u32 {
    ((pc + 4 * displacement(offset)) % 0x1_0000_0000) as u32
}

impl InstrPayload {
    /// What executing the operation reports: that the pipeline must be
    /// flushed, after a branch; a failure for every operation that is not
    /// implemented, and for the placeholder.
    pub open spec fn outcome(self) -> Result<bool, Error> {
        match self {
            InstrPayload::Undefined => Err(Error::UndefinedExecution),
            InstrPayload::Branch { .. } => Ok(true),
            _ => Err(Error::NotImplemented),
        }
    }

    /// What the cells of the register file hold after the operation, given
    /// what they held before: a branch writes its target to the program
    /// counter, and nothing else writes anything.
    pub open spec fn cells_after(self, cells: Seq<u32>) -> Seq<u32> {
        match self {
            InstrPayload::Branch { offset } => cells.update(
                CELL_PC as int,
                branch_target(cells[CELL_PC as int], offset),
            ),
            _ => cells,
        }
    }

    /// The operation as text.
    pub open spec fn text(self) -> Seq<char> {
        match self {
            InstrPayload::Undefined => "UNDEFINED"@,
            InstrPayload::Branch { offset } => "Branch (offset = 0x"@ + hex(offset as nat, 6)
                + ") PC <= PC + "@ + decimal((4 * offset) as nat),
            InstrPayload::BranchAndLink { offset } => "Branch And Link (offset = 0x"@ + hex(
                offset as nat,
                6,
            ) + ")"@,
            InstrPayload::DataProcessingImmediate { opcode, s, rn, rd, rotate, immed } => {
                "DPI (opcode:"@ + decimal(opcode as nat) + ") (s:"@ + truth(s) + ") -> R"@
                    + decimal(rn as nat) + " = R"@ + decimal(rd as nat) + " op ("@ + decimal(
                    immed as nat,
                ) + " >> "@ + decimal(rotate as nat) + "*2)"@
            },
            InstrPayload::LSMultiple { p, u, s, w, l, rn, reglist } => "LSMU (p:"@ + truth(p)
                + ") (u:"@ + truth(u) + ") (s:"@ + truth(s) + ") (w:"@ + truth(w) + ") (l:"@
                + truth(l) + ") -> Store "@ + decimal(reglist as nat) + " at Mem(R"@ + decimal(
                rn as nat,
            ) + ") TODO"@,
            InstrPayload::SubI { s, rn, rd, rotate, immed } => "SUBI (s:"@ + truth(s) + ") -> R"@
                + decimal(rn as nat) + " = R"@ + decimal(rd as nat) + " - ("@ + decimal(
                immed as nat,
            ) + " >> "@ + decimal(rotate as nat) + "*2)"@,
        }
    }
}

impl Default for InstrPayload {
    fn default() -> (payload: InstrPayload)
        ensures
            payload == InstrPayload::Undefined,
    {
        InstrPayload::Undefined
    }
}

impl Instruction {
    /// Decodes the word `raw_bytes`, fetched at `fetch_addr`. Nothing but the
    /// two arguments decides the result.
    pub fn from_bytes(fetch_addr: u32, raw_bytes: u32) -> (result: Result<Instruction, Error>)
        ensures
            result == decoded(fetch_addr, raw_bytes),
    {
        let cond: u32 = get_bits(raw_bytes, 28, 4);
        if cond == COND_RESERVED {
            return Err(Error::InvalidEncoding(EncodingFault::ReservedCondition));
        }
        let high_bits: u32 = get_bits(raw_bytes, 25, 3);
        let inner_instr = if high_bits == CLASS_BRANCH {
            let offset: u32 = get_bits(raw_bytes, 0, 24);
            if get_bits(raw_bytes, 24, 1) == 1 {
                InstrPayload::BranchAndLink { offset }
            } else {
                InstrPayload::Branch { offset }
            }
        } else if high_bits == CLASS_DATA_IMMEDIATE {
            if get_bits(raw_bytes, 23, 2) == 0b10 {
                return Err(Error::NotImplemented);
            }
            let opcode: u32 = get_bits(raw_bytes, 21, 4);
            let s: bool = get_bits(raw_bytes, 20, 1) != 0;
            let rn: u8 = get_bits(raw_bytes, 16, 4) as u8;
            let rd: u8 = get_bits(raw_bytes, 12, 4) as u8;
            let rotate: u8 = get_bits(raw_bytes, 8, 4) as u8;
            let immed: u8 = get_bits(raw_bytes, 0, 8) as u8;
            if opcode == OPCODE_SUB {
                InstrPayload::SubI { s, rn, rd, rotate, immed }
            } else {
                InstrPayload::DataProcessingImmediate {
                    opcode: opcode as u8,
                    s,
                    rn,
                    rd,
                    rotate,
                    immed,
                }
            }
        } else if high_bits == CLASS_LOAD_STORE_MULTIPLE {
            InstrPayload::LSMultiple {
                p: get_bits(raw_bytes, 24, 1) != 0,
                u: get_bits(raw_bytes, 23, 1) != 0,
                s: get_bits(raw_bytes, 22, 1) != 0,
                w: get_bits(raw_bytes, 21, 1) != 0,
                l: get_bits(raw_bytes, 20, 1) != 0,
                rn: get_bits(raw_bytes, 16, 4) as u8,
                reglist: get_bits(raw_bytes, 0, 16) as u16,
            }
        } else {
            return Err(Error::InvalidEncoding(EncodingFault::UnknownClass(high_bits as u8)));
        };
        Ok(Instruction { src_addr: fetch_addr, raw_bytes, cond: cond as u8, inner_instr })
    }
}

impl InstrPayload {
    /// Computes `branch_target`.
    fn target(pc: u32, offset: u32) -> (target: u32)
        ensures
            target == branch_target(pc, offset),
    {
        let low: u32 = offset & 0x00ff_ffff;
        assert(low == offset % 0x100_0000 && low < 0x100_0000) by (bit_vector)
            requires
                low == offset & 0x00ff_ffff,
        ;
        if low < 0x80_0000 {
            pc.wrapping_add(4 * low)
        } else {
            pc.wrapping_sub(4 * (0x100_0000 - low))
        }
    }

    /// Executes the operation on `regfile`. A branch moves the program
    /// counter and asks for a flush of the pipeline; nothing else is
    /// implemented, and the placeholder cannot be executed.
    pub fn execute(&self, regfile: &mut RegFile, memory: &mut Memory) -> (result: Result<
        bool,
        Error,
    >)
        ensures
            result == self.outcome(),
            *final(memory) == *old(memory),
            final(regfile).mode() == old(regfile).mode(),
            final(regfile).cells() == self.cells_after(old(regfile).cells()),
    {
        match self {
            InstrPayload::Undefined => Err(Error::UndefinedExecution),
            InstrPayload::Branch { offset } => {
                let cur_pc: u32 = regfile.get_register(15);
                regfile.set_register(15, InstrPayload::target(cur_pc, *offset));
                Ok(true)
            },
            _ => Err(Error::NotImplemented),
        }
    }
}

impl Instruction {
    /// Executes the instruction: see `InstrPayload::execute`.
    pub fn execute(&self, regfile: &mut RegFile, memory: &mut Memory) -> (result: Result<
        bool,
        Error,
    >)
        ensures
            result == self.inner_instr.outcome(),
            *final(memory) == *old(memory),
            final(regfile).mode() == old(regfile).mode(),
            final(regfile).cells() == self.inner_instr.cells_after(old(regfile).cells()),
    {
        self.inner_instr.execute(regfile, memory)
    }
}

impl InstrPayload {
    /// The operation as a line of text.
    pub fn to_text(&self) -> (text: String)
        ensures
            text@ == self.text(),
    {
        match self {
            InstrPayload::Undefined => "UNDEFINED".to_string(),
            InstrPayload::Branch { offset } => {
                let mut out = "Branch (offset = 0x".to_string();
                push_number(&mut out, *offset as u64, 16, 6);
                out.append(") PC <= PC + ");
                push_number(&mut out, 4 * (*offset as u64), 10, 0);
                out
            },
            InstrPayload::BranchAndLink { offset } => {
                let mut out = "Branch And Link (offset = 0x".to_string();
                push_number(&mut out, *offset as u64, 16, 6);
                out.append(")");
                out
            },
            InstrPayload::DataProcessingImmediate { opcode, s, rn, rd, rotate, immed } => {
                let mut out = "DPI (opcode:".to_string();
                push_number(&mut out, *opcode as u64, 10, 0);
                out.append(") (s:");
                push_truth(&mut out, *s);
                out.append(") -> R");
                push_number(&mut out, *rn as u64, 10, 0);
                out.append(" = R");
                push_number(&mut out, *rd as u64, 10, 0);
                out.append(" op (");
                push_number(&mut out, *immed as u64, 10, 0);
                out.append(" >> ");
                push_number(&mut out, *rotate as u64, 10, 0);
                out.append("*2)");
                out
            },
            InstrPayload::LSMultiple { p, u, s, w, l, rn, reglist } => {
                let mut out = "LSMU (p:".to_string();
                push_truth(&mut out, *p);
                out.append(") (u:");
                push_truth(&mut out, *u);
                out.append(") (s:");
                push_truth(&mut out, *s);
                out.append(") (w:");
                push_truth(&mut out, *w);
                out.append(") (l:");
                push_truth(&mut out, *l);
                out.append(") -> Store ");
                push_number(&mut out, *reglist as u64, 10, 0);
                out.append(" at Mem(R");
                push_number(&mut out, *rn as u64, 10, 0);
                out.append(") TODO");
                out
            },
            InstrPayload::SubI { s, rn, rd, rotate, immed } => {
                let mut out = "SUBI (s:".to_string();
                push_truth(&mut out, *s);
                out.append(") -> R");
                push_number(&mut out, *rn as u64, 10, 0);
                out.append(" = R");
                push_number(&mut out, *rd as u64, 10, 0);
                out.append(" - (");
                push_number(&mut out, *immed as u64, 10, 0);
                out.append(" >> ");
                push_number(&mut out, *rotate as u64, 10, 0);
                out.append("*2)");
                out
            },
        }
    }
}

impl Instruction {
    /// The instruction as text: where it was fetched, the raw word, and what
    /// it does.
    pub open spec fn text(self) -> Seq<char> {
        "Instruction @ 0x"@ + hex(self.src_addr as nat, 8) + ":\n\traw: 0x"@ + hex(
            self.raw_bytes as nat,
            6,
        ) + "\n\t"@ + self.inner_instr.text()
    }

    /// The instruction as three lines of text.
    pub fn to_text(&self) -> (text: String)
        ensures
            text@ == self.text(),
    {
        let mut out = "Instruction @ 0x".to_string();
        push_number(&mut out, self.src_addr as u64, 16, 8);
        out.append(":\n\traw: 0x");
        push_number(&mut out, self.raw_bytes as u64, 16, 6);
        out.append("\n\t");
        let what: String = self.inner_instr.to_text();
        out.append(what.as_str());
        out
    }
}

impl Default for Instruction {
    /// The placeholder, as fetched at address zero from a word of zeros.
    fn default() -> (instr: Instruction)
        ensures
            instr == (Instruction {
                src_addr: 0,
                raw_bytes: 0,
                cond: 0,
                inner_instr: InstrPayload::Undefined,
            }),
    {
        Instruction {
            src_addr: 0u32,
            raw_bytes: 0u32,
            cond: 0u8,
            inner_instr: InstrPayload::Undefined,
        }
    }
}

/// A word with the reserved condition field decodes to nothing, whatever its
/// other bits hold.
pub proof fn lemma_reserved_condition_is_rejected(fetch_addr: u32, raw: u32)
    requires
        raw & 0xf000_0000 == 0xf000_0000,
    ensures
        decoded(fetch_addr, raw) == Err::<Instruction, Error>(
            Error::InvalidEncoding(EncodingFault::ReservedCondition),
        ),
{
    assert(field_of(raw, 28, 4) == 0b1111) by (bit_vector)
        requires
            raw & 0xf000_0000 == 0xf000_0000,
    ;
}

/// The fields of an encoding fit the types that hold them once decoded: the
/// narrowing in `decoded` loses nothing, a branch offset has 24 bits, and
/// the condition of a decoded instruction is never the reserved one.
pub proof fn lemma_decoded_fields_fit(fetch_addr: u32, raw: u32)
    ensures
        field_of(raw, 28, 4) as u8 == field_of(raw, 28, 4) < 16,
        field_of(raw, 25, 3) as u8 == field_of(raw, 25, 3) < 8,
        field_of(raw, 21, 4) as u8 == field_of(raw, 21, 4) < 16,
        field_of(raw, 16, 4) as u8 == field_of(raw, 16, 4) < 16,
        field_of(raw, 12, 4) as u8 == field_of(raw, 12, 4) < 16,
        field_of(raw, 8, 4) as u8 == field_of(raw, 8, 4) < 16,
        field_of(raw, 0, 8) as u8 == field_of(raw, 0, 8),
        field_of(raw, 0, 16) as u16 == field_of(raw, 0, 16),
        field_of(raw, 0, 24) < 0x100_0000,
        decoded(fetch_addr, raw) matches Ok(instr) ==> instr.cond < 15,
{
    assert(field_of(raw, 28, 4) < 16 && field_of(raw, 25, 3) < 8 && field_of(raw, 21, 4) < 16
        && field_of(raw, 16, 4) < 16 && field_of(raw, 12, 4) < 16 && field_of(raw, 8, 4) < 16
        && field_of(raw, 0, 8) < 0x100 && field_of(raw, 0, 16) < 0x1_0000 && field_of(raw, 0, 24)
        < 0x100_0000) by (bit_vector);
}

/// An offset of 24 bits below `0x800000` is a jump forward by that many
/// words, and one from there on a jump back.
pub proof fn lemma_displacement(offset: u32)
    requires
        offset < 0x100_0000,
    ensures
        offset < 0x80_0000 ==> displacement(offset) == offset,
        offset >= 0x80_0000 ==> displacement(offset) == offset - 0x100_0000,
        -0x80_0000 <= displacement(offset) < 0x80_0000,
{
}

/// Where a branch does not leave the address space, its target is the
/// program counter plus four times the displacement.
pub proof fn lemma_branch_within_the_address_space(pc: u32, offset: u32)
    requires
        0 <= pc + 4 * displacement(offset) < 0x1_0000_0000,
    ensures
        branch_target(pc, offset) == pc + 4 * displacement(offset),
{
}

} // verus!
