//! The memory of the machine: the BIOS region, read with aligned accesses,
//! and the cursor of the hex-dump window.

use crate::error::Error;
use crate::text::{hex, push_number};
use crate::util::{le_halfword, le_word};
use vstd::prelude::*;

verus! {

/// The size of the BIOS region in bytes.
pub const BIOS_SIZE: usize = 16384;

/// How far one step moves the cursor of the hex-dump window, and how many
/// bytes one row of the window shows.
pub const ROW_BYTES: usize = 8;

/// The halfword that a read at `address` gives: the one at the even address
/// at or below it.
pub open spec fn halfword_at(bios: Seq<u8>, address: int) -> int {
    le_halfword(bios, address - address % 2)
}

/// The word that a read at `address` gives: the one at the multiple of four
/// at or below it.
pub open spec fn word_at(bios: Seq<u8>, address: int) -> int {
    le_word(bios, address - address % 4)
}

/// The cursor after a step forward: eight bytes on, but not past the end of
/// the region.
pub open spec fn cursor_advanced(cursor: int) -> int {
    if cursor + ROW_BYTES <= BIOS_SIZE {
        cursor + ROW_BYTES
    } else {
        BIOS_SIZE as int
    }
}

/// The cursor after a step back: eight bytes back, but not below zero.
pub open spec fn cursor_regressed(cursor: int) -> int {
    if cursor >= ROW_BYTES {
        cursor - ROW_BYTES
    } else {
        0
    }
}

/// One row of the hex dump: the address of its first byte, then its eight
/// bytes, the one at the highest address first.
pub open spec fn row_text(bios: Seq<u8>, start: int) -> Seq<char> {
    "0x"@ + hex(start as nat, 8) + " | "@ + hex(bios[start + 7] as nat, 2) + " "@ + hex(
        bios[start + 6] as nat,
        2,
    ) + " "@ + hex(bios[start + 5] as nat, 2) + " "@ + hex(bios[start + 4] as nat, 2) + " "@ + hex(
        bios[start + 3] as nat,
        2,
    ) + " "@ + hex(bios[start + 2] as nat, 2) + " "@ + hex(bios[start + 1] as nat, 2) + " "@ + hex(
        bios[start] as nat,
        2,
    ) + " |\n"@
}

/// `count` rows of the hex dump, the first of which starts at `start`.
pub open spec fn rows_text(bios: Seq<u8>, start: int, count: nat) -> Seq<char>
    decreases count,
{
    if count == 0 {
        Seq::empty()
    } else {
        rows_text(bios, start, (count - 1) as nat) + row_text(bios, start + ROW_BYTES * (count - 1))
    }
}

/// How many rows a dump of `num_bytes` bytes from `cursor` shows: one for
/// every eight bytes asked for, as far as whole rows are left in the region.
pub open spec fn rows_shown(cursor: int, num_bytes: int) -> nat {
    if num_bytes / (ROW_BYTES as int) <= (BIOS_SIZE - cursor) / (ROW_BYTES as int) {
        (num_bytes / (ROW_BYTES as int)) as nat
    } else {
        ((BIOS_SIZE - cursor) / (ROW_BYTES as int)) as nat
    }
}

/// The hex dump of `num_bytes` bytes from `cursor`: two lines of heading,
/// the rows, and a closing line.
pub open spec fn memory_text(bios: Seq<u8>, cursor: int, num_bytes: int) -> Seq<char> {
    "             07 06 05 04 03 02 01 00\n"@ + "-----------|-------------------------|\n"@
        + rows_text(bios, cursor, rows_shown(cursor, num_bytes))
        + "-----------|-------------------------|\n"@
}

/// The BIOS region and the cursor of the hex-dump window. The cursor never
/// leaves the region.
pub struct Memory {
    print_cursor: usize,
    bios_rom: [u8; BIOS_SIZE],
}

impl Memory {
    #[verifier::type_invariant]
    spec fn cursor_in_region(&self) -> bool {
        self.print_cursor <= BIOS_SIZE
    }

    /// The bytes of the BIOS region.
    pub closed spec fn bios(&self) -> Seq<u8> {
        self.bios_rom@
    }

    /// The byte offset at which the hex-dump window starts.
    pub closed spec fn cursor(&self) -> int {
        self.print_cursor as int
    }

    /// The BIOS region has 16384 bytes.
    pub proof fn lemma_bios_len(&self)
        ensures
            self.bios().len() == BIOS_SIZE,
    {
    }

    /// A memory whose BIOS region holds zeros, with the cursor at its start.
    pub fn new() -> (memory: Memory)
        ensures
            memory.cursor() == 0,
            memory.bios() == Seq::new(BIOS_SIZE as nat, |i: int| 0u8),
    {
        let memory = Memory { print_cursor: 0usize, bios_rom: [0u8; BIOS_SIZE] };
        assert(memory.bios() =~= Seq::new(BIOS_SIZE as nat, |i: int| 0u8));
        memory
    }

    /// Replaces the whole BIOS region by `bios_bytes`. Fails, and changes
    /// nothing, unless the image has exactly the size of the region.
    pub fn load_bios_rom(&mut self, bios_bytes: &Vec<u8>) -> (result: Result<(), Error>)
        ensures
            bios_bytes@.len() == BIOS_SIZE ==> ({
                &&& result is Ok
                &&& final(self).bios() == bios_bytes@
                &&& final(self).cursor() == old(self).cursor()
            }),
            bios_bytes@.len() != BIOS_SIZE ==> ({
                &&& result == Err::<(), Error>(Error::SizeMismatch)
                &&& *final(self) == *old(self)
            }),
    {
        if bios_bytes.len() != BIOS_SIZE {
            return Err(Error::SizeMismatch);
        }
        let mut image: [u8; BIOS_SIZE] = [0u8; BIOS_SIZE];
        let mut i: usize = 0;
        while i < BIOS_SIZE
            invariant
                i <= BIOS_SIZE,
                bios_bytes@.len() == BIOS_SIZE,
                forall|j: int| 0 <= j < i ==> image@[j] == bios_bytes@[j],
            decreases BIOS_SIZE - i,
        {
            image[i] = bios_bytes[i];
            i = i + 1;
        }
        proof {
            use_type_invariant(&*self);
            assert(image@ =~= bios_bytes@);
        }
        self.bios_rom = image;
        Ok(())
    }

    /// Reads the byte at `address`.
    pub fn get_byte(&self, address: usize) -> (byte: u8)
        requires
            address < BIOS_SIZE,
        ensures
            byte == self.bios()[address as int],
    {
        self.bios_rom[address]
    }

    /// Reads the halfword that holds the byte at `address`: the lowest bit of
    /// the address is ignored.
    pub fn get_halfword(&self, address: usize) -> (halfword: u16)
        requires
            address < BIOS_SIZE,
        ensures
            halfword == halfword_at(self.bios(), address as int),
    {
        let aligned: usize = address & (!1usize);
        assert(aligned == address - address % 2 && aligned + 1 < 16384) by (bit_vector)
            requires
                aligned == address & (!1usize),
                address < 16384,
        ;
        crate::util::get_halfword(&self.bios_rom, aligned)
    }

    /// Reads the word that holds the byte at `address`: the two lowest bits
    /// of the address are ignored.
    pub fn get_word(&self, address: usize) -> (word: u32)
        requires
            address < BIOS_SIZE,
        ensures
            word == word_at(self.bios(), address as int),
    {
        let aligned: usize = address & (!3usize);
        assert(aligned == address - address % 4 && aligned + 3 < 16384) by (bit_vector)
            requires
                aligned == address & (!3usize),
                address < 16384,
        ;
        crate::util::get_word(&self.bios_rom, aligned)
    }

    /// Moves the hex-dump window eight bytes on; it stops at the end of the
    /// region.
    pub fn advance_mem_cursor(&mut self)
        ensures
            final(self).bios() == old(self).bios(),
            final(self).cursor() == cursor_advanced(old(self).cursor()),
            0 <= final(self).cursor() <= BIOS_SIZE,
    {
        proof {
            use_type_invariant(&*self);
        }
        if self.print_cursor <= BIOS_SIZE - ROW_BYTES {
            self.print_cursor = self.print_cursor + ROW_BYTES;
        } else {
            self.print_cursor = BIOS_SIZE;
        }
    }

    /// Moves the hex-dump window eight bytes back; it stops at the start of
    /// the region.
    pub fn regress_mem_cursor(&mut self)
        ensures
            final(self).bios() == old(self).bios(),
            final(self).cursor() == cursor_regressed(old(self).cursor()),
            0 <= final(self).cursor() <= BIOS_SIZE,
    {
        proof {
            use_type_invariant(&*self);
        }
        if self.print_cursor >= ROW_BYTES {
            self.print_cursor = self.print_cursor - ROW_BYTES;
        } else {
            self.print_cursor = 0;
        }
    }

    fn row(&self, start: usize) -> (text: String)
        requires
            start + ROW_BYTES <= BIOS_SIZE,
        ensures
            text@ == row_text(self.bios(), start as int),
    {
        let mut out = "0x".to_string();
        push_number(&mut out, start as u64, 16, 8);
        out.append(" | ");
        push_number(&mut out, self.bios_rom[start + 7] as u64, 16, 2);
        out.append(" ");
        push_number(&mut out, self.bios_rom[start + 6] as u64, 16, 2);
        out.append(" ");
        push_number(&mut out, self.bios_rom[start + 5] as u64, 16, 2);
        out.append(" ");
        push_number(&mut out, self.bios_rom[start + 4] as u64, 16, 2);
        out.append(" ");
        push_number(&mut out, self.bios_rom[start + 3] as u64, 16, 2);
        out.append(" ");
        push_number(&mut out, self.bios_rom[start + 2] as u64, 16, 2);
        out.append(" ");
        push_number(&mut out, self.bios_rom[start + 1] as u64, 16, 2);
        out.append(" ");
        push_number(&mut out, self.bios_rom[start] as u64, 16, 2);
        out.append(" |\n");
        out
    }

    /// The hex dump of `num_bytes` bytes from the cursor on, a row for every
    /// eight of them. Rows that would reach past the end of the region are
    /// left out.
    pub fn print_memory(&self, num_bytes: usize) -> (text: String)
        ensures
            text@ == memory_text(self.bios(), self.cursor(), num_bytes as int),
    {
        proof {
            use_type_invariant(self);
        }
        let mut ret_str = "             07 06 05 04 03 02 01 00\n".to_string();
        ret_str.append("-----------|-------------------------|\n");
        let ghost head = ret_str@;
        let room: usize = (BIOS_SIZE - self.print_cursor) / ROW_BYTES;
        let num_lines: usize = if num_bytes / ROW_BYTES <= room {
            num_bytes / ROW_BYTES
        } else {
            room
        };
        let mut line_offset: usize = 0;
        while line_offset < num_lines
            invariant
                line_offset <= num_lines,
                self.print_cursor + ROW_BYTES * num_lines <= BIOS_SIZE,
                ret_str@ == head + rows_text(self.bios(), self.cursor(), line_offset as nat),
            decreases num_lines - line_offset,
        {
            let row: String = self.row(line_offset * ROW_BYTES + self.print_cursor);
            ret_str.append(row.as_str());
            line_offset = line_offset + 1;
            assert(ret_str@ =~= head + rows_text(self.bios(), self.cursor(), line_offset as nat));
        }
        ret_str.append("-----------|-------------------------|\n");
        ret_str
    }
}

impl Default for Memory {
    fn default() -> (memory: Memory)
        ensures
            memory.cursor() == 0,
            memory.bios() == Seq::new(BIOS_SIZE as nat, |i: int| 0u8),
    {
        Memory::new()
    }
}

/// A dump that does not reach past the end of the region shows a row for
/// every eight bytes asked for.
pub proof fn lemma_rows_within_the_region(cursor: int, num_bytes: int)
    requires
        0 <= cursor,
        0 <= num_bytes,
        cursor + ROW_BYTES * (num_bytes / (ROW_BYTES as int)) <= BIOS_SIZE,
    ensures
        rows_shown(cursor, num_bytes) == num_bytes / (ROW_BYTES as int),
{
}

/// Two addresses within one aligned word read the same word.
pub proof fn lemma_word_read_is_aligned(bios: Seq<u8>, a: int, b: int)
    requires
        0 <= a,
        0 <= b,
        a / 4 == b / 4,
    ensures
        word_at(bios, a) == word_at(bios, b),
{
}

/// Two addresses within one aligned halfword read the same halfword.
pub proof fn lemma_halfword_read_is_aligned(bios: Seq<u8>, a: int, b: int)
    requires
        0 <= a,
        0 <= b,
        a / 2 == b / 2,
    ensures
        halfword_at(bios, a) == halfword_at(bios, b),
{
}

} // verus!
