use gbaemu::arm7tdmi::instruction::{InstrPayload, Instruction};
use gbaemu::arm7tdmi::memory::BIOS_SIZE;
use gbaemu::arm7tdmi::{Arm7TDMI, OpMode};
use gbaemu::error::Error;
use gbaemu::util::get_bits;

fn image_with(words: &[(usize, u32)]) -> Vec<u8> {
    let mut image = vec![0u8; BIOS_SIZE];
    for &(at, word) in words.iter() {
        image[at] = word as u8;
        image[at + 1] = (word >> 8) as u8;
        image[at + 2] = (word >> 16) as u8;
        image[at + 3] = (word >> 24) as u8;
    }
    image
}

fn placeholder(address: u32, raw: u32) -> Instruction {
    Instruction {
        src_addr: address,
        raw_bytes: raw,
        cond: (raw >> 28) as u8,
        inner_instr: InstrPayload::Undefined,
    }
}

#[test]
fn a_new_core_comes_out_of_reset() {
    let core = Arm7TDMI::default();
    assert_eq!(core.clock_cycle, 0);
    assert!(core.is_idle);
    assert_eq!(core.opmode, OpMode::Supervisor);
    assert_eq!(core.get_cpsr(), 0xd3);
    for idx in 0u8..=15 {
        assert_eq!(core.regfile.get_register(idx), 0);
    }
    assert_eq!(core.memory.get_word(0), 0);
    assert_eq!(core.exec_instr, Instruction::default());
    assert_eq!(core.decode_instr, Instruction::default());
    assert_eq!(core.fetch_instr, Instruction::default());
}

#[test]
fn reset_sets_mode_flags_counter_and_clock() {
    let mut core = Arm7TDMI::default();
    core.regfile.set_register(16, 0xf000_0030);
    core.set_pc(0x1234);
    core.clock_cycle = 77;
    core.is_idle = false;
    core.reset();
    let cpsr = core.get_cpsr();
    assert_eq!(get_bits(cpsr, 0, 5), 0b10011);
    assert_eq!(get_bits(cpsr, 7, 1), 1);
    assert_eq!(get_bits(cpsr, 6, 1), 1);
    assert_eq!(get_bits(cpsr, 5, 1), 0);
    assert_eq!(cpsr, 0xf000_00d3);
    assert_eq!(core.regfile.get_register(15), 0);
    assert_eq!(core.clock_cycle, 0);
    assert!(core.is_idle);
    assert_eq!(core.opmode, OpMode::Supervisor);
}

#[test]
fn reset_saves_the_program_counter_in_the_link_register() {
    let mut core = Arm7TDMI::default();
    core.set_pc(0x1234);
    for idx in 0u8..13 {
        core.regfile.set_register(idx, 100 + idx as u32);
    }
    core.reset();
    assert_eq!(core.regfile.get_register(14), 0x1234);
    assert_eq!(core.regfile.get_register(15), 0);
    for idx in 0u8..13 {
        assert_eq!(core.regfile.get_register(idx), 100 + idx as u32);
    }
}

#[test]
fn reset_from_user_mode_keeps_the_user_registers() {
    let mut core = Arm7TDMI::default();
    assert_eq!(core.set_mode(OpMode::User), Ok(()));
    core.regfile.set_register(13, 13);
    core.regfile.set_register(14, 14);
    core.set_pc(0x40);
    core.reset();
    assert_eq!(core.regfile.get_register(14), 0x40);
    assert_eq!(core.set_mode(OpMode::User), Ok(()));
    assert_eq!(core.regfile.get_register(13), 13);
    assert_eq!(core.regfile.get_register(14), 14);
}

#[test]
fn reset_twice_gives_the_same_flags() {
    let mut core = Arm7TDMI::default();
    core.set_pc(0x1234);
    core.reset();
    let cpsr = core.get_cpsr();
    core.reset();
    assert_eq!(core.get_cpsr(), cpsr);
    assert_eq!(core.regfile.get_register(15), 0);
    assert_eq!(core.regfile.get_register(14), 0);
    assert_eq!(core.clock_cycle, 0);
    assert!(core.is_idle);
}

#[test]
fn reset_keeps_memory_and_slots() {
    let mut core = Arm7TDMI::default();
    assert_eq!(core.load_bios_rom(&image_with(&[(0, 0xea00_0005)])), Ok(()));
    assert_eq!(core.tick_clock(1), Ok(()));
    let exec = core.exec_instr;
    core.reset();
    assert_eq!(core.memory.get_word(0), 0xea00_0005);
    assert_eq!(core.exec_instr, exec);
}

#[test]
fn set_mode_enters_the_wired_modes() {
    let mut core = Arm7TDMI::default();
    assert_eq!(core.set_mode(OpMode::User), Ok(()));
    assert_eq!(core.opmode, OpMode::User);
    assert_eq!(core.get_cpsr(), 0xd0);
    assert_eq!(core.set_mode(OpMode::Supervisor), Ok(()));
    assert_eq!(core.opmode, OpMode::Supervisor);
    assert_eq!(core.get_cpsr(), 0xd3);
}

#[test]
fn set_mode_refuses_the_other_modes() {
    let modes = [OpMode::_Fiq, OpMode::_Abort, OpMode::_Irq, OpMode::_System, OpMode::Undefined];
    for mode in modes.iter() {
        let mut core = Arm7TDMI::default();
        assert_eq!(core.set_mode(*mode), Err(Error::NotImplemented));
        assert_eq!(core.opmode, OpMode::Supervisor);
        assert_eq!(core.get_cpsr(), 0xd3);
    }
}

#[test]
fn the_flag_setters_write_one_bit_each() {
    let mut core = Arm7TDMI::default();
    core.regfile.set_register(16, 0x33);
    assert_eq!(core.disable_fiq(), Ok(()));
    assert_eq!(core.get_cpsr(), 0x73);
    assert_eq!(core.disable_irq(), Ok(()));
    assert_eq!(core.get_cpsr(), 0xf3);
    assert_eq!(core.enter_arm_mode(), Ok(()));
    assert_eq!(core.get_cpsr(), 0xd3);
    assert_eq!(core.enter_arm_mode(), Ok(()));
    assert_eq!(core.get_cpsr(), 0xd3);
}

#[test]
fn set_pc_writes_the_program_counter() {
    let mut core = Arm7TDMI::default();
    core.set_pc(0x0800_0000);
    assert_eq!(core.regfile.get_register(15), 0x0800_0000);
    assert_eq!(core.get_cpsr(), 0xd3);
}

#[test]
fn load_bios_rom_checks_the_size() {
    let mut core = Arm7TDMI::default();
    assert_eq!(core.load_bios_rom(&image_with(&[(0, 0x1234_5678)])), Ok(()));
    assert_eq!(core.load_bios_rom(&vec![0xffu8; 100]), Err(Error::SizeMismatch));
    assert_eq!(core.memory.get_word(0), 0x1234_5678);
    assert_eq!(core.memory.get_word(4), 0);
}

#[test]
fn the_first_tick_on_a_zero_bios_fails_in_the_execute_slot() {
    let mut core = Arm7TDMI::default();
    assert_eq!(core.load_bios_rom(&vec![0u8; BIOS_SIZE]), Ok(()));
    assert_eq!(core.tick_clock(1), Err(Error::UndefinedExecution));
    assert_eq!(core.clock_cycle, 1);
    assert!(!core.is_idle);
    assert_eq!(core.exec_instr, placeholder(0, 0));
    assert_eq!(core.decode_instr, placeholder(4, 0));
    assert_eq!(core.fetch_instr, placeholder(8, 0));
    assert_eq!(core.exec_instr.inner_instr, InstrPayload::Undefined);
    assert_eq!(core.decode_instr.inner_instr, InstrPayload::Undefined);
    assert_eq!(core.fetch_instr.inner_instr, InstrPayload::Undefined);
    assert_eq!(core.regfile.get_register(15), 0);
}

#[test]
fn a_failed_tick_leaves_the_slots_and_counts() {
    let mut core = Arm7TDMI::default();
    assert_eq!(core.load_bios_rom(&vec![0u8; BIOS_SIZE]), Ok(()));
    assert_eq!(core.tick_clock(1), Err(Error::UndefinedExecution));
    assert_eq!(core.tick_clock(1), Err(Error::UndefinedExecution));
    assert_eq!(core.clock_cycle, 2);
    assert_eq!(core.exec_instr, placeholder(0, 0));
    assert_eq!(core.decode_instr, placeholder(4, 0));
    assert_eq!(core.fetch_instr, placeholder(8, 0));
}

#[test]
fn only_single_ticks_are_implemented() {
    for n in [0usize, 2, 3, 100, usize::MAX] {
        let mut core = Arm7TDMI::default();
        assert_eq!(core.load_bios_rom(&image_with(&[(0, 0xea00_0005)])), Ok(()));
        assert_eq!(core.tick_clock(n), Err(Error::NotImplemented));
        assert_eq!(core.clock_cycle, 0);
        assert!(core.is_idle);
        assert_eq!(core.regfile.get_register(15), 0);
        assert_eq!(core.exec_instr, Instruction::default());
    }
}

#[test]
fn the_first_tick_fills_the_pipeline_and_executes() {
    let mut core = Arm7TDMI::default();
    let image = image_with(&[(0, 0xea00_0005), (4, 0xe252_1334), (8, 0xf000_0000)]);
    assert_eq!(core.load_bios_rom(&image), Ok(()));
    assert_eq!(core.tick_clock(1), Ok(()));
    assert_eq!(core.clock_cycle, 1);
    assert_eq!(core.regfile.get_register(15), 20);
    assert_eq!(core.exec_instr, Instruction::from_bytes(0, 0xea00_0005).unwrap());
    assert_eq!(core.decode_instr, Instruction::from_bytes(4, 0xe252_1334).unwrap());
    assert_eq!(core.fetch_instr, placeholder(8, 0xf000_0000));
}

#[test]
fn a_branch_flushes_the_pipeline() {
    let mut core = Arm7TDMI::default();
    let image = image_with(&[(0, 0xea00_0005), (20, 0xea00_0002), (24, 0xe92d_4010)]);
    assert_eq!(core.load_bios_rom(&image), Ok(()));
    assert_eq!(core.tick_clock(1), Ok(()));
    assert!(core.is_idle);
    assert_eq!(core.regfile.get_register(15), 20);
    assert_eq!(core.tick_clock(1), Ok(()));
    assert!(core.is_idle);
    assert_eq!(core.clock_cycle, 2);
    assert_eq!(core.regfile.get_register(15), 28);
    assert_eq!(core.exec_instr, Instruction::from_bytes(20, 0xea00_0002).unwrap());
    assert_eq!(core.decode_instr, Instruction::from_bytes(24, 0xe92d_4010).unwrap());
    assert_eq!(core.fetch_instr, placeholder(28, 0));
    assert_eq!(core.tick_clock(1), Err(Error::UndefinedExecution));
    assert!(!core.is_idle);
    assert_eq!(core.clock_cycle, 3);
    assert_eq!(core.exec_instr, placeholder(28, 0));
}

#[test]
fn an_instruction_that_is_not_implemented_fails_the_tick() {
    let mut core = Arm7TDMI::default();
    let image = image_with(&[(0, 0xe252_1334), (4, 0xeb00_0010), (8, 0xe92d_4010)]);
    assert_eq!(core.load_bios_rom(&image), Ok(()));
    assert_eq!(core.tick_clock(1), Err(Error::NotImplemented));
    assert_eq!(core.clock_cycle, 1);
    assert!(!core.is_idle);
    assert_eq!(core.regfile.get_register(15), 0);
    assert_eq!(core.exec_instr, Instruction::from_bytes(0, 0xe252_1334).unwrap());
    assert_eq!(core.decode_instr, Instruction::from_bytes(4, 0xeb00_0010).unwrap());
    assert_eq!(core.fetch_instr, Instruction::from_bytes(8, 0xe92d_4010).unwrap());
}

#[test]
fn a_tick_fails_where_nothing_can_be_fetched() {
    for pc in [(BIOS_SIZE - 8) as u32, (BIOS_SIZE - 4) as u32, BIOS_SIZE as u32, 0x0800_0000, u32::MAX] {
        let mut core = Arm7TDMI::default();
        assert_eq!(core.load_bios_rom(&image_with(&[(0, 0xea00_0005)])), Ok(()));
        core.set_pc(pc);
        assert_eq!(core.tick_clock(1), Err(Error::NotImplemented));
        assert_eq!(core.clock_cycle, 1);
        assert!(core.is_idle);
        assert_eq!(core.regfile.get_register(15), pc);
        assert_eq!(core.exec_instr, Instruction::default());
    }
}

#[test]
fn the_last_three_words_can_be_fetched() {
    let mut core = Arm7TDMI::default();
    let at = BIOS_SIZE - 12;
    let image = image_with(&[(at, 0xeaff_fffe), (at + 4, 1), (at + 8, 2)]);
    assert_eq!(core.load_bios_rom(&image), Ok(()));
    core.set_pc(at as u32);
    assert_eq!(core.tick_clock(1), Ok(()));
    assert_eq!(core.regfile.get_register(15), at as u32 - 8);
    assert_eq!(core.fetch_instr, placeholder(at as u32 + 8, 2));
}

#[test]
fn a_fetch_ignores_the_low_bits_of_the_program_counter() {
    let mut core = Arm7TDMI::default();
    assert_eq!(core.load_bios_rom(&image_with(&[(0, 0xea00_0005), (4, 0xeb00_0001)])), Ok(()));
    core.set_pc(2);
    assert_eq!(core.tick_clock(1), Ok(()));
    assert_eq!(core.exec_instr, Instruction::from_bytes(2, 0xea00_0005).unwrap());
    assert_eq!(core.decode_instr, Instruction::from_bytes(6, 0xeb00_0001).unwrap());
    assert_eq!(core.regfile.get_register(15), 22);
}

fn expected_state(core: &Arm7TDMI, mode: &str) -> String {
    let mut text = format!("Current State: {}\n", mode);
    let r = |idx: u8| core.regfile.get_register(idx);
    text.push_str(&format!("R0:  {:08x}\t", r(0)));
    text.push_str(&format!("R8:  {:08x}\n", r(8)));
    text.push_str(&format!("R1:  {:08x}\t", r(1)));
    text.push_str(&format!("R9:  {:08x}\n", r(9)));
    text.push_str(&format!("R2:  {:08x}\t", r(2)));
    text.push_str(&format!("R10: {:08x}\n", r(10)));
    text.push_str(&format!("R3:  {:08x}\t", r(3)));
    text.push_str(&format!("R11: {:08x}\n", r(11)));
    text.push_str(&format!("R4:  {:08x}\t", r(4)));
    text.push_str(&format!("R12: {:08x}\n", r(12)));
    text.push_str(&format!("R5:  {:08x}\t", r(5)));
    text.push_str(&format!("R13: {:08x}\n", r(13)));
    text.push_str(&format!("R6:  {:08x}\t", r(6)));
    text.push_str(&format!("R14: {:08x}\n", r(14)));
    text.push_str(&format!("R7:  {:08x}\t", r(7)));
    text.push_str(&format!("R15: {:08x}\n", r(15)));
    text.push_str("\n");
    text.push_str(&core.regfile.print_cpsr_state());
    text.push_str("\n\n");
    text.push_str(&core.memory.print_memory(64));
    text
}

#[test]
fn state_view_of_a_new_core() {
    let core = Arm7TDMI::default();
    let expected = "Current State: Supervisor\n\
R0:  00000000\tR8:  00000000\n\
R1:  00000000\tR9:  00000000\n\
R2:  00000000\tR10: 00000000\n\
R3:  00000000\tR11: 00000000\n\
R4:  00000000\tR12: 00000000\n\
R5:  00000000\tR13: 00000000\n\
R6:  00000000\tR14: 00000000\n\
R7:  00000000\tR15: 00000000\n\
\n\
N|Z|C|V|---|I|F|T|MODES\n\
0|0|0|0|---|1|1|0|10011\n\
\n";
    let mut expected = String::from(expected);
    expected.push_str("             07 06 05 04 03 02 01 00\n");
    expected.push_str("-----------|-------------------------|\n");
    for row in 0..8 {
        expected.push_str(&format!("{:#010x} | 00 00 00 00 00 00 00 00 |\n", row * 8));
    }
    expected.push_str("-----------|-------------------------|\n");
    assert_eq!(core.print_state(), expected);
}

#[test]
fn state_view_shows_registers_flags_and_memory() {
    let mut core = Arm7TDMI::default();
    assert_eq!(core.load_bios_rom(&image_with(&[(0, 0xea00_0005), (12, 0xdead_beef)])), Ok(()));
    for idx in 0u8..=15 {
        core.regfile.set_register(idx, 0x0101_0101 * idx as u32 + 0xa000_0000);
    }
    core.memory.advance_mem_cursor();
    assert_eq!(core.print_state(), expected_state(&core, "Supervisor"));
    assert_eq!(core.set_mode(OpMode::User), Ok(()));
    assert_eq!(core.print_state(), expected_state(&core, "User"));
    assert!(core.print_state().contains("0x00000008 | de ad be ef 00 00 00 00 |\n"));
    assert!(core.print_state().contains("R5:  a5050505\tR13: 00000000\n"));
}

#[test]
fn execution_view_of_an_idle_core() {
    let core = Arm7TDMI::default();
    assert_eq!(core.print_exec_state(), "Current Exec State: IDLE\nClock Cycle: 0\n");
}

#[test]
fn execution_view_shows_the_slots() {
    let mut core = Arm7TDMI::default();
    let image = image_with(&[(0, 0xe252_1334), (4, 0xeb00_0010), (8, 0xe92d_4010)]);
    assert_eq!(core.load_bios_rom(&image), Ok(()));
    assert_eq!(core.tick_clock(1), Err(Error::NotImplemented));
    let expected = format!(
        "Current Exec State: {}\nClock Cycle: {}\nCur instrs:\nFET: {}\nDEC: {}\nEXE: {}\n",
        "EXEC",
        1,
        core.fetch_instr.to_text(),
        core.decode_instr.to_text(),
        core.exec_instr.to_text()
    );
    assert_eq!(core.print_exec_state(), expected);
    assert_eq!(
        core.print_exec_state(),
        "Current Exec State: EXEC\nClock Cycle: 1\nCur instrs:\n\
FET: Instruction @ 0x00000008:\n\traw: 0xe92d4010\n\tLSMU (p:true) (u:false) (s:false) (w:true) (l:false) -> Store 16400 at Mem(R13) TODO\n\
DEC: Instruction @ 0x00000004:\n\traw: 0xeb000010\n\tBranch And Link (offset = 0x000010)\n\
EXE: Instruction @ 0x00000000:\n\traw: 0xe2521334\n\tSUBI (s:true) -> R2 = R1 - (52 >> 3*2)\n"
    );
}
