use gbaemu::error::{EncodingFault, Error};
use gbaemu::gba_emu::Gbaemu;

const BIOS_SIZE: usize = 16384;

#[test]
fn a_new_device_is_idle_and_silent() {
    let device = Gbaemu::new();
    assert_eq!(device.get_status(), "");
    assert_eq!(device.clock_cycle(), 0);
    assert_eq!(device.get_execution_state(), "Current Exec State: IDLE\nClock Cycle: 0\n");
    assert_eq!(Gbaemu::default().get_core_state(), device.get_core_state());
}

#[test]
fn load_rom_takes_any_length() {
    for len in [0usize, 1, 100, BIOS_SIZE, 3 * BIOS_SIZE + 1] {
        let mut device = Gbaemu::new();
        let before = device.get_core_state();
        assert_eq!(device.load_rom(String::from("game.gba"), &vec![7u8; len]), Ok(()));
        assert_eq!(device.get_status(), "00d3 | Loading rom file: \"game.gba\"");
        assert_eq!(device.get_core_state(), before);
    }
}

#[test]
fn load_rom_does_not_count_as_a_bios() {
    let mut device = Gbaemu::new();
    assert_eq!(device.load_rom(String::from("game.gba"), &[1, 2, 3]), Ok(()));
    assert_eq!(device.tick_clock(1), Ok(()));
    assert_eq!(device.get_status(), "Skipping clock ticks without bios");
    assert_eq!(device.clock_cycle(), 0);
}

#[test]
fn load_bios_rom_takes_16384_bytes() {
    let mut device = Gbaemu::new();
    let mut image = vec![0u8; BIOS_SIZE];
    image[0] = 0xef;
    image[1] = 0xbe;
    assert_eq!(device.load_bios_rom(String::from("gba_bios.bin"), &image), Ok(()));
    assert_eq!(device.get_status(), format!("{:04x} | Loading bios file: \"{}\"", 0xd3, "gba_bios.bin"));
    assert!(device.get_core_state().contains("0x00000000 | 00 00 00 00 00 00 be ef |\n"));
}

#[test]
fn device_refuses_a_bios_of_100_bytes_and_keeps_the_region() {
    let mut device = Gbaemu::new();
    let mut image = vec![0u8; BIOS_SIZE];
    image[0] = 0xef;
    assert_eq!(device.load_bios_rom(String::from("good.bin"), &image), Ok(()));
    let before = device.get_core_state();
    assert_eq!(
        device.load_bios_rom(String::from("short.bin"), &vec![0xffu8; 100]),
        Err(Error::SizeMismatch)
    );
    assert_eq!(device.get_core_state(), before);
    assert_eq!(device.get_status(), "00d3 | Loading bios file: \"short.bin\"");
}

#[test]
fn reset_says_so() {
    let mut device = Gbaemu::new();
    assert_eq!(device.load_bios_rom(String::from("b"), &vec![0u8; BIOS_SIZE]), Ok(()));
    assert_eq!(device.tick_clock(1), Err(Error::UndefinedExecution));
    device.reset();
    assert_eq!(device.get_status(), "Resetting system");
    assert_eq!(device.clock_cycle(), 0);
    assert_eq!(device.get_execution_state(), "Current Exec State: IDLE\nClock Cycle: 0\n");
    device.reset();
    assert_eq!(device.get_status(), "Resetting system");
    assert_eq!(device.clock_cycle(), 0);
}

#[test]
fn ticking_without_a_bios_does_nothing() {
    let mut device = Gbaemu::new();
    let before = device.get_core_state();
    assert_eq!(device.tick_clock(1), Ok(()));
    assert_eq!(device.get_status(), "Skipping clock ticks without bios");
    assert_eq!(device.clock_cycle(), 0);
    assert_eq!(device.get_core_state(), before);
    assert_eq!(device.get_execution_state(), "Current Exec State: IDLE\nClock Cycle: 0\n");
}

#[test]
fn ticking_more_than_once_at_a_time_is_not_implemented() {
    for n in [0usize, 2, 17] {
        let mut device = Gbaemu::new();
        assert_eq!(device.tick_clock(n), Err(Error::NotImplemented));
        assert_eq!(device.get_status(), "");
        assert_eq!(device.load_bios_rom(String::from("b"), &vec![0u8; BIOS_SIZE]), Ok(()));
        assert_eq!(device.tick_clock(n), Err(Error::NotImplemented));
        assert_eq!(device.clock_cycle(), 0);
    }
}

#[test]
fn a_zero_bios_fails_in_the_first_tick() {
    let mut device = Gbaemu::new();
    device.reset();
    assert_eq!(device.load_bios_rom(String::from("zero.bin"), &vec![0u8; BIOS_SIZE]), Ok(()));
    assert_eq!(device.tick_clock(1), Err(Error::UndefinedExecution));
    assert_eq!(device.clock_cycle(), 1);
    assert_eq!(
        device.get_execution_state(),
        "Current Exec State: EXEC\nClock Cycle: 1\nCur instrs:\n\
FET: Instruction @ 0x00000008:\n\traw: 0x000000\n\tUNDEFINED\n\
DEC: Instruction @ 0x00000004:\n\traw: 0x000000\n\tUNDEFINED\n\
EXE: Instruction @ 0x00000000:\n\traw: 0x000000\n\tUNDEFINED\n"
    );
}

#[test]
fn a_branch_at_zero_runs() {
    let mut device = Gbaemu::new();
    let mut image = vec![0u8; BIOS_SIZE];
    image[0] = 0x05;
    image[3] = 0xea;
    assert_eq!(device.load_bios_rom(String::from("b"), &image), Ok(()));
    assert_eq!(device.tick_clock(1), Ok(()));
    assert_eq!(device.clock_cycle(), 1);
    assert!(device.get_core_state().contains("R7:  00000000\tR15: 00000014\n"));
}

#[test]
fn the_cursor_moves_the_dump() {
    let mut device = Gbaemu::new();
    assert!(device.get_core_state().contains("\n0x00000000 | "));
    device.advance_mem_cursor();
    assert!(!device.get_core_state().contains("\n0x00000000 | "));
    assert!(device.get_core_state().contains("\n0x00000008 | "));
    assert!(device.get_core_state().contains("\n0x00000040 | "));
    device.regress_mem_cursor();
    device.regress_mem_cursor();
    assert!(device.get_core_state().contains("\n0x00000000 | "));
    assert!(!device.get_core_state().contains("\n0x00000040 | "));
}

#[test]
fn error_messages() {
    assert_eq!(Error::SizeMismatch.message(), "Bios image incorrect size: Expected 16384");
    assert_eq!(Error::UndefinedExecution.message(), "Tried to execute undefined instruction");
    assert_eq!(Error::NotImplemented.message(), "Not implemented");
    assert_eq!(
        Error::InvalidEncoding(EncodingFault::ReservedCondition).message(),
        "Invalid encoding: reserved condition field"
    );
    for bits in 0u8..8 {
        assert_eq!(
            Error::InvalidEncoding(EncodingFault::UnknownClass(bits)).message(),
            format!("Invalid encoding: received high bits of {:#03b}", bits)
        );
    }
}
