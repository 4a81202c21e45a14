use chipy8::chip8::{assemble_addr, Chip8, RomTooLarge, HEIGHT_PIX, WIDTH_PIX};
use chipy8::machine::{
    StepError, CHARACTERS, DISPLAY_SIZE, FONT_SIZE, MAX_ROM_SIZE, MEMORY_SIZE, PROGRAM_START,
};
use chipy8::rom::Rom;

fn machine(program: &[u8]) -> Chip8 {
    Chip8::new(Rom::new(String::from("test"), program.to_vec())).unwrap()
}

fn ran(program: &[u8], registers: &[(usize, u8)]) -> Chip8 {
    let mut state = machine(program);
    for &(x, value) in registers {
        state.registers[x] = value;
    }
    state.step().unwrap();
    state
}

#[test]
fn cls() {
    let mut state = machine(&[]);
    state.set_memory(state.program_counter, vec![0x00, 0xE0]);
    let mut expected_state = state.clone();
    state.display.fill(1);

    assert_ne!(state, expected_state);
    state.step().unwrap();
    expected_state.program_counter += 2;

    assert_eq!(state, expected_state)
}

#[test]
fn ret() {
    let mut state = machine(&[]);
    state.stack_pointer = 3;
    state.stack[3] = 0xF0;
    state.stack[2] = 0xF1;
    state.stack[1] = 0xF2;
    state.stack[0] = 0xF3;
    state.set_memory(state.program_counter, vec![0x00, 0xEE]);
    let mut expected_state = state.clone();

    state.step().unwrap();
    expected_state.stack_pointer = 2;
    expected_state.program_counter = 0xF0 + 2;

    assert_eq!(state, expected_state);

    state.set_memory(state.program_counter, vec![0x00, 0xEE]);
    expected_state.set_memory(expected_state.program_counter, vec![0x00, 0xEE]);
    state.step().unwrap();
    expected_state.stack_pointer = 1;
    expected_state.program_counter = 0xF1 + 2;

    assert_eq!(state, expected_state);

    state.set_memory(state.program_counter, vec![0x00, 0xEE]);
    expected_state.set_memory(expected_state.program_counter, vec![0x00, 0xEE]);
    state.step().unwrap();
    expected_state.stack_pointer = 0;
    expected_state.program_counter = 0xF2 + 2;

    assert_eq!(state, expected_state);

    state.set_memory(state.program_counter, vec![0x00, 0xEE]);
    expected_state.set_memory(expected_state.program_counter, vec![0x00, 0xEE]);
    state.step().unwrap();
    expected_state.stack_pointer = 0xFF;
    expected_state.program_counter = 0xF3 + 2;

    assert_eq!(state, expected_state);
}

#[test]
fn jump() {
    let mut state = machine(&[]);
    state.set_memory(state.program_counter, vec![0x11, 0x23]);
    let mut expected_state = state.clone();
    state.step().unwrap();

    expected_state.program_counter = 0x0123;
    assert_eq!(state, expected_state);
    expected_state.program_counter = 0x0456;
    assert_ne!(state, expected_state);
}

#[test]
fn new_loads_the_glyphs_and_the_program() {
    let state = machine(&[0xAA, 0xBB, 0xCC]);
    assert_eq!(&state.memory[0..80], &CHARACTERS[..]);
    assert_eq!(state.memory[0], 0xF0);
    assert_eq!(state.memory[79], 0x80);
    assert_eq!(state.memory[0x200], 0xAA);
    assert_eq!(state.memory[0x201], 0xBB);
    assert_eq!(state.memory[0x202], 0xCC);
    assert!(state.memory[80..0x200].iter().all(|&byte| byte == 0));
    assert!(state.memory[0x203..].iter().all(|&byte| byte == 0));
    assert_eq!(state.registers, [0u8; 16]);
    assert_eq!(state.stack, [0u16; 16]);
    assert_eq!(state.display, [0u8; 256]);
    assert_eq!(state.program_counter, 0x200);
    assert_eq!(state.i, 0);
    assert_eq!(state.input, 0);
    assert_eq!(state.delay, 0);
    assert_eq!(state.sound, 0);
    assert_eq!(state.stack_pointer, 0);
    assert_eq!(state.rom.contents, vec![0xAA, 0xBB, 0xCC]);
    assert_eq!(state.rom.name(), "test");
    assert_eq!(state.canvas, drawille::Canvas::new(64, 32));
}

#[test]
fn new_with_an_empty_program() {
    let state = machine(&[]);
    assert_eq!(&state.memory[0..80], &CHARACTERS[..]);
    assert!(state.memory[80..].iter().all(|&byte| byte == 0));
    assert_eq!(state.program_counter as usize, PROGRAM_START);
}

#[test]
fn new_takes_the_largest_program() {
    let program: Vec<u8> = (0..MAX_ROM_SIZE).map(|k| (k % 251) as u8 + 1).collect();
    let state = machine(&program);
    assert_eq!(&state.memory[PROGRAM_START..], &program[..]);
    assert_eq!(state.memory[MEMORY_SIZE - 1], ((MAX_ROM_SIZE - 1) % 251) as u8 + 1);
}

#[test]
fn new_turns_down_a_program_that_is_too_long() {
    let made = Chip8::new(Rom::new(String::from("long"), vec![0; MAX_ROM_SIZE + 1]));
    assert_eq!(made, Err(RomTooLarge { len: 3585 }));
    let made = Chip8::new(Rom::new(String::from("longer"), vec![7; 5000]));
    assert_eq!(made, Err(RomTooLarge { len: 5000 }));
}

#[test]
fn sizes_of_the_machine() {
    assert_eq!(MEMORY_SIZE, 4096);
    assert_eq!(PROGRAM_START, 0x200);
    assert_eq!(MAX_ROM_SIZE, 4096 - 512);
    assert_eq!(WIDTH_PIX, 64);
    assert_eq!(HEIGHT_PIX, 32);
    assert_eq!(DISPLAY_SIZE, WIDTH_PIX * HEIGHT_PIX / 8);
    assert_eq!(FONT_SIZE, 16 * 5);
    assert_eq!(CHARACTERS.len(), 80);
}

#[test]
fn glyphs_of_the_digits() {
    assert_eq!(&CHARACTERS[0..5], &[0xF0, 0x90, 0x90, 0x90, 0xF0]);
    assert_eq!(&CHARACTERS[5..10], &[0x20, 0x60, 0x20, 0x20, 0x70]);
    assert_eq!(&CHARACTERS[35..40], &[0xF0, 0x10, 0x20, 0x40, 0x40]);
    assert_eq!(&CHARACTERS[75..80], &[0xF0, 0x80, 0xF0, 0x80, 0x80]);
    assert!(CHARACTERS.iter().all(|line| line & 0x0F == 0));
}

#[test]
fn assemble_addr_of_nibbles() {
    assert_eq!(assemble_addr(0x1, 0x2, 0x3), 0x123);
    assert_eq!(assemble_addr(0xA, 0xB, 0xC), 0xABC);
    assert_eq!(assemble_addr(0, 0, 0), 0);
    assert_eq!(assemble_addr(0xF, 0xF, 0xF), 0xFFF);
}

#[test]
fn assemble_addr_of_more_than_nibbles() {
    assert_eq!(assemble_addr(0xFF, 0, 0), 0xFF00);
    assert_eq!(assemble_addr(0, 0x1F, 0), 0x00F0);
    assert_eq!(assemble_addr(0, 0, 0x1F), 0x001F);
    assert_eq!(assemble_addr(0x12, 0x34, 0x56), 0x1256);
}

#[test]
fn set_memory_writes_its_range_only() {
    let mut state = machine(&[1, 2, 3, 4]);
    let before = state.clone();
    state.set_memory(0x201, vec![9, 8]);
    assert_eq!(&state.memory[0x200..0x204], &[1, 9, 8, 4]);
    let mut expected = before.clone();
    expected.memory[0x201] = 9;
    expected.memory[0x202] = 8;
    assert_eq!(state, expected);
    state.set_memory(4094, vec![5, 6]);
    assert_eq!(&state.memory[4094..], &[5, 6]);
    state.set_memory(4096, vec![]);
    state.set_memory(0, vec![0xEE]);
    assert_eq!(state.memory[0], 0xEE);
    assert_eq!(state.memory[1], 0x90);
}

#[test]
fn unknown_opcode_is_reported_and_changes_nothing() {
    let mut state = machine(&[0x01, 0x23]);
    state.delay = 9;
    state.sound = 4;
    let before = state.clone();
    assert_eq!(
        state.step(),
        Err(StepError::UnknownOpcode { n1: 0x0, n2: 0x1, n3: 0x2, n4: 0x3, program_counter: 0x200 })
    );
    assert_eq!(state, before);
    assert_eq!(
        state.step_with(77),
        Err(StepError::UnknownOpcode { n1: 0x0, n2: 0x1, n3: 0x2, n4: 0x3, program_counter: 0x200 })
    );
    assert_eq!(state, before);
}

#[test]
fn opcodes_outside_the_table_are_unknown() {
    let unknown: [[u8; 2]; 14] = [
        [0x00, 0x00],
        [0x00, 0xE1],
        [0x0A, 0xE0],
        [0x51, 0x23],
        [0x51, 0x2F],
        [0x81, 0x28],
        [0x81, 0x2F],
        [0x91, 0x21],
        [0xE1, 0x9F],
        [0xE1, 0xA0],
        [0xF1, 0x00],
        [0xF1, 0x56],
        [0xF1, 0x64],
        [0xFF, 0xFF],
    ];
    for bytes in unknown {
        let mut state = machine(&bytes);
        let before = state.clone();
        assert_eq!(
            state.step(),
            Err(StepError::UnknownOpcode {
                n1: bytes[0] >> 4,
                n2: bytes[0] & 0xF,
                n3: bytes[1] >> 4,
                n4: bytes[1] & 0xF,
                program_counter: 0x200,
            })
        );
        assert_eq!(state, before);
    }
}

#[test]
fn every_opcode_of_the_table_is_known() {
    let known: [[u8; 2]; 34] = [
        [0x00, 0xE0],
        [0x00, 0xEE],
        [0x12, 0x34],
        [0x22, 0x34],
        [0x31, 0x23],
        [0x41, 0x23],
        [0x51, 0x20],
        [0x61, 0x23],
        [0x71, 0x23],
        [0x81, 0x20],
        [0x81, 0x21],
        [0x81, 0x22],
        [0x81, 0x23],
        [0x81, 0x24],
        [0x81, 0x25],
        [0x81, 0x26],
        [0x81, 0x27],
        [0x81, 0x2E],
        [0x91, 0x20],
        [0xA1, 0x23],
        [0xB1, 0x23],
        [0xC1, 0x23],
        [0xD1, 0x23],
        [0xE1, 0x9E],
        [0xE1, 0xA1],
        [0xF1, 0x07],
        [0xF1, 0x0A],
        [0xF1, 0x15],
        [0xF1, 0x18],
        [0xF1, 0x1E],
        [0xF1, 0x29],
        [0xF1, 0x33],
        [0xF1, 0x55],
        [0xF1, 0x65],
    ];
    for bytes in known {
        let mut state = machine(&bytes);
        assert_eq!(state.step(), Ok(()));
    }
}

#[test]
fn fetch_past_the_end_of_memory_fails() {
    let mut state = machine(&[]);
    state.program_counter = 4095;
    let before = state.clone();
    assert_eq!(state.step(), Err(StepError::MemoryOutOfRange { program_counter: 4095 }));
    assert_eq!(state, before);
    state.program_counter = 0xFFFF;
    assert_eq!(state.step(), Err(StepError::MemoryOutOfRange { program_counter: 0xFFFF }));
    state.program_counter = 4096;
    assert_eq!(state.step_with(0), Err(StepError::MemoryOutOfRange { program_counter: 4096 }));
}

#[test]
fn fetch_of_the_last_two_bytes() {
    let mut state = machine(&[]);
    state.set_memory(4094, vec![0x6A, 0x42]);
    state.program_counter = 4094;
    assert_eq!(state.step(), Ok(()));
    assert_eq!(state.registers[0xA], 0x42);
    assert_eq!(state.program_counter, 4096);
}

#[test]
fn call_then_return() {
    let mut state = machine(&[0x2A, 0xBC]);
    state.set_memory(0xABC, vec![0x00, 0xEE]);
    let before = state.clone();
    state.step().unwrap();
    assert_eq!(state.program_counter, 0xABC);
    assert_eq!(state.stack_pointer, 1);
    assert_eq!(state.stack[1], 0x200);
    assert_eq!(state.stack[0], 0);
    state.step().unwrap();
    assert_eq!(state.program_counter, 0x200 + 2);
    assert_eq!(state.stack_pointer, 0);
    let mut expected = before.clone();
    expected.program_counter = 0x202;
    expected.stack[1] = 0x200;
    assert_eq!(state, expected);
}

#[test]
fn four_calls_then_four_returns() {
    let mut state = machine(&[0x23, 0x00]);
    state.set_memory(0x300, vec![0x24, 0x10]);
    state.set_memory(0x410, vec![0x25, 0x20]);
    state.set_memory(0x520, vec![0x26, 0x30]);
    state.set_memory(0x630, vec![0x00, 0xEE]);
    state.set_memory(0x522, vec![0x00, 0xEE]);
    state.set_memory(0x412, vec![0x00, 0xEE]);
    state.set_memory(0x302, vec![0x00, 0xEE]);
    let sites = [0x200, 0x300, 0x410, 0x520];
    let targets = [0x300, 0x410, 0x520, 0x630];
    for k in 0..4 {
        assert_eq!(state.program_counter, sites[k]);
        state.step().unwrap();
        assert_eq!(state.program_counter, targets[k]);
        assert_eq!(state.stack_pointer as usize, k + 1);
        assert_eq!(state.stack[k + 1], sites[k]);
    }
    for k in (0..4).rev() {
        state.step().unwrap();
        assert_eq!(state.program_counter, sites[k] + 2);
        assert_eq!(state.stack_pointer as usize, k);
    }
}

#[test]
fn call_without_a_free_slot_fails() {
    let mut state = machine(&[0x23, 0x00]);
    state.stack_pointer = 15;
    let before = state.clone();
    assert_eq!(state.step(), Err(StepError::StackOutOfRange { program_counter: 0x200 }));
    assert_eq!(state, before);
    state.stack_pointer = 200;
    assert_eq!(state.step(), Err(StepError::StackOutOfRange { program_counter: 0x200 }));
    state.stack_pointer = 14;
    assert_eq!(state.step(), Ok(()));
    assert_eq!(state.stack_pointer, 15);
    assert_eq!(state.stack[15], 0x200);
}

#[test]
fn call_with_the_pointer_at_255_uses_slot_0() {
    let mut state = machine(&[0x23, 0x00]);
    state.stack_pointer = 255;
    assert_eq!(state.step(), Ok(()));
    assert_eq!(state.stack_pointer, 0);
    assert_eq!(state.stack[0], 0x200);
    assert_eq!(state.program_counter, 0x300);
}

#[test]
fn return_without_a_slot_fails() {
    let mut state = machine(&[0x00, 0xEE]);
    state.stack_pointer = 16;
    let before = state.clone();
    assert_eq!(state.step(), Err(StepError::StackOutOfRange { program_counter: 0x200 }));
    assert_eq!(state, before);
    state.stack_pointer = 255;
    assert_eq!(state.step(), Err(StepError::StackOutOfRange { program_counter: 0x200 }));
}

#[test]
fn return_to_the_highest_address_wraps() {
    let mut state = machine(&[0x00, 0xEE]);
    state.stack[0] = 0xFFFF;
    state.step().unwrap();
    assert_eq!(state.program_counter, 1);
    assert_eq!(state.stack_pointer, 255);
}

#[test]
fn jump_lands_on_its_address_from_anywhere() {
    for start in [0x200usize, 0x2F0, 0x400, 4094] {
        let mut state = machine(&[]);
        state.set_memory(start as u16, vec![0x1A, 0xBC]);
        state.program_counter = start as u16;
        state.step().unwrap();
        assert_eq!(state.program_counter, 0xABC);
    }
    let mut state = machine(&[0x10, 0x00]);
    state.step().unwrap();
    assert_eq!(state.program_counter, 0);
    let mut state = machine(&[0x10, 0x01]);
    state.step().unwrap();
    assert_eq!(state.program_counter, 1);
}

#[test]
fn add_with_carry() {
    let state = ran(&[0x81, 0x24], &[(1, 0xFF), (2, 0x01)]);
    assert_eq!(state.registers[1], 0x00);
    assert_eq!(state.registers[15], 1);
    let state = ran(&[0x81, 0x24], &[(1, 0x01), (2, 0x01)]);
    assert_eq!(state.registers[1], 0x02);
    assert_eq!(state.registers[15], 0);
    let state = ran(&[0x81, 0x24], &[(1, 200), (2, 100)]);
    assert_eq!(state.registers[1], 44);
    assert_eq!(state.registers[15], 1);
    assert_eq!(state.program_counter, 0x202);
}

#[test]
fn add_with_carry_into_the_flag_register() {
    let state = ran(&[0x8F, 0x14], &[(15, 0xF0), (1, 0x20)]);
    assert_eq!(state.registers[15], 1);
    let state = ran(&[0x8F, 0x14], &[(15, 0x10), (1, 0x20)]);
    assert_eq!(state.registers[15], 0);
}

#[test]
fn skip_if_equal_to_a_byte() {
    let state = ran(&[0x31, 0x42], &[(1, 0x42)]);
    assert_eq!(state.program_counter, 0x204);
    let state = ran(&[0x31, 0x42], &[(1, 0x43)]);
    assert_eq!(state.program_counter, 0x202);
}

#[test]
fn skip_if_not_equal_to_a_byte() {
    let state = ran(&[0x41, 0x42], &[(1, 0x42)]);
    assert_eq!(state.program_counter, 0x202);
    let state = ran(&[0x41, 0x42], &[(1, 0x43)]);
    assert_eq!(state.program_counter, 0x204);
}

#[test]
fn skip_if_registers_are_equal() {
    let state = ran(&[0x51, 0x20], &[(1, 7), (2, 7)]);
    assert_eq!(state.program_counter, 0x204);
    let state = ran(&[0x51, 0x20], &[(1, 7), (2, 8)]);
    assert_eq!(state.program_counter, 0x202);
}

#[test]
fn skip_if_registers_differ() {
    let state = ran(&[0x91, 0x20], &[(1, 7), (2, 7)]);
    assert_eq!(state.program_counter, 0x202);
    let state = ran(&[0x91, 0x20], &[(1, 7), (2, 8)]);
    assert_eq!(state.program_counter, 0x204);
}

#[test]
fn skips_change_nothing_but_the_program_counter() {
    let mut state = machine(&[0x31, 0x42]);
    state.registers[1] = 0x42;
    let mut expected = state.clone();
    state.step().unwrap();
    expected.program_counter = 0x204;
    assert_eq!(state, expected);
}

#[test]
fn skip_if_the_key_is_held() {
    let mut state = machine(&[0xE3, 0x9E]);
    state.registers[3] = 0xA;
    state.input = 0xA;
    state.step().unwrap();
    assert_eq!(state.program_counter, 0x204);
    let mut state = machine(&[0xE3, 0x9E]);
    state.registers[3] = 0xA;
    state.input = 0xB;
    state.step().unwrap();
    assert_eq!(state.program_counter, 0x202);
}

#[test]
fn skip_if_the_key_is_not_held() {
    let mut state = machine(&[0xE3, 0xA1]);
    state.registers[3] = 0xA;
    state.input = 0xA;
    state.step().unwrap();
    assert_eq!(state.program_counter, 0x202);
    let mut state = machine(&[0xE3, 0xA1]);
    state.registers[3] = 0xA;
    state.input = 0xB;
    state.step().unwrap();
    assert_eq!(state.program_counter, 0x204);
}

#[test]
fn timers_count_down_to_zero_and_stay() {
    let mut state = machine(&[0x60, 0x00, 0x60, 0x00, 0x60, 0x00, 0x60, 0x00, 0x60, 0x00]);
    state.delay = 3;
    state.sound = 2;
    let expected = [(2, 1), (1, 0), (0, 0), (0, 0), (0, 0)];
    for (delay, sound) in expected {
        state.step().unwrap();
        assert_eq!(state.delay, delay);
        assert_eq!(state.sound, sound);
    }
}

#[test]
fn timers_stand_still_when_the_cycle_fails() {
    let mut state = machine(&[0xFF, 0xFF]);
    state.delay = 3;
    state.sound = 2;
    assert!(state.step().is_err());
    assert_eq!(state.delay, 3);
    assert_eq!(state.sound, 2);
}

#[test]
fn a_timer_that_is_set_ticks_in_the_same_cycle() {
    let mut state = machine(&[0xF1, 0x15, 0xF2, 0x18, 0xF3, 0x15]);
    state.registers[1] = 10;
    state.registers[2] = 1;
    state.registers[3] = 0;
    state.step().unwrap();
    assert_eq!(state.delay, 9);
    state.step().unwrap();
    assert_eq!(state.delay, 8);
    assert_eq!(state.sound, 0);
    state.step().unwrap();
    assert_eq!(state.delay, 0);
}

#[test]
fn the_delay_timer_is_read_before_it_ticks() {
    let mut state = machine(&[0xF4, 0x07]);
    state.delay = 0x33;
    state.step().unwrap();
    assert_eq!(state.registers[4], 0x33);
    assert_eq!(state.delay, 0x32);
}

#[test]
fn load_a_byte() {
    let mut state = machine(&[0x6B, 0xCD]);
    let mut expected = state.clone();
    state.step().unwrap();
    expected.registers[0xB] = 0xCD;
    expected.program_counter = 0x202;
    assert_eq!(state, expected);
}

#[test]
fn add_a_byte_wraps() {
    let state = ran(&[0x7B, 0x02], &[(0xB, 0xFF), (0xF, 0x55)]);
    assert_eq!(state.registers[0xB], 0x01);
    assert_eq!(state.registers[0xF], 0x55);
    let state = ran(&[0x7B, 0x02], &[(0xB, 0x10)]);
    assert_eq!(state.registers[0xB], 0x12);
}

#[test]
fn the_register_move_adds() {
    let state = ran(&[0x81, 0x20], &[(1, 5), (2, 7), (0xF, 0x55)]);
    assert_eq!(state.registers[1], 12);
    assert_eq!(state.registers[2], 7);
    assert_eq!(state.registers[0xF], 0x55);
    let state = ran(&[0x81, 0x20], &[(1, 250), (2, 7)]);
    assert_eq!(state.registers[1], 1);
    let state = ran(&[0x81, 0x10], &[(1, 0x90)]);
    assert_eq!(state.registers[1], 0x20);
}

#[test]
fn or_and_xor() {
    let state = ran(&[0x81, 0x21], &[(1, 0b1100), (2, 0b1010)]);
    assert_eq!(state.registers[1], 0b1110);
    let state = ran(&[0x81, 0x22], &[(1, 0b1100), (2, 0b1010)]);
    assert_eq!(state.registers[1], 0b1000);
    let state = ran(&[0x81, 0x23], &[(1, 0b1100), (2, 0b1010)]);
    assert_eq!(state.registers[1], 0b0110);
    assert_eq!(state.registers[2], 0b1010);
    assert_eq!(state.program_counter, 0x202);
}

#[test]
fn subtract_with_borrow() {
    let state = ran(&[0x81, 0x25], &[(1, 10), (2, 3)]);
    assert_eq!(state.registers[1], 7);
    assert_eq!(state.registers[15], 1);
    let state = ran(&[0x81, 0x25], &[(1, 3), (2, 10)]);
    assert_eq!(state.registers[1], 249);
    assert_eq!(state.registers[15], 0);
    let state = ran(&[0x81, 0x25], &[(1, 3), (2, 3)]);
    assert_eq!(state.registers[1], 0);
    assert_eq!(state.registers[15], 1);
}

#[test]
fn subtract_the_other_way() {
    let state = ran(&[0x81, 0x27], &[(1, 3), (2, 10)]);
    assert_eq!(state.registers[1], 7);
    assert_eq!(state.registers[15], 1);
    let state = ran(&[0x81, 0x27], &[(1, 10), (2, 3)]);
    assert_eq!(state.registers[1], 249);
    assert_eq!(state.registers[15], 0);
}

#[test]
fn shift_right_flags_with_or_1() {
    let state = ran(&[0x81, 0x26], &[(1, 0b0110)]);
    assert_eq!(state.registers[1], 0b0011);
    assert_eq!(state.registers[15], 0b0111);
    let state = ran(&[0x81, 0x26], &[(1, 0xFF)]);
    assert_eq!(state.registers[1], 0x7F);
    assert_eq!(state.registers[15], 0xFF);
    let state = ran(&[0x8F, 0x26], &[(15, 0b0110)]);
    assert_eq!(state.registers[15], 0b0011);
}

#[test]
fn shift_left_flags_with_or_8() {
    let state = ran(&[0x81, 0x2E], &[(1, 0b0110)]);
    assert_eq!(state.registers[1], 0b1100);
    assert_eq!(state.registers[15], 0b1110);
    let state = ran(&[0x81, 0x2E], &[(1, 0x81)]);
    assert_eq!(state.registers[1], 0x02);
    assert_eq!(state.registers[15], 0x89);
    let state = ran(&[0x8F, 0x2E], &[(15, 0x81)]);
    assert_eq!(state.registers[15], 0x12);
}

#[test]
fn set_the_address_register() {
    let mut state = machine(&[0xA1, 0x23]);
    let mut expected = state.clone();
    state.step().unwrap();
    expected.i = 0x123;
    expected.program_counter = 0x202;
    assert_eq!(state, expected);
}

#[test]
fn jump_with_offset_goes_two_further() {
    let state = ran(&[0xB3, 0x00], &[(0, 0x10)]);
    assert_eq!(state.program_counter, 0x310 + 2);
    let state = ran(&[0xBF, 0xFF], &[(0, 0xFF)]);
    assert_eq!(state.program_counter, 0xFFF + 0xFF + 2);
    let state = ran(&[0xB0, 0x00], &[]);
    assert_eq!(state.program_counter, 2);
}

#[test]
fn random_is_masked() {
    let mut state = machine(&[0xC5, 0x0F]);
    let mut expected = state.clone();
    assert!(state.draws_random());
    state.step_with(0xA7).unwrap();
    expected.registers[5] = 0x07;
    expected.program_counter = 0x202;
    assert_eq!(state, expected);
    let mut state = machine(&[0xC5, 0xF0]);
    state.step_with(0xA7).unwrap();
    assert_eq!(state.registers[5], 0xA0);
}

#[test]
fn random_from_the_generator_is_masked() {
    for _ in 0..64 {
        let mut state = machine(&[0xC5, 0x0F, 0xC6, 0x00, 0xC7, 0x80]);
        state.registers[6] = 0xFF;
        state.step().unwrap();
        assert!(state.registers[5] <= 0x0F);
        state.step().unwrap();
        assert_eq!(state.registers[6], 0);
        state.step().unwrap();
        assert!(state.registers[7] == 0 || state.registers[7] == 0x80);
        assert_eq!(state.program_counter, 0x206);
    }
}

#[test]
fn only_the_random_instruction_draws() {
    assert!(machine(&[0xC0, 0x00]).draws_random());
    assert!(machine(&[0xCF, 0xFF]).draws_random());
    assert!(!machine(&[0xD0, 0x00]).draws_random());
    assert!(!machine(&[0x0C, 0xCC]).draws_random());
    assert!(!machine(&[]).draws_random());
    let mut state = machine(&[]);
    state.set_memory(4095, vec![0xC0]);
    state.program_counter = 4095;
    assert!(!state.draws_random());
}

#[test]
fn a_cycle_without_random_is_the_same_with_any_byte() {
    let mut one = machine(&[0x71, 0x23]);
    let mut other = one.clone();
    let mut third = one.clone();
    one.step_with(0).unwrap();
    other.step_with(0xFF).unwrap();
    third.step().unwrap();
    assert_eq!(one, other);
    assert_eq!(one, third);
}

#[test]
fn read_the_key() {
    let mut state = machine(&[0xF2, 0x0A]);
    state.input = 0xC;
    state.step().unwrap();
    assert_eq!(state.registers[2], 0xC);
    assert_eq!(state.program_counter, 0x202);
    assert_eq!(state.input, 0xC);
}

#[test]
fn set_the_timers() {
    let mut state = machine(&[0xF2, 0x18]);
    state.registers[2] = 0x40;
    state.step().unwrap();
    assert_eq!(state.sound, 0x3F);
    assert_eq!(state.delay, 0);
}

#[test]
fn add_to_the_address_register_wraps() {
    let mut state = machine(&[0xF2, 0x1E]);
    state.registers[2] = 0x10;
    state.i = 0xFFF8;
    state.step().unwrap();
    assert_eq!(state.i, 0x0008);
    let mut state = machine(&[0xF2, 0x1E]);
    state.registers[2] = 0x10;
    state.i = 0x100;
    state.step().unwrap();
    assert_eq!(state.i, 0x110);
}

#[test]
fn glyph_address_is_five_times_the_register() {
    let state = ran(&[0xF2, 0x29], &[(2, 0xA)]);
    assert_eq!(state.i, 50);
    let state = ran(&[0xF2, 0x29], &[(2, 0xFF)]);
    assert_eq!(state.i, 1275);
    let state = ran(&[0xF7, 0x29], &[(7, 0)]);
    assert_eq!(state.i, 0);
}

#[test]
fn decimal_digits() {
    let mut state = machine(&[0xF2, 0x33]);
    state.registers[2] = 254;
    state.i = 0x300;
    let mut expected = state.clone();
    state.step().unwrap();
    expected.memory[0x300] = 2;
    expected.memory[0x301] = 5;
    expected.memory[0x302] = 4;
    expected.program_counter = 0x202;
    assert_eq!(state, expected);
    let mut state = machine(&[0xF2, 0x33]);
    state.registers[2] = 7;
    state.i = 4093;
    state.step().unwrap();
    assert_eq!(&state.memory[4093..], &[0, 0, 7]);
}

#[test]
fn decimal_digits_past_the_end_of_memory_fail() {
    let mut state = machine(&[0xF2, 0x33]);
    state.registers[2] = 254;
    state.i = 4094;
    let before = state.clone();
    assert_eq!(state.step(), Err(StepError::MemoryOutOfRange { program_counter: 0x200 }));
    assert_eq!(state, before);
    state.i = 0xFFFF;
    assert_eq!(state.step(), Err(StepError::MemoryOutOfRange { program_counter: 0x200 }));
}

#[test]
fn store_registers() {
    let mut state = machine(&[0xF3, 0x55]);
    for x in 0..16 {
        state.registers[x] = 0x10 + x as u8;
    }
    state.i = 0x300;
    let mut expected = state.clone();
    state.step().unwrap();
    expected.memory[0x300] = 0x10;
    expected.memory[0x301] = 0x11;
    expected.memory[0x302] = 0x12;
    expected.memory[0x303] = 0x13;
    expected.program_counter = 0x202;
    assert_eq!(state, expected);
    assert_eq!(state.i, 0x300);
}

#[test]
fn store_all_registers_at_the_end_of_memory() {
    let mut state = machine(&[0xFF, 0x55]);
    for x in 0..16 {
        state.registers[x] = 0x10 + x as u8;
    }
    state.i = 4080;
    state.step().unwrap();
    assert_eq!(&state.memory[4080..], &state.registers[..]);
    let mut state = machine(&[0xFF, 0x55]);
    state.i = 4081;
    let before = state.clone();
    assert_eq!(state.step(), Err(StepError::MemoryOutOfRange { program_counter: 0x200 }));
    assert_eq!(state, before);
}

#[test]
fn load_registers() {
    let mut state = machine(&[0xF2, 0x65, 0xAA, 0xBB, 0xCC, 0xDD]);
    state.i = 0x202;
    state.registers[3] = 0x99;
    let mut expected = state.clone();
    state.step().unwrap();
    expected.registers[0] = 0xAA;
    expected.registers[1] = 0xBB;
    expected.registers[2] = 0xCC;
    expected.program_counter = 0x202;
    assert_eq!(state, expected);
}

#[test]
fn load_registers_past_the_end_of_memory_fails() {
    let mut state = machine(&[0xF1, 0x65]);
    state.i = 4095;
    let before = state.clone();
    assert_eq!(state.step(), Err(StepError::MemoryOutOfRange { program_counter: 0x200 }));
    assert_eq!(state, before);
    let mut state = machine(&[0xF0, 0x65]);
    state.set_memory(4095, vec![0x5A]);
    state.i = 4095;
    state.step().unwrap();
    assert_eq!(state.registers[0], 0x5A);
}

#[test]
fn a_small_program_counts_down() {
    // V0 = 3; loop: V0 -= 1 (by adding 0xFF); skip the jump back once V0 is 0;
    // then store V0..V1 at 0x300 and call a routine that returns at once.
    let mut state = machine(&[
        0x60, 0x03, // 0x200: V0 = 3
        0x61, 0x2A, // 0x202: V1 = 0x2A
        0x70, 0xFF, // 0x204: V0 += 0xFF
        0x30, 0x00, // 0x206: skip if V0 == 0
        0x12, 0x04, // 0x208: jump to 0x204
        0xA3, 0x00, // 0x20A: I = 0x300
        0xF1, 0x55, // 0x20C: store V0..V1
        0x22, 0x12, // 0x20E: call 0x212
        0xFF, 0xFF, // 0x210: no instruction
        0x00, 0xEE, // 0x212: return
    ]);
    let mut cycles = 0;
    let error = loop {
        match state.step() {
            Ok(()) => cycles += 1,
            Err(error) => break error,
        }
    };
    assert_eq!(cycles, 2 + 3 * 3 - 1 + 4);
    assert_eq!(
        error,
        StepError::UnknownOpcode { n1: 15, n2: 15, n3: 15, n4: 15, program_counter: 0x210 }
    );
    assert_eq!(state.registers[0], 0);
    assert_eq!(state.registers[1], 0x2A);
    assert_eq!(state.i, 0x300);
    assert_eq!(&state.memory[0x300..0x303], &[0x00, 0x2A, 0x00]);
    assert_eq!(state.stack_pointer, 0);
    assert_eq!(state.stack[1], 0x20E);
    assert_eq!(state.program_counter, 0x210);
}
