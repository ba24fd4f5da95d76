use marie::{decode, Event, Instruction, Memory, MemoryError, Output, OutputMode, CPU};

fn memory_with(cells: &[(i16, i16)]) -> Memory {
    let mut m = Memory::new(4096);
    for &(a, v) in cells {
        m.write(a, v).unwrap();
    }
    m
}

fn cpu_with(ac: i16, pc: i16, ir: i16) -> CPU {
    CPU { ac, pc, ir, mar: 0, mbr: 0 }
}

#[test]
fn jns_stores_return_address_and_continues_after_it() {
    let mut m = memory_with(&[]);
    let mut c = cpu_with(7, 11, 0x0200);
    assert_eq!(c.decode_execute(&mut m), Ok(Event::Continue));
    assert_eq!(m.read(0x200), Ok(11));
    assert_eq!(c, CPU { ac: 7, pc: 0x201, ir: 0x0200, mar: 0x200, mbr: 11 });
}

#[test]
fn load_copies_cell_into_accumulator() {
    let mut m = memory_with(&[(0x123, -5)]);
    let mut c = cpu_with(0, 1, 0x1123);
    assert_eq!(c.decode_execute(&mut m), Ok(Event::Continue));
    assert_eq!(c, CPU { ac: -5, pc: 1, ir: 0x1123, mar: 0x123, mbr: 0 });
}

#[test]
fn store_writes_accumulator() {
    let mut m = memory_with(&[]);
    let mut c = cpu_with(99, 1, 0x2FFF);
    assert_eq!(c.decode_execute(&mut m), Ok(Event::Continue));
    assert_eq!(m.read(0xFFF), Ok(99));
    assert_eq!(c, CPU { ac: 99, pc: 1, ir: 0x2FFF, mar: 0xFFF, mbr: 99 });
}

#[test]
fn add_wraps_around() {
    let mut m = memory_with(&[(0x40, 1)]);
    let mut c = cpu_with(i16::MAX, 1, 0x3040);
    assert_eq!(c.decode_execute(&mut m), Ok(Event::Continue));
    assert_eq!(c.ac, i16::MIN);
    assert_eq!(c.mbr, 1);
    assert_eq!(c.mar, 0x40);
}

#[test]
fn subt_wraps_around() {
    let mut m = memory_with(&[(0x40, 3)]);
    let mut c = cpu_with(i16::MIN, 1, 0x4040);
    assert_eq!(c.decode_execute(&mut m), Ok(Event::Continue));
    assert_eq!(c.ac, i16::MAX - 2);
    let mut d = cpu_with(10, 1, 0x4040);
    assert_eq!(d.decode_execute(&mut m), Ok(Event::Continue));
    assert_eq!(d.ac, 7);
}

#[test]
fn input_asks_for_a_line_then_parses_it() {
    let mut m = memory_with(&[]);
    let mut c = cpu_with(5, 1, 0x5000);
    assert_eq!(c.decode_execute(&mut m), Ok(Event::Input));
    assert_eq!(c, cpu_with(5, 1, 0x5000));
    c.input("  -42\n");
    assert_eq!(c, cpu_with(-42, 1, 0x5000));
}

#[test]
fn input_non_numeric_text_gives_zero() {
    let mut m = memory_with(&[(0, 0x5000), (1, 0x7000)]);
    let mut c = cpu_with(123, 0, 0);
    assert_eq!(c.step(&mut m), Ok(Event::Input));
    c.input("hello");
    assert_eq!(c.ac, 0);
    c.input("\u{a0}7\n");
    assert_eq!(c.ac, 7);
    assert_eq!(c.step(&mut m), Ok(Event::Halted));
}

#[test]
fn output_renders_decimal_or_character() {
    let mut m = memory_with(&[(0x10, 10)]);
    let mut c = cpu_with(0x148, 1, 0x6000);
    assert_eq!(c.decode_execute(&mut m), Ok(Event::Output(Output::Decimal(0x148))));
    m.write(0x10, 32).unwrap();
    assert_eq!(c.decode_execute(&mut m), Ok(Event::Output(Output::Character(0x48))));
    m.write(0x10, 5).unwrap();
    assert_eq!(c.decode_execute(&mut m), Ok(Event::Output(Output::Decimal(0x148))));
}

#[test]
fn halt_reports_halted_and_changes_nothing() {
    let mut m = memory_with(&[]);
    let mut c = cpu_with(3, 9, 0x7000);
    assert_eq!(c.decode_execute(&mut m), Ok(Event::Halted));
    assert_eq!(c, cpu_with(3, 9, 0x7000));
}

#[test]
fn skipcond_zero_skips_on_zero() {
    let mut m = memory_with(&[(0, 0x8400u16 as i16)]);
    let mut c = cpu_with(0, 0, 0);
    assert_eq!(c.step(&mut m), Ok(Event::Continue));
    assert_eq!(c.pc, 2);
}

#[test]
fn skipcond_negative_and_positive_do_not_skip_on_zero() {
    let mut m = memory_with(&[(0, 0x8000u16 as i16), (1, 0x8800u16 as i16)]);
    let mut c = cpu_with(0, 0, 0);
    assert_eq!(c.step(&mut m), Ok(Event::Continue));
    assert_eq!(c.pc, 1);
    assert_eq!(c.step(&mut m), Ok(Event::Continue));
    assert_eq!(c.pc, 2);
}

#[test]
fn skipcond_sign_conditions() {
    let mut m = memory_with(&[]);
    let mut neg = cpu_with(-1, 5, 0x8000u16 as i16);
    neg.decode_execute(&mut m).unwrap();
    assert_eq!(neg.pc, 6);
    let mut pos = cpu_with(1, 5, 0x8800u16 as i16);
    pos.decode_execute(&mut m).unwrap();
    assert_eq!(pos.pc, 6);
    let mut never = cpu_with(0, 5, 0x8C00u16 as i16);
    never.decode_execute(&mut m).unwrap();
    assert_eq!(never.pc, 5);
}

#[test]
fn jump_sets_program_counter() {
    let mut m = memory_with(&[]);
    let mut c = cpu_with(1, 2, 0x9ABCu16 as i16);
    assert_eq!(c.decode_execute(&mut m), Ok(Event::Continue));
    assert_eq!(c, cpu_with(1, 0xABC, 0x9ABCu16 as i16));
}

#[test]
fn clear_zeroes_accumulator() {
    let mut m = memory_with(&[]);
    let mut c = cpu_with(-77, 2, 0xA000u16 as i16);
    assert_eq!(c.decode_execute(&mut m), Ok(Event::Continue));
    assert_eq!(c.ac, 0);
}

#[test]
fn addi_dereferences_twice() {
    let mut m = memory_with(&[(0x20, 0x300), (0x300, 40)]);
    let mut c = cpu_with(2, 1, 0xB020u16 as i16);
    assert_eq!(c.decode_execute(&mut m), Ok(Event::Continue));
    assert_eq!(c.ac, 42);
    assert_eq!(c.mar, 0x300);
    assert_eq!(c.mbr, 40);
}

#[test]
fn jumpi_dereferences_once() {
    let mut m = memory_with(&[(0x20, 0x300), (0x300, 40)]);
    let mut c = cpu_with(2, 1, 0xC020u16 as i16);
    assert_eq!(c.decode_execute(&mut m), Ok(Event::Continue));
    assert_eq!(c.pc, 0x300);
    assert_eq!(c.mar, 0x20);
    assert_eq!(c.mbr, 0x300);
}

#[test]
fn loadi_dereferences_twice() {
    let mut m = memory_with(&[(0x20, 0x300), (0x300, 40)]);
    let mut c = cpu_with(2, 1, 0xD020u16 as i16);
    assert_eq!(c.decode_execute(&mut m), Ok(Event::Continue));
    assert_eq!(c.ac, 40);
}

#[test]
fn storei_writes_through_pointer() {
    let mut m = memory_with(&[(0x20, 0x300)]);
    let mut c = cpu_with(9, 1, 0xE020u16 as i16);
    assert_eq!(c.decode_execute(&mut m), Ok(Event::Continue));
    assert_eq!(m.read(0x300), Ok(9));
    assert_eq!(m.read(0x20), Ok(0x300));
}

#[test]
fn indirect_pointers_are_masked_to_twelve_bits() {
    let mut m = memory_with(&[(0x20, -1), (0xFFF, 40)]);
    let mut c = cpu_with(9, 1, 0xD020u16 as i16);
    assert_eq!(c.decode_execute(&mut m), Ok(Event::Continue));
    assert_eq!(c, CPU { ac: 40, pc: 1, ir: 0xD020u16 as i16, mar: 0xFFF, mbr: 40 });
    let mut a = cpu_with(2, 1, 0xB020u16 as i16);
    assert_eq!(a.decode_execute(&mut m), Ok(Event::Continue));
    assert_eq!(a.ac, 42);
    m.write(0x21, 0x1005).unwrap();
    let mut s = cpu_with(77, 1, 0xE021u16 as i16);
    assert_eq!(s.decode_execute(&mut m), Ok(Event::Continue));
    assert_eq!(m.read(0x005), Ok(77));
    assert_eq!(s.mar, 5);
}

#[test]
fn indirect_pointer_beyond_small_memory_is_refused() {
    let mut m = Memory::new(64);
    m.write(0x20, 0x100).unwrap();
    let mut c = cpu_with(9, 1, 0xD020u16 as i16);
    let before = c;
    assert_eq!(c.decode_execute(&mut m), Err(MemoryError::AddressOutOfRange(0x100)));
    assert_eq!(c, before);
}

#[test]
fn unassigned_opcode_is_a_no_op() {
    let mut m = memory_with(&[]);
    let mut c = cpu_with(4, 4, -1);
    assert_eq!(decode(-1), Instruction::Nop);
    assert_eq!(c.decode_execute(&mut m), Ok(Event::Continue));
    assert_eq!(c, cpu_with(4, 4, -1));
}

#[test]
fn load_then_store_copies_a_word() {
    let mut m = memory_with(&[(0, 0x1050), (1, 0x2060), (0x50, -1234)]);
    let mut c = CPU::new();
    c.step(&mut m).unwrap();
    c.step(&mut m).unwrap();
    assert_eq!(m.read(0x60), Ok(-1234));
}

#[test]
fn add_then_subtract_restores_accumulator() {
    let mut m = memory_with(&[(0, 0x3050), (1, 0x4050), (0x50, 30000)]);
    let mut c = cpu_with(20000, 0, 0);
    c.step(&mut m).unwrap();
    assert_eq!(c.ac, 20000i16.wrapping_add(30000));
    c.step(&mut m).unwrap();
    assert_eq!(c.ac, 20000);
}

#[test]
fn listed_program_outputs_cell_four() {
    let mut m = Memory::new(4096);
    m.load_program(vec![0x1004, 0x6000, 0x7000, 0, 0, 0x0048]).unwrap();
    let mut c = CPU::new();
    assert_eq!(c.run(&mut m, OutputMode::Ascii, 100), Ok(Event::Output(Output::Character(0))));
    assert_eq!(c.resume(&mut m, 100), Ok(Event::Halted));
}

#[test]
fn program_prints_h_then_halts() {
    let mut m = Memory::new(4096);
    m.load_program(vec![0x1005, 0x6000, 0x7000, 0, 0, 0x0048]).unwrap();
    let mut c = CPU::new();
    let first = c.run(&mut m, OutputMode::Ascii, 100).unwrap();
    assert_eq!(first, Event::Output(Output::Character(0x48)));
    match first {
        Event::Output(out) => assert_eq!(out.text().iter().collect::<String>(), "H"),
        _ => unreachable!(),
    }
    assert_eq!(c.resume(&mut m, 100), Ok(Event::Halted));
    assert_eq!(m.read(0x10), Ok(32));
}

#[test]
fn subroutine_returns_after_the_call() {
    let mut m = Memory::new(4096);
    m.load_program(vec![0x0005, 0x7000, 0, 0, 0, 0, 0xA000u16 as i16, 0xC005u16 as i16]).unwrap();
    let mut c = CPU::new();
    assert_eq!(c.step(&mut m), Ok(Event::Continue));
    assert_eq!(c.pc, 6);
    assert_eq!(m.read(5), Ok(1));
    assert_eq!(c.resume(&mut m, 10), Ok(Event::Halted));
    assert_eq!(c.pc, 2);
}

#[test]
fn addresses_are_masked_to_twelve_bits() {
    let mut m = Memory::new(8192);
    m.write(0x5, 0x7000).unwrap();
    m.write(0x1005, 0x1000).unwrap();
    let mut c = cpu_with(0, 0x1005, 0);
    assert_eq!(c.step(&mut m), Ok(Event::Halted));
    assert_eq!(c.mar, 5);
    let mut d = cpu_with(0, -1, 0);
    m.write(0xFFF, 0x9001u16 as i16).unwrap();
    assert_eq!(d.step(&mut m), Ok(Event::Continue));
    assert_eq!(d.mar, 0xFFF);
    assert_eq!(d.pc, 1);
    assert_eq!(decode(0x1FFF), Instruction::Load(0xFFF));
    assert_eq!(decode(0xEFFFu16 as i16), Instruction::StoreI(0xFFF));
}

#[test]
fn fetch_outside_small_memory_is_refused() {
    let mut m = Memory::new(16);
    let mut c = cpu_with(0, 20, 0);
    assert_eq!(c.step(&mut m), Err(MemoryError::AddressOutOfRange(20)));
    assert_eq!(c, cpu_with(0, 20, 0));
}

#[test]
fn output_without_mode_cell_is_refused() {
    let mut m = Memory::new(16);
    let mut c = cpu_with(1, 0, 0x6000);
    assert_eq!(c.decode_execute(&mut m), Err(MemoryError::AddressOutOfRange(0x10)));
    assert_eq!(c.run(&mut m, OutputMode::Decimal, 5), Err(MemoryError::AddressOutOfRange(0x10)));
}

#[test]
fn resume_stops_when_steps_run_out() {
    let mut m = memory_with(&[(0, 0x9000u16 as i16)]);
    let mut c = CPU::new();
    assert_eq!(c.resume(&mut m, 3), Ok(Event::Continue));
    assert_eq!(c.pc, 0);
    assert_eq!(c.ir, 0x9000u16 as i16);
}

#[test]
fn entry_point_sets_program_counter() {
    let c = CPU::with_entry_point(100);
    assert_eq!(c, CPU { ac: 0, pc: 100, ir: 0, mar: 0, mbr: 0 });
}
