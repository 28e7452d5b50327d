use stanley::debugger::{disassemble, try_parse_breakpoint, BreakPointType, Listing};
use stanley::renderer::{InputType, WindowEvent};
use stanley::system::instructions::{AddressMode, Instruction};
use stanley::system::riot::Riot;
use stanley::system::tia::{Nusize, Tia};
use stanley::system::System;
use stanley::Fatal;

fn system_with(code: &[u8]) -> System {
    let mut program = [0u8; 4096];
    program[..code.len()].copy_from_slice(code);
    System::new(program)
}

#[test]
fn ldx_then_stx_zero_page() {
    // LDX #$05; STX $80
    let mut system = system_with(&[0xA2, 0x05, 0x86, 0x80]);
    system.step().unwrap();
    system.step().unwrap();
    assert_eq!(system.memory[0x00], 5);
    assert_eq!(system.chip.x, 5);
    assert_eq!(system.chip.pc, 0x1004);
    assert_eq!(system.clocks, 5);
}

#[test]
fn taken_branch_skips_load() {
    // LDA #$00; BEQ +2; LDA #$FF; NOP
    let mut system = system_with(&[0xA9, 0x00, 0xF0, 0x02, 0xA9, 0xFF, 0xEA]);
    system.step().unwrap();
    system.step().unwrap();
    assert_eq!(system.chip.pc, 0x1006);
    system.step().unwrap();
    assert_eq!(system.chip.a, 0);
    assert_eq!(system.clocks, 7);
}

#[test]
fn timer_holds_during_write_turn_then_counts() {
    let mut riot = Riot::new();
    riot.set(0x15, 8).unwrap();
    // the cycles of the writing instruction's own turn leave the timer alone
    riot.tick(7);
    assert_eq!(riot.get(0x0284).unwrap(), 8);
    riot.timer_reset = false;
    riot.tick(8);
    assert_eq!(riot.get(0x0284).unwrap(), 7);
}

#[test]
fn vsync_then_wsync_ends_line_after_frame_top() {
    // LDA #$02; STA VSYNC; STA WSYNC; NOP
    let mut system = system_with(&[0xA9, 0x02, 0x85, 0x00, 0x85, 0x02, 0xEA]);
    system.step().unwrap();
    system.step().unwrap();
    system.step().unwrap();
    assert_eq!(system.tia.color_clocks, 228 * 4);
    system.step().unwrap();
    assert_eq!(system.tia.color_clocks, 228 * 4 + 6);
}

#[test]
fn decode_known_and_unknown_opcodes() {
    assert_eq!(Instruction::decode(0xA2), Ok(Instruction::Ldx(AddressMode::Immediate)));
    assert_eq!(Instruction::decode(0xEA), Ok(Instruction::Nop(AddressMode::Implied)));
    assert_eq!(Instruction::decode(0xFF), Err(Fatal::Decode(0xFF)));
    assert_eq!(Instruction::decode(0x04), Ok(Instruction::Dop(AddressMode::ZeroPage)));
    assert_eq!(Instruction::decode(0x6C), Ok(Instruction::Jmp(AddressMode::AbsoluteI)));
}

fn pixel(tia: &Tia, row: usize, column: usize) -> [u8; 4] {
    let start = (row * 160 + column) * 4;
    [
        tia.buffer.0[start],
        tia.buffer.0[start + 1],
        tia.buffer.0[start + 2],
        tia.buffer.0[start + 3],
    ]
}

const WHITE: u8 = 0x0E;
const BLACK: u8 = 0x00;
const WHITE_PIXEL: [u8; 4] = [0xEC, 0xEC, 0xEC, 0xFF];
const BLACK_PIXEL: [u8; 4] = [0x00, 0x00, 0x00, 0xFF];

#[test]
fn single_playfield_bit_repeats_on_right_half() {
    let mut tia = Tia::new();
    tia.set(0x0D, 0x10).unwrap();
    tia.set(0x0E, 0x00).unwrap();
    tia.set(0x0F, 0x00).unwrap();
    tia.set(0x0A, 0x00).unwrap();
    tia.set(0x08, WHITE).unwrap();
    tia.set(0x09, BLACK).unwrap();
    // through the end of the first drawn line
    tia.tick((41 * 228) / 3);
    for column in 0..160 {
        let expected = if column < 4 || (80..84).contains(&column) {
            WHITE_PIXEL
        } else {
            BLACK_PIXEL
        };
        assert_eq!(pixel(&tia, 0, column), expected, "column {}", column);
    }
    // the next line is not drawn yet
    assert_eq!(pixel(&tia, 1, 0), [0xFF; 4]);
}

#[test]
fn full_playfield_covers_both_halves() {
    let mut tia = Tia::new();
    tia.set(0x0D, 0xF0).unwrap();
    tia.set(0x0E, 0xFF).unwrap();
    tia.set(0x0F, 0xFF).unwrap();
    tia.set(0x08, WHITE).unwrap();
    tia.set(0x09, BLACK).unwrap();
    tia.tick((41 * 228) / 3);
    for column in 0..80 {
        assert_eq!(pixel(&tia, 0, column), WHITE_PIXEL);
        assert_eq!(pixel(&tia, 0, column + 80), pixel(&tia, 0, column));
    }
}

#[test]
fn reflected_playfield_mirrors_left_half() {
    let mut tia = Tia::new();
    tia.set(0x0D, 0x10).unwrap();
    tia.set(0x0A, 0x01).unwrap();
    tia.set(0x08, WHITE).unwrap();
    tia.set(0x09, BLACK).unwrap();
    tia.tick((41 * 228) / 3);
    assert_eq!(pixel(&tia, 0, 0), WHITE_PIXEL);
    assert_eq!(pixel(&tia, 0, 80), BLACK_PIXEL);
    assert_eq!(pixel(&tia, 0, 156), WHITE_PIXEL);
    assert_eq!(pixel(&tia, 0, 159), WHITE_PIXEL);
}

#[test]
fn player_zero_drawn_over_playfield() {
    let mut tia = Tia::new();
    tia.set(0x04, 0x07).unwrap();
    assert_eq!(tia.nusize0, Nusize::Quad);
    tia.set(0x1B, 0x80).unwrap();
    tia.set(0x06, WHITE).unwrap();
    tia.set(0x09, BLACK).unwrap();
    tia.resp0 = 68 + 10;
    tia.tick((41 * 228) / 3);
    assert_eq!(pixel(&tia, 0, 9), BLACK_PIXEL);
    assert_eq!(pixel(&tia, 0, 10), WHITE_PIXEL);
    assert_eq!(pixel(&tia, 0, 13), WHITE_PIXEL);
    assert_eq!(pixel(&tia, 0, 14), BLACK_PIXEL);
}

#[test]
fn resp0_latches_beam_plus_six_at_sync() {
    let mut tia = Tia::new();
    tia.tick(30);
    tia.set(0x10, 0).unwrap();
    assert_eq!(tia.resp0, 0);
    assert_eq!(tia.sync().value, 0);
    assert_eq!(tia.resp0, 96);
    assert!(!tia.set_resp0);
}

#[test]
fn beam_wraps_at_frame_end() {
    let mut tia = Tia::new();
    tia.tick(19912);
    assert_eq!(tia.color_clocks, 0);
    tia.tick(19913);
    assert_eq!(tia.color_clocks, 3);
}

#[test]
fn wsync_stall_reaches_line_boundary() {
    // NOP; STA WSYNC
    let mut system = system_with(&[0xEA, 0x85, 0x02]);
    system.step().unwrap();
    system.step().unwrap();
    assert_eq!(system.tia.color_clocks % 228, 0);
    assert_eq!(system.clocks, 76);
    assert_eq!(system.tia.color_clocks, 228);
}

#[test]
fn is_drawing_only_on_visible_rows() {
    let mut tia = Tia::new();
    assert!(!tia.is_drawing());
    tia.tick(40 * 76);
    assert!(tia.is_drawing());
    tia.tick(192 * 76);
    assert!(!tia.is_drawing());
}

#[test]
fn clocks_sum_cycles_and_stalls() {
    // LDA #$01 (2); STA WSYNC (3, then the rest of the line); INX (2)
    let mut system = system_with(&[0xA9, 0x01, 0x85, 0x02, 0xE8]);
    system.step().unwrap();
    assert_eq!(system.clocks, 2);
    system.step().unwrap();
    assert_eq!(system.clocks, 76);
    system.step().unwrap();
    assert_eq!(system.clocks, 78);
}

#[test]
fn rom_write_is_fatal() {
    let mut system = System::new([1u8; 4096]);
    assert_eq!(system.memory_set(0xF000, 0), Err(Fatal::Memory(0xF000)));
    assert_eq!(system.memory_get(0xF000), Ok(1));
}

#[test]
fn brk_and_rti_are_fatal() {
    let mut system = System::new([0u8; 4096]);
    assert_eq!(
        Instruction::Brk(AddressMode::Implied).execute(&mut system),
        Err(Fatal::Unimplemented(0x00))
    );
    assert_eq!(
        Instruction::Rti(AddressMode::Implied).execute(&mut system),
        Err(Fatal::Unimplemented(0x40))
    );
}

#[test]
fn unknown_opcode_stops_step() {
    let mut system = system_with(&[0xFF]);
    assert_eq!(system.step(), Err(Fatal::Decode(0xFF)));
}

#[test]
fn load_without_operand_is_fatal() {
    let mut system = System::new([0u8; 4096]);
    assert_eq!(
        Instruction::Lda(AddressMode::Implied).execute(&mut system),
        Err(Fatal::Operand)
    );
}

#[test]
fn unsupported_registers_are_fatal() {
    let mut tia = Tia::new();
    assert_eq!(tia.set(0x04, 0x03), Err(Fatal::Unimplemented(0x04)));
    assert_eq!(tia.get(0x0001), Err(Fatal::Unimplemented(0x0001)));
    let mut riot = Riot::new();
    assert_eq!(riot.set(0x01, 0), Err(Fatal::Unimplemented(0x01)));
    assert_eq!(riot.get(0x0281), Err(Fatal::Unimplemented(0x0281)));
    let mut system = System::new([0u8; 4096]);
    assert_eq!(system.memory_get(0x0001), Err(Fatal::Unimplemented(0x0001)));
}

#[test]
fn mirrored_addresses_reach_their_regions() {
    let mut system = System::new([7u8; 4096]);
    // RAM mirror
    system.memory_set(0x0180, 9).unwrap();
    assert_eq!(system.memory[0], 9);
    // TIA mirror: COLUBK through 0x0049
    system.memory_set(0x0049, 0x42).unwrap();
    assert_eq!(system.tia.colubk, 0x42);
    // RIOT: TIM64T through 0x0296
    system.memory_set(0x0296, 3).unwrap();
    assert_eq!(system.riot.timer, 3);
    assert_eq!(system.riot.clocks_per_interval, 64);
    assert_eq!(system.memory_get(0x0284).unwrap(), 3);
    // ROM mirror
    assert_eq!(system.memory_get(0x3FFF).unwrap(), 7);
}

#[test]
fn write_then_read_returns_value() {
    let mut system = System::new([0u8; 4096]);
    system.memory_set(0x0294, 0x33).unwrap();
    system.tick(5);
    assert_eq!(system.memory_get(0x0284).unwrap(), 0x33);
}

#[test]
fn timer_reaches_zero_then_wraps() {
    for (index, interval) in [(0x14u16, 1usize), (0x15, 8), (0x16, 64), (0x17, 1024)] {
        let mut riot = Riot::new();
        riot.set(index, 5).unwrap();
        riot.timer_reset = false;
        riot.tick(5 * interval);
        assert_eq!(riot.get(0x0284).unwrap(), 0);
        riot.tick(1);
        assert!(riot.timint);
        assert_eq!(riot.get(0x0284).unwrap(), 0xFF);
    }
}

#[test]
fn reading_timer_clears_timint_until_next_underflow() {
    let mut riot = Riot::new();
    riot.set(0x14, 1).unwrap();
    riot.timer_reset = false;
    riot.tick(2);
    assert!(riot.timint);
    riot.get(0x0284).unwrap();
    assert!(!riot.timint);
    riot.tick(10);
    assert!(!riot.timint);
    riot.tick(250);
    assert!(riot.timint);
}

#[test]
fn load_zero_sets_zero_clears_negative() {
    let mut system = system_with(&[0x00, 0x80]);
    system.chip.n = true;
    Instruction::Ldy(AddressMode::Immediate).execute(&mut system).unwrap();
    assert!(system.chip.z);
    assert!(!system.chip.n);
    Instruction::Lda(AddressMode::Immediate).execute(&mut system).unwrap();
    assert!(system.chip.n);
    assert!(!system.chip.z);
}

#[test]
fn adc_carry_and_sbc_borrow() {
    let mut system = system_with(&[0xFF, 0x10]);
    system.chip.a = 0x01;
    system.chip.c = false;
    Instruction::Adc(AddressMode::Immediate).execute(&mut system).unwrap();
    assert_eq!(system.chip.a, 0x00);
    assert!(system.chip.c);
    assert!(system.chip.z);
    system.chip.a = 0x10;
    system.chip.c = true;
    Instruction::Sbc(AddressMode::Immediate).execute(&mut system).unwrap();
    assert_eq!(system.chip.a, 0x00);
    assert!(system.chip.c);
}

#[test]
fn push_pull_round_trip() {
    let mut system = System::new([0u8; 4096]);
    system.chip.sp = 0xFF;
    system.chip.a = 0x5A;
    Instruction::Pha(AddressMode::Implied).execute(&mut system).unwrap();
    system.chip.a = 0;
    Instruction::Pla(AddressMode::Implied).execute(&mut system).unwrap();
    assert_eq!(system.chip.a, 0x5A);
    assert_eq!(system.chip.sp, 0xFF);

    system.chip.c = true;
    system.chip.v = true;
    system.chip.n = false;
    system.chip.d = true;
    let before = system.chip;
    Instruction::Php(AddressMode::Implied).execute(&mut system).unwrap();
    system.chip.c = false;
    system.chip.v = false;
    system.chip.d = false;
    Instruction::Plp(AddressMode::Implied).execute(&mut system).unwrap();
    assert_eq!(system.chip, before);
}

#[test]
fn call_and_return() {
    // JSR $1010 at 0x1000; RTS at 0x1010
    let mut code = [0u8; 0x11];
    code[0] = 0x20;
    code[1] = 0x10;
    code[2] = 0x10;
    code[0x10] = 0x60;
    let mut system = system_with(&code);
    system.chip.sp = 0xFF;
    system.chip.a = 1;
    system.chip.x = 2;
    system.chip.y = 3;
    system.step().unwrap();
    assert_eq!(system.chip.pc, 0x1010);
    assert_eq!(system.clocks, 6);
    system.step().unwrap();
    assert_eq!(system.chip.pc, 0x1003);
    assert_eq!((system.chip.a, system.chip.x, system.chip.y), (1, 2, 3));
    assert_eq!(system.chip.sp, 0xFF);
    assert_eq!(system.clocks, 12);
}

#[test]
fn joystick_events_latch_lines() {
    let mut system = System::new([0u8; 4096]);
    assert_eq!(system.memory_get(0x0280).unwrap(), 0xFF);
    system.input_event(&WindowEvent::InputStart(InputType::Joystick1Up));
    assert_eq!(system.memory_get(0x0280).unwrap(), 0xEF);
    system.input_event(&WindowEvent::InputStart(InputType::Joystick1Right));
    assert_eq!(system.memory_get(0x0280).unwrap(), 0x6F);
    system.input_event(&WindowEvent::InputEnd(InputType::Joystick1Up));
    assert_eq!(system.memory_get(0x0280).unwrap(), 0x7F);
    assert_eq!(system.memory_get(0x000C).unwrap(), 0x80);
    system.input_event(&WindowEvent::InputStart(InputType::Joystick1Button));
    assert_eq!(system.memory_get(0x000C).unwrap(), 0x00);
    system.input_event(&WindowEvent::InputEnd(InputType::Joystick1Button));
    assert_eq!(system.memory_get(0x003C).unwrap(), 0x80);
}

#[test]
fn status_byte_forces_bit_five() {
    let mut system = System::new([0u8; 4096]);
    assert_eq!(system.status(), 0x20);
    system.status_set(0xFF);
    assert_eq!(system.status(), 0xFF);
    system.status_set(0x00);
    assert!(!system.chip.c && !system.chip.n && !system.chip.b);
}

#[test]
fn sign_extended_index_crosses_page_down() {
    let mut system = system_with(&[0x00, 0x11]);
    system.chip.x = 0xFF;
    let mut clocks: usize = 0;
    let value = AddressMode::AbsoluteX.execute(&mut system, &mut clocks).unwrap();
    assert_eq!(value, stanley::system::instructions::AddressValue::offset_addr(0x10FF, true));
    assert_eq!(clocks, 3);
}

#[test]
fn breakpoints_parse_as_hex_or_symbol() {
    assert!(matches!(try_parse_breakpoint("1F80"), Ok(BreakPointType::Number(0x1F80))));
    assert!(matches!(try_parse_breakpoint("+ff"), Ok(BreakPointType::Number(0xFF))));
    assert!(matches!(try_parse_breakpoint("0000FFFF"), Ok(BreakPointType::Number(0xFFFF))));
    match try_parse_breakpoint("start") {
        Ok(BreakPointType::Symbol(name)) => assert_eq!(name, "start"),
        _ => panic!("expected a symbol"),
    }
    assert!(matches!(try_parse_breakpoint("10000"), Ok(BreakPointType::Symbol(_))));
    assert!(matches!(try_parse_breakpoint(""), Ok(BreakPointType::Symbol(_))));
    assert!(matches!(try_parse_breakpoint("+"), Ok(BreakPointType::Symbol(_))));
    assert!(matches!(try_parse_breakpoint("12g"), Ok(BreakPointType::Symbol(_))));
}

#[test]
fn disassembly_walks_code_then_data() {
    // LDA #$05; BNE -2; JMP $1000; then a byte that decodes to nothing
    let mut program = [0xFFu8; 4096];
    program[..7].copy_from_slice(&[0xA9, 0x05, 0xD0, 0xFE, 0x4C, 0x00, 0x10]);
    let lines = disassemble(&program);
    assert_eq!(
        lines[0],
        Listing::Code {
            addr: 0x1000,
            inst: Instruction::Lda(AddressMode::Immediate),
            operand: 0x05
        }
    );
    assert_eq!(
        lines[1],
        Listing::Code {
            addr: 0x1002,
            inst: Instruction::Bne(AddressMode::Relative),
            operand: 0x1002
        }
    );
    assert_eq!(
        lines[2],
        Listing::Code {
            addr: 0x1004,
            inst: Instruction::Jmp(AddressMode::Absolute),
            operand: 0x1000
        }
    );
    assert_eq!(lines[3], Listing::Data { addr: 0x1007, byte: 0xFF });
    assert_eq!(lines.len(), 3 + 4096 - 7);
    assert_eq!(lines[lines.len() - 1], Listing::Data { addr: 0x1FFF, byte: 0xFF });
}

#[test]
fn mnemonics_name_instructions() {
    assert_eq!(Instruction::And(AddressMode::Immediate).mnemonic(), "AND");
    assert_eq!(Instruction::Dop(AddressMode::ZeroPage).mnemonic(), "DOP");
    assert_eq!(Instruction::decode(0x60).unwrap().mnemonic(), "RTS");
}

#[test]
fn playfield_word_packs_forty_columns() {
    let mut tia = Tia::new();
    tia.set(0x0D, 0xF0).unwrap();
    tia.set(0x0E, 0xFF).unwrap();
    tia.set(0x0F, 0xFF).unwrap();
    assert_eq!(tia.get_playfield(), 0xFF_FFFF_FFFF);
    tia.set(0x0D, 0x10).unwrap();
    tia.set(0x0E, 0x00).unwrap();
    tia.set(0x0F, 0x00).unwrap();
    assert_eq!(tia.get_playfield(), 0x80_0008_0000);
    tia.set(0x0A, 0x01).unwrap();
    assert_eq!(tia.get_playfield(), 0x80_0000_0001);
    tia.set(0x0A, 0x00).unwrap();
    tia.set(0x0E, 0x80).unwrap();
    tia.set(0x0F, 0x01).unwrap();
    // PF1 bit 7 is the fifth group; PF2 bit 0 the thirteenth
    assert_eq!(tia.get_playfield(), 0x8808088080);
}
