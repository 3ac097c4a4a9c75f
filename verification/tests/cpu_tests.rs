use chip8::cpu::{AudioSignal, Cpu, Fault};
use chip8::keyboard::{Keyboard, KeysChange};
use chip8::renderer::Renderer;
use std::sync::mpsc::Sender;

fn make_cpu() -> (Cpu, single_value_channel::Receiver<Option<Vec<bool>>>, Sender<KeysChange>) {
    let (display_receiver, display_sender) = single_value_channel::channel();
    let (key_sender, key_receiver) = std::sync::mpsc::channel();
    let renderer = Renderer::new(display_sender);
    let keyboard = Keyboard::new(key_receiver);
    (Cpu::new(renderer, keyboard), display_receiver, key_sender)
}

fn exec(cpu: &mut Cpu, word: u16) {
    cpu.evaluate_instructions(&[(word >> 8) as u8, (word & 0xFF) as u8]).expect(
        "instruction executes",
    );
}

fn exec_err(cpu: &mut Cpu, word: u16) -> Fault {
    cpu.evaluate_instructions(&[(word >> 8) as u8, (word & 0xFF) as u8]).expect_err(
        "instruction faults",
    )
}

#[test]
fn fresh_machine_state() {
    let (cpu, _d, _k) = make_cpu();
    assert_eq!(cpu.program_counter_address(), 0x200);
    assert_eq!(cpu.index_register_value(), 0);
    assert_eq!(cpu.delay_timer_value(), 0);
    assert_eq!(cpu.sound_timer_value(), 0);
    assert_eq!(cpu.stack_depth(), 0);
    for x in 0..16 {
        assert_eq!(cpu.register_value(x), 0);
    }
}

#[test]
fn font_is_preloaded() {
    let (cpu, _d, _k) = make_cpu();
    // glyph 0 starts with 0xF0, glyph 1 with 0x20, the last byte is 0x80
    assert_eq!(cpu.memory_byte(0), 0xF0);
    assert_eq!(cpu.memory_byte(5), 0x20);
    assert_eq!(cpu.memory_byte(79), 0x80);
    assert_eq!(cpu.memory_byte(80), 0);
    assert_eq!(cpu.memory_byte(0x200), 0);
}

#[test]
fn program_loads_at_program_start() {
    let (mut cpu, _d, _k) = make_cpu();
    cpu.load_program_into_memory(&[0x12, 0x34, 0x56]);
    assert_eq!(cpu.memory_byte(0x200), 0x12);
    assert_eq!(cpu.memory_byte(0x201), 0x34);
    assert_eq!(cpu.memory_byte(0x202), 0x56);
    assert_eq!(cpu.memory_byte(0x203), 0);
}

#[test]
fn set_and_copy_registers() {
    let (mut cpu, _d, _k) = make_cpu();
    exec(&mut cpu, 0x60AB);
    assert_eq!(cpu.register_value(0), 0xAB);
    exec(&mut cpu, 0x8100);
    assert_eq!(cpu.register_value(1), 0xAB);
    assert_eq!(cpu.program_counter_address(), 0x204);
}

#[test]
fn add_registers_overflow_sets_flag() {
    let (mut cpu, _d, _k) = make_cpu();
    exec(&mut cpu, 0x60FF); // V0 = 0xFF
    exec(&mut cpu, 0x6101); // V1 = 0x01
    exec(&mut cpu, 0x8014); // V0 += V1
    assert_eq!(cpu.register_value(0), 0x00);
    assert_eq!(cpu.register_value(0xF), 1);
}

#[test]
fn add_registers_without_overflow_clears_flag() {
    let (mut cpu, _d, _k) = make_cpu();
    exec(&mut cpu, 0x6F01); // VF dirty
    exec(&mut cpu, 0x6010);
    exec(&mut cpu, 0x6120);
    exec(&mut cpu, 0x8014);
    assert_eq!(cpu.register_value(0), 0x30);
    assert_eq!(cpu.register_value(0xF), 0);
}

#[test]
fn sub_registers_borrow_clears_flag() {
    let (mut cpu, _d, _k) = make_cpu();
    exec(&mut cpu, 0x6001); // V0 = 0x01
    exec(&mut cpu, 0x6102); // V1 = 0x02
    exec(&mut cpu, 0x8015); // V0 -= V1
    assert_eq!(cpu.register_value(0), 0xFF);
    assert_eq!(cpu.register_value(0xF), 0);
}

#[test]
fn sub_registers_no_borrow_sets_flag() {
    let (mut cpu, _d, _k) = make_cpu();
    exec(&mut cpu, 0x6005);
    exec(&mut cpu, 0x6103);
    exec(&mut cpu, 0x8015);
    assert_eq!(cpu.register_value(0), 2);
    assert_eq!(cpu.register_value(0xF), 1);
}

#[test]
fn subn_reverses_the_operands() {
    let (mut cpu, _d, _k) = make_cpu();
    exec(&mut cpu, 0x6005);
    exec(&mut cpu, 0x6103);
    exec(&mut cpu, 0x8017); // V0 = V1 - V0 = 3 - 5
    assert_eq!(cpu.register_value(0), 0xFE);
    assert_eq!(cpu.register_value(0xF), 0);
}

#[test]
fn add_immediate_never_touches_flag() {
    let (mut cpu, _d, _k) = make_cpu();
    exec(&mut cpu, 0x6F07); // VF = 7
    exec(&mut cpu, 0x60FF);
    exec(&mut cpu, 0x7002); // V0 += 2, wraps
    assert_eq!(cpu.register_value(0), 1);
    assert_eq!(cpu.register_value(0xF), 7);
}

#[test]
fn logical_ops_zero_the_flag() {
    let (mut cpu, _d, _k) = make_cpu();
    exec(&mut cpu, 0x6F03);
    exec(&mut cpu, 0x600C); // 0b1100
    exec(&mut cpu, 0x610A); // 0b1010
    exec(&mut cpu, 0x8011); // OR
    assert_eq!(cpu.register_value(0), 0x0E);
    assert_eq!(cpu.register_value(0xF), 0);
    exec(&mut cpu, 0x6F03);
    exec(&mut cpu, 0x8012); // AND
    assert_eq!(cpu.register_value(0), 0x0A);
    assert_eq!(cpu.register_value(0xF), 0);
    exec(&mut cpu, 0x6F03);
    exec(&mut cpu, 0x8013); // XOR
    assert_eq!(cpu.register_value(0), 0);
    assert_eq!(cpu.register_value(0xF), 0);
}

#[test]
fn shifts_read_vy_and_report_shifted_out_bit() {
    let (mut cpu, _d, _k) = make_cpu();
    exec(&mut cpu, 0x6193); // V1 = 0b1001_0011
    exec(&mut cpu, 0x8016); // V0 = V1 >> 1
    assert_eq!(cpu.register_value(0), 0b0100_1001);
    assert_eq!(cpu.register_value(0xF), 1);
    exec(&mut cpu, 0x801E); // V0 = V1 << 1
    assert_eq!(cpu.register_value(0), 0b0010_0110);
    assert_eq!(cpu.register_value(0xF), 1);
    exec(&mut cpu, 0x6142); // V1 = 0b0100_0010
    exec(&mut cpu, 0x8016);
    assert_eq!(cpu.register_value(0), 0b0010_0001);
    assert_eq!(cpu.register_value(0xF), 0);
}

#[test]
fn skip_if_equal_immediate() {
    let (mut cpu, _d, _k) = make_cpu();
    exec(&mut cpu, 0x6005);
    let before = cpu.program_counter_address();
    exec(&mut cpu, 0x3005); // equal: skip
    assert_eq!(cpu.program_counter_address(), before + 4);
    let before = cpu.program_counter_address();
    exec(&mut cpu, 0x3006); // not equal: step
    assert_eq!(cpu.program_counter_address(), before + 2);
    let before = cpu.program_counter_address();
    exec(&mut cpu, 0x4006); // not equal: skip
    assert_eq!(cpu.program_counter_address(), before + 4);
}

#[test]
fn skip_if_equal_registers() {
    let (mut cpu, _d, _k) = make_cpu();
    exec(&mut cpu, 0x6005);
    exec(&mut cpu, 0x6105);
    let before = cpu.program_counter_address();
    exec(&mut cpu, 0x5010);
    assert_eq!(cpu.program_counter_address(), before + 4);
    exec(&mut cpu, 0x6106);
    let before = cpu.program_counter_address();
    exec(&mut cpu, 0x9010);
    assert_eq!(cpu.program_counter_address(), before + 4);
    let before = cpu.program_counter_address();
    exec(&mut cpu, 0x5010);
    assert_eq!(cpu.program_counter_address(), before + 2);
}

#[test]
fn jump_sets_program_counter() {
    let (mut cpu, _d, _k) = make_cpu();
    exec(&mut cpu, 0x1ABC);
    assert_eq!(cpu.program_counter_address(), 0xABC);
}

#[test]
fn jump_below_program_start_faults() {
    let (mut cpu, _d, _k) = make_cpu();
    assert_eq!(exec_err(&mut cpu, 0x11FF), Fault::AddressUnderflow);
    assert_eq!(cpu.program_counter_address(), 0x200);
}

#[test]
fn jump_with_offset_adds_v0() {
    let (mut cpu, _d, _k) = make_cpu();
    exec(&mut cpu, 0x6004);
    exec(&mut cpu, 0xB300);
    assert_eq!(cpu.program_counter_address(), 0x304);
}

#[test]
fn call_then_return_lands_after_the_call() {
    let (mut cpu, _d, _k) = make_cpu();
    let before = cpu.program_counter_address();
    exec(&mut cpu, 0x2400); // call 0x400
    assert_eq!(cpu.program_counter_address(), 0x400);
    assert_eq!(cpu.stack_depth(), 1);
    exec(&mut cpu, 0x00EE); // return
    assert_eq!(cpu.program_counter_address(), before + 2);
    assert_eq!(cpu.stack_depth(), 0);
}

#[test]
fn return_on_empty_stack_faults() {
    let (mut cpu, _d, _k) = make_cpu();
    assert_eq!(exec_err(&mut cpu, 0x00EE), Fault::StackUnderflow);
}

#[test]
fn seventeenth_nested_call_faults() {
    let (mut cpu, _d, _k) = make_cpu();
    for _ in 0..16 {
        exec(&mut cpu, 0x2300);
    }
    assert_eq!(cpu.stack_depth(), 16);
    assert_eq!(exec_err(&mut cpu, 0x2300), Fault::StackOverflow);
    assert_eq!(cpu.stack_depth(), 16);
}

#[test]
fn unknown_instruction_faults() {
    let (mut cpu, _d, _k) = make_cpu();
    assert_eq!(exec_err(&mut cpu, 0x0001), Fault::UnknownInstruction);
    assert_eq!(exec_err(&mut cpu, 0x8008), Fault::UnknownInstruction);
    assert_eq!(exec_err(&mut cpu, 0xE000), Fault::UnknownInstruction);
    assert_eq!(exec_err(&mut cpu, 0xFFFF), Fault::UnknownInstruction);
}

#[test]
fn set_index_register() {
    let (mut cpu, _d, _k) = make_cpu();
    exec(&mut cpu, 0xA123);
    assert_eq!(cpu.index_register_value(), 0x123);
}

#[test]
fn add_vx_to_index_wraps_at_16_bits() {
    let (mut cpu, _d, _k) = make_cpu();
    exec(&mut cpu, 0xAFFF); // I = 0xFFF
    exec(&mut cpu, 0x60FF); // V0 = 0xFF
    for _ in 0..241 {
        exec(&mut cpu, 0xF01E);
    }
    // 0xFFF + 241 * 0xFF == 65550, wrapped to 14
    assert_eq!(cpu.index_register_value(), 14);
}

#[test]
fn font_sprite_address_is_digit_times_five() {
    let (mut cpu, _d, _k) = make_cpu();
    exec(&mut cpu, 0x600A);
    exec(&mut cpu, 0xF029);
    assert_eq!(cpu.index_register_value(), 50);
    // the glyph for 0xA starts with 0xF0
    assert_eq!(cpu.memory_byte(50), 0xF0);
}

#[test]
fn bcd_extraction_of_157() {
    let (mut cpu, _d, _k) = make_cpu();
    exec(&mut cpu, 0x609D); // V0 = 157
    exec(&mut cpu, 0xA300); // I = 0x300
    exec(&mut cpu, 0xF033);
    assert_eq!(cpu.memory_byte(0x300), 1);
    assert_eq!(cpu.memory_byte(0x301), 5);
    assert_eq!(cpu.memory_byte(0x302), 7);
    assert_eq!(cpu.index_register_value(), 0x300);
}

#[test]
fn bcd_past_end_of_memory_faults() {
    let (mut cpu, _d, _k) = make_cpu();
    exec(&mut cpu, 0xAFFE); // I = 0xFFE, so I+2 == 0x1000 is out
    exec(&mut cpu, 0x6001);
    assert_eq!(exec_err(&mut cpu, 0xF033), Fault::MemoryOutOfBounds);
}

#[test]
fn store_and_load_registers_auto_increment_index() {
    let (mut cpu, _d, _k) = make_cpu();
    exec(&mut cpu, 0x6011);
    exec(&mut cpu, 0x6122);
    exec(&mut cpu, 0x6233);
    exec(&mut cpu, 0xA300);
    exec(&mut cpu, 0xF255); // store V0..=V2 at 0x300
    assert_eq!(cpu.memory_byte(0x300), 0x11);
    assert_eq!(cpu.memory_byte(0x301), 0x22);
    assert_eq!(cpu.memory_byte(0x302), 0x33);
    assert_eq!(cpu.index_register_value(), 0x303);
    exec(&mut cpu, 0x6000);
    exec(&mut cpu, 0x6100);
    exec(&mut cpu, 0x6200);
    exec(&mut cpu, 0x6344); // V3 must stay untouched by the load below
    exec(&mut cpu, 0xA300);
    exec(&mut cpu, 0xF265); // load V0..=V2 from 0x300
    assert_eq!(cpu.register_value(0), 0x11);
    assert_eq!(cpu.register_value(1), 0x22);
    assert_eq!(cpu.register_value(2), 0x33);
    assert_eq!(cpu.register_value(3), 0x44);
    assert_eq!(cpu.index_register_value(), 0x303);
}

#[test]
fn store_registers_past_end_of_memory_faults() {
    let (mut cpu, _d, _k) = make_cpu();
    exec(&mut cpu, 0xAFFF);
    assert_eq!(exec_err(&mut cpu, 0xF155), Fault::MemoryOutOfBounds);
}

#[test]
fn random_number_is_masked() {
    let (mut cpu, _d, _k) = make_cpu();
    exec(&mut cpu, 0x60AA);
    exec(&mut cpu, 0xC000); // mask 0: V0 must become 0
    assert_eq!(cpu.register_value(0), 0);
    exec(&mut cpu, 0xC10F); // mask 0x0F: high nibble must be clear
    assert_eq!(cpu.register_value(1) & 0xF0, 0);
}

#[test]
fn delay_timer_round_trip() {
    let (mut cpu, _d, _k) = make_cpu();
    exec(&mut cpu, 0x6009);
    exec(&mut cpu, 0xF015); // delay timer = V0 = 9
    assert_eq!(cpu.delay_timer_value(), 9);
    exec(&mut cpu, 0xF107); // V1 = delay timer
    assert_eq!(cpu.register_value(1), 9);
}

#[test]
fn timer_burst_saturates_at_zero() {
    let (mut cpu, _d, _k) = make_cpu();
    exec(&mut cpu, 0x600A);
    exec(&mut cpu, 0xF015); // delay = 10
    exec(&mut cpu, 0xF018); // sound = 10
    let signal = cpu.progress_timer_registers(255);
    assert_eq!(cpu.delay_timer_value(), 0);
    assert_eq!(cpu.sound_timer_value(), 0);
    assert_eq!(signal, AudioSignal::Off);
    let signal = cpu.progress_timer_registers(255);
    assert_eq!(cpu.delay_timer_value(), 0);
    assert_eq!(cpu.sound_timer_value(), 0);
    assert_eq!(signal, AudioSignal::Off);
}

#[test]
fn sound_timer_keeps_tone_on_while_running() {
    let (mut cpu, _d, _k) = make_cpu();
    exec(&mut cpu, 0x6005);
    exec(&mut cpu, 0xF018); // sound = 5
    let signal = cpu.progress_timer_registers(2);
    assert_eq!(signal, AudioSignal::On(3));
    assert_eq!(cpu.sound_timer_value(), 3);
    let signal = cpu.progress_timer_registers(3);
    assert_eq!(signal, AudioSignal::Off);
    assert_eq!(cpu.sound_timer_value(), 0);
}

#[test]
fn draw_through_cpu_reports_collision_in_flag() {
    let (mut cpu, _d, _k) = make_cpu();
    // glyph 0 at I = 0: draw it twice at (0,0)
    exec(&mut cpu, 0xA000);
    exec(&mut cpu, 0xD005);
    assert_eq!(cpu.register_value(0xF), 0);
    assert!(cpu.pixel(0, 0));
    exec(&mut cpu, 0xD005);
    assert_eq!(cpu.register_value(0xF), 1);
    assert!(!cpu.pixel(0, 0));
}

#[test]
fn clear_display_clears_every_pixel() {
    let (mut cpu, _d, _k) = make_cpu();
    exec(&mut cpu, 0xA000);
    exec(&mut cpu, 0xD005);
    exec(&mut cpu, 0x00E0);
    for row in 0..32 {
        for col in 0..64 {
            assert!(!cpu.pixel(col, row));
        }
    }
    // immediately drawing again collides with nothing
    exec(&mut cpu, 0xD005);
    assert_eq!(cpu.register_value(0xF), 0);
}

#[test]
fn draw_with_zero_rows_is_ignored() {
    let (mut cpu, _d, _k) = make_cpu();
    let before = cpu.program_counter_address();
    exec(&mut cpu, 0xD120);
    assert_eq!(cpu.program_counter_address(), before + 2);
    assert_eq!(cpu.register_value(0xF), 0);
}

#[test]
fn draw_past_end_of_memory_faults() {
    let (mut cpu, _d, _k) = make_cpu();
    exec(&mut cpu, 0xAFFF);
    assert_eq!(exec_err(&mut cpu, 0xD012), Fault::MemoryOutOfBounds);
}

#[test]
fn skip_if_key_pressed_consults_the_keyboard() {
    let (mut cpu, _d, keys) = make_cpu();
    exec(&mut cpu, 0x6004); // V0 = key 4
    let before = cpu.program_counter_address();
    exec(&mut cpu, 0xE09E); // not pressed: no skip
    assert_eq!(cpu.program_counter_address(), before + 2);
    keys.send(KeysChange { pressed: vec![4], released: vec![] }).unwrap();
    let before = cpu.program_counter_address();
    exec(&mut cpu, 0xE09E); // pressed: skip
    assert_eq!(cpu.program_counter_address(), before + 4);
    let before = cpu.program_counter_address();
    exec(&mut cpu, 0xE0A1); // pressed, skip-if-not: no skip
    assert_eq!(cpu.program_counter_address(), before + 2);
    keys.send(KeysChange { pressed: vec![], released: vec![4] }).unwrap();
    let before = cpu.program_counter_address();
    exec(&mut cpu, 0xE0A1); // released: skip
    assert_eq!(cpu.program_counter_address(), before + 4);
}

#[test]
fn wait_for_key_holds_until_press_and_release() {
    let (mut cpu, _d, keys) = make_cpu();
    let before = cpu.program_counter_address();
    exec(&mut cpu, 0xF00A); // nothing pressed: stay put
    assert_eq!(cpu.program_counter_address(), before);
    keys.send(KeysChange { pressed: vec![7], released: vec![] }).unwrap();
    exec(&mut cpu, 0xF00A); // key observed and recorded, still waiting
    assert_eq!(cpu.register_value(0), 7);
    assert_eq!(cpu.program_counter_address(), before);
    exec(&mut cpu, 0xF00A); // key still held: stay put
    assert_eq!(cpu.program_counter_address(), before);
    keys.send(KeysChange { pressed: vec![], released: vec![7] }).unwrap();
    exec(&mut cpu, 0xF00A); // released: step past the instruction
    assert_eq!(cpu.program_counter_address(), before + 2);
    assert_eq!(cpu.register_value(0), 7);
}

#[test]
fn run_cycle_fetches_and_executes() {
    let (mut cpu, _d, _k) = make_cpu();
    cpu.load_program_into_memory(&[0x60, 0x2A, 0x61, 0x07]);
    cpu.run_cycle().expect("first cycle runs");
    assert_eq!(cpu.register_value(0), 0x2A);
    assert_eq!(cpu.program_counter_address(), 0x202);
    cpu.run_cycle().expect("second cycle runs");
    assert_eq!(cpu.register_value(1), 0x07);
    assert_eq!(cpu.program_counter_address(), 0x204);
}

#[test]
fn run_cycle_faults_on_fetch_past_end_of_memory() {
    let (mut cpu, _d, _k) = make_cpu();
    cpu.load_program_into_memory(&[0x1F, 0xFF]); // jump to 0xFFF
    cpu.run_cycle().expect("jump executes");
    assert_eq!(cpu.program_counter_address(), 0xFFF);
    assert_eq!(cpu.run_cycle().expect_err("fetch leaves memory"), Fault::MemoryOutOfBounds);
}

#[test]
fn run_cycle_reports_unknown_instruction() {
    let (mut cpu, _d, _k) = make_cpu();
    cpu.load_program_into_memory(&[0x00, 0x01]);
    assert_eq!(cpu.run_cycle().expect_err("no such opcode"), Fault::UnknownInstruction);
}
