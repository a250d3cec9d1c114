use atari_display::trace::TRACE_WINDOW;
use atari_display::trace_instruction;

fn ram_with(pc: usize, code: &[u8]) -> Vec<u8> {
    let mut ram = vec![0xeau8; 65536];
    ram[pc..pc + code.len()].copy_from_slice(code);
    ram
}

#[test]
fn trace_shows_the_instruction_at_the_program_counter() {
    let ram = ram_with(0x2000, &[0xa9, 0x01, 0x8d, 0x00, 0xd4]);
    let text = trace_instruction(&ram, 0x2000);
    assert!(text.starts_with("$0000: A9 01"), "{}", text);
    assert!(text.contains("LDA #$01"), "{}", text);
}

#[test]
fn trace_matches_the_first_instruction_of_the_disassembled_window() {
    let ram = ram_with(0x0600, &[0x8d, 0x00, 0xd4, 0x60]);
    for pc in [0x0600usize, 0x0601, 0x0603, 0x0000, 65536 - TRACE_WINDOW] {
        let listing = disasm6502::from_array(&ram[pc..pc + TRACE_WINDOW]).unwrap();
        assert_eq!(trace_instruction(&ram, pc), format!("{}", listing[0]));
    }
}

#[test]
fn trace_of_an_absolute_store_reads_its_operand() {
    let ram = ram_with(0x0600, &[0x8d, 0x00, 0xd4]);
    let text = trace_instruction(&ram, 0x0600);
    assert!(text.contains("STA $D400"), "{}", text);
    assert!(text.contains("8D 00 D4"), "{}", text);
}

#[test]
fn trace_at_the_last_window_of_memory() {
    let mut ram = vec![0u8; 65536];
    ram[65536 - TRACE_WINDOW] = 0x60;
    let text = trace_instruction(&ram, 65536 - TRACE_WINDOW);
    assert!(text.contains("RTS"), "{}", text);
}
