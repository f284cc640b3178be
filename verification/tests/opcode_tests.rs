use rusty_chip8::opcode::decode;
use rusty_chip8::Instruction;

#[test]
fn decodes_clear_and_return() {
    assert_eq!(decode(0x00E0), Some(Instruction::Cls));
    assert_eq!(decode(0x00EE), Some(Instruction::Ret));
}

#[test]
fn decodes_other_words_of_family_zero_as_sys() {
    assert_eq!(decode(0x0000), Some(Instruction::Sys { addr: 0x000 }));
    assert_eq!(decode(0x0123), Some(Instruction::Sys { addr: 0x123 }));
    assert_eq!(decode(0x00E1), Some(Instruction::Sys { addr: 0x0E1 }));
}

#[test]
fn decodes_jumps_and_calls() {
    assert_eq!(decode(0x1ABC), Some(Instruction::Jmp { addr: 0xABC }));
    assert_eq!(decode(0x2FFF), Some(Instruction::Call { addr: 0xFFF }));
    assert_eq!(decode(0xB210), Some(Instruction::JpV0 { addr: 0x210 }));
    assert_eq!(decode(0xA230), Some(Instruction::LdI { addr: 0x230 }));
}

#[test]
fn decodes_immediate_forms() {
    assert_eq!(decode(0x3A42), Some(Instruction::SeVx { x: 0xA, val: 0x42 }));
    assert_eq!(decode(0x4B00), Some(Instruction::SneVx { x: 0xB, val: 0x00 }));
    assert_eq!(decode(0x6005), Some(Instruction::LdVx { x: 0, val: 5 }));
    assert_eq!(decode(0x7FFF), Some(Instruction::AddVx { x: 0xF, val: 0xFF }));
    assert_eq!(decode(0xC10F), Some(Instruction::RndVx { x: 1, val: 0x0F }));
}

#[test]
fn decodes_register_forms() {
    assert_eq!(decode(0x5120), Some(Instruction::SeVxVy { x: 1, y: 2 }));
    assert_eq!(decode(0x9120), Some(Instruction::SneVxVy { x: 1, y: 2 }));
    assert_eq!(decode(0x8120), Some(Instruction::LdVxVy { x: 1, y: 2 }));
    assert_eq!(decode(0x8121), Some(Instruction::OrVxVy { x: 1, y: 2 }));
    assert_eq!(decode(0x8122), Some(Instruction::AndVxVy { x: 1, y: 2 }));
    assert_eq!(decode(0x8123), Some(Instruction::XorVxVy { x: 1, y: 2 }));
    assert_eq!(decode(0x8124), Some(Instruction::AddVxVy { x: 1, y: 2 }));
    assert_eq!(decode(0x8125), Some(Instruction::SubVxVy { x: 1, y: 2 }));
    assert_eq!(decode(0x8126), Some(Instruction::ShrVx { x: 1 }));
    assert_eq!(decode(0x8127), Some(Instruction::SubnVxVy { x: 1, y: 2 }));
    assert_eq!(decode(0x812E), Some(Instruction::ShlVx { x: 1 }));
    assert_eq!(decode(0xD125), Some(Instruction::DrwVxVy { x: 1, y: 2, n: 5 }));
}

#[test]
fn decodes_keypad_timer_and_memory_forms() {
    assert_eq!(decode(0xE39E), Some(Instruction::SkpVx { x: 3 }));
    assert_eq!(decode(0xE3A1), Some(Instruction::SknpVx { x: 3 }));
    assert_eq!(decode(0xF007), Some(Instruction::LdVxDt { x: 0 }));
    assert_eq!(decode(0xF40A), Some(Instruction::LdVxK { x: 4 }));
    assert_eq!(decode(0xF515), Some(Instruction::LdDtVx { x: 5 }));
    assert_eq!(decode(0xF618), Some(Instruction::LdStVx { x: 6 }));
    assert_eq!(decode(0xF71E), Some(Instruction::AddIVx { x: 7 }));
    assert_eq!(decode(0xF829), Some(Instruction::LdFVx { x: 8 }));
    assert_eq!(decode(0xF933), Some(Instruction::LdBVx { x: 9 }));
    assert_eq!(decode(0xFA55), Some(Instruction::LdIVx { x: 0xA }));
    assert_eq!(decode(0xFB65), Some(Instruction::LdVxI { x: 0xB }));
}

#[test]
fn rejects_words_that_encode_nothing() {
    assert_eq!(decode(0x5121), None);
    assert_eq!(decode(0x9125), None);
    assert_eq!(decode(0x8128), None);
    assert_eq!(decode(0x812F), None);
    assert_eq!(decode(0xE390), None);
    assert_eq!(decode(0xE3A0), None);
    assert_eq!(decode(0xE000), None);
    assert_eq!(decode(0xF000), None);
    assert_eq!(decode(0xF020), None);
    assert_eq!(decode(0xF0FF), None);
}

#[test]
fn every_word_decodes_within_field_ranges() {
    let mut known: u32 = 0;
    for word in 0..=0xFFFFu32 {
        if let Some(instr) = decode(word as u16) {
            known += 1;
            match instr {
                Instruction::Sys { addr }
                | Instruction::Jmp { addr }
                | Instruction::Call { addr }
                | Instruction::LdI { addr }
                | Instruction::JpV0 { addr } => assert!(addr < 0x1000),
                Instruction::DrwVxVy { x, y, n } => assert!(x < 16 && y < 16 && n < 16),
                _ => {}
            }
        }
    }
    // families 0-4, 6, 7, A-D whole: 11 * 4096; 5 and 9: 256 each;
    // 8: 9 * 256; E: 2 * 16; F: 9 * 16
    assert_eq!(known, 11 * 4096 + 2 * 256 + 9 * 256 + 2 * 16 + 9 * 16);
}
