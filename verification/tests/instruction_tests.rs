use chip8::instruction::Instruction;

#[test]
fn decode_splits_every_field() {
    let instruction = Instruction::new(&[0xAB, 0xCD]);
    assert_eq!(instruction.first_nibble(), 0xA);
    assert_eq!(instruction.second_nibble(), 0xB);
    assert_eq!(instruction.third_nibble(), 0xC);
    assert_eq!(instruction.fourth_nibble(), 0xD);
    assert_eq!(instruction.x(), 0xB);
    assert_eq!(instruction.y(), 0xC);
    assert_eq!(instruction.kk(), 0xCD);
    assert_eq!(instruction.nnn(), 0xBCD);
    assert_eq!(instruction.nibbles_lo(), (0xA, 0xB, 0xC, 0xD));
}

#[test]
fn decode_all_bits_set() {
    let instruction = Instruction::new(&[0xFF, 0xFF]);
    assert_eq!(instruction.nibbles_lo(), (0xF, 0xF, 0xF, 0xF));
    assert_eq!(instruction.kk(), 0xFF);
    assert_eq!(instruction.nnn(), 0xFFF);
}

#[test]
fn decode_all_bits_clear() {
    let instruction = Instruction::new(&[0x00, 0x00]);
    assert_eq!(instruction.nibbles_lo(), (0, 0, 0, 0));
    assert_eq!(instruction.kk(), 0);
    assert_eq!(instruction.nnn(), 0);
}

#[test]
fn decode_matches_word_masks() {
    // nnn == w & 0x0FFF, kk == w & 0x00FF, x == (w>>8)&0xF, y == (w>>4)&0xF,
    // n == w & 0xF, spot-checked over a spread of words.
    let words: [u16; 6] = [0x0000, 0x1234, 0x8ACE, 0xD01F, 0xF065, 0xFFFF];
    for w in words {
        let bytes = [(w >> 8) as u8, (w & 0xFF) as u8];
        let instruction = Instruction::new(&bytes);
        let (op, x, y, n) = instruction.nibbles_lo();
        assert_eq!(op as u16, (w >> 12) & 0xF);
        assert_eq!(x as u16, (w >> 8) & 0xF);
        assert_eq!(y as u16, (w >> 4) & 0xF);
        assert_eq!(n as u16, w & 0xF);
        assert_eq!(instruction.kk() as u16, w & 0x00FF);
        assert_eq!(instruction.nnn(), w & 0x0FFF);
    }
}
