use lc_3_vm::constants::{FL_NEG, FL_POS, FL_ZRO};
use lc_3_vm::memory::Memory;
use lc_3_vm::registers::Registers;
use lc_3_vm::utils::{add_offset, read_image_file, sign_extend, to_word, update_flags};
use lc_3_vm::vm_error::VmError;

#[test]
fn sign_extend_positive_values() {
    assert_eq!(sign_extend(0b00001, 5), 1);
    assert_eq!(sign_extend(0b01111, 5), 15);
    assert_eq!(sign_extend(0b011111, 6), 31);
    assert_eq!(sign_extend(0x0FF, 9), 255);
    assert_eq!(sign_extend(0x3FF, 11), 1023);
    assert_eq!(sign_extend(0, 5), 0);
}

#[test]
fn sign_extend_negative_values() {
    assert_eq!(sign_extend(0b11111, 5), -1);
    assert_eq!(sign_extend(0b10000, 5), -16);
    assert_eq!(sign_extend(0b100000, 6), -32);
    assert_eq!(sign_extend(0b111110, 6), -2);
    assert_eq!(sign_extend(0x1FF, 9), -1);
    assert_eq!(sign_extend(0x100, 9), -256);
    assert_eq!(sign_extend(0x1FB, 9), -5);
    assert_eq!(sign_extend(0x7FF, 11), -1);
    assert_eq!(sign_extend(0x400, 11), -1024);
}

#[test]
fn sign_extend_sets_the_bits_above_the_sign() {
    assert_eq!(sign_extend(0b11111, 5) as u16, 0xFFFF);
    assert_eq!(sign_extend(0b10000, 5) as u16, 0xFFF0);
    assert_eq!(sign_extend(0x1FB, 9) as u16, 0xFFFB);
    assert_eq!(sign_extend(0x400, 11) as u16, 0xFC00);
}

#[test]
fn sign_extend_looks_at_the_low_bits_only() {
    assert_eq!(sign_extend(0xFF0F, 5), 15);
    assert_eq!(sign_extend(0xFFFF, 5), -1);
    assert_eq!(sign_extend(0x1234, 9), 0x034);
    assert_eq!(sign_extend(0xF1FB, 9), -5);
}

#[test]
fn sign_extend_at_the_ends_of_its_range() {
    assert_eq!(sign_extend(0, 1), 0);
    assert_eq!(sign_extend(1, 1), -1);
    assert_eq!(sign_extend(0x7FFF, 16), 0x7FFF);
    assert_eq!(sign_extend(0x8000, 16), i16::MIN);
    assert_eq!(sign_extend(0xFFFF, 16), -1);
    assert_eq!(sign_extend(0x7FFF, 15), -1);
    assert_eq!(sign_extend(0x3FFF, 15), 0x3FFF);
}

#[test]
fn sign_extend_is_idempotent() {
    for bit_count in [5u16, 6, 9, 11] {
        for x in 0..=0xFFFFu16 {
            let once = sign_extend(x, bit_count);
            assert_eq!(sign_extend(once as u16, bit_count), once);
        }
    }
}

#[test]
fn sign_extend_is_idempotent_for_every_width() {
    for bit_count in 1..=16u16 {
        for x in [0u16, 1, 0x00FF, 0x0100, 0x7FFF, 0x8000, 0xABCD, 0xFFFF] {
            let once = sign_extend(x, bit_count);
            assert_eq!(sign_extend(once as u16, bit_count), once);
        }
    }
}

#[test]
fn add_offset_wraps() {
    assert_eq!(add_offset(0x3000, 5), 0x3005);
    assert_eq!(add_offset(0x3000, -5), 0x2FFB);
    assert_eq!(add_offset(0xFFFF, 1), 0x0000);
    assert_eq!(add_offset(0x0000, -1), 0xFFFF);
    assert_eq!(add_offset(0x8000, i16::MIN), 0x0000);
    assert_eq!(add_offset(0xFFFF, i16::MAX), 0x7FFE);
    assert_eq!(add_offset(0x1234, 0), 0x1234);
}

#[test]
fn to_word_gives_the_bit_pattern() {
    assert_eq!(to_word(0), 0);
    assert_eq!(to_word(1), 1);
    assert_eq!(to_word(-1), 0xFFFF);
    assert_eq!(to_word(-16), 0xFFF0);
    assert_eq!(to_word(i16::MIN), 0x8000);
    assert_eq!(to_word(i16::MAX), 0x7FFF);
}

#[test]
fn update_flags_follows_the_register() {
    let mut registers = Registers::new();
    registers.set(2, 0).unwrap();
    update_flags(&mut registers, 2).unwrap();
    assert_eq!(registers.cond, FL_ZRO);
    registers.set(2, 0x8000).unwrap();
    update_flags(&mut registers, 2).unwrap();
    assert_eq!(registers.cond, FL_NEG);
    registers.set(2, 0x7FFF).unwrap();
    update_flags(&mut registers, 2).unwrap();
    assert_eq!(registers.cond, FL_POS);
}

#[test]
fn update_flags_refuses_invalid_index() {
    let mut registers = Registers::new();
    match update_flags(&mut registers, 12) {
        Err(VmError::InvalidRegister(msg)) => assert_eq!(msg, "Invalid registers at get"),
        other => panic!("expected an invalid register, got {:?}", other),
    }
    assert_eq!(registers.cond, FL_ZRO);
}

#[test]
fn read_image_file_places_big_endian_words() {
    let mut memory = Memory::new();
    let image = [0x30, 0x00, 0x12, 0x34, 0xAB, 0xCD, 0x00, 0xFF];
    read_image_file(&image, &mut memory).unwrap();
    assert_eq!(memory.read(0x3000, None), 0x1234);
    assert_eq!(memory.read(0x3001, None), 0xABCD);
    assert_eq!(memory.read(0x3002, None), 0x00FF);
    assert_eq!(memory.read(0x3003, None), 0);
    assert_eq!(memory.read(0x2FFF, None), 0);
}

#[test]
fn read_image_file_reads_the_origin_high_byte_first() {
    let mut memory = Memory::new();
    let image = [0x01, 0x02, 0x03, 0x04];
    read_image_file(&image, &mut memory).unwrap();
    assert_eq!(memory.read(0x0102, None), 0x0304);
    assert_eq!(memory.read(0x0201, None), 0);
}

#[test]
fn read_image_file_keeps_the_rest_of_memory() {
    let mut memory = Memory::new();
    memory.write(0x2FFF, 0x1111);
    memory.write(0x3000, 0x2222);
    memory.write(0x3001, 0x3333);
    let image = [0x30, 0x00, 0xAA, 0xBB];
    read_image_file(&image, &mut memory).unwrap();
    assert_eq!(memory.read(0x2FFF, None), 0x1111);
    assert_eq!(memory.read(0x3000, None), 0xAABB);
    assert_eq!(memory.read(0x3001, None), 0x3333);
}

#[test]
fn read_image_file_with_origin_only() {
    let mut memory = Memory::new();
    let image = [0x30, 0x00];
    read_image_file(&image, &mut memory).unwrap();
    assert!(memory.memory.iter().all(|&word| word == 0));
}

#[test]
fn read_image_file_ignores_a_last_odd_byte() {
    let mut memory = Memory::new();
    let image = [0x30, 0x00, 0x12, 0x34, 0x56];
    read_image_file(&image, &mut memory).unwrap();
    assert_eq!(memory.read(0x3000, None), 0x1234);
    assert_eq!(memory.read(0x3001, None), 0);
}

#[test]
fn read_image_file_refuses_an_image_without_origin() {
    let mut memory = Memory::new();
    memory.write(0x3000, 0x7777);
    for image in [&[][..], &[0x30][..]] {
        match read_image_file(image, &mut memory) {
            Err(VmError::FailedToReadBigEndian(msg)) => {
                assert_eq!(msg, "failed to fill whole buffer")
            }
            other => panic!("expected a failed read, got {:?}", other),
        }
    }
    assert_eq!(memory.read(0x3000, None), 0x7777);
}

#[test]
fn read_image_file_fills_up_to_the_last_address() {
    let mut memory = Memory::new();
    let image = [0xFF, 0xFE, 0x00, 0x01, 0x00, 0x02];
    read_image_file(&image, &mut memory).unwrap();
    assert_eq!(memory.read(0xFFFE, None), 1);
    assert_eq!(memory.read(0xFFFF, None), 2);
    assert_eq!(memory.read(0x0000, None), 0);
}

#[test]
fn read_image_file_refuses_to_wrap() {
    let mut memory = Memory::new();
    memory.write(0x0000, 0x5555);
    let image = [0xFF, 0xFF, 0x00, 0x01, 0x00, 0x02, 0x00, 0x03];
    match read_image_file(&image, &mut memory) {
        Err(VmError::FailedToReadBigEndian(msg)) => {
            assert_eq!(msg, "Address overflow while reading image file")
        }
        other => panic!("expected an overflow, got {:?}", other),
    }
    assert_eq!(memory.read(0xFFFF, None), 1);
    assert_eq!(memory.read(0x0000, None), 0x5555);
    assert_eq!(memory.read(0x0001, None), 0);
}
