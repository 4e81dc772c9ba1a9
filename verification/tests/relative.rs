//! Sign-extension helpers and relative-target arithmetic.

use disasm::operands::{byte_to_double_with_sign_extend, Displacement, Offset};

#[test]
fn rel8_calculation() {
    let expected_a = 0x80;

    let address = Offset(0x10);
    let opcode_length: u32 = 1;
    let operand: &[u8] = &[0x6E];
    let base = address.0 + opcode_length + operand.len() as u32;
    println!("{base:x}");

    let displacement = <[u8; 1]>::try_from(operand).unwrap();
    let displacement = byte_to_double_with_sign_extend(displacement);
    let displacement = u32::from_be_bytes(displacement);
    println!("{displacement:x}");
    let target = displacement + base;
    println!("{target:x} ?= {expected_a:x}");
    assert_eq!(target, expected_a);
}

#[test]
fn rel32_calculation() {
    let expected_a = 0xAABBCCDD;

    let address = Offset(0x1000);
    let opcode_length: u32 = 1;
    let operand: &[u8] = &[0xAA, 0xBB, 0xBC, 0xD8];
    let base = address.0 + opcode_length + operand.len() as u32;
    println!("{base:x}");

    let displacement = <[u8; 4]>::try_from(operand).unwrap();
    let displacement = u32::from_be_bytes(displacement);
    println!("{displacement:x}");
    let target = displacement + base;
    println!("{target:x} ?= {expected_a:x}");
    assert_eq!(target, expected_a);
}

#[test]
fn from_byte_relative_wraps_at_eight_bits() {
    let d = Displacement::from_byte_relative(Offset(0x10), 1, &[0x6E]);
    assert_eq!(d, Displacement::Rel8(0x80));

    // The eight-bit form truncates: 0xF0 + 0x20 + 1 + 1 wraps past 0xFF.
    let d = Displacement::from_byte_relative(Offset(0x20), 1, &[0xF0]);
    assert_eq!(d, Displacement::Rel8(0x12));
}

#[test]
fn from_double_relative_wraps_at_thirty_two_bits() {
    let d = Displacement::from_double_relative(Offset(0x1000), 1, &[0xAA, 0xBB, 0xBC, 0xD8]);
    assert_eq!(d, Displacement::Rel32((0xD8BCBBAAu32).wrapping_add(0x1005)));

    let d = Displacement::from_double_relative(Offset(0xFFFFFFFF), 1, &[0x10, 0x00, 0x00, 0x00]);
    assert_eq!(d, Displacement::Rel32(0x14));
}

#[test]
fn abs_to_rel_conversions() {
    let d = Displacement::Abs8(0x10).abs_to_rel(Offset(0x20), 1).unwrap();
    assert_eq!(d, Displacement::Rel8(0x32));

    let d = Displacement::Abs32(0x10).abs_to_rel(Offset(0x20), 1).unwrap();
    assert_eq!(d, Displacement::Rel32(0x35));

    let d = Displacement::Rel16(0x1234).abs_to_rel(Offset(0x20), 1).unwrap();
    assert_eq!(d, Displacement::Rel16(0x1234));

    let e = Displacement::Absent.abs_to_rel(Offset(0), 0);
    assert_eq!(e, Err(disasm::decode::DecodeError::InvalidDisplacementByteWidth));
}
