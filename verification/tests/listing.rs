//! Building and rendering listings by hand.

use disasm::decode::Bytes;
use disasm::instruction::Instruction;
use disasm::operands::{Offset, Operand, Register};
use disasm::output::Disassembly;

#[test]
fn single_line() {
    let expected = vec!["00000000: 74 0F     jz offset_00000018h"].join("\n");
    let mut output = Disassembly::new(11);

    let mut instruction = Instruction::new("jz");
    instruction.add(Operand::Label(Offset(0x18)));

    let jz = Bytes::Decoded { bytes: vec![0x74, 0x0F], instruction: instruction.clone() };

    let _ = output.add(jz);
    assert_eq!(output.render(), expected);
}

#[test]
fn unknown_byte() {
    let expected = vec![
        "00000000: 58     pop eax",
        "00000001: 8F     db 0x8F",
        "00000002: C0     db 0xC0",
    ]
    .join("\n");

    let mut instruction = Instruction::new("pop");
    instruction.add(Operand::Register(Register::EAX));
    let pop = Bytes::Decoded { bytes: vec![0x58], instruction: instruction.clone() };
    let ub1 = Bytes::Uknown(0x8f);
    let ub2 = Bytes::Uknown(0xC0);
    let mut output = Disassembly::new(3);

    let _ = output.add(pop);
    let _ = output.add(ub1);
    let _ = output.add(ub2);

    assert_eq!(output.render(), expected);
}

#[test]
fn multiple_line() {
    let expected = vec![
        "00000000: 74 0F     jz offset_00000018h",
        "00000002: 01 D1     add ecx, edx",
    ]
    .join("\n");

    let mut jz = Instruction::new("jz");
    jz.add(Operand::Label(Offset(0x18)));
    println!("{}", jz.text());
    let jz = Bytes::Decoded { bytes: vec![0x74, 0x0F], instruction: jz.clone() };

    let mut add = Instruction::new("add");
    add.add(Operand::Register(Register::ECX)).add(Operand::Register(Register::EDX));
    println!("{}", add.text());
    let add = Bytes::Decoded { bytes: vec![0x01, 0xD1], instruction: add.clone() };

    let mut output = Disassembly::new(11);

    let _ = output.add(jz);
    let _ = output.add(add);

    assert_eq!(output.render(), expected);
}

#[test]
fn with_label() {
    let expected = vec![
        "00000000: 74 0F     jz offset_00000018h",
        "offset_00000002h:",
        "00000002: 01 D1     add ecx, edx",
    ]
    .join("\n");

    let mut jz = Instruction::new("jz");
    jz.add(Operand::Label(Offset(0x18)));
    let jz = Bytes::Decoded { bytes: vec![0x74, 0x0F], instruction: jz.clone() };

    let mut add = Instruction::new("add");
    add.add(Operand::Register(Register::ECX)).add(Operand::Register(Register::EDX));
    let add = Bytes::Decoded { bytes: vec![0x01, 0xD1], instruction: add.clone() };

    let mut output = Disassembly::new(11);

    let _ = output.add(jz);
    let _ = output.label(Offset(0x2));
    let _ = output.add(add);
    assert_eq!(output.render(), expected);
}
