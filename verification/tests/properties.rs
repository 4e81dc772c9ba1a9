//! Behavioural properties of the sweep: coverage, determinism, label
//! resolution, and robustness on arbitrary input.

use disasm::decode::{Bytes, DecodeError};
use disasm::instruction::{Extension, ModRM, OpEn, Sib};
use disasm::opcodes::{ins0, ins1};
use disasm::operands::{
    Displacement, EffectiveAddress, Immediate, Offset, Register, Scale,
};
use disasm::output::Disassembly;

/// A small deterministic pseudo-random generator for the fuzz runs.
struct Lcg(u64);

impl Lcg {
    fn next_byte(&mut self) -> u8 {
        self.0 = self.0.wrapping_mul(6364136223846793005).wrapping_add(1442695040888963407);
        (self.0 >> 33) as u8
    }
}

fn generate_random_bytes(size: usize, rng: &mut Lcg) -> Vec<u8> {
    let mut random = vec![0u8; size];
    for b in random.iter_mut() {
        *b = rng.next_byte();
    }
    random
}

/// Uniformly random buffers decode without panicking, and the listing
/// never holds more lines than the buffer has bytes.
#[test]
fn random_bytes_as_input() {
    let mut rng = Lcg(0x5DEECE66D);
    (0..71).step_by(3) // prime bound with prime step.
        .for_each(|i| {
            let bytes = generate_random_bytes(i, &mut rng);
            let output = Disassembly::from_bytes(&bytes);

            // We may have generated a valid multi-byte instruction, which
            // reduces the line count, but never below half for these sizes.
            assert!(output.line_count() <= i);
            assert!((i / 2) <= output.line_count());
        });
}

/// Decoding the same buffer twice yields identical listings.
#[test]
fn decode_is_idempotent() {
    let bytes: Vec<u8> = vec![0x68, 0xDD, 0xCC, 0xBB, 0xAA, 0x40, 0x00, 0xE8, 0x06, 0x00];
    let a = Disassembly::from_bytes(&bytes);
    let b = Disassembly::from_bytes(&bytes);
    assert_eq!(a.render(), b.render());
    assert_eq!(a.line_count(), b.line_count());
}

/// Every input byte lands in exactly one line: a multi-byte decode is
/// followed by the next line at the first byte past it.
#[test]
fn lines_partition_the_stream() {
    let bytes: Vec<u8> = vec![0x68, 0xDD, 0xCC, 0xBB, 0xAA, 0x40];
    let output = Disassembly::from_bytes(&bytes);
    let expected = vec![
        "00000000: 68 DD CC BB AA     push 0xAABBCCDD".to_string(),
        "00000005: 40".to_string() + &" ".repeat(17) + "inc eax",
    ]
    .join("\n");
    assert_eq!(output.render(), expected);
    assert_eq!(output.line_count(), 2);
}

/// A decoded instruction claims its whole byte window: no line starts
/// inside it.
#[test]
fn no_line_inside_an_instruction() {
    let bytes: Vec<u8> = vec![0xFF, 0x84, 0x03, 0xDD, 0xCC, 0xBB, 0xAA, 0xC3];
    let output = Disassembly::from_bytes(&bytes);
    let expected = vec![
        "00000000: FF 84 03 DD CC BB AA     inc [ eax + ebx + 0xAABBCCDD ]".to_string(),
        "00000007: C3".to_string() + &" ".repeat(23) + "retn",
    ]
    .join("\n");
    assert_eq!(output.render(), expected);
}

/// An in-range branch target is marked with a label line; out-of-range
/// targets are dropped.
#[test]
fn labels_mark_in_range_targets() {
    let bytes: Vec<u8> = vec![0x74, 0x00, 0xC3];
    let output = Disassembly::from_bytes(&bytes);
    let expected = vec![
        "00000000: 74 00     jz offset_00000002h".to_string(),
        "offset_00000002h:".to_string(),
        "00000002: C3".to_string() + &" ".repeat(8) + "retn",
    ]
    .join("\n");
    assert_eq!(output.render(), expected);

    // Target 0x11 lies outside a two-byte stream and makes no label line.
    let bytes: Vec<u8> = vec![0x74, 0x0F];
    let output = Disassembly::from_bytes(&bytes);
    assert_eq!(output.render(), "00000000: 74 0F     jz offset_00000011h");
}

/// An empty stream yields an empty listing.
#[test]
fn empty_input() {
    let bytes: Vec<u8> = vec![];
    let output = Disassembly::from_bytes(&bytes);
    assert_eq!(output.render(), "");
    assert_eq!(output.line_count(), 0);
}

/// A truncated instruction falls back to unknown-byte lines.
#[test]
fn truncated_instruction_degrades_to_unknown() {
    let bytes: Vec<u8> = vec![0x68, 0xDD];
    let output = Disassembly::from_bytes(&bytes);
    let expected = vec!["00000000: 68     db 0x68", "00000001: DD     db 0xDD"].join("\n");
    assert_eq!(output.render(), expected);
}

/// A two-byte opcode is told apart by its second byte.
#[test]
fn second_opcode_byte_disambiguates() {
    let bytes: Vec<u8> = vec![0x0F, 0x85, 0x00, 0x00, 0x00, 0x00];
    let output = Disassembly::from_bytes(&bytes);
    assert_eq!(output.render(), "00000000: 0F 85 00 00 00 00     jnz offset_00000006h");
}

#[test]
fn error_unknown_opcode() {
    let r = Bytes::from(
        Offset(0),
        &[0x91],
        &ins0("nop", vec![0x90], OpEn::ZO),
    );
    assert_eq!(r, Err(DecodeError::UnknownOpcode));
}

#[test]
fn error_no_bytes_present() {
    let r = Bytes::from(Offset(0), &[], &ins0("nop", vec![0x90], OpEn::ZO));
    assert_eq!(r, Err(DecodeError::NoBytesPresent));
}

#[test]
fn error_invalid_register() {
    assert_eq!(Register::from_code(8), Err(DecodeError::InvalidRegister));
}

#[test]
fn error_invalid_sib() {
    assert_eq!(Scale::from_code(4), Err(DecodeError::InvalidSib));

    // RM = ESP under an indirect MOD demands a SIB byte.
    let modrm = ModRM::from_byte(0x04);
    let r = EffectiveAddress::from(modrm, None, Displacement::Absent);
    assert_eq!(r, Err(DecodeError::InvalidSib));
}

#[test]
fn error_invalid_length() {
    assert_eq!(Displacement::disp32(&[0x01, 0x02], 0), Err(DecodeError::InvalidLength));
    assert_eq!(Displacement::disp8(&[], 0), Err(DecodeError::InvalidLength));
}

#[test]
fn error_invalid_displacement_byte_width() {
    // The [disp32] form (MOD = 00, RM = EBP) demands a four-byte
    // displacement.
    let modrm = ModRM::from_byte(0x05);
    let r = EffectiveAddress::from(modrm, None, Displacement::Absent);
    assert_eq!(r, Err(DecodeError::InvalidDisplacementByteWidth));

    // A SIB form whose MOD calls for a displacement rejects an absent one.
    let modrm = ModRM::from_byte(0x44);
    let sib = Sib::from_byte(0x00);
    let r = EffectiveAddress::from(modrm, Some(sib), Displacement::Absent);
    assert_eq!(r, Err(DecodeError::InvalidDisplacementByteWidth));
}

/// The builder stores the displacement as handed in; it does not police
/// its width against the MOD field.
#[test]
fn effective_address_keeps_the_displacement_as_handed() {
    let modrm = ModRM::from_byte(0x41);
    let r = EffectiveAddress::from(modrm, None, Displacement::Abs32(5));
    assert_eq!(
        r,
        Ok(EffectiveAddress::BaseDisp { base: Register::ECX, displacement: Displacement::Abs32(5) })
    );
}

/// The direct-register form carries no displacement and reads nothing,
/// whatever the index.
#[test]
fn decode_memory_direct_register_reads_nothing() {
    let modrm = ModRM::from_byte(0xC2);
    let r = Bytes::decode_memory(&[], 99, modrm, None);
    assert_eq!(r, Ok(disasm::operands::Operand::Register(Register::EDX)));
}

/// A supplied SIB byte is counted even where the addressing form does
/// not announce one; only the two impossible combinations are rejected.
#[test]
fn bytes_remaining_counts_a_supplied_sib() {
    let sib = Sib::from_byte(0x00);

    // MOD = 01 with RM = ECX: one displacement byte, plus the SIB.
    assert_eq!(ModRM::from_byte(0x41).bytes_remaining(Some(sib)), Ok(2));
    // MOD = 11: no displacement, the SIB alone.
    assert_eq!(ModRM::from_byte(0xC1).bytes_remaining(Some(sib)), Ok(1));
    // MOD = 00 with RM = ESP and a SIB whose base is EBP: disp32 follows.
    assert_eq!(
        ModRM::from_byte(0x04).bytes_remaining(Some(Sib::from_byte(0x05))),
        Ok(5)
    );
    // The [disp32] form takes no SIB byte.
    assert_eq!(
        ModRM::from_byte(0x05).bytes_remaining(Some(sib)),
        Err(DecodeError::InvalidSib)
    );
    // MOD = 00 with RM = ESP announces a SIB byte; none was supplied.
    assert_eq!(ModRM::from_byte(0x04).bytes_remaining(None), Err(DecodeError::InvalidSib));
}

#[test]
fn error_invalid_modrm() {
    // 0x8F demands ModR/M.REG = 0; a REG of 1 is rejected.
    let rules = disasm::opcodes::DecodeRules::get(&0x8F).unwrap();
    let r = rules[0].modrm_byte(0x08);
    assert_eq!(r, Err(DecodeError::InvalidModRM));
}

#[test]
fn error_invalid_addressing_mode() {
    // LEA permits no direct-register form.
    let rules = disasm::opcodes::DecodeRules::get(&0x8D).unwrap();
    let modrm = ModRM::from_byte(0xC0);
    let r = rules[0].validate_addressing_mode(modrm);
    assert_eq!(r, Err(DecodeError::InvalidAddressingMode));
}

#[test]
fn error_decode_failure() {
    // An immediate read demands a width tag among the extensions.
    let r = Bytes::decode_immediate(&[0x01], 0, vec![Extension::SR]);
    assert_eq!(r, Err(DecodeError::DecodeFailure));
}

#[test]
fn error_invalid_address() {
    let mut output = Disassembly::new(0);
    let r = output.add(Bytes::Uknown(0x00));
    assert_eq!(r, Err(DecodeError::InvalidAddress(0)));
    let r = output.label(Offset(3));
    assert_eq!(r, Err(DecodeError::InvalidAddress(3)));
}

#[test]
fn error_invalid_opcode_extension() {
    // A no-operand rule carries no extensions.
    let r = Bytes::from(
        Offset(0),
        &[0x90],
        &ins1("nop", vec![0x90], vec![Extension::IB], OpEn::ZO),
    );
    assert_eq!(r, Err(DecodeError::InvalidOpCodeExtension));
}

#[test]
fn error_invalid_opcode_length() {
    // An immediate-form rule carries a single opcode byte.
    let r = Bytes::from(
        Offset(0),
        &[0x0F, 0x84, 0x01],
        &ins1("jz", vec![0x0F, 0x84], vec![Extension::ID], OpEn::I),
    );
    assert_eq!(r, Err(DecodeError::InvalidOpCodeLength));
}

#[test]
fn immediate_rendering_is_big_endian() {
    assert_eq!(Immediate::Imm32(0xAABBCCDD).text(), "0xAABBCCDD");
    assert_eq!(Immediate::Imm8(0x03).text(), "0x03");
    assert_eq!(Immediate::Imm32(0xAABBCCDD).raw_bytes(), vec![0xDD, 0xCC, 0xBB, 0xAA]);
}

#[test]
fn offset_rendering() {
    assert_eq!(Offset(0xAB).text(), "offset_000000ABh");
}

#[test]
fn displacement_rendering_sign_extends() {
    assert_eq!(Displacement::Abs8(0x30).text(), "0x00000030");
    assert_eq!(Displacement::Abs8(0x80).text(), "0xFFFFFF80");
    assert_eq!(Displacement::Abs32(0xAABBCCDD).text(), "0xAABBCCDD");
}

#[test]
fn retn_with_word_immediate() {
    let bytes: Vec<u8> = vec![0xC2, 0x10, 0x00];
    let output = Disassembly::from_bytes(&bytes);
    assert_eq!(output.render(), "00000000: C2 10 00     retn 0x0010");
}

#[test]
fn moffs_forms_use_implicit_eax() {
    let bytes: Vec<u8> = vec![0xA1, 0xDD, 0xCC, 0xBB, 0xAA];
    let output = Disassembly::from_bytes(&bytes);
    assert_eq!(output.render(), "00000000: A1 DD CC BB AA     mov eax, [ 0xAABBCCDD ]");

    let bytes: Vec<u8> = vec![0xA3, 0xDD, 0xCC, 0xBB, 0xAA];
    let output = Disassembly::from_bytes(&bytes);
    assert_eq!(output.render(), "00000000: A3 DD CC BB AA     mov [ 0xAABBCCDD ], eax");
}

#[test]
fn clflush_two_byte_opcode() {
    let bytes: Vec<u8> = vec![0x0F, 0xAE, 0x38];
    let output = Disassembly::from_bytes(&bytes);
    assert_eq!(output.render(), "00000000: 0F AE 38     clflush [ eax ]");
}
