//! Decode errors, decode rules, and the instruction decoder.

use vstd::prelude::*;
use vstd::string::*;

use crate::instruction::{
    AddressingModes, ExtSet, Extension, Instruction, InstructionModel, ModBits, ModRM, OpCode,
    OpEn, Prefix, Sib, is_label_mnemonic, spec_get_sdigit, spec_is_label_mnemonic,
    spec_modrm_of_byte, spec_register_code, spec_sib_of_byte,
};
use crate::operands::{
    Displacement, EffectiveAddress, Immediate, Offset, Operand, Register, le16_at, le32_at,
    rel_target_u32, spec_effective_address, spec_le16, spec_le32, spec_register_of_code,
    spec_sext8, spec_sext16, wrap_u32,
};
use crate::strutil::{hex_str, spec_hex_seq};

verus! {

/// Everything that can go wrong while trying one candidate decode.
///
/// These are decode-local: the driver absorbs them silently and tries the
/// next candidate rule; if none remain, the byte becomes an unknown line.
#[derive(Clone, Copy, Debug, PartialEq, Eq, Structural)]
pub enum DecodeError {
    DecodeFailure,
    NoBytesPresent,
    UnknownOpcode,
    InvalidModRM,
    InvalidSib,
    InvalidLength,
    InvalidAddressingMode,
    InvalidOpCodeExtension,
    InvalidOpCodeLength,
    InvalidRegister,
    InvalidAddress(u32),
    InvalidDisplacementByteWidth,
}

/// The mathematical model of a decode rule.
#[verifier::ext_equal]
pub ghost struct RuleModel {
    pub mnemonic: Seq<char>,
    pub prefix: Option<u8>,
    pub opcode: Seq<u8>,
    pub extensions: Option<Seq<Extension>>,
    pub encoding: OpEn,
    pub modes: Option<Seq<u8>>,
}

/// One candidate interpretation of a byte sequence: mnemonic, optional
/// legacy prefix, opcode byte(s), optional opcode extension set,
/// operand-encoding kind, and permitted ModR/M MOD-field values.
#[derive(Clone, Debug, PartialEq, Eq)]
pub struct DecodeRule(
    pub &'static str,
    pub Option<Prefix>,
    pub OpCode,
    pub Option<ExtSet>,
    pub OpEn,
    pub Option<AddressingModes>,
);

impl View for DecodeRule {
    type V = RuleModel;

    open spec fn view(&self) -> RuleModel {
        RuleModel {
            mnemonic: self.0@,
            prefix: match self.1 {
                Some(p) => Some(p.0),
                None => None,
            },
            opcode: self.2.0@,
            extensions: match self.3 {
                Some(ref e) => Some(e.0@),
                None => None,
            },
            encoding: self.4,
            modes: match self.5 {
                Some(ref m) => Some(m.0@),
                None => None,
            },
        }
    }
}

/// The sum of the operand byte widths that a rule's extension list
/// demands.
pub open spec fn spec_ext_sum(exts: Seq<Extension>) -> nat
    decreases exts.len(),
{
    if exts.len() == 0 {
        0
    } else {
        (match exts[0].spec_operand_length() {
            Some(l) => l,
            None => 0,
        }) + spec_ext_sum(exts.drop_first())
    }
}

/// The width of the code-offset operand of a D-encoded rule: the first
/// extension that names a nonzero operand width.
pub open spec fn spec_d_width(exts: Seq<Extension>) -> nat
    decreases exts.len(),
{
    if exts.len() == 0 {
        0
    } else {
        match exts[0].spec_operand_length() {
            Some(l) => if l > 0 {
                l
            } else {
                spec_d_width(exts.drop_first())
            },
            None => spec_d_width(exts.drop_first()),
        }
    }
}

/// Computes the width of the code-offset operand of a D-encoded rule.
fn d_width(exts: &Vec<Extension>) -> (r: usize)
    ensures
        r == spec_d_width(exts@),
        r <= 4,
{
    let mut i: usize = 0;
    proof {
        assert(exts@.skip(0) =~= exts@);
        lemma_d_width_bound(exts@);
    }
    while i < exts.len()
        invariant
            i <= exts@.len(),
            spec_d_width(exts@) == spec_d_width(exts@.skip(i as int)),
            spec_d_width(exts@) <= 4,
        decreases exts@.len() - i,
    {
        proof {
            assert(exts@.skip(i as int)[0] == exts@[i as int]);
            assert(exts@.skip(i as int).drop_first() =~= exts@.skip(i + 1));
        }
        match exts[i].operand_length() {
            Some(l) => {
                if l > 0 {
                    return l;
                }
            },
            None => {},
        }
        i += 1;
    }
    proof {
        assert(exts@.skip(i as int).len() == 0);
    }
    0
}

proof fn lemma_d_width_bound(exts: Seq<Extension>)
    ensures
        spec_d_width(exts) <= 4,
    decreases exts.len(),
{
    if exts.len() > 0 {
        lemma_d_width_bound(exts.drop_first());
    }
}

proof fn lemma_ext_sum_bound(exts: Seq<Extension>)
    ensures
        spec_ext_sum(exts) <= 4 * exts.len(),
    decreases exts.len(),
{
    if exts.len() > 0 {
        lemma_ext_sum_bound(exts.drop_first());
    }
}

/// The minimum byte length a rule demands: prefix, opcode, ModR/M if
/// required, and the operand bytes its width tags announce. Definitive
/// unless a ModR/M (whose addressing form can add SIB and displacement
/// bytes) takes part.
pub open spec fn spec_min_len(rule: RuleModel) -> nat {
    (if rule.prefix is Some {
        1nat
    } else {
        0nat
    }) + rule.opcode.len() + (if rule.encoding.spec_modrm_required() {
        1nat
    } else {
        0nat
    }) + (match rule.extensions {
        Some(exts) => spec_ext_sum(exts),
        None => if rule.encoding == OpEn::FD || rule.encoding == OpEn::TD {
            4nat
        } else {
            0nat
        },
    })
}

/// Whether a rule's ModR/M constraints accept the given ModR/M byte:
/// the `/digit` demand on REG and the permitted MOD values.
pub open spec fn spec_modrm_check(rule: RuleModel, byte: u8) -> Result<ModRM, DecodeError> {
    let m = spec_modrm_of_byte(byte);
    if match rule.extensions {
        Some(exts) => match spec_get_sdigit(exts) {
            Some(e) => e.spec_sdigit() != Some(spec_register_code(m.1)),
            None => false,
        },
        None => false,
    } {
        Err(DecodeError::InvalidModRM)
    } else if match rule.modes {
        Some(ms) => !ms.contains(m.0.spec_code()),
        None => false,
    } {
        Err(DecodeError::InvalidModRM)
    } else {
        Ok(m)
    }
}

/// The register implied by an accumulator-form opcode, keyed by the
/// immediate width tag.
pub open spec fn spec_implicit_operand(rule: RuleModel) -> Option<Register> {
    if rule.encoding == OpEn::I && rule.extensions is Some && rule.opcode.len() > 0 && {
        let b = rule.opcode[0];
        b == 0x05 || b == 0x0D || b == 0x15 || b == 0x1D || b == 0x25 || b == 0x2D || b == 0x35
            || b == 0x3D || b == 0xA9
    } {
        let exts = rule.extensions->Some_0;
        if exts.contains(Extension::IB) {
            Some(Register::AL)
        } else if exts.contains(Extension::IW) {
            Some(Register::AX)
        } else if exts.contains(Extension::ID) {
            Some(Register::EAX)
        } else {
            None
        }
    } else {
        None
    }
}

impl DecodeRule {
    /// Splits the rule into copies of its parts.
    pub fn separate(&self) -> (r: (
        &'static str,
        Option<Prefix>,
        OpCode,
        Option<Vec<Extension>>,
        OpEn,
        Option<AddressingModes>,
    ))
        ensures
            r.0@ == self@.mnemonic,
            match r.1 {
                Some(p) => self@.prefix == Some(p.0),
                None => self@.prefix is None,
            },
            r.2.0@ == self@.opcode,
            match r.3 {
                Some(ref e) => self@.extensions == Some(e@),
                None => self@.extensions is None,
            },
            r.4 == self@.encoding,
            match r.5 {
                Some(ref m) => self@.modes == Some(m.0@),
                None => self@.modes is None,
            },
    {
        (self.0, self.1, self.op_code(), self.extensions(), self.4, self.address_modes())
    }

    /// Checks the MOD field of a parsed ModR/M byte against the rule's
    /// permitted addressing modes.
    pub fn validate_addressing_mode(&self, modrm: ModRM) -> (r: Result<(), DecodeError>)
        ensures
            r == if match self@.modes {
                Some(ms) => ms.contains(modrm.0.spec_code()),
                None => false,
            } {
                Ok::<(), DecodeError>(())
            } else {
                Err::<(), DecodeError>(DecodeError::InvalidAddressingMode)
            },
    {
        match &self.5 {
            Some(ms) => {
                let code = modrm.0.code();
                let mut i: usize = 0;
                while i < ms.0.len()
                    invariant
                        i <= ms.0@.len(),
                        self@.modes == Some(ms.0@),
                        code == modrm.0.spec_code(),
                        forall|j: int| 0 <= j < i ==> ms.0@[j] != code,
                    decreases ms.0@.len() - i,
                {
                    if ms.0[i] == code {
                        proof {
                            assert(ms.0@[i as int] == code);
                            assert(ms.0@.contains(code));
                            assert(self@.modes == Some(ms.0@));
                        }
                        return Ok(());
                    }
                    i += 1;
                }
                Err(DecodeError::InvalidAddressingMode)
            },
            None => Err(DecodeError::InvalidAddressingMode),
        }
    }

    /// Returns the minimum length needed to encode the instruction and
    /// whether that length is definitive: `(n, true)` means the length
    /// is exactly `n`; `(n, false)` means the ModR/M and SIB bytes may
    /// still add to it.
    pub fn len(&self) -> (r: (usize, bool))
        requires
            spec_min_len(self@) <= usize::MAX,
        ensures
            r.0 == spec_min_len(self@),
            r.1 == !self@.encoding.spec_modrm_required(),
    {
        let base: usize = if self.1.is_some() {
            1
        } else {
            0
        };
        let opl = self.2.0.len();
        let modrm: usize = if self.4.modrm_required() {
            1
        } else {
            0
        };
        let extra: u128 = match &self.3 {
            Some(exts) => {
                let mut sum: u128 = 0;
                let mut i: usize = 0;
                proof {
                    assert(exts.0@.skip(0) =~= exts.0@);
                    lemma_ext_sum_bound(exts.0@);
                }
                while i < exts.0.len()
                    invariant
                        i <= exts.0@.len(),
                        sum + spec_ext_sum(exts.0@.skip(i as int)) == spec_ext_sum(exts.0@),
                        sum <= 4 * i,
                    decreases exts.0@.len() - i,
                {
                    proof {
                        assert(exts.0@.skip(i as int)[0] == exts.0@[i as int]);
                        assert(exts.0@.skip(i as int).drop_first() =~= exts.0@.skip(i + 1));
                        lemma_ext_sum_bound(exts.0@.skip(i as int));
                    }
                    match exts.0[i].operand_length() {
                        Some(l) => {
                            sum = sum + l as u128;
                        },
                        None => {},
                    }
                    i += 1;
                }
                proof {
                    assert(exts.0@.skip(i as int).len() == 0);
                }
                sum
            },
            None => {
                match self.4 {
                    OpEn::FD | OpEn::TD => 4,
                    _ => 0,
                }
            },
        };
        let total: u128 = base as u128 + opl as u128 + modrm as u128 + extra;
        ((total as usize), !self.4.modrm_required())
    }

    /// Whether the rule's encoding reads a ModR/M byte.
    pub fn modrm_required(&self) -> (r: bool)
        ensures
            r == self@.encoding.spec_modrm_required(),
    {
        self.4.modrm_required()
    }

    /// Whether the rule carries opcode extensions.
    pub fn extensions_required(&self) -> (r: bool)
        ensures
            r == (self@.extensions is Some),
    {
        self.3.is_some()
    }

    /// Whether the rule constrains ModR/M.REG to a `/digit`.
    pub fn uses_sdigit(&self) -> (r: bool)
        ensures
            r == match self@.extensions {
                Some(exts) => spec_get_sdigit(exts) is Some,
                None => false,
            },
    {
        match &self.3 {
            Some(exts) => exts.get_sdigit().is_some(),
            None => false,
        }
    }

    /// Validates a byte as the ModR/M byte of this rule: splits it, and
    /// rejects it when the rule's `/digit` disagrees with REG or the MOD
    /// value is not among the rule's permitted addressing modes.
    #[verifier::loop_isolation(false)]
    pub fn modrm_byte(&self, byte: u8) -> (r: Result<ModRM, DecodeError>)
        ensures
            r == spec_modrm_check(self@, byte),
    {
        let modrm = ModRM::from_byte(byte);
        match &self.3 {
            Some(exts) => {
                match exts.get_sdigit() {
                    Some(e) => {
                        let rg = crate::instruction::register_code(modrm.1);
                        if !e.valid_sdigit(rg) {
                            return Err(DecodeError::InvalidModRM);
                        }
                    },
                    None => {},
                }
            },
            None => {},
        }
        match &self.5 {
            Some(ms) => {
                let code = modrm.0.code();
                let mut i: usize = 0;
                while i < ms.0.len()
                    invariant
                        i <= ms.0@.len(),
                        self@.modes == Some(ms.0@),
                        code == modrm.0.spec_code(),
                        forall|j: int| 0 <= j < i ==> ms.0@[j] != code,
                    decreases ms.0@.len() - i,
                {
                    if ms.0[i] == code {
                        proof {
                            assert(ms.0@[i as int] == code);
                            assert(ms.0@.contains(code));
                            assert(self@.modes == Some(ms.0@));
                        }
                        return Ok(modrm);
                    }
                    i += 1;
                }
                Err(DecodeError::InvalidModRM)
            },
            None => Ok(modrm),
        }
    }

    /// Returns the implicit accumulator operand of the immediate-form
    /// opcodes, if this rule has one.
    pub fn implicit_operand(&self) -> (r: Option<Register>)
        ensures
            r == spec_implicit_operand(self@),
    {
        if !matches!(self.4, OpEn::I) || self.3.is_none() || self.2.0.len() == 0 {
            return None;
        }
        let b = self.2.0[0];
        if !(b == 0x05 || b == 0x0D || b == 0x15 || b == 0x1D || b == 0x25 || b == 0x2D || b
            == 0x35 || b == 0x3D || b == 0xA9) {
            return None;
        }
        let exts = match &self.3 {
            Some(e) => e,
            None => {
                return None;
            },
        };
        if exts.contains(Extension::IB) {
            Some(Register::AL)
        } else if exts.contains(Extension::IW) {
            Some(Register::AX)
        } else if exts.contains(Extension::ID) {
            Some(Register::EAX)
        } else {
            None
        }
    }

    /// Whether a decoded instruction of this rule can attach a label to
    /// its target.
    pub fn can_make_label(&self) -> (r: bool)
        ensures
            r == spec_is_label_mnemonic(self@.mnemonic),
    {
        is_label_mnemonic(self.0)
    }

    /// The rule's mnemonic.
    pub fn mnemonic(&self) -> (r: &'static str)
        ensures
            r@ == self@.mnemonic,
    {
        self.0
    }

    /// A copy of the rule's opcode bytes.
    pub fn op_code(&self) -> (r: OpCode)
        ensures
            r.0@ == self@.opcode,
    {
        OpCode(self.2.0.clone())
    }

    /// A copy of the rule's extension list.
    pub fn extensions(&self) -> (r: Option<Vec<Extension>>)
        ensures
            match r {
                Some(ref e) => self@.extensions == Some(e@),
                None => self@.extensions is None,
            },
    {
        match &self.3 {
            Some(e) => Some(e.0.clone()),
            None => None,
        }
    }

    /// The rule's operand-encoding kind.
    pub fn op_encoding(&self) -> (r: OpEn)
        ensures
            r == self@.encoding,
    {
        self.4
    }

    /// A copy of the rule's permitted addressing modes.
    pub fn address_modes(&self) -> (r: Option<AddressingModes>)
        ensures
            match r {
                Some(ref m) => self@.modes == Some(m.0@),
                None => self@.modes is None,
            },
    {
        match &self.5 {
            Some(m) => Some(AddressingModes(m.0.clone())),
            None => None,
        }
    }
}

/// The mathematical model of one emitted line's payload.
#[verifier::ext_equal]
pub ghost enum BytesModel {
    /// Bytes representing a decoded instruction.
    Decoded { bytes: Seq<u8>, instruction: InstructionModel },
    /// An unknown byte or opcode.
    Uknown(u8),
    /// An illegal instruction byte.
    Illegal(u8),
    /// No payload.
    Empty,
}

impl BytesModel {
    /// The raw bytes the payload stands for.
    pub open spec fn spec_raw_bytes(self) -> Seq<u8> {
        match self {
            BytesModel::Decoded { bytes, .. } => bytes,
            BytesModel::Uknown(b) => seq![b],
            BytesModel::Illegal(b) => seq![b],
            BytesModel::Empty => Seq::empty(),
        }
    }

    /// The rendered payload: the instruction text for a decoded line, a
    /// `db 0x??` directive for an unknown or illegal byte.
    pub open spec fn spec_text(self) -> Seq<char> {
        match self {
            BytesModel::Decoded { instruction, .. } => Instruction::spec_text(instruction),
            BytesModel::Uknown(b) => "db 0x"@ + spec_hex_seq(b as int, 2),
            BytesModel::Illegal(b) => "db 0x"@ + spec_hex_seq(b as int, 2),
            BytesModel::Empty => Seq::empty(),
        }
    }
}

/// The payload of one line of the listing: a decoded instruction with
/// its raw bytes, or a single unknown or illegal byte.
#[derive(Clone, Debug, PartialEq)]
pub enum Bytes {
    /// Bytes representing a decoded instruction.
    Decoded { bytes: Vec<u8>, instruction: Instruction },
    /// An unknown byte or opcode.
    Uknown(u8),
    /// An illegal instruction byte.
    Illegal(u8),
    /// No payload.
    Empty,
}

impl View for Bytes {
    type V = BytesModel;

    open spec fn view(&self) -> BytesModel {
        match self {
            Bytes::Decoded { bytes, instruction } => BytesModel::Decoded {
                bytes: bytes@,
                instruction: instruction@,
            },
            Bytes::Uknown(b) => BytesModel::Uknown(*b),
            Bytes::Illegal(b) => BytesModel::Illegal(*b),
            Bytes::Empty => BytesModel::Empty,
        }
    }
}

impl Default for Bytes {
    /// Returns the empty payload.
    fn default() -> (r: Self)
        ensures
            r@ == BytesModel::Empty,
    {
        Bytes::Empty
    }
}

/// The space-separated uppercase hex of `bs[i..]`.
pub open spec fn spec_hex_bytes(bs: Seq<u8>, i: int) -> Seq<char>
    decreases bs.len() - i,
{
    if i < 0 || i >= bs.len() {
        Seq::empty()
    } else if i == bs.len() - 1 {
        spec_hex_seq(bs[i] as int, 2)
    } else {
        spec_hex_seq(bs[i] as int, 2) + " "@ + spec_hex_bytes(bs, i + 1)
    }
}

/// Renders `bs[i..]` as space-separated uppercase hex.
fn hex_bytes_from(bs: &Vec<u8>, i: usize) -> (r: String)
    ensures
        r@ == spec_hex_bytes(bs@, i as int),
    decreases bs@.len() - i,
{
    if i >= bs.len() {
        String::new()
    } else if i == bs.len() - 1 {
        hex_str(bs[i] as u64, 2)
    } else {
        let mut s = hex_str(bs[i] as u64, 2);
        s.append(" ");
        s.append(hex_bytes_from(bs, i + 1).as_str());
        s
    }
}

/// Whether the window holds the rule's opcode bytes at position `at`:
/// for the register-in-opcode encodings, a single opcode byte within 8
/// of the rule's base; otherwise the exact opcode bytes.
pub open spec fn spec_opcode_matches(bytes: Seq<u8>, at: int, rule: RuleModel) -> bool {
    if rule.encoding == OpEn::O || rule.encoding == OpEn::OI {
        rule.opcode.len() == 1 && rule.opcode[0] <= bytes[at] && bytes[at] < rule.opcode[0] + 8
    } else {
        forall|j: int| 0 <= j < rule.opcode.len() ==> bytes[at + j] == rule.opcode[j]
    }
}

/// The memory or register operand selected by a ModR/M byte and an
/// optional SIB byte, reading the displacement they demand at
/// `bytes[idx..]`.
pub open spec fn spec_decode_memory(bytes: Seq<u8>, idx: int, modrm: ModRM, sib: Option<Sib>) -> Result<
    Operand,
    DecodeError,
> {
    let w = modrm.spec_displacement_width(sib);
    if w > 0 && (idx < 0 || idx + w > bytes.len()) {
        Err(DecodeError::InvalidLength)
    } else {
        let disp = if w == 1 {
            Displacement::Abs8(bytes[idx])
        } else if w == 4 {
            Displacement::Abs32(spec_le32(bytes, idx))
        } else {
            Displacement::Absent
        };
        if modrm.0 == ModBits::II {
            Ok(Operand::Register(modrm.2))
        } else {
            match spec_effective_address(modrm, sib, disp) {
                Ok(ea) => Ok(Operand::EffectiveAddress(ea)),
                Err(e) => Err(e),
            }
        }
    }
}

/// The immediate demanded by an extension list, read at `bytes[idx..]`:
/// one byte for IB, two for IW, four for ID, little-endian.
pub open spec fn spec_decode_immediate(exts: Seq<Extension>, bytes: Seq<u8>, idx: int) -> Result<
    Immediate,
    DecodeError,
> {
    if exts.contains(Extension::IB) {
        if 0 <= idx && idx + 1 <= bytes.len() {
            Ok(Immediate::Imm8(bytes[idx]))
        } else {
            Err(DecodeError::InvalidLength)
        }
    } else if exts.contains(Extension::IW) {
        if 0 <= idx && idx + 2 <= bytes.len() {
            Ok(Immediate::Imm16(spec_le16(bytes, idx)))
        } else {
            Err(DecodeError::InvalidLength)
        }
    } else if exts.contains(Extension::ID) {
        if 0 <= idx && idx + 4 <= bytes.len() {
            Ok(Immediate::Imm32(spec_le32(bytes, idx)))
        } else {
            Err(DecodeError::InvalidLength)
        }
    } else {
        Err(DecodeError::DecodeFailure)
    }
}

/// An instruction model with no prefix.
pub open spec fn spec_instr(mnemonic: Seq<char>, operands: Seq<Operand>) -> InstructionModel {
    InstructionModel { prefix: None, mnemonic, operands }
}

/// The sign-extended value of the `w`-byte little-endian displacement at
/// `bytes[at..]`.
pub open spec fn spec_sext_at(bytes: Seq<u8>, at: int, w: nat) -> u32 {
    if w == 1 {
        spec_sext8(bytes[at])
    } else if w == 2 {
        spec_sext16(spec_le16(bytes, at))
    } else {
        spec_le32(bytes, at)
    }
}

/// Decodes the window `bytes` against one rule for an instruction at
/// `location`: the raw bytes consumed and the instruction, or the first
/// failure, per the rule's operand-encoding kind.
pub open spec fn spec_decode(location: Offset, bytes: Seq<u8>, rule: RuleModel) -> Result<
    (Seq<u8>, InstructionModel),
    DecodeError,
> {
    if bytes.len() == 0 {
        Err(DecodeError::NoBytesPresent)
    } else {
        let plen: nat = if rule.prefix is Some {
            1nat
        } else {
            0nat
        };
        if rule.prefix is Some && bytes[0] != rule.prefix->Some_0 {
            Err(DecodeError::UnknownOpcode)
        } else if plen + rule.opcode.len() > bytes.len() {
            Err(DecodeError::InvalidLength)
        } else if !spec_opcode_matches(bytes, plen as int, rule) {
            Err(DecodeError::UnknownOpcode)
        } else {
            let oplen = plen + rule.opcode.len();
            if rule.encoding.spec_modrm_required() {
                spec_decode_modrm_forms(bytes, rule, oplen)
            } else {
                spec_decode_plain_forms(location, bytes, rule, oplen)
            }
        }
    }
}

/// The encodings without a ModR/M byte: ZO, O, I, D, OI, FD, TD.
pub open spec fn spec_decode_plain_forms(
    location: Offset,
    bytes: Seq<u8>,
    rule: RuleModel,
    oplen: nat,
) -> Result<(Seq<u8>, InstructionModel), DecodeError> {
    match rule.encoding {
        OpEn::ZO => {
            if rule.extensions is Some {
                Err(DecodeError::InvalidOpCodeExtension)
            } else {
                Ok((bytes.take(oplen as int), spec_instr(rule.mnemonic, Seq::empty())))
            }
        },
        OpEn::O => {
            if !(match rule.extensions {
                Some(e) => e.len() == 1 && e[0] == Extension::RD,
                None => false,
            }) {
                Err(DecodeError::DecodeFailure)
            } else {
                let reg = spec_register_of_code((bytes[oplen - 1] - rule.opcode[0]) as u8);
                Ok(
                    (
                        bytes.take(oplen as int),
                        spec_instr(rule.mnemonic, seq![Operand::Register(reg)]),
                    ),
                )
            }
        },
        OpEn::I => {
            if rule.opcode.len() != 1 {
                Err(DecodeError::InvalidOpCodeLength)
            } else if !(match rule.extensions {
                Some(e) => e.len() == 1,
                None => false,
            }) {
                Err(DecodeError::InvalidOpCodeExtension)
            } else {
                match spec_decode_immediate(rule.extensions->Some_0, bytes, oplen as int) {
                    Err(e) => Err(e),
                    Ok(imm) => {
                        let ops = match spec_implicit_operand(rule) {
                            Some(reg) => seq![
                                Operand::Register(reg),
                                Operand::Immediate(imm),
                            ],
                            None => seq![Operand::Immediate(imm)],
                        };
                        Ok(
                            (
                                bytes.take((oplen + imm.spec_len()) as int),
                                spec_instr(rule.mnemonic, ops),
                            ),
                        )
                    },
                }
            }
        },
        OpEn::D => {
            let w = match rule.extensions {
                Some(e) => spec_d_width(e),
                None => 0nat,
            };
            if w != 1 && w != 2 && w != 4 {
                Err(DecodeError::InvalidDisplacementByteWidth)
            } else if oplen + w > bytes.len() {
                Err(DecodeError::InvalidModRM)
            } else {
                let target = wrap_u32(
                    location.0 + oplen + w + spec_sext_at(bytes, oplen as int, w),
                );
                Ok(
                    (
                        bytes.take((oplen + w) as int),
                        spec_instr(rule.mnemonic, seq![Operand::Label(Offset(target))]),
                    ),
                )
            }
        },
        OpEn::OI => {
            match rule.extensions {
                None => Err(DecodeError::InvalidOpCodeExtension),
                Some(e) => {
                    match spec_decode_immediate(e, bytes, oplen as int) {
                        Err(err) => Err(err),
                        Ok(imm) => {
                            let ops = if e.contains(Extension::RD) {
                                seq![
                                    Operand::Register(
                                        spec_register_of_code(
                                            (bytes[oplen - 1] - rule.opcode[0]) as u8,
                                        ),
                                    ),
                                    Operand::Immediate(imm),
                                ]
                            } else {
                                seq![Operand::Immediate(imm)]
                            };
                            Ok(
                                (
                                    bytes.take((oplen + imm.spec_len()) as int),
                                    spec_instr(rule.mnemonic, ops),
                                ),
                            )
                        },
                    }
                },
            }
        },
        OpEn::FD => {
            if oplen + 4 > bytes.len() {
                Err(DecodeError::InvalidLength)
            } else {
                let m = spec_le32(bytes, oplen as int);
                Ok(
                    (
                        bytes.take((oplen + 4) as int),
                        spec_instr(
                            rule.mnemonic,
                            seq![
                                Operand::Register(Register::EAX),
                                Operand::EffectiveAddress(
                                    EffectiveAddress::Displacement {
                                        displacement: Displacement::Abs32(m),
                                    },
                                ),
                            ],
                        ),
                    ),
                )
            }
        },
        OpEn::TD => {
            if oplen + 4 > bytes.len() {
                Err(DecodeError::InvalidLength)
            } else {
                let m = spec_le32(bytes, oplen as int);
                Ok(
                    (
                        bytes.take((oplen + 4) as int),
                        spec_instr(
                            rule.mnemonic,
                            seq![
                                Operand::EffectiveAddress(
                                    EffectiveAddress::Displacement {
                                        displacement: Displacement::Abs32(m),
                                    },
                                ),
                                Operand::Register(Register::EAX),
                            ],
                        ),
                    ),
                )
            }
        },
        _ => Err(DecodeError::DecodeFailure),
    }
}

/// The encodings with a ModR/M byte: M, M1, MI, MR, RM, RMI.
pub open spec fn spec_decode_modrm_forms(bytes: Seq<u8>, rule: RuleModel, oplen: nat) -> Result<
    (Seq<u8>, InstructionModel),
    DecodeError,
> {
    if oplen >= bytes.len() {
        Err(DecodeError::InvalidLength)
    } else {
        match spec_modrm_check(rule, bytes[oplen as int]) {
            Err(e) => Err(e),
            Ok(m) => {
                if m.spec_precedes_sib_byte() {
                    if oplen + 1 >= bytes.len() {
                        Err(DecodeError::InvalidLength)
                    } else {
                        spec_decode_memory_forms(
                            bytes,
                            rule,
                            m,
                            Some(spec_sib_of_byte(bytes[oplen as int + 1])),
                            oplen + 2,
                        )
                    }
                } else {
                    spec_decode_memory_forms(bytes, rule, m, None, oplen + 1)
                }
            },
        }
    }
}

/// Assembles the operand list of a ModR/M-based encoding once the
/// ModR/M and SIB bytes are in hand; `disp_idx` is where the
/// displacement (if any) starts.
pub open spec fn spec_decode_memory_forms(
    bytes: Seq<u8>,
    rule: RuleModel,
    m: ModRM,
    sib: Option<Sib>,
    disp_idx: nat,
) -> Result<(Seq<u8>, InstructionModel), DecodeError> {
    match spec_decode_memory(bytes, disp_idx as int, m, sib) {
        Err(e) => Err(e),
        Ok(memop) => {
            let after = disp_idx + m.spec_displacement_width(sib);
            match rule.encoding {
                OpEn::M => {
                    if rule.extensions is None {
                        Err(DecodeError::InvalidOpCodeExtension)
                    } else {
                        Ok((bytes.take(after as int), spec_instr(rule.mnemonic, seq![memop])))
                    }
                },
                OpEn::M1 => Ok(
                    (
                        bytes.take(after as int),
                        spec_instr(
                            rule.mnemonic,
                            seq![memop, Operand::Immediate(Immediate::Imm8(1))],
                        ),
                    ),
                ),
                OpEn::MI => {
                    if !(match rule.extensions {
                        Some(e) => e.len() == 2,
                        None => false,
                    }) {
                        Err(DecodeError::InvalidOpCodeExtension)
                    } else {
                        match spec_decode_immediate(
                            rule.extensions->Some_0,
                            bytes,
                            after as int,
                        ) {
                            Err(e) => Err(e),
                            Ok(imm) => Ok(
                                (
                                    bytes.take((after + imm.spec_len()) as int),
                                    spec_instr(
                                        rule.mnemonic,
                                        seq![memop, Operand::Immediate(imm)],
                                    ),
                                ),
                            ),
                        }
                    }
                },
                OpEn::MR => {
                    if !(match rule.extensions {
                        Some(e) => e.contains(Extension::SR),
                        None => false,
                    }) {
                        Err(DecodeError::InvalidOpCodeExtension)
                    } else {
                        Ok(
                            (
                                bytes.take(after as int),
                                spec_instr(
                                    rule.mnemonic,
                                    seq![memop, Operand::Register(m.1)],
                                ),
                            ),
                        )
                    }
                },
                OpEn::RM => {
                    if !(match rule.extensions {
                        Some(e) => e.contains(Extension::SR),
                        None => false,
                    }) {
                        Err(DecodeError::InvalidOpCodeExtension)
                    } else {
                        Ok(
                            (
                                bytes.take(after as int),
                                spec_instr(
                                    rule.mnemonic,
                                    seq![Operand::Register(m.1), memop],
                                ),
                            ),
                        )
                    }
                },
                OpEn::RMI => {
                    if !(match rule.extensions {
                        Some(e) => e.contains(Extension::SR),
                        None => false,
                    }) {
                        Err(DecodeError::InvalidOpCodeExtension)
                    } else {
                        match spec_decode_immediate(
                            rule.extensions->Some_0,
                            bytes,
                            after as int,
                        ) {
                            Err(e) => Err(e),
                            Ok(imm) => Ok(
                                (
                                    bytes.take((after + imm.spec_len()) as int),
                                    spec_instr(
                                        rule.mnemonic,
                                        seq![
                                            Operand::Register(m.1),
                                            memop,
                                            Operand::Immediate(imm),
                                        ],
                                    ),
                                ),
                            ),
                        }
                    }
                },
                _ => Err(DecodeError::DecodeFailure),
            }
        },
    }
}

/// Wraps the first `len` bytes of the window and an instruction as a
/// decoded payload.
fn decoded_window(bytes: &[u8], len: usize, instruction: Instruction) -> (r: Bytes)
    requires
        len <= bytes@.len(),
    ensures
        r@ == (BytesModel::Decoded {
            bytes: bytes@.take(len as int),
            instruction: instruction@,
        }),
{
    let window = vstd::slice::slice_to_vec(vstd::slice::slice_subrange(bytes, 0, len));
    proof {
        assert(window@ =~= bytes@.take(len as int));
    }
    Bytes::Decoded { bytes: window, instruction }
}

impl Bytes {
    /// Whether the payload is a decoded instruction.
    pub fn decoded_successfully(&self) -> (r: bool)
        ensures
            r == (self@ is Decoded),
    {
        match self {
            Bytes::Uknown(_) | Bytes::Illegal(_) | Bytes::Empty => false,
            _ => true,
        }
    }

    /// Returns a copy of the decoded instruction, if there is one.
    pub fn get_instruction(&self) -> (r: Option<Instruction>)
        ensures
            match self@ {
                BytesModel::Decoded { instruction, .. } => r is Some && r->Some_0@ == instruction,
                _ => r is None,
            },
    {
        match self {
            Bytes::Decoded { bytes: _, instruction } => Some(
                Instruction {
                    prefix: match &instruction.prefix {
                        Some(p) => Some(p.clone()),
                        None => None,
                    },
                    mnemonic: instruction.mnemonic,
                    operands: instruction.operands.clone(),
                },
            ),
            _ => None,
        }
    }

    /// Returns a copy of the decoded instruction, if there is one.
    pub fn get_bytes(&self) -> (r: Option<Instruction>)
        ensures
            match self@ {
                BytesModel::Decoded { instruction, .. } => r is Some && r->Some_0@ == instruction,
                _ => r is None,
            },
    {
        self.get_instruction()
    }

    /// The raw bytes the payload stands for.
    pub fn raw_bytes(&self) -> (r: Vec<u8>)
        ensures
            r@ == self@.spec_raw_bytes(),
    {
        let r = match self {
            Bytes::Decoded { bytes, instruction: _ } => bytes.clone(),
            Bytes::Uknown(b) => vec![*b],
            Bytes::Illegal(b) => vec![*b],
            Bytes::Empty => Vec::new(),
        };
        proof {
            assert(r@ =~= self@.spec_raw_bytes());
        }
        r
    }

    /// Renders the payload's raw bytes as space-separated uppercase hex.
    pub fn bytes(&self) -> (r: String)
        ensures
            r@ == spec_hex_bytes(self@.spec_raw_bytes(), 0),
    {
        hex_bytes_from(&self.raw_bytes(), 0)
    }

    /// The number of raw bytes the payload stands for.
    pub fn length(&self) -> (r: usize)
        ensures
            r == self@.spec_raw_bytes().len(),
    {
        match self {
            Bytes::Decoded { bytes, instruction: _ } => bytes.len(),
            Bytes::Uknown(_) | Bytes::Illegal(_) => 1,
            Bytes::Empty => 0,
        }
    }

    /// Renders the payload: the instruction for a decoded line, `db 0x??`
    /// for an unknown or illegal byte.
    pub fn text(&self) -> (r: String)
        ensures
            r@ == self@.spec_text(),
    {
        match self {
            Bytes::Decoded { bytes: _, instruction } => instruction.text(),
            Bytes::Uknown(b) | Bytes::Illegal(b) => {
                let mut s = String::from_str("db 0x");
                s.append(hex_str(*b as u64, 2).as_str());
                s
            },
            Bytes::Empty => String::new(),
        }
    }

    /// The rendered operands of the decoded instruction, if any.
    pub fn operands(&self) -> (r: Option<Vec<String>>)
        ensures
            match self@ {
                BytesModel::Decoded { instruction, .. } => {
                    &&& r is Some
                    &&& r->Some_0@.len() == instruction.operands.len()
                    &&& forall|i: int|
                        0 <= i < instruction.operands.len() ==> r->Some_0@[i]@
                            == instruction.operands[i].spec_text()
                },
                _ => r is None,
            },
    {
        match self {
            Bytes::Decoded { bytes: _, instruction } => {
                let mut out: Vec<String> = Vec::new();
                let mut i: usize = 0;
                while i < instruction.operands.len()
                    invariant
                        i <= instruction.operands@.len(),
                        out@.len() == i,
                        forall|j: int|
                            0 <= j < i ==> out@[j]@ == instruction.operands@[j].spec_text(),
                    decreases instruction.operands@.len() - i,
                {
                    out.push(instruction.operands[i].text());
                    i += 1;
                }
                Some(out)
            },
            _ => None,
        }
    }

    /// The mnemonic of the decoded instruction, if any.
    pub fn mnemonic(&self) -> (r: Option<String>)
        ensures
            match self@ {
                BytesModel::Decoded { instruction, .. } => r is Some && r->Some_0@
                    == instruction.mnemonic,
                _ => r is None,
            },
    {
        match self {
            Bytes::Decoded { bytes: _, instruction } => Some(String::from_str(instruction.mnemonic)),
            _ => None,
        }
    }

    /// The prefix of the decoded instruction, if it has one.
    pub fn prefix(&self) -> (r: Option<String>)
        ensures
            match self@ {
                BytesModel::Decoded { instruction, .. } => match instruction.prefix {
                    Some(p) => r is Some && r->Some_0@ == p,
                    None => r is None,
                },
                _ => r is None,
            },
    {
        match self {
            Bytes::Decoded { bytes: _, instruction } => match &instruction.prefix {
                Some(p) => Some(p.clone()),
                None => None,
            },
            _ => None,
        }
    }

    /// Reads the displacement a ModR/M and optional SIB byte demand at
    /// `bytes[idx..]` and builds the memory or register operand they
    /// select. Forms that demand no displacement bytes read nothing and
    /// pay the index no mind.
    pub fn decode_memory(bytes: &[u8], idx: usize, modrm: ModRM, sib: Option<Sib>) -> (r: Result<
        Operand,
        DecodeError,
    >)
        ensures
            r == spec_decode_memory(bytes@, idx as int, modrm, sib),
    {
        let n = bytes.len();
        let w: usize = match modrm.0 {
            ModBits::OO => {
                if modrm.2 == Register::EBP {
                    4
                } else if modrm.2 == Register::ESP {
                    match sib {
                        Some(s) => {
                            if s.2 == Register::EBP {
                                4
                            } else {
                                0
                            }
                        },
                        None => 0,
                    }
                } else {
                    0
                }
            },
            ModBits::OI => 1,
            ModBits::IO => 4,
            ModBits::II => 0,
        };
        if w > 0 && (w > n || idx > n - w) {
            return Err(DecodeError::InvalidLength);
        }
        let disp = if w == 1 {
            Displacement::Abs8(*vstd::slice::slice_index_get(bytes, idx))
        } else if w == 4 {
            Displacement::Abs32(le32_at(bytes, idx))
        } else {
            Displacement::Absent
        };
        if modrm.0 == ModBits::II {
            Ok(Operand::Register(modrm.2))
        } else {
            match EffectiveAddress::from(modrm, sib, disp) {
                Ok(ea) => Ok(Operand::EffectiveAddress(ea)),
                Err(e) => Err(e),
            }
        }
    }

    /// Reads the immediate an extension list demands at `bytes[idx..]`.
    pub fn decode_immediate(bytes: &[u8], idx: usize, extensions: Vec<Extension>) -> (r: Result<
        Immediate,
        DecodeError,
    >)
        ensures
            r == spec_decode_immediate(extensions@, bytes@, idx as int),
    {
        let n = bytes.len();
        let e = ExtSet(extensions);
        if e.contains(Extension::IB) {
            if idx < n {
                Ok(Immediate::Imm8(*vstd::slice::slice_index_get(bytes, idx)))
            } else {
                Err(DecodeError::InvalidLength)
            }
        } else if e.contains(Extension::IW) {
            if n >= 2 && idx <= n - 2 {
                Ok(Immediate::Imm16(le16_at(bytes, idx)))
            } else {
                Err(DecodeError::InvalidLength)
            }
        } else if e.contains(Extension::ID) {
            if n >= 4 && idx <= n - 4 {
                Ok(Immediate::Imm32(le32_at(bytes, idx)))
            } else {
                Err(DecodeError::InvalidLength)
            }
        } else {
            Err(DecodeError::DecodeFailure)
        }
    }

    /// Decodes the byte window against one candidate rule, for an
    /// instruction that starts at `location`: consumes the prefix and
    /// opcode bytes, parses and validates the ModR/M and SIB bytes if the
    /// encoding asks for them, reads the displacement and immediate, and
    /// assembles the operands.
    #[verifier::loop_isolation(false)]
    pub fn from(location: Offset, bytes: &[u8], rule: &DecodeRule) -> (r: Result<
        Bytes,
        DecodeError,
    >)
        ensures
            match spec_decode(location, bytes@, rule@) {
                Ok(d) => r is Ok && r->Ok_0@ == (BytesModel::Decoded {
                    bytes: d.0,
                    instruction: d.1,
                }),
                Err(e) => r == Err::<Bytes, DecodeError>(e),
            },
    {
        let n = bytes.len();
        if n == 0 {
            return Err(DecodeError::NoBytesPresent);
        }
        let plen: usize = match &rule.1 {
            Some(p) => {
                if *vstd::slice::slice_index_get(bytes, 0) != p.0 {
                    return Err(DecodeError::UnknownOpcode);
                }
                1
            },
            None => 0,
        };
        let onum = rule.2.0.len();
        if onum > n - plen {
            return Err(DecodeError::InvalidLength);
        }
        let oplen = plen + onum;
        let embedded = matches!(rule.4, OpEn::O | OpEn::OI);
        if embedded {
            if onum != 1 {
                return Err(DecodeError::UnknownOpcode);
            }
            let base = rule.2.0[0];
            let b0 = *vstd::slice::slice_index_get(bytes, plen);
            if b0 < base || b0 - base >= 8 {
                return Err(DecodeError::UnknownOpcode);
            }
        } else {
            let mut k: usize = 0;
            while k < onum
                invariant
                    k <= onum,
                    onum == rule.2.0@.len(),
                    plen + onum <= bytes@.len(),
                    forall|j: int| 0 <= j < k ==> bytes@[plen + j] == rule.2.0@[j],
                decreases onum - k,
            {
                if *vstd::slice::slice_index_get(bytes, plen + k) != rule.2.0[k] {
                    return Err(DecodeError::UnknownOpcode);
                }
                k += 1;
            }
        }
        proof {
            assert(spec_opcode_matches(bytes@, plen as int, rule@));
        }
        if rule.4.modrm_required() {
            Self::decode_modrm_forms(bytes, rule, oplen)
        } else {
            Self::decode_plain_forms(location, bytes, rule, oplen)
        }
    }

    /// Decodes the encodings without a ModR/M byte.
    fn decode_plain_forms(location: Offset, bytes: &[u8], rule: &DecodeRule, oplen: usize) -> (r:
        Result<Bytes, DecodeError>)
        requires
            oplen <= bytes@.len(),
            bytes@.len() > 0,
            !rule@.encoding.spec_modrm_required(),
            oplen == (if rule@.prefix is Some {
                1nat
            } else {
                0nat
            }) + rule@.opcode.len(),
            spec_opcode_matches(
                bytes@,
                (if rule@.prefix is Some {
                    1int
                } else {
                    0int
                }),
                rule@,
            ),
        ensures
            match spec_decode_plain_forms(location, bytes@, rule@, oplen as nat) {
                Ok(d) => r is Ok && r->Ok_0@ == (BytesModel::Decoded {
                    bytes: d.0,
                    instruction: d.1,
                }),
                Err(e) => r == Err::<Bytes, DecodeError>(e),
            },
    {
        let n = bytes.len();
        match rule.4 {
            OpEn::ZO => {
                if rule.3.is_some() {
                    return Err(DecodeError::InvalidOpCodeExtension);
                }
                let instr = Instruction::new(rule.0);
                Ok(decoded_window(bytes, oplen, instr))
            },
            OpEn::O => {
                let ok = match &rule.3 {
                    Some(e) => e.0.len() == 1 && e.0[0] == Extension::RD,
                    None => false,
                };
                if !ok {
                    return Err(DecodeError::DecodeFailure);
                }
                let b0 = *vstd::slice::slice_index_get(bytes, oplen - 1);
                let code = b0 - rule.2.0[0];
                let reg = match Register::from_code(code) {
                    Ok(r) => r,
                    Err(e) => {
                        return Err(e);
                    },
                };
                let mut instr = Instruction::new(rule.0);
                instr.add(Operand::Register(reg));
                proof {
                    assert(instr@.operands =~= seq![Operand::Register(reg)]);
                }
                Ok(decoded_window(bytes, oplen, instr))
            },
            OpEn::I => {
                if rule.2.0.len() != 1 {
                    return Err(DecodeError::InvalidOpCodeLength);
                }
                let exts = match rule.extensions() {
                    Some(e) => e,
                    None => {
                        return Err(DecodeError::InvalidOpCodeExtension);
                    },
                };
                if exts.len() != 1 {
                    return Err(DecodeError::InvalidOpCodeExtension);
                }
                let imm = match Self::decode_immediate(bytes, oplen, exts) {
                    Ok(imm) => imm,
                    Err(e) => {
                        return Err(e);
                    },
                };
                let total = oplen + imm.len();
                let mut instr = Instruction::new(rule.0);
                match rule.implicit_operand() {
                    Some(reg) => {
                        instr.add(Operand::Register(reg));
                        instr.add(Operand::Immediate(imm));
                        proof {
                            assert(instr@.operands =~= seq![
                                Operand::Register(reg),
                                Operand::Immediate(imm),
                            ]);
                        }
                    },
                    None => {
                        instr.add(Operand::Immediate(imm));
                        proof {
                            assert(instr@.operands =~= seq![Operand::Immediate(imm)]);
                        }
                    },
                }
                proof {
                    assert(oplen + imm.spec_len() <= bytes@.len());
                }
                Ok(decoded_window(bytes, total, instr))
            },
            OpEn::D => {
                let w = match rule.extensions() {
                    Some(e) => d_width(&e),
                    None => 0,
                };
                if !(w == 1 || w == 2 || w == 4) {
                    return Err(DecodeError::InvalidDisplacementByteWidth);
                }
                if w > n - oplen || oplen > n {
                    return Err(DecodeError::InvalidModRM);
                }
                let sext: u32 = if w == 1 {
                    let d = *vstd::slice::slice_index_get(bytes, oplen);
                    if d >= 0x80 {
                        d as u32 + 0xFFFFFF00
                    } else {
                        d as u32
                    }
                } else if w == 2 {
                    let d = le16_at(bytes, oplen);
                    if d >= 0x8000 {
                        d as u32 + 0xFFFF0000
                    } else {
                        d as u32
                    }
                } else {
                    le32_at(bytes, oplen)
                };
                let target = rel_target_u32(sext, location.0, oplen, w as u32);
                let mut instr = Instruction::new(rule.0);
                instr.add(Operand::Label(Offset(target)));
                proof {
                    assert(instr@.operands =~= seq![
                        Operand::Label(Offset(target)),
                    ]);
                }
                Ok(decoded_window(bytes, oplen + w, instr))
            },
            OpEn::OI => {
                let exts = match rule.extensions() {
                    Some(e) => e,
                    None => {
                        return Err(DecodeError::InvalidOpCodeExtension);
                    },
                };
                let has_rd = ExtSet(exts.clone()).contains(Extension::RD);
                let imm = match Self::decode_immediate(bytes, oplen, exts) {
                    Ok(imm) => imm,
                    Err(e) => {
                        return Err(e);
                    },
                };
                let total = oplen + imm.len();
                let mut instr = Instruction::new(rule.0);
                if has_rd {
                    let b0 = *vstd::slice::slice_index_get(bytes, oplen - 1);
                    let code = b0 - rule.2.0[0];
                    let reg = match Register::from_code(code) {
                        Ok(r) => r,
                        Err(e) => {
                            return Err(e);
                        },
                    };
                    instr.add(Operand::Register(reg));
                    instr.add(Operand::Immediate(imm));
                    proof {
                        assert(instr@.operands =~= seq![
                            Operand::Register(reg),
                            Operand::Immediate(imm),
                        ]);
                    }
                } else {
                    instr.add(Operand::Immediate(imm));
                    proof {
                        assert(instr@.operands =~= seq![Operand::Immediate(imm)]);
                    }
                }
                Ok(decoded_window(bytes, total, instr))
            },
            OpEn::FD => {
                if 4 > n - oplen || oplen > n {
                    return Err(DecodeError::InvalidLength);
                }
                let m = le32_at(bytes, oplen);
                let mut instr = Instruction::new(rule.0);
                instr.add(Operand::Register(Register::EAX));
                instr.add(
                    Operand::EffectiveAddress(
                        EffectiveAddress::Displacement { displacement: Displacement::Abs32(m) },
                    ),
                );
                proof {
                    assert(instr@.operands =~= seq![
                        Operand::Register(Register::EAX),
                        Operand::EffectiveAddress(
                            EffectiveAddress::Displacement {
                                displacement: Displacement::Abs32(m),
                            },
                        ),
                    ]);
                }
                Ok(decoded_window(bytes, oplen + 4, instr))
            },
            OpEn::TD => {
                if 4 > n - oplen || oplen > n {
                    return Err(DecodeError::InvalidLength);
                }
                let m = le32_at(bytes, oplen);
                let mut instr = Instruction::new(rule.0);
                instr.add(
                    Operand::EffectiveAddress(
                        EffectiveAddress::Displacement { displacement: Displacement::Abs32(m) },
                    ),
                );
                instr.add(Operand::Register(Register::EAX));
                proof {
                    assert(instr@.operands =~= seq![
                        Operand::EffectiveAddress(
                            EffectiveAddress::Displacement {
                                displacement: Displacement::Abs32(m),
                            },
                        ),
                        Operand::Register(Register::EAX),
                    ]);
                }
                Ok(decoded_window(bytes, oplen + 4, instr))
            },
            _ => Err(DecodeError::DecodeFailure),
        }
    }

    /// Decodes the encodings with a ModR/M byte.
    fn decode_modrm_forms(bytes: &[u8], rule: &DecodeRule, oplen: usize) -> (r: Result<
        Bytes,
        DecodeError,
    >)
        requires
            oplen <= bytes@.len(),
            rule@.encoding.spec_modrm_required(),
        ensures
            match spec_decode_modrm_forms(bytes@, rule@, oplen as nat) {
                Ok(d) => r is Ok && r->Ok_0@ == (BytesModel::Decoded {
                    bytes: d.0,
                    instruction: d.1,
                }),
                Err(e) => r == Err::<Bytes, DecodeError>(e),
            },
    {
        let n = bytes.len();
        if oplen >= n {
            return Err(DecodeError::InvalidLength);
        }
        let m = match rule.modrm_byte(*vstd::slice::slice_index_get(bytes, oplen)) {
            Ok(m) => m,
            Err(e) => {
                return Err(e);
            },
        };
        let (sib, disp_idx): (Option<Sib>, usize) = if m.precedes_sib_byte() {
            if oplen + 1 >= n {
                return Err(DecodeError::InvalidLength);
            }
            (Some(Sib::from_byte(*vstd::slice::slice_index_get(bytes, oplen + 1))), oplen + 2)
        } else {
            (None, oplen + 1)
        };
        let memop = match Self::decode_memory(bytes, disp_idx, m, sib) {
            Ok(o) => o,
            Err(e) => {
                return Err(e);
            },
        };
        let after = disp_idx + memop.len();
        proof {
            assert(memop.spec_len() == m.spec_displacement_width(sib));
            assert(after <= bytes@.len());
        }
        match rule.4 {
            OpEn::M => {
                if rule.3.is_none() {
                    return Err(DecodeError::InvalidOpCodeExtension);
                }
                let mut instr = Instruction::new(rule.0);
                instr.add(memop);
                proof {
                    assert(instr@.operands =~= seq![memop]);
                }
                Ok(decoded_window(bytes, after, instr))
            },
            OpEn::M1 => {
                let mut instr = Instruction::new(rule.0);
                instr.add(memop);
                instr.add(Operand::Immediate(Immediate::Imm8(1)));
                proof {
                    assert(instr@.operands =~= seq![
                        memop,
                        Operand::Immediate(Immediate::Imm8(1)),
                    ]);
                }
                Ok(decoded_window(bytes, after, instr))
            },
            OpEn::MI => {
                let exts = match rule.extensions() {
                    Some(e) => e,
                    None => {
                        return Err(DecodeError::InvalidOpCodeExtension);
                    },
                };
                if exts.len() != 2 {
                    return Err(DecodeError::InvalidOpCodeExtension);
                }
                let imm = match Self::decode_immediate(bytes, after, exts) {
                    Ok(imm) => imm,
                    Err(e) => {
                        return Err(e);
                    },
                };
                let total = after + imm.len();
                let mut instr = Instruction::new(rule.0);
                instr.add(memop);
                instr.add(Operand::Immediate(imm));
                proof {
                    assert(instr@.operands =~= seq![memop, Operand::Immediate(imm)]);
                }
                Ok(decoded_window(bytes, total, instr))
            },
            OpEn::MR => {
                let has_sr = match &rule.3 {
                    Some(e) => e.contains(Extension::SR),
                    None => false,
                };
                if !has_sr {
                    return Err(DecodeError::InvalidOpCodeExtension);
                }
                let mut instr = Instruction::new(rule.0);
                instr.add(memop);
                instr.add(Operand::Register(m.1));
                proof {
                    assert(instr@.operands =~= seq![memop, Operand::Register(m.1)]);
                }
                Ok(decoded_window(bytes, after, instr))
            },
            OpEn::RM => {
                let has_sr = match &rule.3 {
                    Some(e) => e.contains(Extension::SR),
                    None => false,
                };
                if !has_sr {
                    return Err(DecodeError::InvalidOpCodeExtension);
                }
                let mut instr = Instruction::new(rule.0);
                instr.add(Operand::Register(m.1));
                instr.add(memop);
                proof {
                    assert(instr@.operands =~= seq![Operand::Register(m.1), memop]);
                }
                Ok(decoded_window(bytes, after, instr))
            },
            OpEn::RMI => {
                let has_sr = match &rule.3 {
                    Some(e) => e.contains(Extension::SR),
                    None => false,
                };
                if !has_sr {
                    return Err(DecodeError::InvalidOpCodeExtension);
                }
                let exts = match rule.extensions() {
                    Some(e) => e,
                    None => {
                        return Err(DecodeError::InvalidOpCodeExtension);
                    },
                };
                let imm = match Self::decode_immediate(bytes, after, exts) {
                    Ok(imm) => imm,
                    Err(e) => {
                        return Err(e);
                    },
                };
                let total = after + imm.len();
                let mut instr = Instruction::new(rule.0);
                instr.add(Operand::Register(m.1));
                instr.add(memop);
                instr.add(Operand::Immediate(imm));
                proof {
                    assert(instr@.operands =~= seq![
                        Operand::Register(m.1),
                        memop,
                        Operand::Immediate(imm),
                    ]);
                }
                Ok(decoded_window(bytes, total, instr))
            },
            _ => Err(DecodeError::DecodeFailure),
        }
    }
}

} // verus!
