//! Instruction-level data: the ModR/M and SIB bit-splitters, opcode and
//! extension descriptors, operand-encoding kinds, and the decoded
//! instruction itself.

use vstd::prelude::*;
use vstd::string::*;

use crate::decode::DecodeError;
use crate::operands::{Offset, Operand, Register, Scale, spec_register_of_code, spec_scale_of_code};
use crate::strutil::str_view_eq;

verus! {

/// Placeholder for a plain memory operand.
#[derive(Clone, Copy, Debug, PartialEq, Eq, Structural)]
pub struct Memory {}

/// An instruction prefix byte (only REPNE is in scope).
#[derive(Clone, Copy, Debug, PartialEq, Eq, Structural)]
pub struct Prefix(pub u8);

/// The opcode byte or bytes of a decode rule.
#[derive(Clone, Debug, PartialEq, Eq)]
pub struct OpCode(pub Vec<u8>);

impl OpCode {
    /// The number of opcode bytes.
    pub fn len(&self) -> (r: usize)
        ensures
            r == self.0@.len(),
    {
        self.0.len()
    }

    /// The opcode bytes.
    pub fn bytes(&self) -> (r: Vec<u8>)
        ensures
            r@ == self.0@,
    {
        self.0.clone()
    }
}

/// The set of ModR/M MOD-field values (0..=3) a rule accepts.
#[derive(Clone, Debug, Default, PartialEq, Eq)]
pub struct AddressingModes(pub Vec<u8>);

/// The 2-bit MOD field of a ModR/M byte: indirect with no displacement,
/// indirect plus disp8, indirect plus disp32, or direct register.
#[derive(Clone, Copy, Debug, PartialEq, Eq, Structural)]
pub enum ModBits {
    OO,
    OI,
    IO,
    II,
}

/// The MOD value selected by a 2-bit code.
pub open spec fn spec_modbits_of_code(code: u8) -> ModBits {
    if code == 0 {
        ModBits::OO
    } else if code == 1 {
        ModBits::OI
    } else if code == 2 {
        ModBits::IO
    } else {
        ModBits::II
    }
}

impl ModBits {
    /// The 2-bit code of this MOD value.
    pub open spec fn spec_code(self) -> u8 {
        match self {
            ModBits::OO => 0,
            ModBits::OI => 1,
            ModBits::IO => 2,
            ModBits::II => 3,
        }
    }

    /// Returns the 2-bit code of this MOD value.
    pub fn code(&self) -> (r: u8)
        ensures
            r == self.spec_code(),
    {
        match self {
            ModBits::OO => 0,
            ModBits::OI => 1,
            ModBits::IO => 2,
            ModBits::II => 3,
        }
    }
}

impl Default for ModBits {
    /// Returns the MOD value with code 0.
    fn default() -> (r: Self)
        ensures
            r == ModBits::OO,
    {
        ModBits::OO
    }
}

/// A parsed ModR/M byte: (MOD, REG, RM).
#[derive(Clone, Copy, Debug, Default, PartialEq, Eq, Structural)]
pub struct ModRM(pub ModBits, pub Register, pub Register);

/// The 3-bit code of a general-purpose register; sub-registers never
/// appear inside a ModR/M or SIB byte.
pub open spec fn spec_register_code(r: Register) -> u8 {
    match r {
        Register::EAX => 0,
        Register::ECX => 1,
        Register::EDX => 2,
        Register::EBX => 3,
        Register::ESP => 4,
        Register::EBP => 5,
        Register::ESI => 6,
        Register::EDI => 7,
        _ => 8,
    }
}

/// The ModR/M triple encoded by one byte, split by the standard bit
/// layout: MOD in bits 7..6, REG in 5..3, RM in 2..0.
pub open spec fn spec_modrm_of_byte(byte: u8) -> ModRM {
    ModRM(
        spec_modbits_of_code(byte / 64),
        spec_register_of_code((byte / 8) % 8),
        spec_register_of_code(byte % 8),
    )
}

impl ModRM {
    /// Splits a raw byte into its ModR/M fields.
    pub fn from_byte(byte: u8) -> (r: ModRM)
        ensures
            r == spec_modrm_of_byte(byte),
    {
        let md = byte / 64;
        let rg = (byte / 8) % 8;
        let rm = byte % 8;
        ModRM(
            if md == 0 {
                ModBits::OO
            } else if md == 1 {
                ModBits::OI
            } else if md == 2 {
                ModBits::IO
            } else {
                ModBits::II
            },
            match Register::from_code(rg) {
                Ok(r) => r,
                Err(_) => Register::EAX,
            },
            match Register::from_code(rm) {
                Ok(r) => r,
                Err(_) => Register::EAX,
            },
        )
    }

    /// Whether a SIB byte follows this ModR/M: RM = ESP with MOD other
    /// than direct-register.
    pub open spec fn spec_precedes_sib_byte(self) -> bool {
        self.2 == Register::ESP && self.0 != ModBits::II
    }

    /// Whether a SIB byte follows this ModR/M.
    pub fn precedes_sib_byte(&self) -> (r: bool)
        ensures
            r == self.spec_precedes_sib_byte(),
    {
        self.2 == Register::ESP && self.0 != ModBits::II
    }

    /// Whether the addressing form carries a displacement.
    pub open spec fn spec_uses_displacement(self) -> bool {
        (self.0 == ModBits::OO && self.2 == Register::EBP) || self.0 == ModBits::OI || self.0
            == ModBits::IO
    }

    /// Whether the addressing form carries a displacement.
    pub fn uses_displacement(&self) -> (r: bool)
        ensures
            r == self.spec_uses_displacement(),
    {
        (self.0 == ModBits::OO && self.2 == Register::EBP) || self.0 == ModBits::OI || self.0
            == ModBits::IO
    }

    /// Returns the parts of the ModR/M byte: (MOD, REG, RM).
    pub fn split(&self) -> (r: (ModBits, Register, Register))
        ensures
            r == (self.0, self.1, self.2),
    {
        (self.0, self.1, self.2)
    }

    /// Whether both register fields hold general-purpose registers, as
    /// every ModR/M produced from a byte does.
    pub open spec fn wf(self) -> bool {
        spec_register_code(self.1) < 8 && spec_register_code(self.2) < 8
    }

    /// Re-encodes the triple as a byte.
    pub fn as_byte(&self) -> (r: u8)
        requires
            self.wf(),
        ensures
            r == self.0.spec_code() * 64 + spec_register_code(self.1) * 8 + spec_register_code(
                self.2,
            ),
    {
        let rg = register_code(self.1);
        let rm = register_code(self.2);
        self.0.code() * 64 + rg * 8 + rm
    }

    /// The number of displacement bytes implied by MOD, RM, and the SIB
    /// base, per Intel's Table 2-2 and 2-3.
    pub open spec fn spec_displacement_width(self, sib: Option<Sib>) -> nat {
        match self.0 {
            ModBits::OO => {
                if self.2 == Register::EBP {
                    4
                } else if self.2 == Register::ESP {
                    match sib {
                        Some(s) => if s.2 == Register::EBP {
                            4
                        } else {
                            0
                        },
                        None => 0,
                    }
                } else {
                    0
                }
            },
            ModBits::OI => 1,
            ModBits::IO => 4,
            ModBits::II => 0,
        }
    }

    /// Estimates how many bytes remain after this ModR/M byte inside the
    /// instruction: one for a supplied SIB byte, plus the displacement
    /// bytes implied by the addressing form.
    ///
    /// Only two combinations are rejected: a SIB byte supplied for the
    /// `[disp32]` form (MOD = 00, RM = EBP), and a missing SIB byte where
    /// MOD = 00 with RM = ESP announces one. Elsewhere a supplied SIB is
    /// simply counted.
    pub fn bytes_remaining(&self, sib: Option<Sib>) -> (r: Result<usize, DecodeError>)
        ensures
            r == if (self.0 == ModBits::OO && self.2 == Register::EBP && sib is Some) || (self.0
                == ModBits::OO && self.2 == Register::ESP && sib is None) {
                Err::<usize, DecodeError>(DecodeError::InvalidSib)
            } else {
                Ok::<usize, DecodeError>(
                    ((if sib is Some {
                        1nat
                    } else {
                        0nat
                    }) + self.spec_displacement_width(sib)) as usize,
                )
            },
    {
        let sib_byte: usize = if sib.is_some() {
            1
        } else {
            0
        };
        let displacement: usize = match self.0 {
            ModBits::OO => {
                if self.2 == Register::EBP {
                    if sib.is_none() {
                        4
                    } else {
                        return Err(DecodeError::InvalidSib);
                    }
                } else if self.2 == Register::ESP {
                    match sib {
                        Some(s) => {
                            if s.2 == Register::EBP {
                                4
                            } else {
                                0
                            }
                        },
                        None => {
                            return Err(DecodeError::InvalidSib);
                        },
                    }
                } else {
                    0
                }
            },
            ModBits::OI => 1,
            ModBits::IO => 4,
            ModBits::II => 0,
        };
        Ok(sib_byte + displacement)
    }
}

/// Returns the 3-bit code of a general-purpose register.
pub fn register_code(r: Register) -> (c: u8)
    requires
        spec_register_code(r) < 8,
    ensures
        c == spec_register_code(r),
{
    match r {
        Register::EAX => 0,
        Register::ECX => 1,
        Register::EDX => 2,
        Register::EBX => 3,
        Register::ESP => 4,
        Register::EBP => 5,
        Register::ESI => 6,
        Register::EDI => 7,
        _ => 0,
    }
}

/// A parsed SIB byte: (scale, index, base).
#[derive(Clone, Copy, Debug, PartialEq, Eq, Structural)]
pub struct Sib(pub Scale, pub Register, pub Register);

/// The SIB triple encoded by one byte: scale in bits 7..6, index in 5..3,
/// base in 2..0.
pub open spec fn spec_sib_of_byte(byte: u8) -> Sib {
    Sib(
        spec_scale_of_code(byte / 64),
        spec_register_of_code((byte / 8) % 8),
        spec_register_of_code(byte % 8),
    )
}

impl Sib {
    /// Splits a raw byte into its SIB fields. The split is unconditional:
    /// the no-index and no-base special cases are interpreted later, by
    /// the effective-address builder.
    pub fn from_byte(byte: u8) -> (r: Sib)
        ensures
            r == spec_sib_of_byte(byte),
    {
        let sc = byte / 64;
        let ix = (byte / 8) % 8;
        let bs = byte % 8;
        Sib(
            if sc == 0 {
                Scale::One
            } else if sc == 1 {
                Scale::Two
            } else if sc == 2 {
                Scale::Four
            } else {
                Scale::Eight
            },
            match Register::from_code(ix) {
                Ok(r) => r,
                Err(_) => Register::EAX,
            },
            match Register::from_code(bs) {
                Ok(r) => r,
                Err(_) => Register::EAX,
            },
        )
    }

    /// The scale field.
    pub fn scale(&self) -> (r: Scale)
        ensures
            r == self.0,
    {
        self.0
    }

    /// The index field.
    pub fn index(&self) -> (r: Register)
        ensures
            r == self.1,
    {
        self.1
    }

    /// The base field.
    pub fn base(&self) -> (r: Register)
        ensures
            r == self.2,
    {
        self.2
    }

    /// The displacement bytes implied by the SIB alone: none when the
    /// index slot is empty, otherwise a disp32.
    pub fn bytes_remaining(&self, _modrm: ModRM) -> (r: usize)
        ensures
            r == if self.1 == Register::ESP {
                0nat
            } else {
                4nat
            },
    {
        if self.1 == Register::ESP {
            0
        } else {
            4
        }
    }

    /// Reads and splits the SIB byte at `bytes[idx]`.
    pub fn sib(bytes: &[u8], idx: usize) -> (r: Result<Sib, DecodeError>)
        ensures
            idx < bytes@.len() ==> r == Ok::<Sib, DecodeError>(spec_sib_of_byte(bytes@[idx as int])),
            idx >= bytes@.len() ==> r == Err::<Sib, DecodeError>(DecodeError::InvalidLength),
    {
        if idx < bytes.len() {
            Ok(Sib::from_byte(*vstd::slice::slice_index_get(bytes, idx)))
        } else {
            Err(DecodeError::InvalidLength)
        }
    }
}

/// The operand-encoding kinds: the shape of the operand list and where
/// each operand's bits live.
#[derive(Clone, Copy, Debug, PartialEq, Eq, Structural, Hash)]
pub enum OpEn {
    RM,
    MR,
    MI,
    M,
    I,
    ZO,
    O,
    OI,
    D,
    FD,
    TD,
    M1,
    RMI,
}

impl OpEn {
    /// Whether the encoding reads a ModR/M byte.
    pub open spec fn spec_modrm_required(self) -> bool {
        match self {
            OpEn::RM | OpEn::MR | OpEn::MI | OpEn::M | OpEn::M1 | OpEn::RMI => true,
            _ => false,
        }
    }

    /// Whether the encoding reads a ModR/M byte.
    pub fn modrm_required(&self) -> (r: bool)
        ensures
            r == self.spec_modrm_required(),
    {
        match self {
            OpEn::RM | OpEn::MR | OpEn::MI | OpEn::M | OpEn::M1 | OpEn::RMI => true,
            _ => false,
        }
    }

    /// How many operands the encoding produces.
    pub open spec fn spec_operand_count(self) -> nat {
        match self {
            OpEn::RM => 2,
            OpEn::MR => 2,
            OpEn::MI => 2,
            OpEn::M1 => 2,
            OpEn::M => 1,
            OpEn::I => 1,
            OpEn::ZO => 0,
            OpEn::O => 0,
            OpEn::OI => 2,
            OpEn::D => 1,
            OpEn::RMI => 3,
            OpEn::FD => 2,
            OpEn::TD => 2,
        }
    }

    /// Returns how many operands the encoding produces.
    pub fn operand_count(&self) -> (r: usize)
        ensures
            r == self.spec_operand_count(),
    {
        match self {
            OpEn::RM => 2,
            OpEn::MR => 2,
            OpEn::MI => 2,
            OpEn::M1 => 2,
            OpEn::M => 1,
            OpEn::I => 1,
            OpEn::ZO => 0,
            OpEn::O => 0,
            OpEn::OI => 2,
            OpEn::D => 1,
            OpEn::RMI => 3,
            OpEn::FD => 2,
            OpEn::TD => 2,
        }
    }
}

/// One token of a rule's opcode extension set: register-in-opcode tags,
/// immediate and code-offset width tags, the `/r` register selector, the
/// `/digit` constraints, and relative-displacement width tags.
#[derive(Clone, Copy, Debug, PartialEq, Eq, Structural, Hash)]
pub enum Extension {
    RW,
    RD,
    IB,
    IW,
    ID,
    CB,
    CW,
    CD,
    SR,
    S0,
    S1,
    S2,
    S3,
    S4,
    S5,
    S6,
    S7,
    Rel8,
    Rel16,
    Rel32,
}

impl Extension {
    /// The digit demanded of ModR/M.REG by a `/digit` extension.
    pub open spec fn spec_sdigit(self) -> Option<u8> {
        match self {
            Extension::S0 => Some(0),
            Extension::S1 => Some(1),
            Extension::S2 => Some(2),
            Extension::S3 => Some(3),
            Extension::S4 => Some(4),
            Extension::S5 => Some(5),
            Extension::S6 => Some(6),
            Extension::S7 => Some(7),
            _ => None,
        }
    }

    /// Whether this is a `/digit` constraint.
    pub fn is_sdigit(&self) -> (r: bool)
        ensures
            r == (self.spec_sdigit() is Some),
    {
        match self {
            Extension::S0 | Extension::S1 | Extension::S2 | Extension::S3 | Extension::S4
                | Extension::S5 | Extension::S6 | Extension::S7 => true,
            _ => false,
        }
    }

    /// Whether this `/digit` constraint names exactly `value`.
    pub fn valid_sdigit(&self, value: u8) -> (r: bool)
        ensures
            r == (self.spec_sdigit() == Some(value)),
    {
        match self {
            Extension::S0 => 0 == value,
            Extension::S1 => 1 == value,
            Extension::S2 => 2 == value,
            Extension::S3 => 3 == value,
            Extension::S4 => 4 == value,
            Extension::S5 => 5 == value,
            Extension::S6 => 6 == value,
            Extension::S7 => 7 == value,
            _ => false,
        }
    }

    /// The number of trailing operand bytes the extension demands, if it
    /// is a width tag.
    pub open spec fn spec_operand_length(self) -> Option<nat> {
        match self {
            Extension::IB => Some(1nat),
            Extension::IW => Some(2nat),
            Extension::ID => Some(4nat),
            Extension::CB => Some(1nat),
            Extension::CW => Some(2nat),
            Extension::CD => Some(4nat),
            Extension::RD => Some(0nat),
            Extension::RW => Some(0nat),
            Extension::Rel8 => Some(1nat),
            Extension::Rel16 => Some(2nat),
            Extension::Rel32 => Some(4nat),
            _ => None,
        }
    }

    /// Returns the number of trailing operand bytes the extension
    /// demands, if it is a width tag.
    pub fn operand_length(&self) -> (r: Option<usize>)
        ensures
            r == match self.spec_operand_length() {
                Some(n) => Some(n as usize),
                None => None::<usize>,
            },
    {
        match self {
            Extension::IB => Some(1),
            Extension::IW => Some(2),
            Extension::ID => Some(4),
            Extension::CB => Some(1),
            Extension::CW => Some(2),
            Extension::CD => Some(4),
            Extension::RD => Some(0),
            Extension::RW => Some(0),
            Extension::Rel8 => Some(1),
            Extension::Rel16 => Some(2),
            Extension::Rel32 => Some(4),
            _ => None,
        }
    }
}

/// The first `/digit` constraint in an extension list, if any.
pub open spec fn spec_get_sdigit(exts: Seq<Extension>) -> Option<Extension>
    decreases exts.len(),
{
    if exts.len() == 0 {
        None
    } else if exts[0].spec_sdigit() is Some {
        Some(exts[0])
    } else {
        spec_get_sdigit(exts.drop_first())
    }
}

/// The ordered extension set of a decode rule.
#[derive(Clone, Debug, PartialEq, Eq)]
pub struct ExtSet(pub Vec<Extension>);

impl ExtSet {
    /// Whether the set holds the given extension.
    pub fn contains(&self, rhs: Extension) -> (r: bool)
        ensures
            r == self.0@.contains(rhs),
    {
        let mut i: usize = 0;
        while i < self.0.len()
            invariant
                i <= self.0@.len(),
                forall|j: int| 0 <= j < i ==> self.0@[j] != rhs,
            decreases self.0@.len() - i,
        {
            if self.0[i] == rhs {
                return true;
            }
            i += 1;
        }
        false
    }

    /// Yields the first `/digit` extension of the set, if any; rules use
    /// at most one.
    pub fn get_sdigit(&self) -> (r: Option<Extension>)
        ensures
            r == spec_get_sdigit(self.0@),
    {
        let mut i: usize = 0;
        proof {
            assert(self.0@.skip(0) =~= self.0@);
        }
        while i < self.0.len()
            invariant
                i <= self.0@.len(),
                spec_get_sdigit(self.0@) == spec_get_sdigit(self.0@.skip(i as int)),
                forall|j: int| 0 <= j < i ==> self.0@[j].spec_sdigit() is None,
            decreases self.0@.len() - i,
        {
            let e = self.0[i];
            proof {
                assert(self.0@.skip(i as int).len() > 0);
                assert(self.0@.skip(i as int)[0] == self.0@[i as int]);
                assert(self.0@.skip(i as int).drop_first() =~= self.0@.skip(i + 1));
            }
            if e.is_sdigit() {
                return Some(e);
            }
            i += 1;
        }
        proof {
            assert(self.0@.skip(i as int).len() == 0);
        }
        None
    }
}

/// Whether a mnemonic belongs to the label-making set: the direct calls
/// and jumps whose targets receive symbolic labels.
pub open spec fn spec_is_label_mnemonic(m: Seq<char>) -> bool {
    m == "call"@ || m == "jmp"@ || m == "jz"@ || m == "jnz"@ || m == "jne"@
}

/// Returns whether a mnemonic belongs to the label-making set.
pub fn is_label_mnemonic(m: &str) -> (r: bool)
    ensures
        r == spec_is_label_mnemonic(m@),
{
    str_view_eq(m, "call") || str_view_eq(m, "jmp") || str_view_eq(m, "jz") || str_view_eq(m, "jnz")
        || str_view_eq(m, "jne")
}

/// The mathematical model of a decoded instruction: the views of its
/// prefix, mnemonic, and operand list.
#[verifier::ext_equal]
pub ghost struct InstructionModel {
    pub prefix: Option<Seq<char>>,
    pub mnemonic: Seq<char>,
    pub operands: Seq<Operand>,
}

/// A decoded instruction: an optional prefix, a mnemonic, and its
/// operands in order.
#[derive(Clone, Debug, PartialEq)]
pub struct Instruction {
    pub prefix: Option<String>,
    pub mnemonic: &'static str,
    pub operands: Vec<Operand>,
}

impl View for Instruction {
    type V = InstructionModel;

    open spec fn view(&self) -> InstructionModel {
        InstructionModel {
            prefix: match self.prefix {
                Some(ref p) => Some(p@),
                None => None,
            },
            mnemonic: self.mnemonic@,
            operands: self.operands@,
        }
    }
}

impl Default for Instruction {
    /// Returns an instruction with an empty mnemonic and no operands.
    fn default() -> (r: Self)
        ensures
            r@ == (InstructionModel {
                prefix: None,
                mnemonic: ""@,
                operands: Seq::<Operand>::empty(),
            }),
    {
        let r = Instruction { prefix: None, mnemonic: "", operands: Vec::new() };
        proof {
            assert(r@.operands =~= Seq::<Operand>::empty());
        }
        r
    }
}

impl Instruction {
    /// Builds an instruction with the given mnemonic and no operands.
    pub fn new(mnemonic: &'static str) -> (r: Instruction)
        ensures
            r@ == (InstructionModel {
                prefix: None,
                mnemonic: mnemonic@,
                operands: Seq::<Operand>::empty(),
            }),
    {
        let r = Instruction { prefix: None, mnemonic, operands: Vec::new() };
        proof {
            assert(r@.operands =~= Seq::<Operand>::empty());
        }
        r
    }

    /// Appends an operand.
    pub fn add(&mut self, op: Operand) -> (ret: &mut Self)
        ensures
            ret@ == (InstructionModel {
                prefix: old(self)@.prefix,
                mnemonic: old(self)@.mnemonic,
                operands: old(self)@.operands.push(op),
            }),
            final(self)@ == final(ret)@,
    {
        self.operands.push(op);
        self
    }

    /// Replaces the prefix.
    pub fn _update_prefix(&mut self, prefix: String) -> (ret: &mut Self)
        ensures
            ret@ == (InstructionModel {
                prefix: Some(prefix@),
                mnemonic: old(self)@.mnemonic,
                operands: old(self)@.operands,
            }),
            final(self)@ == final(ret)@,
    {
        self.prefix = Some(prefix);
        self
    }

    /// Whether the instruction's targets are read as label offsets: true
    /// exactly for the label-making mnemonics.
    pub fn convert_displacements_to_offsets(&self) -> (r: bool)
        ensures
            r == spec_is_label_mnemonic(self.mnemonic@),
    {
        is_label_mnemonic(self.mnemonic)
    }

    /// Returns the offset of the instruction's reference, for
    /// instructions that call or jump to another address: the single
    /// displacement or label operand, if there is exactly one.
    pub fn get_displacement_offset(&self) -> (r: Option<Offset>)
        ensures
            r == spec_displacement_offset(self@.operands),
    {
        let mut found: Option<Offset> = None;
        let mut count: usize = 0;
        let mut i: usize = 0;
        proof {
            assert(self.operands@.take(0) =~= Seq::<Operand>::empty());
        }
        while i < self.operands.len()
            invariant
                i <= self.operands@.len(),
                count <= i,
                count == spec_reference_offsets(self.operands@.take(i as int)).len(),
                count > 0 ==> found == Some(
                    spec_reference_offsets(self.operands@.take(i as int)).last(),
                ),
                count == 0 ==> found is None,
            decreases self.operands@.len() - i,
        {
            proof {
                assert(self.operands@.take(i + 1).drop_last() =~= self.operands@.take(i as int));
                assert(self.operands@.take(i + 1).last() == self.operands@[i as int]);
            }
            match self.operands[i] {
                Operand::Displacement(d) => {
                    found = Some(Offset(d.get_inner()));
                    count = count + 1;
                },
                Operand::Label(off) => {
                    found = Some(off);
                    count = count + 1;
                },
                _ => {},
            }
            i += 1;
        }
        proof {
            assert(self.operands@.take(self.operands@.len() as int) =~= self.operands@);
        }
        if count == 1 {
            found
        } else {
            None
        }
    }

    /// The rendered instruction: the prefix if any, the mnemonic, then
    /// the operands separated by `, `.
    pub open spec fn spec_text(m: InstructionModel) -> Seq<char> {
        (match m.prefix {
            Some(p) => p + " "@,
            None => Seq::<char>::empty(),
        }) + m.mnemonic + (if m.operands.len() > 0 {
            " "@ + spec_operand_list_text(m.operands, 0)
        } else {
            Seq::<char>::empty()
        })
    }

    /// Renders the instruction.
    pub fn text(&self) -> (r: String)
        ensures
            r@ == Self::spec_text(self@),
    {
        let mut s = match &self.prefix {
            Some(p) => {
                let mut s = String::from_str(p.as_str());
                s.append(" ");
                s
            },
            None => String::new(),
        };
        s.append(self.mnemonic);
        if self.operands.len() > 0 {
            s.append(" ");
            s.append(operand_list_text(&self.operands, 0).as_str());
        }
        s
    }
}

/// The offsets referenced by displacement or label operands, in operand
/// order.
pub open spec fn spec_reference_offsets(ops: Seq<Operand>) -> Seq<Offset>
    decreases ops.len(),
{
    if ops.len() == 0 {
        Seq::empty()
    } else {
        spec_reference_offsets(ops.drop_last()) + (match ops.last() {
            Operand::Displacement(d) => seq![Offset(d.spec_inner())],
            Operand::Label(off) => seq![off],
            _ => Seq::<Offset>::empty(),
        })
    }
}

/// The single referenced offset of an operand list, if there is exactly
/// one displacement or label operand.
pub open spec fn spec_displacement_offset(ops: Seq<Operand>) -> Option<Offset> {
    if spec_reference_offsets(ops).len() == 1 {
        Some(spec_reference_offsets(ops)[0])
    } else {
        None
    }
}

/// The rendered operand list from index `i` on, separated by `, `.
pub open spec fn spec_operand_list_text(ops: Seq<Operand>, i: int) -> Seq<char>
    decreases ops.len() - i,
{
    if i < 0 || i >= ops.len() {
        Seq::empty()
    } else if i == ops.len() - 1 {
        ops[i].spec_text()
    } else {
        ops[i].spec_text() + ", "@ + spec_operand_list_text(ops, i + 1)
    }
}

/// Renders the operand list from index `i` on, separated by `, `.
fn operand_list_text(ops: &Vec<Operand>, i: usize) -> (r: String)
    ensures
        r@ == spec_operand_list_text(ops@, i as int),
    decreases ops@.len() - i,
{
    if i >= ops.len() {
        String::new()
    } else if i == ops.len() - 1 {
        ops[i].text()
    } else {
        let mut s = ops[i].text();
        s.append(", ");
        s.append(operand_list_text(ops, i + 1).as_str());
        s
    }
}

} // verus!
