//! Operand-level data: registers, scales, displacements, immediates,
//! offsets, effective addresses, and the operand sum type.

use vstd::prelude::*;
use vstd::string::*;

use crate::decode::DecodeError;
use crate::instruction::{ModRM, Sib, ModBits};
use crate::strutil::{spec_hex_seq, hex_str};

verus! {

/// Truncation of a (possibly negative) integer to 8 bits.
pub open spec fn wrap_u8(x: int) -> u8 {
    (x % 0x100) as u8
}

/// Truncation of a (possibly negative) integer to 16 bits.
pub open spec fn wrap_u16(x: int) -> u16 {
    (x % 0x10000) as u16
}

/// Truncation of a (possibly negative) integer to 32 bits.
pub open spec fn wrap_u32(x: int) -> u32 {
    (x % 0x100000000) as u32
}

/// The value of `d` sign-extended from 8 to 32 bits.
pub open spec fn spec_sext8(d: u8) -> u32 {
    if d >= 0x80 {
        (d + 0xFFFFFF00) as u32
    } else {
        d as u32
    }
}

/// The value of `d` sign-extended from 16 to 32 bits.
pub open spec fn spec_sext16(d: u16) -> u32 {
    if d >= 0x8000 {
        (d + 0xFFFF0000) as u32
    } else {
        d as u32
    }
}

/// The little-endian 16-bit value stored at `bytes[i..i + 2]`.
pub open spec fn spec_le16(bytes: Seq<u8>, i: int) -> u16 {
    (bytes[i] + 0x100 * bytes[i + 1]) as u16
}

/// The little-endian 32-bit value stored at `bytes[i..i + 4]`.
pub open spec fn spec_le32(bytes: Seq<u8>, i: int) -> u32 {
    (bytes[i] + 0x100 * bytes[i + 1] + 0x10000 * bytes[i + 2] + 0x1000000 * bytes[i + 3]) as u32
}

/// Reads the little-endian 16-bit value at `bytes[i..i + 2]`.
pub fn le16_at(bytes: &[u8], i: usize) -> (r: u16)
    requires
        i + 2 <= bytes@.len(),
    ensures
        r == spec_le16(bytes@, i as int),
{
    let _n = bytes.len();
    let b0 = *vstd::slice::slice_index_get(bytes, i) as u16;
    let b1 = *vstd::slice::slice_index_get(bytes, i + 1) as u16;
    b0 + 0x100 * b1
}

/// Reads the little-endian 32-bit value at `bytes[i..i + 4]`.
pub fn le32_at(bytes: &[u8], i: usize) -> (r: u32)
    requires
        i + 4 <= bytes@.len(),
    ensures
        r == spec_le32(bytes@, i as int),
{
    let _n = bytes.len();
    let b0 = *vstd::slice::slice_index_get(bytes, i) as u32;
    let b1 = *vstd::slice::slice_index_get(bytes, i + 1) as u32;
    let b2 = *vstd::slice::slice_index_get(bytes, i + 2) as u32;
    let b3 = *vstd::slice::slice_index_get(bytes, i + 3) as u32;
    b0 + 0x100 * b1 + 0x10000 * b2 + 0x1000000 * b3
}

/// The eight general 32-bit IA-32 registers, ordered by their canonical
/// 3-bit encoding (EAX=0 .. EDI=7), plus the sub-registers that appear as
/// implied operand targets for a few opcodes.
#[derive(Clone, Copy, Debug, PartialEq, Eq, Structural)]
pub enum Register {
    EAX,
    ECX,
    EDX,
    EBX,
    ESP,
    EBP,
    ESI,
    EDI,
    AH,
    AL,
    AX,
    RAX,
    BH,
    BL,
    BX,
    RBX,
    CH,
    CL,
    CX,
    RCX,
    DH,
    DL,
    DX,
    RDX,
}

/// The register selected by a 3-bit field of a ModR/M or SIB byte.
pub open spec fn spec_register_of_code(code: u8) -> Register {
    if code == 0 {
        Register::EAX
    } else if code == 1 {
        Register::ECX
    } else if code == 2 {
        Register::EDX
    } else if code == 3 {
        Register::EBX
    } else if code == 4 {
        Register::ESP
    } else if code == 5 {
        Register::EBP
    } else if code == 6 {
        Register::ESI
    } else {
        Register::EDI
    }
}

impl Register {
    /// Decodes a 3-bit register code; values above 7 are rejected.
    pub fn from_code(code: u8) -> (r: Result<Register, DecodeError>)
        ensures
            code < 8 ==> r == Ok::<Register, DecodeError>(spec_register_of_code(code)),
            code >= 8 ==> r == Err::<Register, DecodeError>(DecodeError::InvalidRegister),
    {
        match code {
            0 => Ok(Register::EAX),
            1 => Ok(Register::ECX),
            2 => Ok(Register::EDX),
            3 => Ok(Register::EBX),
            4 => Ok(Register::ESP),
            5 => Ok(Register::EBP),
            6 => Ok(Register::ESI),
            7 => Ok(Register::EDI),
            _ => Err(DecodeError::InvalidRegister),
        }
    }

    /// The lowercase canonical name of the register.
    pub open spec fn spec_name(self) -> Seq<char> {
        match self {
            Register::EAX => "eax"@,
            Register::ECX => "ecx"@,
            Register::EDX => "edx"@,
            Register::EBX => "ebx"@,
            Register::ESP => "esp"@,
            Register::EBP => "ebp"@,
            Register::ESI => "esi"@,
            Register::EDI => "edi"@,
            Register::AH => "ah"@,
            Register::AL => "al"@,
            Register::AX => "ax"@,
            Register::RAX => "rax"@,
            Register::BH => "bh"@,
            Register::BL => "bl"@,
            Register::BX => "bx"@,
            Register::RBX => "rbx"@,
            Register::CH => "ch"@,
            Register::CL => "cl"@,
            Register::CX => "cx"@,
            Register::RCX => "rcx"@,
            Register::DH => "dh"@,
            Register::DL => "dl"@,
            Register::DX => "dx"@,
            Register::RDX => "rdx"@,
        }
    }

    /// Renders the register as its lowercase canonical name.
    pub fn name(&self) -> (r: &'static str)
        ensures
            r@ == self.spec_name(),
    {
        match self {
            Register::EAX => "eax",
            Register::ECX => "ecx",
            Register::EDX => "edx",
            Register::EBX => "ebx",
            Register::ESP => "esp",
            Register::EBP => "ebp",
            Register::ESI => "esi",
            Register::EDI => "edi",
            Register::AH => "ah",
            Register::AL => "al",
            Register::AX => "ax",
            Register::RAX => "rax",
            Register::BH => "bh",
            Register::BL => "bl",
            Register::BX => "bx",
            Register::RBX => "rbx",
            Register::CH => "ch",
            Register::CL => "cl",
            Register::CX => "cx",
            Register::RCX => "rcx",
            Register::DH => "dh",
            Register::DL => "dl",
            Register::DX => "dx",
            Register::RDX => "rdx",
        }
    }
}

impl Default for Register {
    /// Returns the register with 3-bit code 0.
    fn default() -> (r: Self)
        ensures
            r == Register::EAX,
    {
        Register::EAX
    }
}

/// The scale factor of a SIB byte, encoded in its top 2 bits.
#[derive(Clone, Copy, Debug, PartialEq, Eq, Structural)]
pub enum Scale {
    One,
    Two,
    Four,
    Eight,
}

/// The scale selected by the 2-bit SS field of a SIB byte.
pub open spec fn spec_scale_of_code(code: u8) -> Scale {
    if code == 0 {
        Scale::One
    } else if code == 1 {
        Scale::Two
    } else if code == 2 {
        Scale::Four
    } else {
        Scale::Eight
    }
}

impl Scale {
    /// Decodes a 2-bit scale code; values above 3 are rejected.
    pub fn from_code(code: u8) -> (r: Result<Scale, DecodeError>)
        ensures
            code < 4 ==> r == Ok::<Scale, DecodeError>(spec_scale_of_code(code)),
            code >= 4 ==> r == Err::<Scale, DecodeError>(DecodeError::InvalidSib),
    {
        match code {
            0 => Ok(Scale::One),
            1 => Ok(Scale::Two),
            2 => Ok(Scale::Four),
            3 => Ok(Scale::Eight),
            _ => Err(DecodeError::InvalidSib),
        }
    }

    /// The scale rendered as its decimal factor.
    pub open spec fn spec_text(self) -> Seq<char> {
        match self {
            Scale::One => "1"@,
            Scale::Two => "2"@,
            Scale::Four => "4"@,
            Scale::Eight => "8"@,
        }
    }

    /// Renders the scale as its decimal factor.
    pub fn text(&self) -> (r: &'static str)
        ensures
            r@ == self.spec_text(),
    {
        match self {
            Scale::One => "1",
            Scale::Two => "2",
            Scale::Four => "4",
            Scale::Eight => "8",
        }
    }

    /// The scale as it appears after an index register: empty for a factor
    /// of one, otherwise ` * factor`.
    pub open spec fn spec_optional_text(self) -> Seq<char> {
        if self == Scale::One {
            Seq::empty()
        } else {
            " * "@ + self.spec_text()
        }
    }

    /// Renders the scale as it appears after an index register.
    pub fn format_optional_operand(&self) -> (r: String)
        ensures
            r@ == self.spec_optional_text(),
    {
        if *self == Scale::One {
            String::new()
        } else {
            let mut s = String::from_str(" * ");
            s.append(self.text());
            s
        }
    }
}

/// A 32-bit byte address into the input stream, used both for the sweep
/// position and for label targets.
#[derive(Clone, Copy, Debug, PartialEq, Eq, Structural, Default)]
pub struct Offset(pub u32);

/// A label target rendered as `offset_AAAAAAAAh`.
pub open spec fn spec_offset_text(v: u32) -> Seq<char> {
    "offset_"@ + spec_hex_seq(v as int, 8) + "h"@
}

impl Offset {
    /// Advances the offset by `bytes`.
    pub fn increment(&mut self, bytes: u32)
        requires
            old(self).0 + bytes <= u32::MAX,
        ensures
            final(self).0 == old(self).0 + bytes,
    {
        self.0 = self.0 + bytes;
    }

    /// The offset as a usize index.
    pub fn to_pointer(&self) -> (r: usize)
        ensures
            r == self.0 as usize,
    {
        self.0 as usize
    }

    /// Renders the offset as a label reference.
    pub fn text(&self) -> (r: String)
        ensures
            r@ == spec_offset_text(self.0),
    {
        let mut s = String::from_str("offset_");
        s.append(hex_str(self.0 as u64, 8).as_str());
        s.append("h");
        s
    }
}

/// A displacement: either a memory-relative offset inside a ModR/M
/// addressing form (`Abs*`) or a PC-relative branch operand (`Rel*`).
#[derive(Clone, Copy, Debug, PartialEq, Eq, Structural)]
pub enum Displacement {
    Absent,
    Rel8(u8),
    Rel16(u16),
    Rel32(u32),
    Abs8(u8),
    Abs16(u16),
    Abs32(u32),
}

impl Default for Displacement {
    /// Returns the empty displacement.
    fn default() -> (r: Self)
        ensures
            r == Displacement::Absent,
    {
        Displacement::Absent
    }
}

impl Displacement {
    /// The number of bytes the displacement occupies on the wire.
    pub open spec fn spec_len(self) -> nat {
        match self {
            Displacement::Absent => 0,
            Displacement::Rel8(_) | Displacement::Abs8(_) => 1,
            Displacement::Rel16(_) | Displacement::Abs16(_) => 2,
            Displacement::Rel32(_) | Displacement::Abs32(_) => 4,
        }
    }

    /// The number of bytes the displacement occupies on the wire.
    pub fn len(&self) -> (r: usize)
        ensures
            r == self.spec_len(),
    {
        match self {
            Displacement::Absent => 0,
            Displacement::Rel8(_) | Displacement::Abs8(_) => 1,
            Displacement::Rel16(_) | Displacement::Abs16(_) => 2,
            Displacement::Rel32(_) | Displacement::Abs32(_) => 4,
        }
    }

    /// The carried value zero-extended to 32 bits.
    pub open spec fn spec_inner(self) -> u32 {
        match self {
            Displacement::Absent => 0,
            Displacement::Rel8(d) => d as u32,
            Displacement::Rel16(d) => d as u32,
            Displacement::Rel32(d) => d,
            Displacement::Abs8(d) => d as u32,
            Displacement::Abs16(d) => d as u32,
            Displacement::Abs32(d) => d,
        }
    }

    /// Returns the carried value zero-extended to 32 bits.
    pub fn get_inner(&self) -> (r: u32)
        ensures
            r == self.spec_inner(),
    {
        match self {
            Displacement::Absent => 0,
            Displacement::Rel8(d) => *d as u32,
            Displacement::Rel16(d) => *d as u32,
            Displacement::Rel32(d) => *d,
            Displacement::Abs8(d) => *d as u32,
            Displacement::Abs16(d) => *d as u32,
            Displacement::Abs32(d) => *d,
        }
    }

    /// The carried value sign-extended to 32 bits; relative forms are
    /// already full targets and are not re-extended.
    pub open spec fn spec_sext_inner(self) -> u32 {
        match self {
            Displacement::Absent => 0,
            Displacement::Rel8(d) => d as u32,
            Displacement::Rel16(d) => d as u32,
            Displacement::Rel32(d) => d,
            Displacement::Abs8(d) => spec_sext8(d),
            Displacement::Abs16(d) => spec_sext16(d),
            Displacement::Abs32(d) => d,
        }
    }

    /// The rendered form: relative displacements read as label references,
    /// absolute ones as sign-extended 8-digit hex.
    pub open spec fn spec_text(self) -> Seq<char> {
        match self {
            Displacement::Absent => Seq::empty(),
            Displacement::Rel8(d) => spec_offset_text(d as u32),
            Displacement::Rel16(d) => spec_offset_text(d as u32),
            Displacement::Rel32(d) => spec_offset_text(d),
            Displacement::Abs8(d) => "0x"@ + spec_hex_seq(spec_sext8(d) as int, 8),
            Displacement::Abs16(d) => "0x"@ + spec_hex_seq(spec_sext16(d) as int, 8),
            Displacement::Abs32(d) => "0x"@ + spec_hex_seq(d as int, 8),
        }
    }

    /// Renders the displacement.
    pub fn text(&self) -> (r: String)
        ensures
            r@ == self.spec_text(),
    {
        match self {
            Displacement::Absent => String::new(),
            Displacement::Rel8(d) => Offset(*d as u32).text(),
            Displacement::Rel16(d) => Offset(*d as u32).text(),
            Displacement::Rel32(d) => Offset(*d).text(),
            Displacement::Abs8(d) => {
                let v = if *d >= 0x80 {
                    *d as u32 + 0xFFFFFF00
                } else {
                    *d as u32
                };
                let mut s = String::from_str("0x");
                s.append(hex_str(v as u64, 8).as_str());
                s
            },
            Displacement::Abs16(d) => {
                let v = if *d >= 0x8000 {
                    *d as u32 + 0xFFFF0000
                } else {
                    *d as u32
                };
                let mut s = String::from_str("0x");
                s.append(hex_str(v as u64, 8).as_str());
                s
            },
            Displacement::Abs32(d) => {
                let mut s = String::from_str("0x");
                s.append(hex_str(*d as u64, 8).as_str());
                s
            },
        }
    }

    /// The displacement as it appears inside an effective address: empty
    /// when absent or zero, otherwise ` + rendered`.
    pub open spec fn spec_optional_text(self) -> Seq<char> {
        if self == Displacement::Absent || self.spec_inner() == 0 {
            Seq::empty()
        } else {
            " + "@ + self.spec_text()
        }
    }

    /// Renders the displacement as it appears inside an effective address.
    pub fn format_optional_operand(&self) -> (r: String)
        ensures
            r@ == self.spec_optional_text(),
    {
        if *self == Displacement::Absent || self.get_inner() == 0 {
            String::new()
        } else {
            let mut s = String::from_str(" + ");
            s.append(self.text().as_str());
            s
        }
    }

    /// Reads a one-byte absolute displacement at `bytes[base]`.
    pub fn disp8(bytes: &[u8], base: usize) -> (r: Result<Displacement, DecodeError>)
        ensures
            base + 1 <= bytes@.len() ==> r == Ok::<Displacement, DecodeError>(
                Displacement::Abs8(bytes@[base as int]),
            ),
            base + 1 > bytes@.len() ==> r == Err::<Displacement, DecodeError>(
                DecodeError::InvalidLength,
            ),
    {
        if base < bytes.len() {
            Ok(Displacement::Abs8(*vstd::slice::slice_index_get(bytes, base)))
        } else {
            Err(DecodeError::InvalidLength)
        }
    }

    /// Reads a four-byte little-endian absolute displacement at
    /// `bytes[base..base + 4]`.
    pub fn disp32(bytes: &[u8], base: usize) -> (r: Result<Displacement, DecodeError>)
        ensures
            base + 4 <= bytes@.len() ==> r == Ok::<Displacement, DecodeError>(
                Displacement::Abs32(spec_le32(bytes@, base as int)),
            ),
            base + 4 > bytes@.len() ==> r == Err::<Displacement, DecodeError>(
                DecodeError::InvalidLength,
            ),
    {
        if bytes.len() >= 4 && base <= bytes.len() - 4 {
            Ok(Displacement::Abs32(le32_at(bytes, base)))
        } else {
            Err(DecodeError::InvalidLength)
        }
    }

    /// Converts an absolute displacement into a PC-relative one by adding
    /// the address of the byte just past the displacement field, with
    /// wrapping arithmetic at the displacement's own width.
    pub fn abs_to_rel(&self, address: Offset, length: usize) -> (r: Result<
        Displacement,
        DecodeError,
    >)
        ensures
            r == match *self {
                Displacement::Absent => Err::<Displacement, DecodeError>(
                    DecodeError::InvalidDisplacementByteWidth,
                ),
                Displacement::Rel8(d) => Ok::<Displacement, DecodeError>(Displacement::Rel8(d)),
                Displacement::Rel16(d) => Ok::<Displacement, DecodeError>(Displacement::Rel16(d)),
                Displacement::Rel32(d) => Ok::<Displacement, DecodeError>(Displacement::Rel32(d)),
                Displacement::Abs8(d) => Ok::<Displacement, DecodeError>(
                    Displacement::Rel8(wrap_u8(d + address.0 + length + 1)),
                ),
                Displacement::Abs16(d) => Ok::<Displacement, DecodeError>(
                    Displacement::Rel16(wrap_u16(d + address.0 + length + 2)),
                ),
                Displacement::Abs32(d) => Ok::<Displacement, DecodeError>(
                    Displacement::Rel32(wrap_u32(d + address.0 + length + 4)),
                ),
            },
    {
        match self {
            Displacement::Absent => Err(DecodeError::InvalidDisplacementByteWidth),
            Displacement::Rel8(d) => Ok(Displacement::Rel8(*d)),
            Displacement::Rel16(d) => Ok(Displacement::Rel16(*d)),
            Displacement::Rel32(d) => Ok(Displacement::Rel32(*d)),
            Displacement::Abs8(d) => Ok(
                Displacement::Rel8(rel_target_u8(*d, address.0, length, 1)),
            ),
            Displacement::Abs16(d) => Ok(
                Displacement::Rel16(rel_target_u16(*d, address.0, length, 2)),
            ),
            Displacement::Abs32(d) => Ok(
                Displacement::Rel32(rel_target_u32(*d, address.0, length, 4)),
            ),
        }
    }

    /// Reads the `width` displacement bytes that start at
    /// `bytes[opcode_length]` and converts them into a PC-relative
    /// displacement for an instruction at `location`.
    pub fn from_relative(bytes: &[u8], location: Offset, opcode_length: usize, width: usize) -> (r:
        Result<Displacement, DecodeError>)
        ensures
            r == spec_from_relative(bytes@, location, opcode_length as nat, width as nat),
    {
        if opcode_length > bytes.len() || width > bytes.len() - opcode_length {
            return Err(DecodeError::InvalidModRM);
        }
        if width == 1 {
            let b: u8 = *vstd::slice::slice_index_get(bytes, opcode_length);
            Ok(Self::from_byte_relative(location, opcode_length, &[b]))
        } else if width == 2 {
            let b0: u8 = *vstd::slice::slice_index_get(bytes, opcode_length);
            let b1: u8 = *vstd::slice::slice_index_get(bytes, opcode_length + 1);
            proof {
                assert(seq![b0, b1] =~= bytes@.subrange(
                    opcode_length as int,
                    opcode_length + 2,
                ));
            }
            Ok(Self::from_word_relative(location, opcode_length, &[b0, b1]))
        } else if width == 4 {
            let b0: u8 = *vstd::slice::slice_index_get(bytes, opcode_length);
            let b1: u8 = *vstd::slice::slice_index_get(bytes, opcode_length + 1);
            let b2: u8 = *vstd::slice::slice_index_get(bytes, opcode_length + 2);
            let b3: u8 = *vstd::slice::slice_index_get(bytes, opcode_length + 3);
            proof {
                assert(seq![b0, b1, b2, b3] =~= bytes@.subrange(
                    opcode_length as int,
                    opcode_length + 4,
                ));
            }
            Ok(Self::from_double_relative(location, opcode_length, &[b0, b1, b2, b3]))
        } else {
            Err(DecodeError::InvalidDisplacementByteWidth)
        }
    }

    /// Converts the one displacement byte after the opcode into a
    /// PC-relative target, truncated to the displacement's width.
    pub fn from_byte_relative(address: Offset, opcode_length: usize, operand: &[u8; 1]) -> (r:
        Displacement)
        ensures
            r == Displacement::Rel8(wrap_u8(operand@[0] + address.0 + opcode_length + 1)),
    {
        Displacement::Rel8(rel_target_u8(operand[0], address.0, opcode_length, 1))
    }

    /// Converts the two little-endian displacement bytes after the opcode
    /// into a PC-relative target, truncated to the displacement's width.
    pub fn from_word_relative(address: Offset, opcode_length: usize, operand: &[u8; 2]) -> (r:
        Displacement)
        ensures
            r == Displacement::Rel16(
                wrap_u16(spec_le16(operand@, 0) + address.0 + opcode_length + 2),
            ),
    {
        let d: u16 = operand[0] as u16 + 0x100 * (operand[1] as u16);
        Displacement::Rel16(rel_target_u16(d, address.0, opcode_length, 2))
    }

    /// Converts the four little-endian displacement bytes after the
    /// opcode into a PC-relative target.
    pub fn from_double_relative(address: Offset, opcode_length: usize, operand: &[u8; 4]) -> (r:
        Displacement)
        ensures
            r == Displacement::Rel32(
                wrap_u32(spec_le32(operand@, 0) + address.0 + opcode_length + 4),
            ),
    {
        let d: u32 = operand[0] as u32 + 0x100 * (operand[1] as u32) + 0x10000 * (operand[2] as u32)
            + 0x1000000 * (operand[3] as u32);
        Displacement::Rel32(rel_target_u32(d, address.0, opcode_length, 4))
    }
}

/// The PC-relative displacement read from the byte window of an
/// instruction at `location`: the `width` bytes at `bytes[oplen..]`,
/// little-endian, plus the address of the byte just past them, truncated
/// to the displacement's width.
pub open spec fn spec_from_relative(bytes: Seq<u8>, location: Offset, oplen: nat, width: nat) -> Result<
    Displacement,
    DecodeError,
> {
    if oplen + width > bytes.len() {
        Err(DecodeError::InvalidModRM)
    } else if width == 1 {
        Ok(Displacement::Rel8(wrap_u8(bytes[oplen as int] + location.0 + oplen + 1)))
    } else if width == 2 {
        Ok(
            Displacement::Rel16(
                wrap_u16(spec_le16(bytes, oplen as int) + location.0 + oplen + 2),
            ),
        )
    } else if width == 4 {
        Ok(
            Displacement::Rel32(
                wrap_u32(spec_le32(bytes, oplen as int) + location.0 + oplen + 4),
            ),
        )
    } else {
        Err(DecodeError::InvalidDisplacementByteWidth)
    }
}

/// The low 8 bits of `d + a + l + w`.
fn rel_target_u8(d: u8, a: u32, l: usize, w: u8) -> (r: u8)
    ensures
        r == wrap_u8(d + a + l + w),
{
    let s: u128 = d as u128 + a as u128 + l as u128 + w as u128;
    (s % 0x100) as u8
}

/// The low 16 bits of `d + a + l + w`.
fn rel_target_u16(d: u16, a: u32, l: usize, w: u16) -> (r: u16)
    ensures
        r == wrap_u16(d + a + l + w),
{
    let s: u128 = d as u128 + a as u128 + l as u128 + w as u128;
    (s % 0x10000) as u16
}

/// The low 32 bits of `d + a + l + w`.
pub fn rel_target_u32(d: u32, a: u32, l: usize, w: u32) -> (r: u32)
    ensures
        r == wrap_u32(d + a + l + w),
{
    let s: u128 = d as u128 + a as u128 + l as u128 + w as u128;
    (s % 0x100000000) as u32
}

/// An immediate: a literal value read little-endian from the tail of the
/// instruction, carrying 1, 2, 4, or 8 bytes.
#[derive(Clone, Copy, Debug, PartialEq, Eq, Structural, Hash)]
pub enum Immediate {
    Imm8(u8),
    Imm16(u16),
    Imm32(u32),
    Imm64(u64),
}

impl Immediate {
    /// The number of bytes the immediate occupies on the wire.
    pub open spec fn spec_len(self) -> nat {
        match self {
            Immediate::Imm8(_) => 1,
            Immediate::Imm16(_) => 2,
            Immediate::Imm32(_) => 4,
            Immediate::Imm64(_) => 8,
        }
    }

    /// The number of bytes the immediate occupies on the wire.
    pub fn len(&self) -> (r: usize)
        ensures
            r == self.spec_len(),
    {
        match self {
            Immediate::Imm8(_) => 1,
            Immediate::Imm16(_) => 2,
            Immediate::Imm32(_) => 4,
            Immediate::Imm64(_) => 8,
        }
    }

    /// The carried value, as an unsigned integer.
    pub open spec fn spec_value(self) -> int {
        match self {
            Immediate::Imm8(v) => v as int,
            Immediate::Imm16(v) => v as int,
            Immediate::Imm32(v) => v as int,
            Immediate::Imm64(v) => v as int,
        }
    }

    /// The immediate's bytes in the little-endian order they have on the
    /// wire.
    pub open spec fn spec_raw_bytes(self) -> Seq<u8> {
        match self {
            Immediate::Imm8(v) => seq![v],
            Immediate::Imm16(v) => seq![(v % 0x100) as u8, ((v / 0x100) % 0x100) as u8],
            Immediate::Imm32(v) => seq![
                (v % 0x100) as u8,
                ((v / 0x100) % 0x100) as u8,
                ((v / 0x10000) % 0x100) as u8,
                ((v / 0x1000000) % 0x100) as u8,
            ],
            Immediate::Imm64(v) => seq![
                (v % 0x100) as u8,
                ((v / 0x100) % 0x100) as u8,
                ((v / 0x10000) % 0x100) as u8,
                ((v / 0x1000000) % 0x100) as u8,
                ((v / 0x100000000) % 0x100) as u8,
                ((v / 0x10000000000) % 0x100) as u8,
                ((v / 0x1000000000000) % 0x100) as u8,
                ((v / 0x100000000000000) % 0x100) as u8,
            ],
        }
    }

    /// Returns the immediate's bytes in little-endian wire order.
    pub fn raw_bytes(&self) -> (r: Vec<u8>)
        ensures
            r@ == self.spec_raw_bytes(),
    {
        let r = match self {
            Immediate::Imm8(v) => vec![*v],
            Immediate::Imm16(v) => vec![(v % 0x100) as u8, ((v / 0x100) % 0x100) as u8],
            Immediate::Imm32(v) => vec![
                (v % 0x100) as u8,
                ((v / 0x100) % 0x100) as u8,
                ((v / 0x10000) % 0x100) as u8,
                ((v / 0x1000000) % 0x100) as u8,
            ],
            Immediate::Imm64(v) => vec![
                (v % 0x100) as u8,
                ((v / 0x100) % 0x100) as u8,
                ((v / 0x10000) % 0x100) as u8,
                ((v / 0x1000000) % 0x100) as u8,
                ((v / 0x100000000) % 0x100) as u8,
                ((v / 0x10000000000) % 0x100) as u8,
                ((v / 0x1000000000000) % 0x100) as u8,
                ((v / 0x100000000000000) % 0x100) as u8,
            ],
        };
        proof {
            assert(r@ =~= self.spec_raw_bytes());
        }
        r
    }

    /// The rendered form: `0x` then the value in uppercase hex, two
    /// digits per carried byte, most significant first.
    pub open spec fn spec_text(self) -> Seq<char> {
        "0x"@ + spec_hex_seq(self.spec_value(), 2 * self.spec_len())
    }

    /// Renders the immediate.
    pub fn text(&self) -> (r: String)
        ensures
            r@ == self.spec_text(),
    {
        let (v, digits): (u64, usize) = match self {
            Immediate::Imm8(v) => (*v as u64, 2),
            Immediate::Imm16(v) => (*v as u64, 4),
            Immediate::Imm32(v) => (*v as u64, 8),
            Immediate::Imm64(v) => (*v, 16),
        };
        let mut s = String::from_str("0x");
        s.append(hex_str(v, digits).as_str());
        s
    }
}

/// A symbolic memory operand: the addressing shape reconstructed from
/// ModR/M, an optional SIB byte, and a displacement.
#[derive(Clone, Copy, Debug, PartialEq, Eq, Structural)]
pub enum EffectiveAddress {
    /// Bare register (MOD = 11).
    Register { reg: Register },
    /// `[ index * scale + disp32 ]`
    IndexDisp { index: Register, scale: Scale, displacement: Displacement },
    /// `[ disp32 ]`
    Displacement { displacement: Displacement },
    /// `[ base ]` or `[ base + disp ]`
    BaseDisp { base: Register, displacement: Displacement },
    /// `[ index * scale + base + disp ]`
    IndexBaseDisp { index: Register, scale: Scale, base: Register, displacement: Displacement },
}

/// The effective address built from a ModR/M byte, an optional SIB byte,
/// and the displacement that was read for them.
///
/// A SIB byte is demanded exactly when RM = ESP with MOD other than 11;
/// an index of ESP means no index; a SIB base of EBP under MOD = 00
/// means no base, with a disp32 in its place. The displacement argument
/// is stored as handed in; it is checked only where Intel's tables make
/// one mandatory: a SIB form whose MOD calls for a displacement rejects
/// an absent one, and the `[disp32]` form (MOD = 00, RM = EBP) demands a
/// four-byte displacement.
pub open spec fn spec_effective_address(modrm: ModRM, sib: Option<Sib>, disp: Displacement) -> Result<
    EffectiveAddress,
    DecodeError,
> {
    if modrm.0 == ModBits::II {
        Ok(EffectiveAddress::Register { reg: modrm.2 })
    } else if modrm.0 == ModBits::OO && modrm.2 == Register::EBP {
        if disp is Abs32 {
            Ok(EffectiveAddress::Displacement { displacement: disp })
        } else {
            Err(DecodeError::InvalidDisplacementByteWidth)
        }
    } else if modrm.spec_precedes_sib_byte() {
        match sib {
            Some(s) => {
                let use_base = !(s.2 == Register::EBP && modrm.0 == ModBits::OO);
                let use_index = s.1 != Register::ESP;
                let displacement_used = !(s.0 == Scale::One && !use_base)
                    && modrm.spec_uses_displacement();
                if displacement_used && disp is Absent {
                    Err(DecodeError::InvalidDisplacementByteWidth)
                } else if use_base && use_index {
                    Ok(
                        EffectiveAddress::IndexBaseDisp {
                            index: s.1,
                            scale: s.0,
                            base: s.2,
                            displacement: disp,
                        },
                    )
                } else if use_base {
                    Ok(EffectiveAddress::BaseDisp { base: s.2, displacement: disp })
                } else if use_index {
                    Ok(EffectiveAddress::IndexDisp { index: s.1, scale: s.0, displacement: disp })
                } else {
                    Ok(EffectiveAddress::Displacement { displacement: disp })
                }
            },
            None => Err(DecodeError::InvalidSib),
        }
    } else if modrm.0 == ModBits::OO {
        Ok(EffectiveAddress::BaseDisp { base: modrm.2, displacement: Displacement::Absent })
    } else {
        Ok(EffectiveAddress::BaseDisp { base: modrm.2, displacement: disp })
    }
}

impl EffectiveAddress {
    /// The number of displacement bytes the effective address carries.
    pub open spec fn spec_len(self) -> nat {
        match self {
            EffectiveAddress::Register { .. } => 0,
            EffectiveAddress::IndexDisp { displacement, .. } => displacement.spec_len(),
            EffectiveAddress::Displacement { displacement } => displacement.spec_len(),
            EffectiveAddress::BaseDisp { displacement, .. } => displacement.spec_len(),
            EffectiveAddress::IndexBaseDisp { displacement, .. } => displacement.spec_len(),
        }
    }

    /// The number of displacement bytes the effective address carries.
    pub fn len(&self) -> (r: usize)
        ensures
            r == self.spec_len(),
    {
        match self {
            EffectiveAddress::Register { .. } => 0,
            EffectiveAddress::IndexDisp { displacement, .. } => displacement.len(),
            EffectiveAddress::Displacement { displacement } => displacement.len(),
            EffectiveAddress::BaseDisp { displacement, .. } => displacement.len(),
            EffectiveAddress::IndexBaseDisp { displacement, .. } => displacement.len(),
        }
    }

    /// Builds the effective address for a ModR/M byte, an optional SIB
    /// byte, and the displacement read for them, per Intel Table 2-2 and
    /// 2-3.
    pub fn from(modrm: ModRM, sib: Option<Sib>, displacement: Displacement) -> (r: Result<
        EffectiveAddress,
        DecodeError,
    >)
        ensures
            r == spec_effective_address(modrm, sib, displacement),
    {
        if modrm.0 == ModBits::II {
            return Ok(EffectiveAddress::Register { reg: modrm.2 });
        }
        if modrm.0 == ModBits::OO && modrm.2 == Register::EBP {
            return if matches!(displacement, Displacement::Abs32(_)) {
                Ok(EffectiveAddress::Displacement { displacement })
            } else {
                Err(DecodeError::InvalidDisplacementByteWidth)
            };
        }
        if modrm.precedes_sib_byte() {
            let s = match sib {
                Some(s) => s,
                Option::None => {
                    return Err(DecodeError::InvalidSib);
                },
            };
            let use_base = !(s.2 == Register::EBP && modrm.0 == ModBits::OO);
            let use_index = s.1 != Register::ESP;
            let displacement_used = !(s.0 == Scale::One && !use_base) && modrm.uses_displacement();
            if displacement_used && matches!(displacement, Displacement::Absent) {
                return Err(DecodeError::InvalidDisplacementByteWidth);
            }
            if use_base && use_index {
                Ok(
                    EffectiveAddress::IndexBaseDisp {
                        index: s.1,
                        scale: s.0,
                        base: s.2,
                        displacement,
                    },
                )
            } else if use_base {
                Ok(EffectiveAddress::BaseDisp { base: s.2, displacement })
            } else if use_index {
                Ok(EffectiveAddress::IndexDisp { index: s.1, scale: s.0, displacement })
            } else {
                Ok(EffectiveAddress::Displacement { displacement })
            }
        } else {
            if modrm.0 == ModBits::OO {
                Ok(EffectiveAddress::BaseDisp { base: modrm.2, displacement: Displacement::Absent })
            } else {
                Ok(EffectiveAddress::BaseDisp { base: modrm.2, displacement })
            }
        }
    }

    /// Bare register.
    pub fn register(reg: Register) -> (r: EffectiveAddress)
        ensures
            r == (EffectiveAddress::Register { reg }),
    {
        EffectiveAddress::Register { reg }
    }

    /// `[ disp32 ]`
    pub fn displacement(displacement: u32) -> (r: EffectiveAddress)
        ensures
            r == (EffectiveAddress::Displacement {
                displacement: Displacement::Abs32(displacement),
            }),
    {
        EffectiveAddress::Displacement { displacement: Displacement::Abs32(displacement) }
    }

    /// `[ base ]`
    pub fn base(base: Register) -> (r: EffectiveAddress)
        ensures
            r == (EffectiveAddress::BaseDisp { base, displacement: Displacement::Absent }),
    {
        EffectiveAddress::BaseDisp { base, displacement: Displacement::Absent }
    }

    /// `[ base + disp8 ]`
    pub fn base_d8(base: Register, displacement: u8) -> (r: EffectiveAddress)
        ensures
            r == (EffectiveAddress::BaseDisp {
                base,
                displacement: Displacement::Abs8(displacement),
            }),
    {
        EffectiveAddress::BaseDisp { base, displacement: Displacement::Abs8(displacement) }
    }

    /// `[ base + disp32 ]`
    pub fn base_d32(base: Register, displacement: u32) -> (r: EffectiveAddress)
        ensures
            r == (EffectiveAddress::BaseDisp {
                base,
                displacement: Displacement::Abs32(displacement),
            }),
    {
        EffectiveAddress::BaseDisp { base, displacement: Displacement::Abs32(displacement) }
    }

    /// `[ index * scale + base ]`
    pub fn index_base(index: Register, scale: Scale, base: Register) -> (r: EffectiveAddress)
        ensures
            r == (EffectiveAddress::IndexBaseDisp {
                index,
                scale,
                base,
                displacement: Displacement::Absent,
            }),
    {
        EffectiveAddress::IndexBaseDisp { index, scale, base, displacement: Displacement::Absent }
    }

    /// `[ index * scale + base + disp8 ]`
    pub fn index_base_d8(index: Register, scale: Scale, base: Register, displacement: u8) -> (r:
        EffectiveAddress)
        ensures
            r == (EffectiveAddress::IndexBaseDisp {
                index,
                scale,
                base,
                displacement: Displacement::Abs8(displacement),
            }),
    {
        EffectiveAddress::IndexBaseDisp {
            index,
            scale,
            base,
            displacement: Displacement::Abs8(displacement),
        }
    }

    /// `[ index * scale + base + disp32 ]`
    pub fn index_base_d32(index: Register, scale: Scale, base: Register, displacement: u32) -> (r:
        EffectiveAddress)
        ensures
            r == (EffectiveAddress::IndexBaseDisp {
                index,
                scale,
                base,
                displacement: Displacement::Abs32(displacement),
            }),
    {
        EffectiveAddress::IndexBaseDisp {
            index,
            scale,
            base,
            displacement: Displacement::Abs32(displacement),
        }
    }

    /// `[ index * scale + disp32 ]`
    pub fn index_d32(index: Register, scale: Scale, displacement: u32) -> (r: EffectiveAddress)
        ensures
            r == (EffectiveAddress::IndexDisp {
                index,
                scale,
                displacement: Displacement::Abs32(displacement),
            }),
    {
        EffectiveAddress::IndexDisp {
            index,
            scale,
            displacement: Displacement::Abs32(displacement),
        }
    }

    /// The rendered form, wrapped in `[ ... ]` except for the bare
    /// register case; a unit scale and a zero or absent displacement are
    /// omitted.
    pub open spec fn spec_text(self) -> Seq<char> {
        match self {
            EffectiveAddress::Register { reg } => reg.spec_name(),
            EffectiveAddress::Displacement { displacement } => "[ "@ + displacement.spec_text()
                + " ]"@,
            EffectiveAddress::IndexDisp { index, scale, displacement } => {
                if scale == Scale::One {
                    "[ "@ + index.spec_name() + displacement.spec_optional_text() + " ]"@
                } else {
                    "[ "@ + index.spec_name() + " * "@ + scale.spec_text()
                        + displacement.spec_optional_text() + " ]"@
                }
            },
            EffectiveAddress::BaseDisp { base, displacement } => "[ "@ + base.spec_name()
                + displacement.spec_optional_text() + " ]"@,
            EffectiveAddress::IndexBaseDisp { index, scale, base, displacement } => "[ "@
                + index.spec_name() + scale.spec_optional_text() + " + "@ + base.spec_name()
                + displacement.spec_optional_text() + " ]"@,
        }
    }

    /// Renders the effective address.
    pub fn text(&self) -> (r: String)
        ensures
            r@ == self.spec_text(),
    {
        match self {
            EffectiveAddress::Register { reg } => String::from_str(reg.name()),
            EffectiveAddress::Displacement { displacement } => {
                let mut s = String::from_str("[ ");
                s.append(displacement.text().as_str());
                s.append(" ]");
                s
            },
            EffectiveAddress::IndexDisp { index, scale, displacement } => {
                let mut s = String::from_str("[ ");
                s.append(index.name());
                if *scale != Scale::One {
                    s.append(" * ");
                    s.append(scale.text());
                }
                s.append(displacement.format_optional_operand().as_str());
                s.append(" ]");
                s
            },
            EffectiveAddress::BaseDisp { base, displacement } => {
                let mut s = String::from_str("[ ");
                s.append(base.name());
                s.append(displacement.format_optional_operand().as_str());
                s.append(" ]");
                s
            },
            EffectiveAddress::IndexBaseDisp { index, scale, base, displacement } => {
                let mut s = String::from_str("[ ");
                s.append(index.name());
                s.append(scale.format_optional_operand().as_str());
                s.append(" + ");
                s.append(base.name());
                s.append(displacement.format_optional_operand().as_str());
                s.append(" ]");
                s
            },
        }
    }
}

/// One concrete operand of a decoded instruction.
#[derive(Clone, Copy, Debug, PartialEq, Eq, Structural)]
pub enum Operand {
    Register(Register),
    Immediate(Immediate),
    Displacement(Displacement),
    EffectiveAddress(EffectiveAddress),
    Label(Offset),
}

impl Operand {
    /// Returns the carried displacement, if the operand is one.
    pub fn displacement(&self) -> (r: Option<Displacement>)
        ensures
            r == match *self {
                Operand::Displacement(d) => Some(d),
                _ => Option::<Displacement>::None,
            },
    {
        match self {
            Operand::Displacement(d) => Some(*d),
            _ => None,
        }
    }

    /// The number of displacement or immediate bytes the operand stands
    /// for on the wire.
    pub open spec fn spec_len(self) -> nat {
        match self {
            Operand::Register(_) => 0,
            Operand::Immediate(imm) => imm.spec_len(),
            Operand::Displacement(d) => d.spec_len(),
            Operand::EffectiveAddress(ea) => ea.spec_len(),
            Operand::Label(_) => 0,
        }
    }

    /// The number of displacement or immediate bytes the operand stands
    /// for on the wire.
    pub fn len(&self) -> (r: usize)
        ensures
            r == self.spec_len(),
    {
        match self {
            Operand::Register(_) => 0,
            Operand::Immediate(imm) => imm.len(),
            Operand::Displacement(d) => d.len(),
            Operand::EffectiveAddress(ea) => ea.len(),
            Operand::Label(_) => 0,
        }
    }

    /// The rendered form of the operand.
    pub open spec fn spec_text(self) -> Seq<char> {
        match self {
            Operand::Register(reg) => reg.spec_name(),
            Operand::Immediate(imm) => imm.spec_text(),
            Operand::Displacement(d) => d.spec_text(),
            Operand::EffectiveAddress(ea) => ea.spec_text(),
            Operand::Label(off) => spec_offset_text(off.0),
        }
    }

    /// Renders the operand.
    pub fn text(&self) -> (r: String)
        ensures
            r@ == self.spec_text(),
    {
        match self {
            Operand::Register(reg) => String::from_str(reg.name()),
            Operand::Immediate(imm) => imm.text(),
            Operand::Displacement(d) => d.text(),
            Operand::EffectiveAddress(ea) => ea.text(),
            Operand::Label(off) => off.text(),
        }
    }
}

/// Sign-extends a one-byte value to four bytes in big-endian order.
pub fn byte_to_double_with_sign_extend(bytes: [u8; 1]) -> (r: [u8; 4])
    ensures
        r@ =~= seq![
            if bytes[0] >= 0x80 {
                0xFFu8
            } else {
                0x00u8
            },
            if bytes[0] >= 0x80 {
                0xFFu8
            } else {
                0x00u8
            },
            if bytes[0] >= 0x80 {
                0xFFu8
            } else {
                0x00u8
            },
            bytes[0],
        ],
{
    if bytes[0] >= 0x80 {
        [0xFF, 0xFF, 0xFF, bytes[0]]
    } else {
        [0x00, 0x00, 0x00, bytes[0]]
    }
}

/// Sign-extends a one-byte value to two bytes in big-endian order.
pub fn byte_to_word_with_sign_extend(bytes: [u8; 1]) -> (r: [u8; 2])
    ensures
        r@ =~= seq![
            if bytes[0] >= 0x80 {
                0xFFu8
            } else {
                0x00u8
            },
            bytes[0],
        ],
{
    if bytes[0] >= 0x80 {
        [0xFF, bytes[0]]
    } else {
        [0x00, bytes[0]]
    }
}

/// Sign-extends a two-byte big-endian value to four bytes in big-endian
/// order.
pub fn word_to_double_with_sign_extend(bytes: [u8; 2]) -> (r: [u8; 4])
    ensures
        r@ =~= seq![
            if bytes[0] >= 0x80 {
                0xFFu8
            } else {
                0x00u8
            },
            if bytes[0] >= 0x80 {
                0xFFu8
            } else {
                0x00u8
            },
            bytes[0],
            bytes[1],
        ],
{
    if bytes[0] >= 0x80 {
        [0xFF, 0xFF, bytes[0], bytes[1]]
    } else {
        [0x00, 0x00, bytes[0], bytes[1]]
    }
}

} // verus!
