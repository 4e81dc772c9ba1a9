//! The opcode table: an immutable mapping from a leading opcode byte to
//! the ordered list of candidate decode rules for it. The driver tries
//! the rules in declaration order; where several rules share a byte they
//! are told apart by their ModR/M `/digit` constraints or by their
//! second opcode byte.

use vstd::prelude::*;

use crate::decode::{DecodeError, DecodeRule, RuleModel};
use crate::instruction::{AddressingModes, ExtSet, Extension, OpCode, OpEn, Prefix};

verus! {

/// All four MOD values.
pub open spec fn spec_all_modes() -> Seq<u8> {
    seq![0u8, 1u8, 2u8, 3u8]
}

/// Builds the list of all four MOD values.
pub fn all_modes() -> (r: Vec<u8>)
    ensures
        r@ == spec_all_modes(),
{
    let r = vec![0u8, 1u8, 2u8, 3u8];
    proof {
        assert(r@ =~= spec_all_modes());
    }
    r
}

/// A rule with no prefix, no extensions, and no MOD constraint.
pub fn ins0(mnemonic: &'static str, opcode: Vec<u8>, encoding: OpEn) -> (r: DecodeRule)
    ensures
        r@ == (RuleModel {
            mnemonic: mnemonic@,
            prefix: None,
            opcode: opcode@,
            extensions: None,
            encoding,
            modes: None,
        }),
{
    DecodeRule(mnemonic, None, OpCode(opcode), None, encoding, None)
}

/// A rule with extensions but no prefix and no MOD constraint.
pub fn ins1(mnemonic: &'static str, opcode: Vec<u8>, extensions: Vec<Extension>, encoding: OpEn) -> (r:
    DecodeRule)
    ensures
        r@ == (RuleModel {
            mnemonic: mnemonic@,
            prefix: None,
            opcode: opcode@,
            extensions: Some(extensions@),
            encoding,
            modes: None,
        }),
{
    DecodeRule(mnemonic, None, OpCode(opcode), Some(ExtSet(extensions)), encoding, None)
}

/// A rule with a legacy prefix byte.
pub fn ins2(mnemonic: &'static str, prefix: u8, opcode: Vec<u8>, encoding: OpEn) -> (r: DecodeRule)
    ensures
        r@ == (RuleModel {
            mnemonic: mnemonic@,
            prefix: Some(prefix),
            opcode: opcode@,
            extensions: None,
            encoding,
            modes: None,
        }),
{
    DecodeRule(mnemonic, Some(Prefix(prefix)), OpCode(opcode), None, encoding, None)
}

/// A rule with extensions and a MOD constraint.
pub fn ins3(
    mnemonic: &'static str,
    opcode: Vec<u8>,
    extensions: Vec<Extension>,
    encoding: OpEn,
    modes: Vec<u8>,
) -> (r: DecodeRule)
    ensures
        r@ == (RuleModel {
            mnemonic: mnemonic@,
            prefix: None,
            opcode: opcode@,
            extensions: Some(extensions@),
            encoding,
            modes: Some(modes@),
        }),
{
    DecodeRule(
        mnemonic,
        None,
        OpCode(opcode),
        Some(ExtSet(extensions)),
        encoding,
        Some(AddressingModes(modes)),
    )
}

/// The ordered candidate rules for a leading opcode byte, or `None` for
/// a byte that starts no supported instruction.
pub open spec fn spec_rules(b: u8) -> Option<Seq<RuleModel>> {
    if b == 0x01 {
        Some(seq![RuleModel {
            mnemonic: "add"@,
            prefix: None,
            opcode: seq![0x01u8],
            extensions: Some(seq![Extension::SR]),
            encoding: OpEn::MR,
            modes: Some(spec_all_modes()),
        }])
    } else if b == 0x03 {
        Some(seq![RuleModel {
            mnemonic: "add"@,
            prefix: None,
            opcode: seq![0x03u8],
            extensions: Some(seq![Extension::SR]),
            encoding: OpEn::RM,
            modes: Some(spec_all_modes()),
        }])
    } else if b == 0x05 {
        Some(seq![RuleModel {
            mnemonic: "add"@,
            prefix: None,
            opcode: seq![0x05u8],
            extensions: Some(seq![Extension::ID]),
            encoding: OpEn::I,
            modes: None,
        }])
    } else if b == 0x09 {
        Some(seq![RuleModel {
            mnemonic: "or"@,
            prefix: None,
            opcode: seq![0x09u8],
            extensions: Some(seq![Extension::SR]),
            encoding: OpEn::MR,
            modes: Some(spec_all_modes()),
        }])
    } else if b == 0x0B {
        Some(seq![RuleModel {
            mnemonic: "or"@,
            prefix: None,
            opcode: seq![0x0Bu8],
            extensions: Some(seq![Extension::SR]),
            encoding: OpEn::RM,
            modes: Some(spec_all_modes()),
        }])
    } else if b == 0x0D {
        Some(seq![RuleModel {
            mnemonic: "or"@,
            prefix: None,
            opcode: seq![0x0Du8],
            extensions: Some(seq![Extension::ID]),
            encoding: OpEn::I,
            modes: None,
        }])
    } else if b == 0x0F {
        Some(seq![RuleModel {
            mnemonic: "jz"@,
            prefix: None,
            opcode: seq![0x0Fu8, 0x84u8],
            extensions: Some(seq![Extension::ID]),
            encoding: OpEn::D,
            modes: None,
        },
        RuleModel {
            mnemonic: "jnz"@,
            prefix: None,
            opcode: seq![0x0Fu8, 0x85u8],
            extensions: Some(seq![Extension::ID]),
            encoding: OpEn::D,
            modes: None,
        },
        RuleModel {
            mnemonic: "clflush"@,
            prefix: None,
            opcode: seq![0x0Fu8, 0xAEu8],
            extensions: Some(seq![Extension::S7]),
            encoding: OpEn::M,
            modes: Some(seq![0u8, 1u8, 2u8]),
        }])
    } else if b == 0x21 {
        Some(seq![RuleModel {
            mnemonic: "and"@,
            prefix: None,
            opcode: seq![0x21u8],
            extensions: Some(seq![Extension::SR]),
            encoding: OpEn::MR,
            modes: Some(spec_all_modes()),
        }])
    } else if b == 0x23 {
        Some(seq![RuleModel {
            mnemonic: "and"@,
            prefix: None,
            opcode: seq![0x23u8],
            extensions: Some(seq![Extension::SR]),
            encoding: OpEn::RM,
            modes: Some(spec_all_modes()),
        }])
    } else if b == 0x25 {
        Some(seq![RuleModel {
            mnemonic: "and"@,
            prefix: None,
            opcode: seq![0x25u8],
            extensions: Some(seq![Extension::ID]),
            encoding: OpEn::I,
            modes: None,
        }])
    } else if b == 0x29 {
        Some(seq![RuleModel {
            mnemonic: "sub"@,
            prefix: None,
            opcode: seq![0x29u8],
            extensions: Some(seq![Extension::SR]),
            encoding: OpEn::MR,
            modes: Some(spec_all_modes()),
        }])
    } else if b == 0x2B {
        Some(seq![RuleModel {
            mnemonic: "sub"@,
            prefix: None,
            opcode: seq![0x2Bu8],
            extensions: Some(seq![Extension::SR]),
            encoding: OpEn::RM,
            modes: Some(spec_all_modes()),
        }])
    } else if b == 0x2D {
        Some(seq![RuleModel {
            mnemonic: "sub"@,
            prefix: None,
            opcode: seq![0x2Du8],
            extensions: Some(seq![Extension::ID]),
            encoding: OpEn::I,
            modes: None,
        }])
    } else if b == 0x31 {
        Some(seq![RuleModel {
            mnemonic: "xor"@,
            prefix: None,
            opcode: seq![0x31u8],
            extensions: Some(seq![Extension::SR]),
            encoding: OpEn::MR,
            modes: Some(spec_all_modes()),
        }])
    } else if b == 0x33 {
        Some(seq![RuleModel {
            mnemonic: "xor"@,
            prefix: None,
            opcode: seq![0x33u8],
            extensions: Some(seq![Extension::SR]),
            encoding: OpEn::RM,
            modes: Some(spec_all_modes()),
        }])
    } else if b == 0x35 {
        Some(seq![RuleModel {
            mnemonic: "xor"@,
            prefix: None,
            opcode: seq![0x35u8],
            extensions: Some(seq![Extension::ID]),
            encoding: OpEn::I,
            modes: None,
        }])
    } else if b == 0x39 {
        Some(seq![RuleModel {
            mnemonic: "cmp"@,
            prefix: None,
            opcode: seq![0x39u8],
            extensions: Some(seq![Extension::SR]),
            encoding: OpEn::MR,
            modes: Some(spec_all_modes()),
        }])
    } else if b == 0x3B {
        Some(seq![RuleModel {
            mnemonic: "cmp"@,
            prefix: None,
            opcode: seq![0x3Bu8],
            extensions: Some(seq![Extension::SR]),
            encoding: OpEn::RM,
            modes: Some(spec_all_modes()),
        }])
    } else if b == 0x3D {
        Some(seq![RuleModel {
            mnemonic: "cmp"@,
            prefix: None,
            opcode: seq![0x3Du8],
            extensions: Some(seq![Extension::ID]),
            encoding: OpEn::I,
            modes: None,
        }])
    } else if 0x40 <= b <= 0x47 {
        Some(seq![RuleModel {
            mnemonic: "inc"@,
            prefix: None,
            opcode: seq![0x40u8],
            extensions: Some(seq![Extension::RD]),
            encoding: OpEn::O,
            modes: None,
        }])
    } else if 0x48 <= b <= 0x4F {
        Some(seq![RuleModel {
            mnemonic: "dec"@,
            prefix: None,
            opcode: seq![0x48u8],
            extensions: Some(seq![Extension::RD]),
            encoding: OpEn::O,
            modes: None,
        }])
    } else if 0x50 <= b <= 0x57 {
        Some(seq![RuleModel {
            mnemonic: "push"@,
            prefix: None,
            opcode: seq![0x50u8],
            extensions: Some(seq![Extension::RD]),
            encoding: OpEn::O,
            modes: None,
        }])
    } else if 0x58 <= b <= 0x5F {
        Some(seq![RuleModel {
            mnemonic: "pop"@,
            prefix: None,
            opcode: seq![0x58u8],
            extensions: Some(seq![Extension::RD]),
            encoding: OpEn::O,
            modes: None,
        }])
    } else if b == 0x68 {
        Some(seq![RuleModel {
            mnemonic: "push"@,
            prefix: None,
            opcode: seq![0x68u8],
            extensions: Some(seq![Extension::ID]),
            encoding: OpEn::I,
            modes: None,
        }])
    } else if b == 0x69 {
        Some(seq![RuleModel {
            mnemonic: "imul"@,
            prefix: None,
            opcode: seq![0x69u8],
            extensions: Some(seq![Extension::SR, Extension::ID]),
            encoding: OpEn::RMI,
            modes: Some(spec_all_modes()),
        }])
    } else if b == 0x6A {
        Some(seq![RuleModel {
            mnemonic: "push"@,
            prefix: None,
            opcode: seq![0x6Au8],
            extensions: Some(seq![Extension::IB]),
            encoding: OpEn::I,
            modes: None,
        }])
    } else if b == 0x6B {
        Some(seq![RuleModel {
            mnemonic: "imul"@,
            prefix: None,
            opcode: seq![0x6Bu8],
            extensions: Some(seq![Extension::SR, Extension::IB]),
            encoding: OpEn::RMI,
            modes: Some(spec_all_modes()),
        }])
    } else if b == 0x74 {
        Some(seq![RuleModel {
            mnemonic: "jz"@,
            prefix: None,
            opcode: seq![0x74u8],
            extensions: Some(seq![Extension::IB]),
            encoding: OpEn::D,
            modes: None,
        }])
    } else if b == 0x75 {
        Some(seq![RuleModel {
            mnemonic: "jnz"@,
            prefix: None,
            opcode: seq![0x75u8],
            extensions: Some(seq![Extension::IB]),
            encoding: OpEn::D,
            modes: None,
        }])
    } else if b == 0x81 {
        Some(seq![RuleModel {
            mnemonic: "add"@,
            prefix: None,
            opcode: seq![0x81u8],
            extensions: Some(seq![Extension::S0, Extension::ID]),
            encoding: OpEn::MI,
            modes: Some(spec_all_modes()),
        },
        RuleModel {
            mnemonic: "and"@,
            prefix: None,
            opcode: seq![0x81u8],
            extensions: Some(seq![Extension::S4, Extension::ID]),
            encoding: OpEn::MI,
            modes: Some(spec_all_modes()),
        },
        RuleModel {
            mnemonic: "cmp"@,
            prefix: None,
            opcode: seq![0x81u8],
            extensions: Some(seq![Extension::S7, Extension::ID]),
            encoding: OpEn::MI,
            modes: Some(spec_all_modes()),
        },
        RuleModel {
            mnemonic: "or"@,
            prefix: None,
            opcode: seq![0x81u8],
            extensions: Some(seq![Extension::S1, Extension::ID]),
            encoding: OpEn::MI,
            modes: Some(spec_all_modes()),
        },
        RuleModel {
            mnemonic: "sub"@,
            prefix: None,
            opcode: seq![0x81u8],
            extensions: Some(seq![Extension::S5, Extension::ID]),
            encoding: OpEn::MI,
            modes: Some(spec_all_modes()),
        },
        RuleModel {
            mnemonic: "xor"@,
            prefix: None,
            opcode: seq![0x81u8],
            extensions: Some(seq![Extension::S6, Extension::ID]),
            encoding: OpEn::MI,
            modes: Some(spec_all_modes()),
        }])
    } else if b == 0x85 {
        Some(seq![RuleModel {
            mnemonic: "test"@,
            prefix: None,
            opcode: seq![0x85u8],
            extensions: Some(seq![Extension::SR]),
            encoding: OpEn::MR,
            modes: Some(spec_all_modes()),
        }])
    } else if b == 0x89 {
        Some(seq![RuleModel {
            mnemonic: "mov"@,
            prefix: None,
            opcode: seq![0x89u8],
            extensions: Some(seq![Extension::SR]),
            encoding: OpEn::MR,
            modes: Some(spec_all_modes()),
        }])
    } else if b == 0x8B {
        Some(seq![RuleModel {
            mnemonic: "mov"@,
            prefix: None,
            opcode: seq![0x8Bu8],
            extensions: Some(seq![Extension::SR]),
            encoding: OpEn::RM,
            modes: Some(spec_all_modes()),
        }])
    } else if b == 0x8D {
        Some(seq![RuleModel {
            mnemonic: "lea"@,
            prefix: None,
            opcode: seq![0x8Du8],
            extensions: Some(seq![Extension::SR]),
            encoding: OpEn::RM,
            modes: Some(seq![0u8, 1u8, 2u8]),
        }])
    } else if b == 0x8F {
        Some(seq![RuleModel {
            mnemonic: "pop"@,
            prefix: None,
            opcode: seq![0x8Fu8],
            extensions: Some(seq![Extension::S0]),
            encoding: OpEn::M,
            modes: Some(spec_all_modes()),
        }])
    } else if b == 0x90 {
        Some(seq![RuleModel {
            mnemonic: "nop"@,
            prefix: None,
            opcode: seq![0x90u8],
            extensions: None,
            encoding: OpEn::ZO,
            modes: None,
        }])
    } else if b == 0x99 {
        Some(seq![RuleModel {
            mnemonic: "cdq"@,
            prefix: None,
            opcode: seq![0x99u8],
            extensions: None,
            encoding: OpEn::ZO,
            modes: None,
        }])
    } else if b == 0xA1 {
        Some(seq![RuleModel {
            mnemonic: "mov"@,
            prefix: None,
            opcode: seq![0xA1u8],
            extensions: None,
            encoding: OpEn::FD,
            modes: None,
        }])
    } else if b == 0xA3 {
        Some(seq![RuleModel {
            mnemonic: "mov"@,
            prefix: None,
            opcode: seq![0xA3u8],
            extensions: None,
            encoding: OpEn::TD,
            modes: None,
        }])
    } else if b == 0xA5 {
        Some(seq![RuleModel {
            mnemonic: "movsd"@,
            prefix: None,
            opcode: seq![0xA5u8],
            extensions: None,
            encoding: OpEn::ZO,
            modes: None,
        }])
    } else if b == 0xA9 {
        Some(seq![RuleModel {
            mnemonic: "test"@,
            prefix: None,
            opcode: seq![0xA9u8],
            extensions: Some(seq![Extension::ID]),
            encoding: OpEn::I,
            modes: None,
        }])
    } else if 0xB8 <= b <= 0xBF {
        Some(seq![RuleModel {
            mnemonic: "mov"@,
            prefix: None,
            opcode: seq![0xB8u8],
            extensions: Some(seq![Extension::RD, Extension::ID]),
            encoding: OpEn::OI,
            modes: None,
        }])
    } else if b == 0xC2 {
        Some(seq![RuleModel {
            mnemonic: "retn"@,
            prefix: None,
            opcode: seq![0xC2u8],
            extensions: Some(seq![Extension::IW]),
            encoding: OpEn::I,
            modes: None,
        }])
    } else if b == 0xC3 {
        Some(seq![RuleModel {
            mnemonic: "retn"@,
            prefix: None,
            opcode: seq![0xC3u8],
            extensions: None,
            encoding: OpEn::ZO,
            modes: None,
        }])
    } else if b == 0xC7 {
        Some(seq![RuleModel {
            mnemonic: "mov"@,
            prefix: None,
            opcode: seq![0xC7u8],
            extensions: Some(seq![Extension::S0, Extension::ID]),
            encoding: OpEn::MI,
            modes: Some(spec_all_modes()),
        }])
    } else if b == 0xCA {
        Some(seq![RuleModel {
            mnemonic: "retf"@,
            prefix: None,
            opcode: seq![0xCAu8],
            extensions: Some(seq![Extension::IW]),
            encoding: OpEn::I,
            modes: None,
        }])
    } else if b == 0xCB {
        Some(seq![RuleModel {
            mnemonic: "retf"@,
            prefix: None,
            opcode: seq![0xCBu8],
            extensions: None,
            encoding: OpEn::ZO,
            modes: None,
        }])
    } else if b == 0xCC {
        Some(seq![RuleModel {
            mnemonic: "int3"@,
            prefix: None,
            opcode: seq![0xCCu8],
            extensions: None,
            encoding: OpEn::ZO,
            modes: None,
        }])
    } else if b == 0xCD {
        Some(seq![RuleModel {
            mnemonic: "int"@,
            prefix: None,
            opcode: seq![0xCDu8],
            extensions: Some(seq![Extension::IB]),
            encoding: OpEn::I,
            modes: None,
        }])
    } else if b == 0xD1 {
        Some(seq![RuleModel {
            mnemonic: "sal"@,
            prefix: None,
            opcode: seq![0xD1u8],
            extensions: Some(seq![Extension::S4]),
            encoding: OpEn::M1,
            modes: Some(spec_all_modes()),
        },
        RuleModel {
            mnemonic: "sar"@,
            prefix: None,
            opcode: seq![0xD1u8],
            extensions: Some(seq![Extension::S7]),
            encoding: OpEn::M1,
            modes: Some(spec_all_modes()),
        },
        RuleModel {
            mnemonic: "shr"@,
            prefix: None,
            opcode: seq![0xD1u8],
            extensions: Some(seq![Extension::S5]),
            encoding: OpEn::M1,
            modes: Some(spec_all_modes()),
        }])
    } else if b == 0xE8 {
        Some(seq![RuleModel {
            mnemonic: "call"@,
            prefix: None,
            opcode: seq![0xE8u8],
            extensions: Some(seq![Extension::ID]),
            encoding: OpEn::D,
            modes: None,
        }])
    } else if b == 0xE9 {
        Some(seq![RuleModel {
            mnemonic: "jmp"@,
            prefix: None,
            opcode: seq![0xE9u8],
            extensions: Some(seq![Extension::ID]),
            encoding: OpEn::D,
            modes: None,
        }])
    } else if b == 0xEB {
        Some(seq![RuleModel {
            mnemonic: "jmp"@,
            prefix: None,
            opcode: seq![0xEBu8],
            extensions: Some(seq![Extension::IB]),
            encoding: OpEn::D,
            modes: None,
        }])
    } else if b == 0xF2 {
        Some(seq![RuleModel {
            mnemonic: "repne cmpsd"@,
            prefix: Some(0xF2u8),
            opcode: seq![0xA7u8],
            extensions: None,
            encoding: OpEn::ZO,
            modes: None,
        }])
    } else if b == 0xF7 {
        Some(seq![RuleModel {
            mnemonic: "idiv"@,
            prefix: None,
            opcode: seq![0xF7u8],
            extensions: Some(seq![Extension::S7]),
            encoding: OpEn::M,
            modes: Some(spec_all_modes()),
        },
        RuleModel {
            mnemonic: "not"@,
            prefix: None,
            opcode: seq![0xF7u8],
            extensions: Some(seq![Extension::S2]),
            encoding: OpEn::M,
            modes: Some(spec_all_modes()),
        },
        RuleModel {
            mnemonic: "test"@,
            prefix: None,
            opcode: seq![0xF7u8],
            extensions: Some(seq![Extension::S0, Extension::ID]),
            encoding: OpEn::MI,
            modes: Some(spec_all_modes()),
        }])
    } else if b == 0xFF {
        Some(seq![RuleModel {
            mnemonic: "call"@,
            prefix: None,
            opcode: seq![0xFFu8],
            extensions: Some(seq![Extension::S2]),
            encoding: OpEn::M,
            modes: Some(spec_all_modes()),
        },
        RuleModel {
            mnemonic: "dec"@,
            prefix: None,
            opcode: seq![0xFFu8],
            extensions: Some(seq![Extension::S1]),
            encoding: OpEn::M,
            modes: Some(spec_all_modes()),
        },
        RuleModel {
            mnemonic: "inc"@,
            prefix: None,
            opcode: seq![0xFFu8],
            extensions: Some(seq![Extension::S0]),
            encoding: OpEn::M,
            modes: Some(spec_all_modes()),
        },
        RuleModel {
            mnemonic: "jmp"@,
            prefix: None,
            opcode: seq![0xFFu8],
            extensions: Some(seq![Extension::S4]),
            encoding: OpEn::M,
            modes: Some(spec_all_modes()),
        },
        RuleModel {
            mnemonic: "push"@,
            prefix: None,
            opcode: seq![0xFFu8],
            extensions: Some(seq![Extension::S6]),
            encoding: OpEn::M,
            modes: Some(spec_all_modes()),
        }])
    } else {
        None
    }
}

/// The opcode table.
pub struct DecodeRules {}

impl DecodeRules {
    /// Returns the ordered candidate decode rules for a leading byte, or
    /// an unknown-opcode error for a byte that starts no supported
    /// instruction.
    #[verifier::rlimit(100)]
    pub fn get(byte: &u8) -> (r: Result<Vec<DecodeRule>, DecodeError>)
        ensures
            match spec_rules(*byte) {
                Some(rs) => {
                    &&& r is Ok
                    &&& r->Ok_0@.len() == rs.len()
                    &&& forall|i: int| 0 <= i < rs.len() ==> (#[trigger] r->Ok_0@[i])@ == rs[i]
                },
                None => r == Err::<Vec<DecodeRule>, DecodeError>(DecodeError::UnknownOpcode),
            },
    {
        let b = *byte;
        match b {
            0x01 => {
                let v = vec![
                    ins3("add", vec![0x01], vec![Extension::SR], OpEn::MR, all_modes()),
                ];
                proof {
                    assert((v@[0])@ =~~= spec_rules(b)->Some_0[0]);
                }
                Ok(v)
            },
            0x03 => {
                let v = vec![
                    ins3("add", vec![0x03], vec![Extension::SR], OpEn::RM, all_modes()),
                ];
                proof {
                    assert((v@[0])@ =~~= spec_rules(b)->Some_0[0]);
                }
                Ok(v)
            },
            0x05 => {
                let v = vec![
                    ins1("add", vec![0x05], vec![Extension::ID], OpEn::I),
                ];
                proof {
                    assert((v@[0])@ =~~= spec_rules(b)->Some_0[0]);
                }
                Ok(v)
            },
            0x09 => {
                let v = vec![
                    ins3("or", vec![0x09], vec![Extension::SR], OpEn::MR, all_modes()),
                ];
                proof {
                    assert((v@[0])@ =~~= spec_rules(b)->Some_0[0]);
                }
                Ok(v)
            },
            0x0B => {
                let v = vec![
                    ins3("or", vec![0x0B], vec![Extension::SR], OpEn::RM, all_modes()),
                ];
                proof {
                    assert((v@[0])@ =~~= spec_rules(b)->Some_0[0]);
                }
                Ok(v)
            },
            0x0D => {
                let v = vec![
                    ins1("or", vec![0x0D], vec![Extension::ID], OpEn::I),
                ];
                proof {
                    assert((v@[0])@ =~~= spec_rules(b)->Some_0[0]);
                }
                Ok(v)
            },
            0x0F => {
                let v = vec![
                    ins1("jz", vec![0x0F, 0x84], vec![Extension::ID], OpEn::D),
                    ins1("jnz", vec![0x0F, 0x85], vec![Extension::ID], OpEn::D),
                    ins3("clflush", vec![0x0F, 0xAE], vec![Extension::S7], OpEn::M, vec![0u8, 1u8, 2u8]),
                ];
                proof {
                    assert((v@[0])@ =~~= spec_rules(b)->Some_0[0]);
                    assert((v@[1])@ =~~= spec_rules(b)->Some_0[1]);
                    assert((v@[2])@ =~~= spec_rules(b)->Some_0[2]);
                }
                Ok(v)
            },
            0x21 => {
                let v = vec![
                    ins3("and", vec![0x21], vec![Extension::SR], OpEn::MR, all_modes()),
                ];
                proof {
                    assert((v@[0])@ =~~= spec_rules(b)->Some_0[0]);
                }
                Ok(v)
            },
            0x23 => {
                let v = vec![
                    ins3("and", vec![0x23], vec![Extension::SR], OpEn::RM, all_modes()),
                ];
                proof {
                    assert((v@[0])@ =~~= spec_rules(b)->Some_0[0]);
                }
                Ok(v)
            },
            0x25 => {
                let v = vec![
                    ins1("and", vec![0x25], vec![Extension::ID], OpEn::I),
                ];
                proof {
                    assert((v@[0])@ =~~= spec_rules(b)->Some_0[0]);
                }
                Ok(v)
            },
            0x29 => {
                let v = vec![
                    ins3("sub", vec![0x29], vec![Extension::SR], OpEn::MR, all_modes()),
                ];
                proof {
                    assert((v@[0])@ =~~= spec_rules(b)->Some_0[0]);
                }
                Ok(v)
            },
            0x2B => {
                let v = vec![
                    ins3("sub", vec![0x2B], vec![Extension::SR], OpEn::RM, all_modes()),
                ];
                proof {
                    assert((v@[0])@ =~~= spec_rules(b)->Some_0[0]);
                }
                Ok(v)
            },
            0x2D => {
                let v = vec![
                    ins1("sub", vec![0x2D], vec![Extension::ID], OpEn::I),
                ];
                proof {
                    assert((v@[0])@ =~~= spec_rules(b)->Some_0[0]);
                }
                Ok(v)
            },
            0x31 => {
                let v = vec![
                    ins3("xor", vec![0x31], vec![Extension::SR], OpEn::MR, all_modes()),
                ];
                proof {
                    assert((v@[0])@ =~~= spec_rules(b)->Some_0[0]);
                }
                Ok(v)
            },
            0x33 => {
                let v = vec![
                    ins3("xor", vec![0x33], vec![Extension::SR], OpEn::RM, all_modes()),
                ];
                proof {
                    assert((v@[0])@ =~~= spec_rules(b)->Some_0[0]);
                }
                Ok(v)
            },
            0x35 => {
                let v = vec![
                    ins1("xor", vec![0x35], vec![Extension::ID], OpEn::I),
                ];
                proof {
                    assert((v@[0])@ =~~= spec_rules(b)->Some_0[0]);
                }
                Ok(v)
            },
            0x39 => {
                let v = vec![
                    ins3("cmp", vec![0x39], vec![Extension::SR], OpEn::MR, all_modes()),
                ];
                proof {
                    assert((v@[0])@ =~~= spec_rules(b)->Some_0[0]);
                }
                Ok(v)
            },
            0x3B => {
                let v = vec![
                    ins3("cmp", vec![0x3B], vec![Extension::SR], OpEn::RM, all_modes()),
                ];
                proof {
                    assert((v@[0])@ =~~= spec_rules(b)->Some_0[0]);
                }
                Ok(v)
            },
            0x3D => {
                let v = vec![
                    ins1("cmp", vec![0x3D], vec![Extension::ID], OpEn::I),
                ];
                proof {
                    assert((v@[0])@ =~~= spec_rules(b)->Some_0[0]);
                }
                Ok(v)
            },
            0x40 | 0x41 | 0x42 | 0x43 | 0x44 | 0x45 | 0x46 | 0x47 => {
                let v = vec![
                    ins1("inc", vec![0x40], vec![Extension::RD], OpEn::O),
                ];
                proof {
                    assert((v@[0])@ =~~= spec_rules(b)->Some_0[0]);
                }
                Ok(v)
            },
            0x48 | 0x49 | 0x4A | 0x4B | 0x4C | 0x4D | 0x4E | 0x4F => {
                let v = vec![
                    ins1("dec", vec![0x48], vec![Extension::RD], OpEn::O),
                ];
                proof {
                    assert((v@[0])@ =~~= spec_rules(b)->Some_0[0]);
                }
                Ok(v)
            },
            0x50 | 0x51 | 0x52 | 0x53 | 0x54 | 0x55 | 0x56 | 0x57 => {
                let v = vec![
                    ins1("push", vec![0x50], vec![Extension::RD], OpEn::O),
                ];
                proof {
                    assert((v@[0])@ =~~= spec_rules(b)->Some_0[0]);
                }
                Ok(v)
            },
            0x58 | 0x59 | 0x5A | 0x5B | 0x5C | 0x5D | 0x5E | 0x5F => {
                let v = vec![
                    ins1("pop", vec![0x58], vec![Extension::RD], OpEn::O),
                ];
                proof {
                    assert((v@[0])@ =~~= spec_rules(b)->Some_0[0]);
                }
                Ok(v)
            },
            0x68 => {
                let v = vec![
                    ins1("push", vec![0x68], vec![Extension::ID], OpEn::I),
                ];
                proof {
                    assert((v@[0])@ =~~= spec_rules(b)->Some_0[0]);
                }
                Ok(v)
            },
            0x69 => {
                let v = vec![
                    ins3("imul", vec![0x69], vec![Extension::SR, Extension::ID], OpEn::RMI, all_modes()),
                ];
                proof {
                    assert((v@[0])@ =~~= spec_rules(b)->Some_0[0]);
                }
                Ok(v)
            },
            0x6A => {
                let v = vec![
                    ins1("push", vec![0x6A], vec![Extension::IB], OpEn::I),
                ];
                proof {
                    assert((v@[0])@ =~~= spec_rules(b)->Some_0[0]);
                }
                Ok(v)
            },
            0x6B => {
                let v = vec![
                    ins3("imul", vec![0x6B], vec![Extension::SR, Extension::IB], OpEn::RMI, all_modes()),
                ];
                proof {
                    assert((v@[0])@ =~~= spec_rules(b)->Some_0[0]);
                }
                Ok(v)
            },
            0x74 => {
                let v = vec![
                    ins1("jz", vec![0x74], vec![Extension::IB], OpEn::D),
                ];
                proof {
                    assert((v@[0])@ =~~= spec_rules(b)->Some_0[0]);
                }
                Ok(v)
            },
            0x75 => {
                let v = vec![
                    ins1("jnz", vec![0x75], vec![Extension::IB], OpEn::D),
                ];
                proof {
                    assert((v@[0])@ =~~= spec_rules(b)->Some_0[0]);
                }
                Ok(v)
            },
            0x81 => {
                let v = vec![
                    ins3("add", vec![0x81], vec![Extension::S0, Extension::ID], OpEn::MI, all_modes()),
                    ins3("and", vec![0x81], vec![Extension::S4, Extension::ID], OpEn::MI, all_modes()),
                    ins3("cmp", vec![0x81], vec![Extension::S7, Extension::ID], OpEn::MI, all_modes()),
                    ins3("or", vec![0x81], vec![Extension::S1, Extension::ID], OpEn::MI, all_modes()),
                    ins3("sub", vec![0x81], vec![Extension::S5, Extension::ID], OpEn::MI, all_modes()),
                    ins3("xor", vec![0x81], vec![Extension::S6, Extension::ID], OpEn::MI, all_modes()),
                ];
                proof {
                    assert((v@[0])@ =~~= spec_rules(b)->Some_0[0]);
                    assert((v@[1])@ =~~= spec_rules(b)->Some_0[1]);
                    assert((v@[2])@ =~~= spec_rules(b)->Some_0[2]);
                    assert((v@[3])@ =~~= spec_rules(b)->Some_0[3]);
                    assert((v@[4])@ =~~= spec_rules(b)->Some_0[4]);
                    assert((v@[5])@ =~~= spec_rules(b)->Some_0[5]);
                }
                Ok(v)
            },
            0x85 => {
                let v = vec![
                    ins3("test", vec![0x85], vec![Extension::SR], OpEn::MR, all_modes()),
                ];
                proof {
                    assert((v@[0])@ =~~= spec_rules(b)->Some_0[0]);
                }
                Ok(v)
            },
            0x89 => {
                let v = vec![
                    ins3("mov", vec![0x89], vec![Extension::SR], OpEn::MR, all_modes()),
                ];
                proof {
                    assert((v@[0])@ =~~= spec_rules(b)->Some_0[0]);
                }
                Ok(v)
            },
            0x8B => {
                let v = vec![
                    ins3("mov", vec![0x8B], vec![Extension::SR], OpEn::RM, all_modes()),
                ];
                proof {
                    assert((v@[0])@ =~~= spec_rules(b)->Some_0[0]);
                }
                Ok(v)
            },
            0x8D => {
                let v = vec![
                    ins3("lea", vec![0x8D], vec![Extension::SR], OpEn::RM, vec![0u8, 1u8, 2u8]),
                ];
                proof {
                    assert((v@[0])@ =~~= spec_rules(b)->Some_0[0]);
                }
                Ok(v)
            },
            0x8F => {
                let v = vec![
                    ins3("pop", vec![0x8F], vec![Extension::S0], OpEn::M, all_modes()),
                ];
                proof {
                    assert((v@[0])@ =~~= spec_rules(b)->Some_0[0]);
                }
                Ok(v)
            },
            0x90 => {
                let v = vec![
                    ins0("nop", vec![0x90], OpEn::ZO),
                ];
                proof {
                    assert((v@[0])@ =~~= spec_rules(b)->Some_0[0]);
                }
                Ok(v)
            },
            0x99 => {
                let v = vec![
                    ins0("cdq", vec![0x99], OpEn::ZO),
                ];
                proof {
                    assert((v@[0])@ =~~= spec_rules(b)->Some_0[0]);
                }
                Ok(v)
            },
            0xA1 => {
                let v = vec![
                    ins0("mov", vec![0xA1], OpEn::FD),
                ];
                proof {
                    assert((v@[0])@ =~~= spec_rules(b)->Some_0[0]);
                }
                Ok(v)
            },
            0xA3 => {
                let v = vec![
                    ins0("mov", vec![0xA3], OpEn::TD),
                ];
                proof {
                    assert((v@[0])@ =~~= spec_rules(b)->Some_0[0]);
                }
                Ok(v)
            },
            0xA5 => {
                let v = vec![
                    ins0("movsd", vec![0xA5], OpEn::ZO),
                ];
                proof {
                    assert((v@[0])@ =~~= spec_rules(b)->Some_0[0]);
                }
                Ok(v)
            },
            0xA9 => {
                let v = vec![
                    ins1("test", vec![0xA9], vec![Extension::ID], OpEn::I),
                ];
                proof {
                    assert((v@[0])@ =~~= spec_rules(b)->Some_0[0]);
                }
                Ok(v)
            },
            0xB8 | 0xB9 | 0xBA | 0xBB | 0xBC | 0xBD | 0xBE | 0xBF => {
                let v = vec![
                    ins1("mov", vec![0xB8], vec![Extension::RD, Extension::ID], OpEn::OI),
                ];
                proof {
                    assert((v@[0])@ =~~= spec_rules(b)->Some_0[0]);
                }
                Ok(v)
            },
            0xC2 => {
                let v = vec![
                    ins1("retn", vec![0xC2], vec![Extension::IW], OpEn::I),
                ];
                proof {
                    assert((v@[0])@ =~~= spec_rules(b)->Some_0[0]);
                }
                Ok(v)
            },
            0xC3 => {
                let v = vec![
                    ins0("retn", vec![0xC3], OpEn::ZO),
                ];
                proof {
                    assert((v@[0])@ =~~= spec_rules(b)->Some_0[0]);
                }
                Ok(v)
            },
            0xC7 => {
                let v = vec![
                    ins3("mov", vec![0xC7], vec![Extension::S0, Extension::ID], OpEn::MI, all_modes()),
                ];
                proof {
                    assert((v@[0])@ =~~= spec_rules(b)->Some_0[0]);
                }
                Ok(v)
            },
            0xCA => {
                let v = vec![
                    ins1("retf", vec![0xCA], vec![Extension::IW], OpEn::I),
                ];
                proof {
                    assert((v@[0])@ =~~= spec_rules(b)->Some_0[0]);
                }
                Ok(v)
            },
            0xCB => {
                let v = vec![
                    ins0("retf", vec![0xCB], OpEn::ZO),
                ];
                proof {
                    assert((v@[0])@ =~~= spec_rules(b)->Some_0[0]);
                }
                Ok(v)
            },
            0xCC => {
                let v = vec![
                    ins0("int3", vec![0xCC], OpEn::ZO),
                ];
                proof {
                    assert((v@[0])@ =~~= spec_rules(b)->Some_0[0]);
                }
                Ok(v)
            },
            0xCD => {
                let v = vec![
                    ins1("int", vec![0xCD], vec![Extension::IB], OpEn::I),
                ];
                proof {
                    assert((v@[0])@ =~~= spec_rules(b)->Some_0[0]);
                }
                Ok(v)
            },
            0xD1 => {
                let v = vec![
                    ins3("sal", vec![0xD1], vec![Extension::S4], OpEn::M1, all_modes()),
                    ins3("sar", vec![0xD1], vec![Extension::S7], OpEn::M1, all_modes()),
                    ins3("shr", vec![0xD1], vec![Extension::S5], OpEn::M1, all_modes()),
                ];
                proof {
                    assert((v@[0])@ =~~= spec_rules(b)->Some_0[0]);
                    assert((v@[1])@ =~~= spec_rules(b)->Some_0[1]);
                    assert((v@[2])@ =~~= spec_rules(b)->Some_0[2]);
                }
                Ok(v)
            },
            0xE8 => {
                let v = vec![
                    ins1("call", vec![0xE8], vec![Extension::ID], OpEn::D),
                ];
                proof {
                    assert((v@[0])@ =~~= spec_rules(b)->Some_0[0]);
                }
                Ok(v)
            },
            0xE9 => {
                let v = vec![
                    ins1("jmp", vec![0xE9], vec![Extension::ID], OpEn::D),
                ];
                proof {
                    assert((v@[0])@ =~~= spec_rules(b)->Some_0[0]);
                }
                Ok(v)
            },
            0xEB => {
                let v = vec![
                    ins1("jmp", vec![0xEB], vec![Extension::IB], OpEn::D),
                ];
                proof {
                    assert((v@[0])@ =~~= spec_rules(b)->Some_0[0]);
                }
                Ok(v)
            },
            0xF2 => {
                let v = vec![
                    ins2("repne cmpsd", 0xF2, vec![0xA7], OpEn::ZO),
                ];
                proof {
                    assert((v@[0])@ =~~= spec_rules(b)->Some_0[0]);
                }
                Ok(v)
            },
            0xF7 => {
                let v = vec![
                    ins3("idiv", vec![0xF7], vec![Extension::S7], OpEn::M, all_modes()),
                    ins3("not", vec![0xF7], vec![Extension::S2], OpEn::M, all_modes()),
                    ins3("test", vec![0xF7], vec![Extension::S0, Extension::ID], OpEn::MI, all_modes()),
                ];
                proof {
                    assert((v@[0])@ =~~= spec_rules(b)->Some_0[0]);
                    assert((v@[1])@ =~~= spec_rules(b)->Some_0[1]);
                    assert((v@[2])@ =~~= spec_rules(b)->Some_0[2]);
                }
                Ok(v)
            },
            0xFF => {
                let v = vec![
                    ins3("call", vec![0xFF], vec![Extension::S2], OpEn::M, all_modes()),
                    ins3("dec", vec![0xFF], vec![Extension::S1], OpEn::M, all_modes()),
                    ins3("inc", vec![0xFF], vec![Extension::S0], OpEn::M, all_modes()),
                    ins3("jmp", vec![0xFF], vec![Extension::S4], OpEn::M, all_modes()),
                    ins3("push", vec![0xFF], vec![Extension::S6], OpEn::M, all_modes()),
                ];
                proof {
                    assert((v@[0])@ =~~= spec_rules(b)->Some_0[0]);
                    assert((v@[1])@ =~~= spec_rules(b)->Some_0[1]);
                    assert((v@[2])@ =~~= spec_rules(b)->Some_0[2]);
                    assert((v@[3])@ =~~= spec_rules(b)->Some_0[3]);
                    assert((v@[4])@ =~~= spec_rules(b)->Some_0[4]);
                }
                Ok(v)
            },
            _ => Err(DecodeError::UnknownOpcode),
        }
    }
}

} // verus!
