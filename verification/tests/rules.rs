//! The opcode table's lookup behaviour.

use disasm::decode::{DecodeError, DecodeRule};
use disasm::instruction::{Extension, OpEn};
use disasm::opcodes::{all_modes, ins3, DecodeRules};

#[test]
fn access_internal_state() {
    let rules = DecodeRules::get(&0x01);
    assert!(rules.is_ok_and(|rules| {
        assert!(rules.len() == 1);
        let rule = rules.get(0).expect("Should be only one element");
        rule.0 == "add"
    }));
}

#[test]
fn retrieve_single_decode_rule() {
    let rules = DecodeRules::get(&0x01);
    let expected: Vec<DecodeRule> =
        vec![ins3("add", vec![0x01], vec![Extension::SR], OpEn::MR, all_modes())];
    assert_eq!(rules, Ok(expected));
}

#[test]
fn retrieve_multiple_decode_rules() {
    let rules = DecodeRules::get(&0x0f);
    assert!(rules.is_ok_and(|rules| rules.len() == 3));
}

#[test]
fn retrieve_nonexistent_rule() {
    let rules = DecodeRules::get(&0x00);
    assert!(rules.is_err_and(|e| e == DecodeError::UnknownOpcode));
}
