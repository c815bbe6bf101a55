use ethcontract_methods::abi::{Function, Param, ParamType, StateMutability};
use ethcontract_methods::names::{expand_input_name, expand_method_name, safe_identifier};
use ethcontract_methods::signature::{expand_full_signature, expand_selector, function_selector, signature};
use ethcontract_methods::types::{expand_type, push_abi_type_name};

fn abi_name(t: &ParamType) -> String {
    let mut s = String::new();
    push_abi_type_name(&mut s, t);
    s
}

#[test]
fn integer_widths_map_by_bytes() {
    assert_eq!(expand_type(&ParamType::Int(8)).unwrap(), "i8");
    assert_eq!(expand_type(&ParamType::Uint(24)).unwrap(), "u32");
    assert_eq!(expand_type(&ParamType::Int(64)).unwrap(), "i64");
    assert_eq!(expand_type(&ParamType::Uint(128)).unwrap(), "u128");
    assert_eq!(expand_type(&ParamType::Uint(256)).unwrap(), "self::ethcontract::U256");
    assert_eq!(expand_type(&ParamType::Int(256)).unwrap(), "self::ethcontract::I256");
    assert!(expand_type(&ParamType::Int(7)).is_none());
    assert!(expand_type(&ParamType::Uint(264)).is_none());
}

#[test]
fn compound_types_map_recursively() {
    assert_eq!(expand_type(&ParamType::Bytes).unwrap(), "self::ethcontract::tokens::Bytes<Vec<u8>>");
    assert_eq!(expand_type(&ParamType::String).unwrap(), "String");
    assert_eq!(expand_type(&ParamType::FixedBytes(32)).unwrap(), "self::ethcontract::tokens::Bytes<[u8; 32]>");
    assert_eq!(expand_type(&ParamType::Array(Box::new(ParamType::Bool))).unwrap(), "Vec<bool>");
    assert_eq!(expand_type(&ParamType::FixedArray(Box::new(ParamType::Uint(64)), 3)).unwrap(), "[u64; 3]");
    assert_eq!(
        expand_type(&ParamType::Tuple(vec![ParamType::Address, ParamType::Uint(16)])).unwrap(),
        "(self::ethcontract::Address, u16, )",
    );
    assert!(expand_type(&ParamType::Array(Box::new(ParamType::Tuple(vec![ParamType::Int(4)])))).is_none());
}

#[test]
fn canonical_abi_names() {
    assert_eq!(abi_name(&ParamType::Uint(256)), "uint256");
    assert_eq!(abi_name(&ParamType::FixedBytes(4)), "bytes4");
    assert_eq!(abi_name(&ParamType::Array(Box::new(ParamType::String))), "string[]");
    assert_eq!(
        abi_name(&ParamType::FixedArray(Box::new(ParamType::Tuple(vec![ParamType::Address, ParamType::Bool])), 2)),
        "(address,bool)[2]",
    );
    assert_eq!(abi_name(&ParamType::Tuple(vec![])), "()");
}

#[test]
fn signature_ignores_outputs_and_mutability() {
    let a = Function {
        name: "transfer".to_string(),
        inputs: vec![Param { name: "to".to_string(), kind: ParamType::Address }, Param { name: "v".to_string(), kind: ParamType::Uint(256) }],
        outputs: vec![],
        state_mutability: StateMutability::NonPayable,
    };
    let b = Function {
        name: "transfer".to_string(),
        inputs: vec![Param { name: "".to_string(), kind: ParamType::Address }, Param { name: "x".to_string(), kind: ParamType::Uint(256) }],
        outputs: vec![Param { name: "".to_string(), kind: ParamType::Bool }],
        state_mutability: StateMutability::View,
    };
    assert_eq!(signature(&a), "transfer(address,uint256)");
    assert_eq!(signature(&a), signature(&a));
    assert_eq!(signature(&a), signature(&b));
    assert_eq!(function_selector(&a), function_selector(&b));
    assert_eq!(expand_full_signature(&a), "transfer(address,uint256)");
    assert_eq!(expand_full_signature(&b), "transfer(address,uint256):(bool)");
}

#[test]
fn selector_of_transfer() {
    let f = Function {
        name: "transfer".to_string(),
        inputs: vec![Param { name: "to".to_string(), kind: ParamType::Address }, Param { name: "v".to_string(), kind: ParamType::Uint(256) }],
        outputs: vec![],
        state_mutability: StateMutability::NonPayable,
    };
    assert_eq!(function_selector(&f), [0xa9, 0x05, 0x9c, 0xbb]);
    assert_eq!(expand_selector(function_selector(&f)), "[169, 5, 156, 187]");
}

#[test]
fn identifiers_are_snake_cased_and_escaped() {
    assert_eq!(expand_method_name("balanceOf"), "balance_of");
    assert_eq!(expand_method_name("transferFrom"), "transfer_from");
    assert_eq!(expand_method_name("type"), "type_");
    assert_eq!(expand_method_name("Self"), "self_");
    assert_eq!(safe_identifier("match".to_string()), "match_");
    assert_eq!(safe_identifier("value".to_string()), "value");
    assert_eq!(expand_input_name(3, ""), "p3");
    assert_eq!(expand_input_name(0, "newOwner"), "new_owner");
    assert_eq!(expand_input_name(1, "_value"), "value");
}

#[test]
fn selector_bytes_in_decimal() {
    assert_eq!(expand_selector([0, 9, 10, 255]), "[0, 9, 10, 255]");
    assert_eq!(expand_type(&ParamType::FixedBytes(100)).unwrap(), "self::ethcontract::tokens::Bytes<[u8; 100]>");
}
