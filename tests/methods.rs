use ethcontract_methods::abi::{
    Abi, Context, DocEntry, Function, MethodAlias, Param, ParamType, StateMutability,
};
use ethcontract_methods::methods::{
    expand, expand_fallback, expand_functions, resolve_function, GenerateError,
};
use ethcontract_methods::params::{
    expand_input_types, expand_inputs, expand_inputs_call_arg, expand_outputs,
};

fn tokens(s: &str) -> String {
    s.parse::<proc_macro2::TokenStream>().unwrap().to_string()
}

fn param(name: &str, kind: ParamType) -> Param {
    Param { name: name.to_string(), kind }
}

fn function(name: &str, inputs: Vec<Param>, outputs: Vec<Param>, m: StateMutability) -> Function {
    Function { name: name.to_string(), inputs, outputs, state_mutability: m }
}

fn context(functions: Vec<Function>, aliases: Vec<MethodAlias>) -> Context {
    Context {
        abi: Abi { functions, fallback: false, receive: false },
        method_aliases: aliases,
        devdoc: vec![],
        userdoc: vec![],
    }
}

fn transfer() -> Function {
    function(
        "transfer",
        vec![param("to", ParamType::Address), param("value", ParamType::Uint(256))],
        vec![param("", ParamType::Bool)],
        StateMutability::NonPayable,
    )
}

#[test]
fn expand_inputs_empty() {
    assert_eq!(tokens(&expand_inputs(&vec![]).unwrap()), tokens(""));
}

#[test]
fn expand_inputs_() {
    assert_eq!(
        tokens(
            &expand_inputs(&vec![
                Param { name: "a".to_string(), kind: ParamType::Bool },
                Param { name: "b".to_string(), kind: ParamType::Address },
            ])
            .unwrap()
        ),
        tokens(", a: bool, b: self::ethcontract::Address"),
    );
}

#[test]
fn expand_outputs_empty() {
    assert_eq!(tokens(&expand_outputs(&vec![]).unwrap()), tokens("()"));
}

#[test]
fn expand_outputs_single() {
    assert_eq!(
        tokens(&expand_outputs(&vec![Param { name: "a".to_string(), kind: ParamType::Bool }]).unwrap()),
        tokens("bool"),
    );
}

#[test]
fn expand_outputs_multiple() {
    assert_eq!(
        tokens(
            &expand_outputs(&vec![
                Param { name: "a".to_string(), kind: ParamType::Bool },
                Param { name: "b".to_string(), kind: ParamType::Address },
            ])
            .unwrap()
        ),
        tokens("(bool, self::ethcontract::Address)"),
    );
}

#[test]
fn no_inputs_give_empty_call_tuple() {
    assert_eq!(expand_inputs_call_arg(&vec![]), "()");
    assert_eq!(expand_input_types(&vec![]).unwrap(), "()");
}

#[test]
fn inputs_are_named_and_typed_in_order() {
    let ps = vec![
        param("", ParamType::Uint(8)),
        param("toAddress", ParamType::Address),
        param("type", ParamType::Bool),
    ];
    assert_eq!(
        tokens(&expand_inputs(&ps).unwrap()),
        tokens(", p0: u8, to_address: self::ethcontract::Address, type_: bool"),
    );
    assert_eq!(tokens(&expand_inputs_call_arg(&ps)), tokens("(p0, to_address, type_,)"));
    assert_eq!(
        tokens(&expand_input_types(&ps).unwrap()),
        tokens("(u8, self::ethcontract::Address, bool,)"),
    );
}

#[test]
fn unsupported_input_type_reports_its_position() {
    let ps = vec![param("a", ParamType::Bool), param("b", ParamType::Int(7))];
    assert!(matches!(expand_inputs(&ps), Err(1)));
    assert!(matches!(expand_input_types(&ps), Err(1)));
}

#[test]
fn unsupported_output_type_reports_its_position() {
    let ps = vec![param("a", ParamType::Uint(512)), param("b", ParamType::Bool)];
    assert!(matches!(expand_outputs(&ps), Err(0)));
}

#[test]
fn generation_fails_on_unsupported_input() {
    let f = function("f", vec![param("x", ParamType::Uint(3))], vec![], StateMutability::View);
    match expand(&context(vec![f], vec![])) {
        Err(GenerateError::UnsupportedInput { signature, position }) => {
            assert_eq!(signature, "f(uint3)");
            assert_eq!(position, 0);
        },
        _ => panic!("expected an unsupported input"),
    }
}

#[test]
fn generation_fails_on_unsupported_output() {
    let f = function("g", vec![], vec![param("", ParamType::Bool), param("", ParamType::Int(300))], StateMutability::View);
    let e = expand(&context(vec![f], vec![])).err().unwrap();
    assert!(matches!(&e, GenerateError::UnsupportedOutput { position: 1, .. }));
    assert_eq!(e.message(), "error expanding function 'g()': output 1 has an unsupported type");
}

#[test]
fn dangling_alias_names_its_signature() {
    let alias = MethodAlias { signature: "missing(uint256)".to_string(), name: "gone".to_string() };
    let e = expand_functions(&context(vec![transfer()], vec![alias])).err().unwrap();
    match &e {
        GenerateError::UnusedAlias { signature } => assert_eq!(signature, "missing(uint256)"),
        _ => panic!("expected an unused alias"),
    }
    assert_eq!(
        e.message(),
        "a manual method alias for 'missing(uint256)' was specified but this method does not exist",
    );
}

#[test]
fn alias_replaces_the_method_name() {
    let alias = MethodAlias { signature: "transfer(address,uint256)".to_string(), name: "send_tokens".to_string() };
    let cx = context(vec![transfer()], vec![alias]);
    let rec = resolve_function(&cx, &cx.abi.functions[0], false).ok().unwrap();
    assert_eq!(rec.name, "send_tokens");
    let out = expand(&cx).ok().unwrap();
    assert!(out.contains("pub fn send_tokens(&self, to: self::ethcontract::Address"));
}

#[test]
fn record_of_transfer() {
    let cx = context(vec![transfer()], vec![]);
    let rec = resolve_function(&cx, &cx.abi.functions[0], false).ok().unwrap();
    assert_eq!(rec.name, "transfer");
    assert_eq!(rec.signature, "transfer(address,uint256)");
    assert_eq!(rec.selector, "[169, 5, 156, 187]");
    assert_eq!(rec.inputs, ", to: self::ethcontract::Address, value: self::ethcontract::U256");
    assert_eq!(rec.input_types, "(self::ethcontract::Address, self::ethcontract::U256, )");
    assert_eq!(rec.call_arg, "(to, value, )");
    assert_eq!(rec.outputs, "bool");
    assert_eq!(rec.doc, "Generated by `ethcontract`");
    assert_eq!(rec.signature_doc, "Returns signature for method `transfer(address,uint256):(bool)`.");
    let out = expand(&cx).ok().unwrap();
    assert!(out.contains("#[doc = \"Generated by `ethcontract`\"]\npub fn transfer(&self"));
    assert!(out.contains("#[doc = \"Returns signature for method `transfer(address,uint256):(bool)`.\"]"));
    assert!(!rec.view_only);
}

#[test]
fn view_functions_get_view_builders() {
    let f = function("balanceOf", vec![param("owner", ParamType::Address)], vec![param("", ParamType::Uint(256))], StateMutability::View);
    let cx = context(vec![f], vec![]);
    let out = expand(&cx).ok().unwrap();
    assert!(out.contains(
        "pub fn balance_of(&self, owner: self::ethcontract::Address) -> self::ethcontract::dyns::DynViewMethodBuilder<self::ethcontract::U256>"
    ));
    assert!(out.contains("self.instance.view_method([112, 160, 130, 49], (owner, ))"));
    let payable = function("deposit", vec![], vec![], StateMutability::Payable);
    let out = expand(&context(vec![payable], vec![])).ok().unwrap();
    assert!(out.contains("-> self::ethcontract::dyns::DynMethodBuilder<()>"));
    assert!(out.contains("self.instance.method("));
}

#[test]
fn documentation_prefers_developer_then_user() {
    let mut cx = context(vec![transfer()], vec![]);
    cx.userdoc = vec![DocEntry { signature: "transfer(address,uint256)".to_string(), details: Some("user".to_string()) }];
    let rec = resolve_function(&cx, &cx.abi.functions[0], false).ok().unwrap();
    assert_eq!(rec.doc, "user");
    cx.devdoc = vec![DocEntry { signature: "transfer(address,uint256)".to_string(), details: Some("dev \"quoted\"".to_string()) }];
    let rec = resolve_function(&cx, &cx.abi.functions[0], false).ok().unwrap();
    assert_eq!(rec.doc, "dev \"quoted\"");
    let out = expand(&cx).ok().unwrap();
    assert!(out.contains("#[doc = \"dev \\\"quoted\\\"\"]"));
}

#[test]
fn no_functions_emit_bare_containers() {
    let out = expand_functions(&context(vec![], vec![])).ok().unwrap();
    assert_eq!(
        tokens(&out),
        tokens("#[derive(Clone)] struct Methods { instance: self::ethcontract::dyns::DynInstance, } #[derive(Clone, Copy)] struct Signatures;"),
    );
    assert!(!out.contains("impl Contract"));
}

#[test]
fn fallback_accessor_only_when_declared() {
    let mut abi = Abi { functions: vec![], fallback: false, receive: false };
    assert_eq!(expand_fallback(&abi), "");
    abi.receive = true;
    let text = expand_fallback(&abi);
    assert_eq!(text.matches("pub fn fallback<D>").count(), 1);
    abi.receive = false;
    abi.fallback = true;
    assert_eq!(expand_fallback(&abi), text);
    let mut cx = context(vec![transfer()], vec![]);
    let without = expand(&cx).ok().unwrap();
    cx.abi.fallback = true;
    let with = expand(&cx).ok().unwrap();
    assert_eq!(with, format!("{}{}", without, text));
}

#[test]
fn generation_is_repeatable_and_parses() {
    let cx = context(vec![transfer(), function("totalSupply", vec![], vec![param("", ParamType::Uint(256))], StateMutability::View)], vec![]);
    let first = expand(&cx).ok().unwrap();
    let second = expand(&cx).ok().unwrap();
    assert_eq!(first, second);
    assert!(first.parse::<proc_macro2::TokenStream>().is_ok());
    assert!(first.contains("impl std::ops::Deref for Contract"));
    assert!(first.contains("pub fn total_supply(&self) -> self::ethcontract::contract::Signature<(), self::ethcontract::U256>"));
}

#[test]
fn alias_is_used_up_by_the_first_function_with_its_signature() {
    let a = function("getValue", vec![], vec![param("", ParamType::Bool)], StateMutability::View);
    let b = function("getValue", vec![], vec![], StateMutability::NonPayable);
    let alias = MethodAlias { signature: "getValue()".to_string(), name: "value".to_string() };
    let cx = context(vec![a, b], vec![alias]);
    let first = resolve_function(&cx, &cx.abi.functions[0], false).ok().unwrap();
    let second = resolve_function(&cx, &cx.abi.functions[1], true).ok().unwrap();
    assert_eq!(first.name, "value");
    assert_eq!(second.name, "get_value");
    let out = expand(&cx).ok().unwrap();
    assert!(out.contains("pub fn value(&self) -> self::ethcontract::dyns::DynViewMethodBuilder<bool>"));
    assert!(out.contains("pub fn get_value(&self) -> self::ethcontract::dyns::DynMethodBuilder<()>"));
}
