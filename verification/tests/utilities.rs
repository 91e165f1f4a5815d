//! Tests of the shared signature utilities on concrete values.

use task_decl::ast::{Attr, Binding, FnShape, Local, Param, RetTy, Stmt};
use task_decl::util::{extract_cfgs, extract_locals, extract_rauk, parse_inputs,
    check_fn_signature, type_is_unit};
use task_decl::Span;

fn plain_shape() -> FnShape {
    FnShape {
        is_public: false,
        is_const: false,
        is_async: false,
        is_unsafe: false,
        has_abi: false,
        has_generics: false,
        is_variadic: false,
    }
}

fn binding(name: &str, ty: &str) -> Binding {
    Binding { name: name.to_string(), ty: ty.to_string() }
}

#[test]
fn shape_check_rejects_each_disqualifier() {
    assert!(check_fn_signature(&plain_shape()));
    for i in 0..7 {
        let mut s = plain_shape();
        match i {
            0 => s.is_public = true,
            1 => s.is_const = true,
            2 => s.is_async = true,
            3 => s.is_unsafe = true,
            4 => s.has_abi = true,
            5 => s.has_generics = true,
            _ => s.is_variadic = true,
        }
        assert!(!check_fn_signature(&s));
    }
}

#[test]
fn unit_return_check() {
    assert!(type_is_unit(&RetTy::Implicit));
    assert!(type_is_unit(&RetTy::Unit));
    assert!(!type_is_unit(&RetTy::Other("u32".to_string())));
}

#[test]
fn parse_inputs_splits_context_and_rest() {
    let params = vec![
        Param::Typed(binding("cx", "t::Context")),
        Param::Typed(binding("a", "u8")),
        Param::Typed(binding("b", "u16")),
    ];
    let (context, rest) = parse_inputs(params).unwrap();
    assert_eq!(context, binding("cx", "t::Context"));
    assert_eq!(rest.unwrap(), vec![binding("a", "u8"), binding("b", "u16")]);
}

#[test]
fn parse_inputs_empty_list_is_none() {
    assert!(parse_inputs(Vec::new()).is_none());
}

#[test]
fn parse_inputs_opaque_first_is_none() {
    assert!(parse_inputs(vec![Param::Opaque]).is_none());
}

#[test]
fn parse_inputs_opaque_rest_is_error() {
    let params = vec![Param::Typed(binding("cx", "t::Context")), Param::Opaque];
    let (context, rest) = parse_inputs(params).unwrap();
    assert_eq!(context, binding("cx", "t::Context"));
    assert!(rest.is_err());
}

#[test]
fn extract_cfgs_keeps_both_orders() {
    let attrs = vec![
        Attr::Other("x".to_string()),
        Attr::Cfg("a".to_string()),
        Attr::Other("y".to_string()),
        Attr::Cfg("b".to_string()),
    ];
    let (cfgs, rest) = extract_cfgs(attrs);
    assert_eq!(cfgs, vec![Attr::Cfg("a".to_string()), Attr::Cfg("b".to_string())]);
    assert_eq!(rest, vec![Attr::Other("x".to_string()), Attr::Other("y".to_string())]);
}

#[test]
fn extract_rauk_removes_the_marker() {
    let attrs = vec![Attr::Other("x".to_string()), Attr::Rauk];
    let (rauk, rest) = extract_rauk(attrs);
    assert!(rauk);
    assert_eq!(rest, vec![Attr::Other("x".to_string())]);

    let (rauk, rest) = extract_rauk(vec![Attr::Other("x".to_string())]);
    assert!(!rauk);
    assert_eq!(rest, vec![Attr::Other("x".to_string())]);
}

fn sample_local(name: &str, init: Option<&str>, at: u32) -> Local {
    Local {
        name: name.to_string(),
        ty: "u8".to_string(),
        init: init.map(|s| s.to_string()),
        cfgs: Vec::new(),
        span: Span { at },
    }
}

#[test]
fn extract_rauk_removes_every_marker() {
    // multiplicity beyond one is not modeled: the flag is a plain
    // present/absent bit and every marker is consumed
    let (rauk, rest) = extract_rauk(vec![Attr::Rauk, Attr::Rauk]);
    assert!(rauk);
    assert!(rest.is_empty());
}

#[test]
fn extract_locals_preserves_relative_order() {
    let stmts = vec![
        Stmt::Ordinary("first();".to_string()),
        Stmt::LocalState(sample_local("a", Some("0"), 2)),
        Stmt::Ordinary("second();".to_string()),
        Stmt::LocalState(sample_local("b", None, 4)),
    ];
    let (locals, rest) = extract_locals(stmts);
    assert_eq!(locals, vec![sample_local("a", Some("0"), 2), sample_local("b", None, 4)]);
    assert_eq!(rest, vec!["first();".to_string(), "second();".to_string()]);
}
