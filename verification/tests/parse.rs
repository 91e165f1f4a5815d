//! End-to-end tests of the two task parsers on concrete declarations.

use task_decl::ast::{Attr, Binding, DeclSig, Diag, ForeignTaskDecl, Local, Param, RetTy, Stmt,
    TaskDecl};
use task_decl::hardware_task::{HardwareTask, HardwareTaskArgs};
use task_decl::software_task::{SoftwareTask, SoftwareTaskArgs};
use task_decl::Span;

fn plain_shape() -> task_decl::ast::FnShape {
    task_decl::ast::FnShape {
        is_public: false,
        is_const: false,
        is_async: false,
        is_unsafe: false,
        has_abi: false,
        has_generics: false,
        is_variadic: false,
    }
}

fn binding(name: &str, ty: &str) -> Binding {
    Binding { name: name.to_string(), ty: ty.to_string() }
}

fn sig(name: &str, params: Vec<Param>, ret: RetTy, attrs: Vec<Attr>) -> DeclSig {
    DeclSig {
        name: name.to_string(),
        name_span: Span { at: 1 },
        shape: plain_shape(),
        ret,
        params,
        attrs,
    }
}

fn context_param(task: &str) -> Param {
    Param::Typed(binding("cx", &format!("{}::Context", task)))
}

fn hw_mismatch_msg(name: &str) -> String {
    format!("{}task handler must have type signature `fn({}::Context)`", "this ", name)
}

fn sw_mismatch_msg(name: &str) -> String {
    format!("{}task handler must have type signature `fn({}::Context, ..)`", "this ", name)
}

fn hw_args() -> HardwareTaskArgs {
    HardwareTaskArgs { priority: 1 }
}

fn sw_args() -> SoftwareTaskArgs {
    SoftwareTaskArgs { priority: 2, capacity: 4 }
}

fn local(name: &str, ty: &str, init: &str, at: u32) -> Local {
    Local {
        name: name.to_string(),
        ty: ty.to_string(),
        init: Some(init.to_string()),
        cfgs: Vec::new(),
        span: Span { at },
    }
}

// ---------------------------------------------------------------------------
// Hardware: acceptance
// ---------------------------------------------------------------------------

#[test]
fn hardware_valid_declaration_parses() {
    let decl = TaskDecl {
        sig: sig("button", vec![context_param("button")], RetTy::Implicit, Vec::new()),
        stmts: vec![
            Stmt::LocalState(local("count", "u32", "0", 3)),
            Stmt::Ordinary("count += 1;".to_string()),
        ],
    };
    let t = HardwareTask::parse(hw_args(), decl).unwrap();
    assert_eq!(t.args, hw_args());
    assert!(!t.is_extern);
    assert!(!t.rauk);
    assert_eq!(t.context, binding("cx", "button::Context"));
    assert_eq!(t.locals, vec![local("count", "u32", "0", 3)]);
    assert_eq!(t.stmts, vec!["count += 1;".to_string()]);
    assert!(t.cfgs.is_empty());
    assert!(t.attrs.is_empty());
}

#[test]
fn hardware_explicit_unit_return_accepted() {
    let decl = TaskDecl {
        sig: sig("button", vec![context_param("button")], RetTy::Unit, Vec::new()),
        stmts: Vec::new(),
    };
    let t = HardwareTask::parse(hw_args(), decl).unwrap();
    assert!(t.locals.is_empty());
    assert!(t.stmts.is_empty());
}

#[test]
fn hardware_external_declaration_is_marked_external() {
    let decl = ForeignTaskDecl {
        sig: sig(
            "button",
            vec![context_param("button")],
            RetTy::Implicit,
            vec![
                Attr::Cfg("cfg (feature = \"a\")".to_string()),
                Attr::Cfg("cfg (feature = \"b\")".to_string()),
            ],
        ),
    };
    let t = HardwareTask::parse_foreign(hw_args(), decl).unwrap();
    assert!(t.is_extern);
    assert!(t.locals.is_empty());
    assert!(t.stmts.is_empty());
    assert_eq!(
        t.cfgs,
        vec![
            Attr::Cfg("cfg (feature = \"a\")".to_string()),
            Attr::Cfg("cfg (feature = \"b\")".to_string()),
        ]
    );
}

// ---------------------------------------------------------------------------
// Hardware: rejection
// ---------------------------------------------------------------------------

#[test]
fn hardware_named_init_is_rejected() {
    let decl = TaskDecl {
        sig: sig("init", vec![context_param("init")], RetTy::Implicit, Vec::new()),
        stmts: Vec::new(),
    };
    let e = HardwareTask::parse(hw_args(), decl).unwrap_err();
    assert_eq!(e.msg, "tasks cannot be named `init` or `idle`");
    assert_eq!(e.span, Span { at: 1 });
}

#[test]
fn hardware_named_idle_is_rejected_despite_valid_signature() {
    let decl = TaskDecl {
        sig: sig("idle", vec![context_param("idle")], RetTy::Implicit, Vec::new()),
        stmts: vec![Stmt::Ordinary("loop {}".to_string())],
    };
    let e = HardwareTask::parse(hw_args(), decl).unwrap_err();
    assert_eq!(e.msg, "tasks cannot be named `init` or `idle`");
}

#[test]
fn hardware_reserved_name_check_precedes_signature_check() {
    // even with a broken signature, `idle` draws the reserved-name
    // diagnostic, not the signature one
    let decl = TaskDecl {
        sig: sig("idle", Vec::new(), RetTy::Other("u32".to_string()), Vec::new()),
        stmts: Vec::new(),
    };
    let e = HardwareTask::parse(hw_args(), decl).unwrap_err();
    assert_eq!(e.msg, "tasks cannot be named `init` or `idle`");
}

#[test]
fn hardware_foreign_named_init_is_rejected() {
    let decl = ForeignTaskDecl {
        sig: sig("init", vec![context_param("init")], RetTy::Implicit, Vec::new()),
    };
    let e = HardwareTask::parse_foreign(hw_args(), decl).unwrap_err();
    assert_eq!(e.msg, "tasks cannot be named `init` or `idle`");
}

#[test]
fn hardware_non_unit_return_is_rejected() {
    let decl = TaskDecl {
        sig: sig(
            "button",
            vec![context_param("button")],
            RetTy::Other("u32".to_string()),
            Vec::new(),
        ),
        stmts: Vec::new(),
    };
    let e = HardwareTask::parse(hw_args(), decl).unwrap_err();
    assert_eq!(e.msg, hw_mismatch_msg("button"));
}

#[test]
fn hardware_two_parameters_are_rejected() {
    let decl = TaskDecl {
        sig: sig(
            "button",
            vec![context_param("button"), Param::Typed(binding("extra", "u8"))],
            RetTy::Implicit,
            Vec::new(),
        ),
        stmts: Vec::new(),
    };
    let e = HardwareTask::parse(hw_args(), decl).unwrap_err();
    assert_eq!(e.msg, hw_mismatch_msg("button"));
}

#[test]
fn hardware_no_parameters_are_rejected() {
    let decl = TaskDecl {
        sig: sig("button", Vec::new(), RetTy::Implicit, Vec::new()),
        stmts: Vec::new(),
    };
    let e = HardwareTask::parse(hw_args(), decl).unwrap_err();
    assert_eq!(e.msg, hw_mismatch_msg("button"));
}

#[test]
fn hardware_receiver_like_parameter_is_rejected() {
    let decl = TaskDecl {
        sig: sig("button", vec![Param::Opaque], RetTy::Implicit, Vec::new()),
        stmts: Vec::new(),
    };
    let e = HardwareTask::parse(hw_args(), decl).unwrap_err();
    assert_eq!(e.msg, hw_mismatch_msg("button"));
}

#[test]
fn hardware_generic_declaration_is_rejected() {
    let mut shape = plain_shape();
    shape.has_generics = true;
    let decl = TaskDecl {
        sig: DeclSig {
            name: "button".to_string(),
            name_span: Span { at: 1 },
            shape,
            ret: RetTy::Implicit,
            params: vec![context_param("button")],
            attrs: Vec::new(),
        },
        stmts: Vec::new(),
    };
    let e = HardwareTask::parse(hw_args(), decl).unwrap_err();
    assert_eq!(e.msg, hw_mismatch_msg("button"));
}

#[test]
fn duplicate_local_state_is_rejected() {
    let decl = TaskDecl {
        sig: sig("button", vec![context_param("button")], RetTy::Implicit, Vec::new()),
        stmts: vec![
            Stmt::LocalState(local("count", "u32", "0", 3)),
            Stmt::Ordinary("count += 1;".to_string()),
            Stmt::LocalState(local("count", "u64", "7", 5)),
        ],
    };
    let e = HardwareTask::parse(hw_args(), decl).unwrap_err();
    assert_eq!(e.msg, "this local state is declared more than once");
    assert_eq!(e.span, Span { at: 5 });
}

// ---------------------------------------------------------------------------
// Software
// ---------------------------------------------------------------------------

#[test]
fn software_inputs_keep_count_and_order() {
    let decl = TaskDecl {
        sig: sig(
            "transfer",
            vec![
                context_param("transfer"),
                Param::Typed(binding("from", "u8")),
                Param::Typed(binding("to", "u8")),
                Param::Typed(binding("amount", "u32")),
            ],
            RetTy::Implicit,
            Vec::new(),
        ),
        stmts: Vec::new(),
    };
    let t = SoftwareTask::parse(sw_args(), decl).unwrap();
    assert_eq!(
        t.inputs,
        vec![binding("from", "u8"), binding("to", "u8"), binding("amount", "u32")]
    );
}

#[test]
fn software_zero_inputs_accepted() {
    let decl = TaskDecl {
        sig: sig("tick", vec![context_param("tick")], RetTy::Implicit, Vec::new()),
        stmts: Vec::new(),
    };
    let t = SoftwareTask::parse(sw_args(), decl).unwrap();
    assert!(t.inputs.is_empty());
    assert!(!t.is_extern);
}

#[test]
fn software_may_be_named_init() {
    // the reserved names only bind hardware tasks
    let decl = TaskDecl {
        sig: sig("init", vec![context_param("init")], RetTy::Implicit, Vec::new()),
        stmts: Vec::new(),
    };
    assert!(SoftwareTask::parse(sw_args(), decl).is_ok());
}

#[test]
fn software_non_unit_return_is_rejected() {
    let decl = TaskDecl {
        sig: sig(
            "send",
            vec![context_param("send")],
            RetTy::Other("bool".to_string()),
            Vec::new(),
        ),
        stmts: Vec::new(),
    };
    let e = SoftwareTask::parse(sw_args(), decl).unwrap_err();
    assert_eq!(e.msg, sw_mismatch_msg("send"));
}

#[test]
fn software_no_parameters_are_rejected() {
    let decl = TaskDecl {
        sig: sig("send", Vec::new(), RetTy::Implicit, Vec::new()),
        stmts: Vec::new(),
    };
    let e = SoftwareTask::parse(sw_args(), decl).unwrap_err();
    assert_eq!(e.msg, sw_mismatch_msg("send"));
}

#[test]
fn software_unclassifiable_data_parameter_is_rejected() {
    let decl = TaskDecl {
        sig: sig(
            "send",
            vec![context_param("send"), Param::Opaque],
            RetTy::Implicit,
            Vec::new(),
        ),
        stmts: Vec::new(),
    };
    let e = SoftwareTask::parse(sw_args(), decl).unwrap_err();
    assert_eq!(e.msg, sw_mismatch_msg("send"));
}

#[test]
fn software_body_is_split_like_hardware() {
    let decl = TaskDecl {
        sig: sig(
            "log",
            vec![context_param("log"), Param::Typed(binding("line", "u8"))],
            RetTy::Implicit,
            vec![Attr::Rauk],
        ),
        stmts: vec![
            Stmt::LocalState(local("seen", "u32", "0", 2)),
            Stmt::Ordinary("seen += 1;".to_string()),
        ],
    };
    let t = SoftwareTask::parse(sw_args(), decl).unwrap();
    assert!(t.rauk);
    assert_eq!(t.locals, vec![local("seen", "u32", "0", 2)]);
    assert_eq!(t.stmts, vec!["seen += 1;".to_string()]);
    assert_eq!(t.inputs, vec![binding("line", "u8")]);
}

#[test]
fn software_duplicate_local_state_is_rejected() {
    let decl = TaskDecl {
        sig: sig("log", vec![context_param("log")], RetTy::Implicit, Vec::new()),
        stmts: vec![
            Stmt::LocalState(local("seen", "u32", "0", 2)),
            Stmt::LocalState(local("seen", "u32", "1", 3)),
        ],
    };
    let e = SoftwareTask::parse(sw_args(), decl).unwrap_err();
    assert_eq!(e.msg, "this local state is declared more than once");
    assert_eq!(e.span, Span { at: 3 });
}

#[test]
fn software_external_declaration_is_marked_external() {
    let decl = ForeignTaskDecl {
        sig: sig(
            "send",
            vec![context_param("send"), Param::Typed(binding("payload", "u8"))],
            RetTy::Implicit,
            Vec::new(),
        ),
    };
    let t = SoftwareTask::parse_foreign(sw_args(), decl).unwrap();
    assert!(t.is_extern);
    assert!(t.locals.is_empty());
    assert!(t.stmts.is_empty());
    assert_eq!(t.inputs, vec![binding("payload", "u8")]);
}

// ---------------------------------------------------------------------------
// Annotation partitioning
// ---------------------------------------------------------------------------

#[test]
fn annotations_are_partitioned_without_loss() {
    let attrs = vec![
        Attr::Other("#[allow(dead_code)]".to_string()),
        Attr::Cfg("cfg (feature = \"a\")".to_string()),
        Attr::Rauk,
        Attr::Cfg("cfg (feature = \"b\")".to_string()),
        Attr::Other("#[inline]".to_string()),
    ];
    let decl = TaskDecl {
        sig: sig("button", vec![context_param("button")], RetTy::Implicit, attrs.clone()),
        stmts: Vec::new(),
    };
    let t = HardwareTask::parse(hw_args(), decl).unwrap();
    assert_eq!(
        t.cfgs,
        vec![
            Attr::Cfg("cfg (feature = \"a\")".to_string()),
            Attr::Cfg("cfg (feature = \"b\")".to_string()),
        ]
    );
    assert!(t.rauk);
    assert_eq!(
        t.attrs,
        vec![
            Attr::Other("#[allow(dead_code)]".to_string()),
            Attr::Other("#[inline]".to_string()),
        ]
    );
    // reassembling the three parts gives back every annotation exactly once
    let mut rebuilt = t.cfgs.clone();
    rebuilt.push(Attr::Rauk);
    rebuilt.extend(t.attrs.iter().map(|a| match a {
        Attr::Other(s) => Attr::Other(s.clone()),
        Attr::Cfg(s) => Attr::Cfg(s.clone()),
        Attr::Rauk => Attr::Rauk,
    }));
    assert_eq!(rebuilt.len(), attrs.len());
    for a in &attrs {
        let n_orig = attrs.iter().filter(|b| *b == a).count();
        let n_rebuilt = rebuilt.iter().filter(|b| *b == a).count();
        assert_eq!(n_orig, n_rebuilt);
    }
}

#[test]
fn absent_rauk_leaves_flag_clear() {
    let decl = TaskDecl {
        sig: sig(
            "button",
            vec![context_param("button")],
            RetTy::Implicit,
            vec![Attr::Other("#[inline]".to_string())],
        ),
        stmts: Vec::new(),
    };
    let t = HardwareTask::parse(hw_args(), decl).unwrap();
    assert!(!t.rauk);
    assert_eq!(t.attrs, vec![Attr::Other("#[inline]".to_string())]);
}

// ---------------------------------------------------------------------------
// Determinism and concrete scenarios
// ---------------------------------------------------------------------------

#[test]
fn parsing_twice_yields_equal_descriptors() {
    let make = || TaskDecl {
        sig: sig(
            "button",
            vec![context_param("button")],
            RetTy::Implicit,
            vec![Attr::Cfg("cfg (debug_assertions)".to_string()), Attr::Rauk],
        ),
        stmts: vec![
            Stmt::LocalState(local("count", "u32", "0", 3)),
            Stmt::Ordinary("count += 1;".to_string()),
        ],
    };
    let t1 = HardwareTask::parse(hw_args(), make()).unwrap();
    let t2 = HardwareTask::parse(hw_args(), make()).unwrap();
    assert_eq!(t1, t2);

    let make_sw = || TaskDecl {
        sig: sig(
            "send",
            vec![context_param("send"), Param::Typed(binding("payload", "u8"))],
            RetTy::Implicit,
            Vec::new(),
        ),
        stmts: Vec::new(),
    };
    let s1 = SoftwareTask::parse(sw_args(), make_sw()).unwrap();
    let s2 = SoftwareTask::parse(sw_args(), make_sw()).unwrap();
    assert_eq!(s1, s2);
}

#[test]
fn exti0_scenario() {
    let decl = TaskDecl {
        sig: sig(
            "exti0",
            vec![Param::Typed(binding("cx", "exti0::Context"))],
            RetTy::Implicit,
            vec![Attr::Cfg("cfg (feature = \"x\")".to_string())],
        ),
        stmts: vec![
            Stmt::LocalState(local("times", "u32", "0", 4)),
            Stmt::Ordinary("times += 1;".to_string()),
        ],
    };
    let t = HardwareTask::parse(hw_args(), decl).unwrap();
    assert_eq!(t.cfgs, vec![Attr::Cfg("cfg (feature = \"x\")".to_string())]);
    assert!(!t.is_extern);
    assert_eq!(t.context, binding("cx", "exti0::Context"));
    assert_eq!(t.locals, vec![local("times", "u32", "0", 4)]);
    assert_eq!(t.stmts, vec!["times += 1;".to_string()]);
}

#[test]
fn send_scenario() {
    let decl = TaskDecl {
        sig: sig(
            "send",
            vec![
                Param::Typed(binding("cx", "send::Context")),
                Param::Typed(binding("payload", "u8")),
            ],
            RetTy::Implicit,
            Vec::new(),
        ),
        stmts: Vec::new(),
    };
    let t = SoftwareTask::parse(sw_args(), decl).unwrap();
    assert_eq!(t.inputs, vec![binding("payload", "u8")]);
}

#[test]
fn idle_scenario_produces_no_descriptor() {
    let decl = TaskDecl {
        sig: sig("idle", vec![context_param("idle")], RetTy::Implicit, Vec::new()),
        stmts: Vec::new(),
    };
    let r: Result<HardwareTask, Diag> = HardwareTask::parse(hw_args(), decl);
    assert!(r.is_err());
    assert_eq!(r.unwrap_err().msg, "tasks cannot be named `init` or `idle`");
}
