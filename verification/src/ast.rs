//! The data model of a task declaration and of the descriptor produced from
//! it.
//!
//! The types here hold, as plain values, exactly what the validation logic
//! reads from a declaration: its name and source location, the shape flags of
//! its signature, its return type, its parameter list, its annotations, and —
//! for a body-bearing declaration — its statements. Each executable type has
//! a mathematical view (`...V`) over sequences of characters, used by every
//! contract of the crate.

use crate::Span;
use vstd::prelude::*;

verus! {

// ---------------------------------------------------------------------------
// Signature shape
// ---------------------------------------------------------------------------

/// The shape flags of a declaration's signature that disqualify it from being
/// a task: a task must be a plain private function with no qualifier, no
/// generics and no variadic marker.
#[derive(Clone, Copy, PartialEq, Eq, Structural, Debug)]
pub struct FnShape {
    pub is_public: bool,
    pub is_const: bool,
    pub is_async: bool,
    pub is_unsafe: bool,
    pub has_abi: bool,
    pub has_generics: bool,
    pub is_variadic: bool,
}

/// The declared return type of a task declaration. `Implicit` is a signature
/// with no return annotation at all; `Unit` is an explicit empty tuple; both
/// count as returning no value.
#[derive(Debug, PartialEq)]
pub enum RetTy {
    Implicit,
    Unit,
    Other(String),
}

/// The mathematical view of [`RetTy`].
pub enum RetTyV {
    Implicit,
    Unit,
    Other(Seq<char>),
}

impl View for RetTy {
    type V = RetTyV;

    open spec fn view(&self) -> RetTyV {
        match self {
            RetTy::Implicit => RetTyV::Implicit,
            RetTy::Unit => RetTyV::Unit,
            RetTy::Other(t) => RetTyV::Other(t@),
        }
    }
}

impl DeepView for RetTy {
    type V = RetTyV;

    open spec fn deep_view(&self) -> RetTyV {
        self@
    }
}

// ---------------------------------------------------------------------------
// Parameters
// ---------------------------------------------------------------------------

/// A name bound to a declared type: the context parameter of a task, or one
/// of a software task's data inputs.
#[derive(Debug, PartialEq)]
pub struct Binding {
    pub name: String,
    pub ty: String,
}

/// The mathematical view of [`Binding`].
pub struct BindingV {
    pub name: Seq<char>,
    pub ty: Seq<char>,
}

impl View for Binding {
    type V = BindingV;

    open spec fn view(&self) -> BindingV {
        BindingV { name: self.name@, ty: self.ty@ }
    }
}

impl DeepView for Binding {
    type V = BindingV;

    open spec fn deep_view(&self) -> BindingV {
        self@
    }
}

/// One parameter of a declaration: either an ordinary `name: type` binding,
/// or something that cannot be classified as one (a receiver, or a pattern
/// that is not a plain identifier).
#[derive(Debug, PartialEq)]
pub enum Param {
    Typed(Binding),
    Opaque,
}

/// The mathematical view of [`Param`].
pub enum ParamV {
    Typed(BindingV),
    Opaque,
}

impl View for Param {
    type V = ParamV;

    open spec fn view(&self) -> ParamV {
        match self {
            Param::Typed(b) => ParamV::Typed(b@),
            Param::Opaque => ParamV::Opaque,
        }
    }
}

impl DeepView for Param {
    type V = ParamV;

    open spec fn deep_view(&self) -> ParamV {
        self@
    }
}

// ---------------------------------------------------------------------------
// Annotations
// ---------------------------------------------------------------------------

/// One annotation attached to a declaration. A conditional-compilation
/// directive gates inclusion of the generated item and carries its condition
/// verbatim; the scheduling-analysis marker opts the task into a separate
/// response-time analysis pass; everything else is passed through unchanged.
#[derive(Clone, Debug, PartialEq)]
pub enum Attr {
    Cfg(String),
    Rauk,
    Other(String),
}

/// The mathematical view of [`Attr`].
pub enum AttrV {
    Cfg(Seq<char>),
    Rauk,
    Other(Seq<char>),
}

impl View for Attr {
    type V = AttrV;

    open spec fn view(&self) -> AttrV {
        match self {
            Attr::Cfg(s) => AttrV::Cfg(s@),
            Attr::Rauk => AttrV::Rauk,
            Attr::Other(s) => AttrV::Other(s@),
        }
    }
}

impl DeepView for Attr {
    type V = AttrV;

    open spec fn deep_view(&self) -> AttrV {
        self@
    }
}

// ---------------------------------------------------------------------------
// Body statements and local state
// ---------------------------------------------------------------------------

/// A local-state declaration found in a task body: state that persists across
/// invocations of the task, with its name, its type, an optional initializer,
/// its own conditional-compilation annotations, and its source location.
#[derive(Debug, PartialEq)]
pub struct Local {
    pub name: String,
    pub ty: String,
    pub init: Option<String>,
    pub cfgs: Vec<Attr>,
    pub span: Span,
}

/// The mathematical view of [`Local`].
pub struct LocalV {
    pub name: Seq<char>,
    pub ty: Seq<char>,
    pub init: Option<Seq<char>>,
    pub cfgs: Seq<AttrV>,
    pub span: Span,
}

impl View for Local {
    type V = LocalV;

    open spec fn view(&self) -> LocalV {
        LocalV {
            name: self.name@,
            ty: self.ty@,
            init: self.init.deep_view(),
            cfgs: self.cfgs.deep_view(),
            span: self.span,
        }
    }
}

impl DeepView for Local {
    type V = LocalV;

    open spec fn deep_view(&self) -> LocalV {
        self@
    }
}

/// One statement of a task body: either a local-state declaration, to be
/// extracted into the descriptor's `locals`, or an ordinary statement kept
/// verbatim in execution order.
#[derive(Debug, PartialEq)]
pub enum Stmt {
    LocalState(Local),
    Ordinary(String),
}

/// The mathematical view of [`Stmt`].
pub enum StmtV {
    LocalState(LocalV),
    Ordinary(Seq<char>),
}

impl View for Stmt {
    type V = StmtV;

    open spec fn view(&self) -> StmtV {
        match self {
            Stmt::LocalState(l) => StmtV::LocalState(l@),
            Stmt::Ordinary(s) => StmtV::Ordinary(s@),
        }
    }
}

impl DeepView for Stmt {
    type V = StmtV;

    open spec fn deep_view(&self) -> StmtV {
        self@
    }
}

// ---------------------------------------------------------------------------
// Declarations
// ---------------------------------------------------------------------------

/// The signature-level part of a task declaration: everything but the body.
#[derive(Debug, PartialEq)]
pub struct DeclSig {
    pub name: String,
    pub name_span: Span,
    pub shape: FnShape,
    pub ret: RetTy,
    pub params: Vec<Param>,
    pub attrs: Vec<Attr>,
}

/// The mathematical view of [`DeclSig`].
pub struct DeclSigV {
    pub name: Seq<char>,
    pub name_span: Span,
    pub shape: FnShape,
    pub ret: RetTyV,
    pub params: Seq<ParamV>,
    pub attrs: Seq<AttrV>,
}

impl View for DeclSig {
    type V = DeclSigV;

    open spec fn view(&self) -> DeclSigV {
        DeclSigV {
            name: self.name@,
            name_span: self.name_span,
            shape: self.shape,
            ret: self.ret@,
            params: self.params.deep_view(),
            attrs: self.attrs.deep_view(),
        }
    }
}

impl DeepView for DeclSig {
    type V = DeclSigV;

    open spec fn deep_view(&self) -> DeclSigV {
        self@
    }
}

/// A body-bearing task declaration.
#[derive(Debug, PartialEq)]
pub struct TaskDecl {
    pub sig: DeclSig,
    pub stmts: Vec<Stmt>,
}

/// The mathematical view of [`TaskDecl`].
pub struct TaskDeclV {
    pub sig: DeclSigV,
    pub stmts: Seq<StmtV>,
}

impl View for TaskDecl {
    type V = TaskDeclV;

    open spec fn view(&self) -> TaskDeclV {
        TaskDeclV { sig: self.sig@, stmts: self.stmts.deep_view() }
    }
}

impl DeepView for TaskDecl {
    type V = TaskDeclV;

    open spec fn deep_view(&self) -> TaskDeclV {
        self@
    }
}

/// A signature-only ("external") task declaration: no body is supplied and
/// the implementation lives elsewhere.
#[derive(Debug, PartialEq)]
pub struct ForeignTaskDecl {
    pub sig: DeclSig,
}

/// The mathematical view of [`ForeignTaskDecl`].
pub struct ForeignTaskDeclV {
    pub sig: DeclSigV,
}

impl View for ForeignTaskDecl {
    type V = ForeignTaskDeclV;

    open spec fn view(&self) -> ForeignTaskDeclV {
        ForeignTaskDeclV { sig: self.sig@ }
    }
}

impl DeepView for ForeignTaskDecl {
    type V = ForeignTaskDeclV;

    open spec fn deep_view(&self) -> ForeignTaskDeclV {
        self@
    }
}

// ---------------------------------------------------------------------------
// Diagnostics
// ---------------------------------------------------------------------------

/// A diagnostic: a source location and a human-readable message. Each failed
/// parse produces exactly one.
#[derive(Debug, PartialEq)]
pub struct Diag {
    pub span: Span,
    pub msg: String,
}

/// The mathematical view of [`Diag`].
pub struct DiagV {
    pub span: Span,
    pub msg: Seq<char>,
}

impl View for Diag {
    type V = DiagV;

    open spec fn view(&self) -> DiagV {
        DiagV { span: self.span, msg: self.msg@ }
    }
}

impl DeepView for Diag {
    type V = DiagV;

    open spec fn deep_view(&self) -> DiagV {
        self@
    }
}

} // verus!
