//! Shared signature utilities: the shape check, the unit-return check,
//! parameter classification, body splitting, annotation partitioning, and
//! local-state parsing.
//!
//! Each executable utility is specified against a spec function over the
//! views of the model types; the two task parsers compose these utilities and
//! their contracts.

use crate::ast::{Attr, AttrV, Binding, BindingV, DeclSigV, Diag, DiagV, FnShape, Local, LocalV,
    Param, ParamV, RetTy, RetTyV, Stmt, StmtV};
use vstd::prelude::*;
use vstd::string::StringExecFns;

verus! {

// ---------------------------------------------------------------------------
// Shape and return-type checks
// ---------------------------------------------------------------------------

/// A signature has task shape when it is a plain private function: no
/// qualifier, no generics, no variadic marker.
pub open spec fn shape_ok(s: FnShape) -> bool {
    &&& !s.is_public
    &&& !s.is_const
    &&& !s.is_async
    &&& !s.is_unsafe
    &&& !s.has_abi
    &&& !s.has_generics
    &&& !s.is_variadic
}

/// Returns whether the signature has the general shape required of a task
/// declaration.
pub fn check_fn_signature(s: &FnShape) -> (r: bool)
    ensures
        r == shape_ok(*s),
{
    !s.is_public && !s.is_const && !s.is_async && !s.is_unsafe && !s.has_abi && !s.has_generics
        && !s.is_variadic
}

/// A return type counts as unit when it is the explicit empty tuple or when
/// no return annotation was written at all.
pub open spec fn ret_unit(r: RetTyV) -> bool {
    !(r is Other)
}

/// Returns whether the declared return type is the unit (no-value) type.
pub fn type_is_unit(r: &RetTy) -> (b: bool)
    ensures
        b == ret_unit(r@),
{
    match r {
        RetTy::Implicit => true,
        RetTy::Unit => true,
        RetTy::Other(_) => false,
    }
}

/// A hardware task signature is valid when it has task shape, exactly one
/// parameter, a unit return type, and that one parameter is an ordinary
/// binding — the context.
pub open spec fn hw_valid_sig(sig: DeclSigV) -> bool {
    &&& shape_ok(sig.shape)
    &&& sig.params.len() == 1
    &&& ret_unit(sig.ret)
    &&& sig.params[0] is Typed
}

/// A software task signature is valid when it has task shape, a unit return
/// type, and at least one parameter — the context — with every parameter an
/// ordinary binding.
pub open spec fn sw_valid_sig(sig: DeclSigV) -> bool {
    &&& shape_ok(sig.shape)
    &&& ret_unit(sig.ret)
    &&& sig.params.len() >= 1
    &&& all_typed(sig.params)
}

// ---------------------------------------------------------------------------
// Reserved names and diagnostic messages
// ---------------------------------------------------------------------------

/// The scheduler reserves `init` and `idle`; a hardware task may not take
/// either name.
pub open spec fn reserved_name(name: Seq<char>) -> bool {
    name == "init"@ || name == "idle"@
}

/// Returns whether `name` is one of the scheduler-reserved identifiers.
pub fn is_reserved_name(name: &String) -> (r: bool)
    ensures
        r == reserved_name(name@),
{
    let init_name: String = "init".to_owned();
    let idle_name: String = "idle".to_owned();
    *name == init_name || *name == idle_name
}

/// The diagnostic message for a reserved task name.
pub open spec fn reserved_msg() -> Seq<char> {
    "tasks cannot be named `init` or `idle`"@
}

/// Builds the reserved-name diagnostic message.
pub fn reserved_msg_exec() -> (m: String)
    ensures
        m@ == reserved_msg(),
{
    "tasks cannot be named `init` or `idle`".to_owned()
}

/// The part both signature-mismatch messages share, up to the task name.
pub open spec fn sig_msg_prefix() -> Seq<char> {
    "this "@ + "task handler must have type signature `fn("@
}

/// Builds the shared prefix of the signature-mismatch messages.
pub fn sig_msg_prefix_exec() -> (m: String)
    ensures
        m@ == sig_msg_prefix(),
{
    let mut m: String = "this ".to_owned();
    m.append("task handler must have type signature `fn(");
    m
}

/// The diagnostic message for a hardware task whose signature does not match
/// `fn(<name>::Context)`.
pub open spec fn hw_sig_msg(name: Seq<char>) -> Seq<char> {
    sig_msg_prefix() + name + "::Context)`"@
}

/// Builds the hardware signature-mismatch diagnostic message.
pub fn hw_sig_msg_exec(name: &String) -> (m: String)
    ensures
        m@ == hw_sig_msg(name@),
{
    let mut m: String = sig_msg_prefix_exec();
    m.append(name.as_str());
    m.append("::Context)`");
    proof {
        assert(m@ =~= hw_sig_msg(name@));
    }
    m
}

/// The diagnostic message for a software task whose signature does not match
/// `fn(<name>::Context, ..)`.
pub open spec fn sw_sig_msg(name: Seq<char>) -> Seq<char> {
    sig_msg_prefix() + name + "::Context, ..)`"@
}

/// Builds the software signature-mismatch diagnostic message.
pub fn sw_sig_msg_exec(name: &String) -> (m: String)
    ensures
        m@ == sw_sig_msg(name@),
{
    let mut m: String = sig_msg_prefix_exec();
    m.append(name.as_str());
    m.append("::Context, ..)`");
    proof {
        assert(m@ =~= sw_sig_msg(name@));
    }
    m
}

// ---------------------------------------------------------------------------
// Parameter classification
// ---------------------------------------------------------------------------

/// Every parameter is an ordinary `name: type` binding.
pub open spec fn all_typed(ps: Seq<ParamV>) -> bool
    decreases ps.len(),
{
    if ps.len() == 0 {
        true
    } else {
        ps.first() is Typed && all_typed(ps.drop_first())
    }
}

/// The bindings of the typed parameters, in order.
pub open spec fn typed_bindings(ps: Seq<ParamV>) -> Seq<BindingV>
    decreases ps.len(),
{
    if ps.len() == 0 {
        Seq::empty()
    } else {
        match ps.first() {
            ParamV::Typed(b) => seq![b] + typed_bindings(ps.drop_first()),
            ParamV::Opaque => typed_bindings(ps.drop_first()),
        }
    }
}

/// Classifies a declaration's parameter list: the first parameter becomes the
/// context binding, and the remainder is classified parameter by parameter.
///
/// Returns `None` when there is no first parameter or it is not an ordinary
/// binding; otherwise returns the context together with `Ok` of the remaining
/// bindings, or `Err` if some remaining parameter cannot be classified.
#[verifier::loop_isolation(false)]
pub fn parse_inputs(params: Vec<Param>) -> (r: Option<(Binding, Result<Vec<Binding>, ()>)>)
    ensures
        ({
            let ps = params.deep_view();
            match r {
                None => !(ps.len() >= 1 && ps[0] is Typed),
                Some((c, rr)) => ps.len() >= 1 && ps[0] is Typed && c@ == ps[0]->Typed_0
                    && (match rr {
                        Ok(v) => all_typed(ps.drop_first()) && v.deep_view() == typed_bindings(
                            ps.drop_first(),
                        ),
                        Err(_) => !all_typed(ps.drop_first()),
                    }),
            }
        }),
{
    let ghost ps = params.deep_view();
    let mut params = params;
    if params.len() == 0 {
        return None;
    }
    let first = params.remove(0);
    proof {
        assert(params.deep_view() =~= ps.drop_first());
    }
    let context = match first {
        Param::Typed(b) => b,
        Param::Opaque => {
            return None;
        },
    };
    let ghost tail = ps.drop_first();
    let mut rest: Vec<Binding> = Vec::new();
    proof {
        assert(rest.deep_view() + typed_bindings(params.deep_view()) =~= typed_bindings(tail));
    }
    while params.len() > 0
        invariant
            ps.len() >= 1,
            ps[0] is Typed,
            context@ == ps[0]->Typed_0,
            tail == ps.drop_first(),
            all_typed(tail) == all_typed(params.deep_view()),
            rest.deep_view() + typed_bindings(params.deep_view()) == typed_bindings(tail),
        decreases params.len(),
    {
        let ghost rem = params.deep_view();
        let ghost rest0 = rest.deep_view();
        let p = params.remove(0);
        proof {
            assert(params.deep_view() =~= rem.drop_first());
            assert(p.deep_view() == rem.first());
        }
        match p {
            Param::Typed(b) => {
                rest.push(b);
                proof {
                    assert(rest.deep_view() =~= rest0.push(b@));
                    assert(typed_bindings(rem) =~= seq![b@] + typed_bindings(rem.drop_first()));
                    assert(rest.deep_view() + typed_bindings(params.deep_view()) =~= rest0
                        + typed_bindings(rem));
                }
            },
            Param::Opaque => {
                proof {
                    assert(!all_typed(rem));
                }
                return Some((context, Err(())));
            },
        }
    }
    proof {
        assert(typed_bindings(params.deep_view()) =~= Seq::<BindingV>::empty());
        assert(rest.deep_view() =~= typed_bindings(tail));
    }
    Some((context, Ok(rest)))
}

// ---------------------------------------------------------------------------
// Annotation partitioning
// ---------------------------------------------------------------------------

/// The conditional-compilation annotations of `attrs`, in original order.
pub open spec fn cfgs_of(attrs: Seq<AttrV>) -> Seq<AttrV>
    decreases attrs.len(),
{
    if attrs.len() == 0 {
        Seq::empty()
    } else if attrs.first() is Cfg {
        seq![attrs.first()] + cfgs_of(attrs.drop_first())
    } else {
        cfgs_of(attrs.drop_first())
    }
}

/// The annotations of `attrs` that are not conditional-compilation
/// directives, in original order.
pub open spec fn non_cfgs_of(attrs: Seq<AttrV>) -> Seq<AttrV>
    decreases attrs.len(),
{
    if attrs.len() == 0 {
        Seq::empty()
    } else if attrs.first() is Cfg {
        non_cfgs_of(attrs.drop_first())
    } else {
        seq![attrs.first()] + non_cfgs_of(attrs.drop_first())
    }
}

/// Whether a scheduling-analysis annotation occurs in `attrs`.
pub open spec fn rauk_in(attrs: Seq<AttrV>) -> bool
    decreases attrs.len(),
{
    if attrs.len() == 0 {
        false
    } else {
        attrs.first() is Rauk || rauk_in(attrs.drop_first())
    }
}

/// The annotations of `attrs` that are not scheduling-analysis markers, in
/// original order.
pub open spec fn sans_rauk_of(attrs: Seq<AttrV>) -> Seq<AttrV>
    decreases attrs.len(),
{
    if attrs.len() == 0 {
        Seq::empty()
    } else if attrs.first() is Rauk {
        sans_rauk_of(attrs.drop_first())
    } else {
        seq![attrs.first()] + sans_rauk_of(attrs.drop_first())
    }
}

/// Removes and returns, in original order, every conditional-compilation
/// annotation; the remainder is returned unchanged in order.
pub fn extract_cfgs(attrs: Vec<Attr>) -> (r: (Vec<Attr>, Vec<Attr>))
    ensures
        r.0.deep_view() == cfgs_of(attrs.deep_view()),
        r.1.deep_view() == non_cfgs_of(attrs.deep_view()),
{
    let ghost orig = attrs.deep_view();
    let mut attrs = attrs;
    let mut cfgs: Vec<Attr> = Vec::new();
    let mut rest: Vec<Attr> = Vec::new();
    proof {
        assert(cfgs.deep_view() + cfgs_of(attrs.deep_view()) =~= cfgs_of(orig));
        assert(rest.deep_view() + non_cfgs_of(attrs.deep_view()) =~= non_cfgs_of(orig));
    }
    while attrs.len() > 0
        invariant
            cfgs.deep_view() + cfgs_of(attrs.deep_view()) == cfgs_of(orig),
            rest.deep_view() + non_cfgs_of(attrs.deep_view()) == non_cfgs_of(orig),
        decreases attrs.len(),
    {
        let ghost rem = attrs.deep_view();
        let ghost cfgs0 = cfgs.deep_view();
        let ghost rest0 = rest.deep_view();
        let a = attrs.remove(0);
        proof {
            assert(attrs.deep_view() =~= rem.drop_first());
            assert(a.deep_view() == rem.first());
        }
        let is_cfg = match &a {
            Attr::Cfg(_) => true,
            _ => false,
        };
        if is_cfg {
            cfgs.push(a);
            proof {
                assert(cfgs.deep_view() =~= cfgs0.push(rem.first()));
                assert(cfgs.deep_view() + cfgs_of(attrs.deep_view()) =~= cfgs0 + cfgs_of(rem));
            }
        } else {
            rest.push(a);
            proof {
                assert(rest.deep_view() =~= rest0.push(rem.first()));
                assert(rest.deep_view() + non_cfgs_of(attrs.deep_view()) =~= rest0 + non_cfgs_of(
                    rem,
                ));
            }
        }
    }
    proof {
        assert(cfgs.deep_view() =~= cfgs_of(orig));
        assert(rest.deep_view() =~= non_cfgs_of(orig));
    }
    (cfgs, rest)
}

/// Removes the scheduling-analysis annotation, if present, and reports it as
/// a flag; the remainder is returned unchanged in order.
pub fn extract_rauk(attrs: Vec<Attr>) -> (r: (bool, Vec<Attr>))
    ensures
        r.0 == rauk_in(attrs.deep_view()),
        r.1.deep_view() == sans_rauk_of(attrs.deep_view()),
{
    let ghost orig = attrs.deep_view();
    let mut attrs = attrs;
    let mut found = false;
    let mut rest: Vec<Attr> = Vec::new();
    proof {
        assert(rest.deep_view() + sans_rauk_of(attrs.deep_view()) =~= sans_rauk_of(orig));
    }
    while attrs.len() > 0
        invariant
            (found || rauk_in(attrs.deep_view())) == rauk_in(orig),
            rest.deep_view() + sans_rauk_of(attrs.deep_view()) == sans_rauk_of(orig),
        decreases attrs.len(),
    {
        let ghost rem = attrs.deep_view();
        let ghost rest0 = rest.deep_view();
        let a = attrs.remove(0);
        proof {
            assert(attrs.deep_view() =~= rem.drop_first());
            assert(a.deep_view() == rem.first());
        }
        match a {
            Attr::Rauk => {
                found = true;
            },
            other => {
                rest.push(other);
                proof {
                    assert(rest.deep_view() =~= rest0.push(rem.first()));
                    assert(rest.deep_view() + sans_rauk_of(attrs.deep_view()) =~= rest0
                        + sans_rauk_of(rem));
                }
            },
        }
    }
    proof {
        assert(rest.deep_view() =~= sans_rauk_of(orig));
    }
    (found, rest)
}

// ---------------------------------------------------------------------------
// Body splitting
// ---------------------------------------------------------------------------

/// The local-state declarations of a statement sequence, in original order.
pub open spec fn local_decls(ss: Seq<StmtV>) -> Seq<LocalV>
    decreases ss.len(),
{
    if ss.len() == 0 {
        Seq::empty()
    } else {
        match ss.first() {
            StmtV::LocalState(l) => seq![l] + local_decls(ss.drop_first()),
            StmtV::Ordinary(_) => local_decls(ss.drop_first()),
        }
    }
}

/// The ordinary statements of a statement sequence, in original order.
pub open spec fn plain_stmts(ss: Seq<StmtV>) -> Seq<Seq<char>>
    decreases ss.len(),
{
    if ss.len() == 0 {
        Seq::empty()
    } else {
        match ss.first() {
            StmtV::LocalState(_) => plain_stmts(ss.drop_first()),
            StmtV::Ordinary(s) => seq![s] + plain_stmts(ss.drop_first()),
        }
    }
}

/// Partitions a task body into its local-state declarations and its ordinary
/// statements, preserving relative order within each partition.
pub fn extract_locals(stmts: Vec<Stmt>) -> (r: (Vec<Local>, Vec<String>))
    ensures
        r.0.deep_view() == local_decls(stmts.deep_view()),
        r.1.deep_view() == plain_stmts(stmts.deep_view()),
{
    let ghost orig = stmts.deep_view();
    let mut stmts = stmts;
    let mut locals: Vec<Local> = Vec::new();
    let mut rest: Vec<String> = Vec::new();
    proof {
        assert(locals.deep_view() + local_decls(stmts.deep_view()) =~= local_decls(orig));
        assert(rest.deep_view() + plain_stmts(stmts.deep_view()) =~= plain_stmts(orig));
    }
    while stmts.len() > 0
        invariant
            locals.deep_view() + local_decls(stmts.deep_view()) == local_decls(orig),
            rest.deep_view() + plain_stmts(stmts.deep_view()) == plain_stmts(orig),
        decreases stmts.len(),
    {
        let ghost rem = stmts.deep_view();
        let ghost locals0 = locals.deep_view();
        let ghost rest0 = rest.deep_view();
        let s = stmts.remove(0);
        proof {
            assert(stmts.deep_view() =~= rem.drop_first());
            assert(s.deep_view() == rem.first());
        }
        match s {
            Stmt::LocalState(l) => {
                locals.push(l);
                proof {
                    assert(locals.deep_view() =~= locals0.push(rem.first()->LocalState_0));
                    assert(locals.deep_view() + local_decls(stmts.deep_view()) =~= locals0
                        + local_decls(rem));
                }
            },
            Stmt::Ordinary(text) => {
                rest.push(text);
                proof {
                    assert(rest.deep_view() =~= rest0.push(rem.first()->Ordinary_0));
                    assert(rest.deep_view() + plain_stmts(stmts.deep_view()) =~= rest0
                        + plain_stmts(rem));
                }
            },
        }
    }
    proof {
        assert(locals.deep_view() =~= local_decls(orig));
        assert(rest.deep_view() =~= plain_stmts(orig));
    }
    (locals, rest)
}

// ---------------------------------------------------------------------------
// Local-state parsing
// ---------------------------------------------------------------------------

/// Some local-state declaration in `ls` bears `name`.
pub open spec fn seen_name(ls: Seq<LocalV>, name: Seq<char>) -> bool {
    exists|i: int| 0 <= i < ls.len() && ls[i].name == name
}

/// The diagnostic message for a local-state name declared twice in one body.
pub open spec fn dup_local_msg() -> Seq<char> {
    "this local state is declared more than once"@
}

/// Builds the duplicate-local-state diagnostic message.
pub fn dup_local_msg_exec() -> (m: String)
    ensures
        m@ == dup_local_msg(),
{
    "this local state is declared more than once".to_owned()
}

/// Validates local-state declarations front to back: a declaration whose
/// name was already taken turns the whole parse into a diagnostic anchored
/// at the repeated declaration.
pub open spec fn build_locals(ls: Seq<LocalV>, acc: Seq<LocalV>) -> Result<Seq<LocalV>, DiagV>
    decreases ls.len(),
{
    if ls.len() == 0 {
        Ok(acc)
    } else if seen_name(acc, ls.first().name) {
        Err(DiagV { span: ls.first().span, msg: dup_local_msg() })
    } else {
        build_locals(ls.drop_first(), acc.push(ls.first()))
    }
}

/// The validated local-state declarations of a body, or the diagnostic for
/// the first repeated name.
pub open spec fn parse_locals_spec(ls: Seq<LocalV>) -> Result<Seq<LocalV>, DiagV> {
    build_locals(ls, Seq::empty())
}

/// The view of a local-state parse result.
pub open spec fn locals_res_view(r: Result<Vec<Local>, Diag>) -> Result<Seq<LocalV>, DiagV> {
    match r {
        Ok(v) => Ok(v.deep_view()),
        Err(e) => Err(e@),
    }
}

/// Returns whether some declaration in `ls` bears `name`.
fn contains_name(ls: &Vec<Local>, name: &String) -> (r: bool)
    ensures
        r == seen_name(ls.deep_view(), name@),
{
    let mut i: usize = 0;
    while i < ls.len()
        invariant
            i <= ls.len(),
            forall|j: int| 0 <= j < i ==> ls.deep_view()[j].name != name@,
        decreases ls.len() - i,
    {
        if ls[i].name == *name {
            proof {
                assert(ls.deep_view()[i as int].name == name@);
            }
            return true;
        }
        i += 1;
    }
    false
}

impl Local {
    /// Turns the extracted local-state declarations into the descriptor's
    /// locals, rejecting a body in which two declarations share one name:
    /// keys of the locals mapping are unique, and insertion order is kept.
    #[verifier::loop_isolation(false)]
    pub fn parse(ls: Vec<Local>) -> (r: Result<Vec<Local>, Diag>)
        ensures
            locals_res_view(r) == parse_locals_spec(ls.deep_view()),
    {
        let ghost orig = ls.deep_view();
        let mut ls = ls;
        let mut acc: Vec<Local> = Vec::new();
        proof {
            assert(acc.deep_view() =~= Seq::<LocalV>::empty());
        }
        while ls.len() > 0
            invariant
                build_locals(ls.deep_view(), acc.deep_view()) == parse_locals_spec(orig),
            decreases ls.len(),
        {
            let ghost rem = ls.deep_view();
            let ghost acc0 = acc.deep_view();
            let l = ls.remove(0);
            proof {
                assert(ls.deep_view() =~= rem.drop_first());
                assert(l.deep_view() == rem.first());
            }
            if contains_name(&acc, &l.name) {
                return Err(Diag { span: l.span, msg: dup_local_msg_exec() });
            }
            acc.push(l);
            proof {
                assert(acc.deep_view() =~= acc0.push(rem.first()));
            }
        }
        proof {
            assert(ls.deep_view() =~= Seq::<LocalV>::empty());
        }
        Ok(acc)
    }
}

} // verus!
