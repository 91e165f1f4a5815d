//! The hardware-task parser: validates and extracts a descriptor for a task
//! triggered by an external event source, which takes exactly one parameter —
//! the framework-injected context — and returns no value.

use crate::ast::{Attr, AttrV, Binding, BindingV, DeclSig, DeclSigV, Diag, DiagV, ForeignTaskDecl,
    ForeignTaskDeclV, Local, LocalV, TaskDecl, TaskDeclV};
use crate::util::{all_typed, check_fn_signature, cfgs_of, extract_cfgs, extract_locals,
    extract_rauk, hw_sig_msg, hw_sig_msg_exec, hw_valid_sig, is_reserved_name, local_decls,
    non_cfgs_of, parse_inputs, parse_locals_spec, plain_stmts, rauk_in, reserved_msg,
    reserved_msg_exec, reserved_name, ret_unit, sans_rauk_of, shape_ok, type_is_unit};
use vstd::prelude::*;

verus! {

/// The declaration-site configuration arguments of a hardware task, parsed
/// by the outer declaration-set parser and carried through unchanged.
#[derive(Clone, Copy, PartialEq, Eq, Structural, Debug)]
pub struct HardwareTaskArgs {
    pub priority: u8,
}

/// The validated descriptor of one hardware task declaration.
#[derive(Debug, PartialEq)]
pub struct HardwareTask {
    /// Declaration-site configuration arguments, carried through unchanged.
    pub args: HardwareTaskArgs,
    /// Conditional-compilation annotations, verbatim and in original order.
    pub cfgs: Vec<Attr>,
    /// Remaining ordinary annotations, passed through unchanged.
    pub attrs: Vec<Attr>,
    /// The name and declared type of the mandatory context parameter.
    pub context: Binding,
    /// Local state declared in the body, names unique, insertion order kept.
    pub locals: Vec<Local>,
    /// The remaining body statements, in execution order.
    pub stmts: Vec<String>,
    /// Whether only a signature was declared, the body living elsewhere.
    pub is_extern: bool,
    /// Whether the task takes part in the response-time analysis pass.
    pub rauk: bool,
}

/// The mathematical view of [`HardwareTask`].
pub struct HardwareTaskV {
    pub args: HardwareTaskArgs,
    pub cfgs: Seq<AttrV>,
    pub attrs: Seq<AttrV>,
    pub context: BindingV,
    pub locals: Seq<LocalV>,
    pub stmts: Seq<Seq<char>>,
    pub is_extern: bool,
    pub rauk: bool,
}

impl View for HardwareTask {
    type V = HardwareTaskV;

    open spec fn view(&self) -> HardwareTaskV {
        HardwareTaskV {
            args: self.args,
            cfgs: self.cfgs.deep_view(),
            attrs: self.attrs.deep_view(),
            context: self.context@,
            locals: self.locals.deep_view(),
            stmts: self.stmts.deep_view(),
            is_extern: self.is_extern,
            rauk: self.rauk,
        }
    }
}

impl DeepView for HardwareTask {
    type V = HardwareTaskV;

    open spec fn deep_view(&self) -> HardwareTaskV {
        self@
    }
}

/// The descriptor a hardware-task parse produces when every check passes:
/// the annotations partitioned, the single parameter as the context binding,
/// and the given locals and statements.
pub open spec fn hw_descriptor(
    args: HardwareTaskArgs,
    sig: DeclSigV,
    locals: Seq<LocalV>,
    stmts: Seq<Seq<char>>,
    is_extern: bool,
) -> HardwareTaskV {
    HardwareTaskV {
        args,
        cfgs: cfgs_of(sig.attrs),
        attrs: sans_rauk_of(non_cfgs_of(sig.attrs)),
        context: sig.params[0]->Typed_0,
        locals,
        stmts,
        is_extern,
        rauk: rauk_in(non_cfgs_of(sig.attrs)),
    }
}

/// What parsing a body-bearing hardware task declaration returns: the
/// reserved-name check comes first, then the signature checks, then body
/// extraction; any signature failure yields the one generic diagnostic
/// anchored at the task name.
pub open spec fn hw_parse_spec(args: HardwareTaskArgs, d: TaskDeclV) -> Result<
    HardwareTaskV,
    DiagV,
> {
    if reserved_name(d.sig.name) {
        Err(DiagV { span: d.sig.name_span, msg: reserved_msg() })
    } else if hw_valid_sig(d.sig) {
        match parse_locals_spec(local_decls(d.stmts)) {
            Ok(ls) => Ok(hw_descriptor(args, d.sig, ls, plain_stmts(d.stmts), false)),
            Err(e) => Err(e),
        }
    } else {
        Err(DiagV { span: d.sig.name_span, msg: hw_sig_msg(d.sig.name) })
    }
}

/// What parsing a signature-only hardware task declaration returns: the same
/// checks, no body extraction, and a descriptor marked external with empty
/// locals and statements.
pub open spec fn hw_parse_foreign_spec(args: HardwareTaskArgs, d: ForeignTaskDeclV) -> Result<
    HardwareTaskV,
    DiagV,
> {
    if reserved_name(d.sig.name) {
        Err(DiagV { span: d.sig.name_span, msg: reserved_msg() })
    } else if hw_valid_sig(d.sig) {
        Ok(hw_descriptor(args, d.sig, Seq::empty(), Seq::empty(), true))
    } else {
        Err(DiagV { span: d.sig.name_span, msg: hw_sig_msg(d.sig.name) })
    }
}

/// The view of a hardware-task parse result.
pub open spec fn hw_res_view(r: Result<HardwareTask, Diag>) -> Result<HardwareTaskV, DiagV> {
    match r {
        Ok(t) => Ok(t@),
        Err(e) => Err(e@),
    }
}

impl HardwareTask {
    /// Parses a body-bearing hardware task declaration into its descriptor,
    /// or returns the single diagnostic for the first failing check.
    pub fn parse(args: HardwareTaskArgs, item: TaskDecl) -> (r: Result<HardwareTask, Diag>)
        ensures
            hw_res_view(r) == hw_parse_spec(args, item@),
    {
        let ghost dv = item@;
        let TaskDecl { sig, stmts } = item;
        let DeclSig { name, name_span, shape, ret, params, attrs } = sig;
        let ghost psv = params.deep_view();
        let valid_signature = check_fn_signature(&shape) && params.len() == 1 && type_is_unit(
            &ret,
        );
        proof {
            assert(dv.sig.params == psv);
            assert(valid_signature == (shape_ok(dv.sig.shape) && psv.len() == 1 && ret_unit(
                dv.sig.ret,
            )));
        }
        if is_reserved_name(&name) {
            return Err(Diag { span: name_span, msg: reserved_msg_exec() });
        }
        if valid_signature {
            match parse_inputs(params) {
                Some((context, rest_result)) => {
                    match rest_result {
                        Ok(rest) => {
                            proof {
                                assert(psv.drop_first().len() == 0);
                                assert(rest.deep_view().len() == 0);
                                assert(hw_valid_sig(dv.sig));
                            }
                            let (locals_raw, body_stmts) = extract_locals(stmts);
                            let (cfgs, others) = extract_cfgs(attrs);
                            let (rauk, others) = extract_rauk(others);
                            match Local::parse(locals_raw) {
                                Ok(locals) => {
                                    return Ok(
                                        HardwareTask {
                                            args,
                                            cfgs,
                                            attrs: others,
                                            context,
                                            locals,
                                            stmts: body_stmts,
                                            is_extern: false,
                                            rauk,
                                        },
                                    );
                                },
                                Err(e) => {
                                    return Err(e);
                                },
                            }
                        },
                        Err(_) => {
                            proof {
                                assert(psv.drop_first() =~= Seq::<crate::ast::ParamV>::empty());
                                assert(all_typed(psv.drop_first()));
                                assert(false);
                            }
                        },
                    }
                },
                None => {
                    proof {
                        assert(!hw_valid_sig(dv.sig));
                    }
                },
            }
        } else {
            proof {
                assert(!hw_valid_sig(dv.sig));
            }
        }
        Err(Diag { span: name_span, msg: hw_sig_msg_exec(&name) })
    }

    /// Parses a signature-only ("external") hardware task declaration into
    /// its descriptor, or returns the single diagnostic for the first
    /// failing check.
    pub fn parse_foreign(args: HardwareTaskArgs, item: ForeignTaskDecl) -> (r: Result<
        HardwareTask,
        Diag,
    >)
        ensures
            hw_res_view(r) == hw_parse_foreign_spec(args, item@),
    {
        let ghost dv = item@;
        let ForeignTaskDecl { sig } = item;
        let DeclSig { name, name_span, shape, ret, params, attrs } = sig;
        let ghost psv = params.deep_view();
        let valid_signature = check_fn_signature(&shape) && params.len() == 1 && type_is_unit(
            &ret,
        );
        proof {
            assert(dv.sig.params == psv);
            assert(valid_signature == (shape_ok(dv.sig.shape) && psv.len() == 1 && ret_unit(
                dv.sig.ret,
            )));
        }
        if is_reserved_name(&name) {
            return Err(Diag { span: name_span, msg: reserved_msg_exec() });
        }
        if valid_signature {
            match parse_inputs(params) {
                Some((context, rest_result)) => {
                    match rest_result {
                        Ok(rest) => {
                            proof {
                                assert(psv.drop_first().len() == 0);
                                assert(rest.deep_view().len() == 0);
                                assert(hw_valid_sig(dv.sig));
                            }
                            let (cfgs, others) = extract_cfgs(attrs);
                            let (rauk, others) = extract_rauk(others);
                            let locals: Vec<Local> = Vec::new();
                            let body_stmts: Vec<String> = Vec::new();
                            proof {
                                assert(locals.deep_view() =~= Seq::<LocalV>::empty());
                                assert(body_stmts.deep_view() =~= Seq::<Seq<char>>::empty());
                            }
                            return Ok(
                                HardwareTask {
                                    args,
                                    cfgs,
                                    attrs: others,
                                    context,
                                    locals,
                                    stmts: body_stmts,
                                    is_extern: true,
                                    rauk,
                                },
                            );
                        },
                        Err(_) => {
                            proof {
                                assert(psv.drop_first() =~= Seq::<crate::ast::ParamV>::empty());
                                assert(all_typed(psv.drop_first()));
                                assert(false);
                            }
                        },
                    }
                },
                None => {
                    proof {
                        assert(!hw_valid_sig(dv.sig));
                    }
                },
            }
        } else {
            proof {
                assert(!hw_valid_sig(dv.sig));
            }
        }
        Err(Diag { span: name_span, msg: hw_sig_msg_exec(&name) })
    }
}

} // verus!
