//! The software-task parser: validates and extracts a descriptor for a task
//! spawned explicitly with data, which takes the framework-injected context
//! plus zero or more typed data parameters and returns no value.
//!
//! Unlike a hardware task, a software task may take any name — the reserved
//! names only matter to the hardware parser.

use crate::ast::{Attr, AttrV, Binding, BindingV, DeclSig, DeclSigV, Diag, DiagV, ForeignTaskDecl,
    ForeignTaskDeclV, Local, LocalV, TaskDecl, TaskDeclV};
use crate::util::{all_typed, check_fn_signature, cfgs_of, extract_cfgs, extract_locals,
    extract_rauk, local_decls, non_cfgs_of, parse_inputs, parse_locals_spec, plain_stmts, rauk_in,
    ret_unit, sans_rauk_of, shape_ok, sw_sig_msg, sw_sig_msg_exec, sw_valid_sig, type_is_unit,
    typed_bindings};
use vstd::prelude::*;

verus! {

/// The declaration-site configuration arguments of a software task, parsed
/// by the outer declaration-set parser and carried through unchanged.
#[derive(Clone, Copy, PartialEq, Eq, Structural, Debug)]
pub struct SoftwareTaskArgs {
    pub priority: u8,
    pub capacity: u8,
}

/// The validated descriptor of one software task declaration.
#[derive(Debug, PartialEq)]
pub struct SoftwareTask {
    /// Declaration-site configuration arguments, carried through unchanged.
    pub args: SoftwareTaskArgs,
    /// Conditional-compilation annotations, verbatim and in original order.
    pub cfgs: Vec<Attr>,
    /// Remaining ordinary annotations, passed through unchanged.
    pub attrs: Vec<Attr>,
    /// The name and declared type of the mandatory context parameter.
    pub context: Binding,
    /// The data parameters after the context, in call-site argument order.
    pub inputs: Vec<Binding>,
    /// Local state declared in the body, names unique, insertion order kept.
    pub locals: Vec<Local>,
    /// The remaining body statements, in execution order.
    pub stmts: Vec<String>,
    /// Whether only a signature was declared, the body living elsewhere.
    pub is_extern: bool,
    /// Whether the task takes part in the response-time analysis pass.
    pub rauk: bool,
}

/// The mathematical view of [`SoftwareTask`].
pub struct SoftwareTaskV {
    pub args: SoftwareTaskArgs,
    pub cfgs: Seq<AttrV>,
    pub attrs: Seq<AttrV>,
    pub context: BindingV,
    pub inputs: Seq<BindingV>,
    pub locals: Seq<LocalV>,
    pub stmts: Seq<Seq<char>>,
    pub is_extern: bool,
    pub rauk: bool,
}

impl View for SoftwareTask {
    type V = SoftwareTaskV;

    open spec fn view(&self) -> SoftwareTaskV {
        SoftwareTaskV {
            args: self.args,
            cfgs: self.cfgs.deep_view(),
            attrs: self.attrs.deep_view(),
            context: self.context@,
            inputs: self.inputs.deep_view(),
            locals: self.locals.deep_view(),
            stmts: self.stmts.deep_view(),
            is_extern: self.is_extern,
            rauk: self.rauk,
        }
    }
}

impl DeepView for SoftwareTask {
    type V = SoftwareTaskV;

    open spec fn deep_view(&self) -> SoftwareTaskV {
        self@
    }
}

/// The descriptor a software-task parse produces when every check passes:
/// the annotations partitioned, the first parameter as the context binding,
/// the remaining parameters as inputs, and the given locals and statements.
pub open spec fn sw_descriptor(
    args: SoftwareTaskArgs,
    sig: DeclSigV,
    locals: Seq<LocalV>,
    stmts: Seq<Seq<char>>,
    is_extern: bool,
) -> SoftwareTaskV {
    SoftwareTaskV {
        args,
        cfgs: cfgs_of(sig.attrs),
        attrs: sans_rauk_of(non_cfgs_of(sig.attrs)),
        context: sig.params[0]->Typed_0,
        inputs: typed_bindings(sig.params.drop_first()),
        locals,
        stmts,
        is_extern,
        rauk: rauk_in(non_cfgs_of(sig.attrs)),
    }
}

/// What parsing a body-bearing software task declaration returns: the
/// signature checks, then body extraction; any signature failure yields the
/// one generic diagnostic anchored at the task name. No name is reserved.
pub open spec fn sw_parse_spec(args: SoftwareTaskArgs, d: TaskDeclV) -> Result<
    SoftwareTaskV,
    DiagV,
> {
    if sw_valid_sig(d.sig) {
        match parse_locals_spec(local_decls(d.stmts)) {
            Ok(ls) => Ok(sw_descriptor(args, d.sig, ls, plain_stmts(d.stmts), false)),
            Err(e) => Err(e),
        }
    } else {
        Err(DiagV { span: d.sig.name_span, msg: sw_sig_msg(d.sig.name) })
    }
}

/// What parsing a signature-only software task declaration returns: the same
/// checks, no body extraction, and a descriptor marked external with empty
/// locals and statements.
pub open spec fn sw_parse_foreign_spec(args: SoftwareTaskArgs, d: ForeignTaskDeclV) -> Result<
    SoftwareTaskV,
    DiagV,
> {
    if sw_valid_sig(d.sig) {
        Ok(sw_descriptor(args, d.sig, Seq::empty(), Seq::empty(), true))
    } else {
        Err(DiagV { span: d.sig.name_span, msg: sw_sig_msg(d.sig.name) })
    }
}

/// The view of a software-task parse result.
pub open spec fn sw_res_view(r: Result<SoftwareTask, Diag>) -> Result<SoftwareTaskV, DiagV> {
    match r {
        Ok(t) => Ok(t@),
        Err(e) => Err(e@),
    }
}

impl SoftwareTask {
    /// Parses a body-bearing software task declaration into its descriptor,
    /// or returns the single diagnostic for the first failing check.
    pub fn parse(args: SoftwareTaskArgs, item: TaskDecl) -> (r: Result<SoftwareTask, Diag>)
        ensures
            sw_res_view(r) == sw_parse_spec(args, item@),
    {
        let ghost dv = item@;
        let TaskDecl { sig, stmts } = item;
        let DeclSig { name, name_span, shape, ret, params, attrs } = sig;
        let ghost psv = params.deep_view();
        let valid_signature = check_fn_signature(&shape) && type_is_unit(&ret);
        proof {
            assert(dv.sig.params == psv);
            assert(valid_signature == (shape_ok(dv.sig.shape) && ret_unit(dv.sig.ret)));
        }
        if valid_signature {
            match parse_inputs(params) {
                Some((context, rest_result)) => {
                    match rest_result {
                        Ok(inputs) => {
                            proof {
                                assert(sw_valid_sig(dv.sig));
                            }
                            let (locals_raw, body_stmts) = extract_locals(stmts);
                            let (cfgs, others) = extract_cfgs(attrs);
                            let (rauk, others) = extract_rauk(others);
                            match Local::parse(locals_raw) {
                                Ok(locals) => {
                                    return Ok(
                                        SoftwareTask {
                                            args,
                                            cfgs,
                                            attrs: others,
                                            context,
                                            inputs,
                                            locals,
                                            stmts: body_stmts,
                                            is_extern: false,
                                            rauk,
                                        },
                                    );
                                },
                                Err(e) => {
                                    return Err(e);
                                },
                            }
                        },
                        Err(_) => {
                            proof {
                                assert(!sw_valid_sig(dv.sig));
                            }
                        },
                    }
                },
                None => {
                    proof {
                        assert(!sw_valid_sig(dv.sig));
                    }
                },
            }
        } else {
            proof {
                assert(!sw_valid_sig(dv.sig));
            }
        }
        Err(Diag { span: name_span, msg: sw_sig_msg_exec(&name) })
    }

    /// Parses a signature-only ("external") software task declaration into
    /// its descriptor, or returns the single diagnostic for the first
    /// failing check.
    pub fn parse_foreign(args: SoftwareTaskArgs, item: ForeignTaskDecl) -> (r: Result<
        SoftwareTask,
        Diag,
    >)
        ensures
            sw_res_view(r) == sw_parse_foreign_spec(args, item@),
    {
        let ghost dv = item@;
        let ForeignTaskDecl { sig } = item;
        let DeclSig { name, name_span, shape, ret, params, attrs } = sig;
        let ghost psv = params.deep_view();
        let valid_signature = check_fn_signature(&shape) && type_is_unit(&ret);
        proof {
            assert(dv.sig.params == psv);
            assert(valid_signature == (shape_ok(dv.sig.shape) && ret_unit(dv.sig.ret)));
        }
        if valid_signature {
            match parse_inputs(params) {
                Some((context, rest_result)) => {
                    match rest_result {
                        Ok(inputs) => {
                            proof {
                                assert(sw_valid_sig(dv.sig));
                            }
                            let (cfgs, others) = extract_cfgs(attrs);
                            let (rauk, others) = extract_rauk(others);
                            let locals: Vec<Local> = Vec::new();
                            let body_stmts: Vec<String> = Vec::new();
                            proof {
                                assert(locals.deep_view() =~= Seq::<LocalV>::empty());
                                assert(body_stmts.deep_view() =~= Seq::<Seq<char>>::empty());
                            }
                            return Ok(
                                SoftwareTask {
                                    args,
                                    cfgs,
                                    attrs: others,
                                    context,
                                    inputs,
                                    locals,
                                    stmts: body_stmts,
                                    is_extern: true,
                                    rauk,
                                },
                            );
                        },
                        Err(_) => {
                            proof {
                                assert(!sw_valid_sig(dv.sig));
                            }
                        },
                    }
                },
                None => {
                    proof {
                        assert(!sw_valid_sig(dv.sig));
                    }
                },
            }
        } else {
            proof {
                assert(!sw_valid_sig(dv.sig));
            }
        }
        Err(Diag { span: name_span, msg: sw_sig_msg_exec(&name) })
    }
}

} // verus!
