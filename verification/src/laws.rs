//! The general properties of the two task parsers, stated and proved over
//! the same spec functions that the parsers' own contracts use.

use crate::ast::{AttrV, DiagV, ForeignTaskDeclV, ParamV, TaskDeclV};
use crate::hardware_task::{hw_parse_foreign_spec, hw_parse_spec, HardwareTaskArgs, HardwareTaskV};
use crate::software_task::{sw_parse_foreign_spec, sw_parse_spec, SoftwareTaskArgs, SoftwareTaskV};
use crate::util::{all_typed, cfgs_of, hw_sig_msg, hw_valid_sig, local_decls, non_cfgs_of,
    parse_locals_spec, rauk_in, reserved_msg, reserved_name, sans_rauk_of, sw_sig_msg,
    sw_valid_sig, typed_bindings};
use vstd::multiset::Multiset;
use vstd::prelude::*;

verus! {

// ---------------------------------------------------------------------------
// Classification of typed parameters
// ---------------------------------------------------------------------------

/// When every parameter is an ordinary binding, classification keeps the
/// count and the order: binding `i` is exactly parameter `i`'s binding.
pub proof fn lemma_typed_bindings_all(ps: Seq<ParamV>)
    requires
        all_typed(ps),
    ensures
        typed_bindings(ps).len() == ps.len(),
        forall|i: int| 0 <= i < ps.len() ==> typed_bindings(ps)[i] == ps[i]->Typed_0,
    decreases ps.len(),
{
    if ps.len() > 0 {
        lemma_typed_bindings_all(ps.drop_first());
        assert forall|i: int| 0 <= i < ps.len() implies typed_bindings(ps)[i]
            == ps[i]->Typed_0 by {
            if i > 0 {
                assert(ps.drop_first()[i - 1] == ps[i]);
                assert(typed_bindings(ps)[i] == typed_bindings(ps.drop_first())[i - 1]);
            }
        }
    }
}

// ---------------------------------------------------------------------------
// Acceptance
// ---------------------------------------------------------------------------

/// A hardware declaration with a valid signature, a name that is not
/// reserved and well-formed local state parses successfully, and the
/// descriptor of the body-bearing variant is never marked external. A
/// hardware descriptor carries no data inputs by construction: the type has
/// no such field.
pub proof fn lemma_hardware_accepts(args: HardwareTaskArgs, d: TaskDeclV)
    requires
        !reserved_name(d.sig.name),
        hw_valid_sig(d.sig),
        parse_locals_spec(local_decls(d.stmts)) is Ok,
    ensures
        hw_parse_spec(args, d) is Ok,
        !hw_parse_spec(args, d)->Ok_0.is_extern,
{
}

/// A signature-only hardware declaration with a valid signature and a name
/// that is not reserved parses successfully; the descriptor is marked
/// external and carries empty locals and statements, whatever annotations
/// the declaration bears.
pub proof fn lemma_hardware_foreign_accepts(args: HardwareTaskArgs, d: ForeignTaskDeclV)
    requires
        !reserved_name(d.sig.name),
        hw_valid_sig(d.sig),
    ensures
        hw_parse_foreign_spec(args, d) is Ok,
        hw_parse_foreign_spec(args, d)->Ok_0.is_extern,
        hw_parse_foreign_spec(args, d)->Ok_0.locals.len() == 0,
        hw_parse_foreign_spec(args, d)->Ok_0.stmts.len() == 0,
{
}

/// A software declaration with a valid signature — the context parameter
/// plus any number of typed data parameters, unit return — and well-formed
/// local state parses successfully, and the descriptor's inputs are exactly
/// the parameters after the context, as many and in the same order.
pub proof fn lemma_software_inputs_preserved(args: SoftwareTaskArgs, d: TaskDeclV)
    requires
        sw_valid_sig(d.sig),
        parse_locals_spec(local_decls(d.stmts)) is Ok,
    ensures
        sw_parse_spec(args, d) is Ok,
        sw_parse_spec(args, d)->Ok_0.inputs.len() == d.sig.params.len() - 1,
        forall|i: int| 0 <= i < d.sig.params.len() - 1 ==> sw_parse_spec(args, d)->Ok_0.inputs[i]
            == d.sig.params[i + 1]->Typed_0,
{
    assert(all_typed(d.sig.params.drop_first()));
    lemma_typed_bindings_all(d.sig.params.drop_first());
    assert forall|i: int| 0 <= i < d.sig.params.len() - 1 implies sw_parse_spec(
        args,
        d,
    )->Ok_0.inputs[i] == d.sig.params[i + 1]->Typed_0 by {
        assert(d.sig.params.drop_first()[i] == d.sig.params[i + 1]);
    }
}

/// The same, for a signature-only software declaration: external, empty
/// locals and statements, inputs preserved.
pub proof fn lemma_software_foreign_accepts(args: SoftwareTaskArgs, d: ForeignTaskDeclV)
    requires
        sw_valid_sig(d.sig),
    ensures
        sw_parse_foreign_spec(args, d) is Ok,
        sw_parse_foreign_spec(args, d)->Ok_0.is_extern,
        sw_parse_foreign_spec(args, d)->Ok_0.locals.len() == 0,
        sw_parse_foreign_spec(args, d)->Ok_0.stmts.len() == 0,
{
}

// ---------------------------------------------------------------------------
// Rejection
// ---------------------------------------------------------------------------

/// A hardware declaration named `init` or `idle` is rejected with the
/// reserved-name diagnostic anchored at the name, whatever its signature
/// looks like: the name check comes before the signature checks, in both
/// the body-bearing and the signature-only variant.
pub proof fn lemma_hardware_reserved_name_rejected(
    args: HardwareTaskArgs,
    d: TaskDeclV,
    fd: ForeignTaskDeclV,
)
    ensures
        reserved_name(d.sig.name) ==> hw_parse_spec(args, d) == Err::<HardwareTaskV, DiagV>(
            DiagV { span: d.sig.name_span, msg: reserved_msg() },
        ),
        reserved_name(fd.sig.name) ==> hw_parse_foreign_spec(args, fd) == Err::<
            HardwareTaskV,
            DiagV,
        >(DiagV { span: fd.sig.name_span, msg: reserved_msg() }),
{
}

/// A declaration with a non-unit return type never parses: the hardware
/// parser rejects it with its signature-mismatch diagnostic unless the name
/// is reserved — in which case the reserved-name diagnostic wins, the name
/// check coming first — and the software parser always rejects it with its
/// own signature-mismatch diagnostic. The two signature-mismatch messages
/// are never the reserved-name message.
pub proof fn lemma_non_unit_return_rejected(
    hargs: HardwareTaskArgs,
    sargs: SoftwareTaskArgs,
    d: TaskDeclV,
)
    requires
        d.sig.ret is Other,
    ensures
        !reserved_name(d.sig.name) ==> hw_parse_spec(hargs, d) == Err::<HardwareTaskV, DiagV>(
            DiagV { span: d.sig.name_span, msg: hw_sig_msg(d.sig.name) },
        ),
        reserved_name(d.sig.name) ==> hw_parse_spec(hargs, d) == Err::<HardwareTaskV, DiagV>(
            DiagV { span: d.sig.name_span, msg: reserved_msg() },
        ),
        sw_parse_spec(sargs, d) == Err::<SoftwareTaskV, DiagV>(
            DiagV { span: d.sig.name_span, msg: sw_sig_msg(d.sig.name) },
        ),
        hw_sig_msg(d.sig.name) != reserved_msg(),
        sw_sig_msg(d.sig.name) != reserved_msg(),
{
    reveal_strlit("tasks cannot be named `init` or `idle`");
    reveal_strlit("this ");
    reveal_strlit("task handler must have type signature `fn(");
    reveal_strlit("::Context)`");
    reveal_strlit("::Context, ..)`");
    assert(hw_sig_msg(d.sig.name).len() != reserved_msg().len());
    assert(sw_sig_msg(d.sig.name).len() != reserved_msg().len());
}

// ---------------------------------------------------------------------------
// Annotation partitioning
// ---------------------------------------------------------------------------

/// How many scheduling-analysis annotations a list carries.
pub open spec fn rauk_count(attrs: Seq<AttrV>) -> nat
    decreases attrs.len(),
{
    if attrs.len() == 0 {
        0
    } else {
        (if attrs.first() is Rauk {
            1nat
        } else {
            0nat
        }) + rauk_count(attrs.drop_first())
    }
}

/// The scheduling-analysis annotation as a singleton, when present.
pub open spec fn rauk_singleton(attrs: Seq<AttrV>) -> Multiset<AttrV> {
    if rauk_in(attrs) {
        Multiset::empty().insert(AttrV::Rauk)
    } else {
        Multiset::empty()
    }
}

/// A list carries no scheduling-analysis annotation exactly when its count
/// of them is zero.
pub proof fn lemma_rauk_count_zero(attrs: Seq<AttrV>)
    ensures
        rauk_count(attrs) == 0 <==> !rauk_in(attrs),
    decreases attrs.len(),
{
    if attrs.len() > 0 {
        lemma_rauk_count_zero(attrs.drop_first());
    }
}

/// Removing the conditional-compilation annotations does not affect whether
/// a scheduling-analysis annotation is present: the descriptor's flag speaks
/// for the whole original annotation list.
pub proof fn lemma_rauk_unaffected_by_cfgs(attrs: Seq<AttrV>)
    ensures
        rauk_in(non_cfgs_of(attrs)) == rauk_in(attrs),
    decreases attrs.len(),
{
    if attrs.len() > 0 {
        lemma_rauk_unaffected_by_cfgs(attrs.drop_first());
        if !(attrs.first() is Cfg) {
            assert(non_cfgs_of(attrs) == seq![attrs.first()] + non_cfgs_of(attrs.drop_first()));
            assert(non_cfgs_of(attrs).drop_first() =~= non_cfgs_of(attrs.drop_first()));
        }
    }
}

/// Prepending one element to a sequence inserts it into the multiset.
proof fn lemma_cons_to_multiset<A>(a: A, s: Seq<A>)
    ensures
        (seq![a] + s).to_multiset() == s.to_multiset().insert(a),
{
    broadcast use vstd::seq_lib::group_to_multiset_ensures;

    assert(seq![a] + s =~= s.insert(0, a));
    assert(s.insert(0, a).to_multiset() == s.to_multiset().insert(a));
}

/// Every conditional-compilation annotation the partition returns is one,
/// and the ordinary remainder holds neither conditional-compilation nor
/// scheduling-analysis annotations: the three buckets are disjoint by kind.
pub proof fn lemma_partition_buckets(attrs: Seq<AttrV>)
    ensures
        forall|i: int| 0 <= i < cfgs_of(attrs).len() ==> cfgs_of(attrs)[i] is Cfg,
        forall|i: int|
            0 <= i < sans_rauk_of(non_cfgs_of(attrs)).len() ==> !(sans_rauk_of(non_cfgs_of(attrs))[i]
                is Cfg) && !(sans_rauk_of(non_cfgs_of(attrs))[i] is Rauk),
    decreases attrs.len(),
{
    if attrs.len() == 0 {
    } else {
        lemma_partition_buckets(attrs.drop_first());
        let a = attrs.first();
        if a is Cfg {
            assert(cfgs_of(attrs) == seq![a] + cfgs_of(attrs.drop_first()));
            assert(sans_rauk_of(non_cfgs_of(attrs)) == sans_rauk_of(
                non_cfgs_of(attrs.drop_first()),
            ));
            assert forall|i: int| 0 <= i < cfgs_of(attrs).len() implies cfgs_of(attrs)[i]
                is Cfg by {
                if i > 0 {
                    assert(cfgs_of(attrs)[i] == cfgs_of(attrs.drop_first())[i - 1]);
                }
            }
        } else {
            assert(cfgs_of(attrs) == cfgs_of(attrs.drop_first()));
            assert(non_cfgs_of(attrs) == seq![a] + non_cfgs_of(attrs.drop_first()));
            assert(non_cfgs_of(attrs).drop_first() =~= non_cfgs_of(attrs.drop_first()));
            if a is Rauk {
                assert(sans_rauk_of(non_cfgs_of(attrs)) == sans_rauk_of(
                    non_cfgs_of(attrs.drop_first()),
                ));
            } else {
                assert(sans_rauk_of(non_cfgs_of(attrs)) == seq![a] + sans_rauk_of(
                    non_cfgs_of(attrs.drop_first()),
                ));
                assert forall|i: int|
                    0 <= i < sans_rauk_of(non_cfgs_of(attrs)).len() implies !(sans_rauk_of(
                    non_cfgs_of(attrs),
                )[i] is Cfg) && !(sans_rauk_of(non_cfgs_of(attrs))[i] is Rauk) by {
                    if i > 0 {
                        assert(sans_rauk_of(non_cfgs_of(attrs))[i] == sans_rauk_of(
                            non_cfgs_of(attrs.drop_first()),
                        )[i - 1]);
                    }
                }
            }
        }
    }
}

/// Partitioning annotations is lossless: the conditional-compilation
/// annotations, the scheduling-analysis annotation as a singleton when
/// present, and the ordinary remainder together form exactly the multiset of
/// the original annotation list — nothing is duplicated or dropped. The one
/// hypothesis is that the scheduling-analysis annotation occurs at most
/// once: it is reported as a present/absent flag, so a list bearing it twice
/// cannot round-trip.
pub proof fn lemma_partition_round_trip(attrs: Seq<AttrV>)
    requires
        rauk_count(attrs) <= 1,
    ensures
        cfgs_of(attrs).to_multiset().add(rauk_singleton(attrs)).add(
            sans_rauk_of(non_cfgs_of(attrs)).to_multiset(),
        ) =~= attrs.to_multiset(),
    decreases attrs.len(),
{
    broadcast use vstd::seq_lib::group_to_multiset_ensures;

    if attrs.len() == 0 {
        assert(cfgs_of(attrs).to_multiset() =~= Multiset::<AttrV>::empty());
        assert(attrs.to_multiset() =~= Multiset::<AttrV>::empty());
    } else {
        let a = attrs.first();
        let rest = attrs.drop_first();
        lemma_partition_round_trip(rest);
        lemma_cons_to_multiset(a, rest);
        assert(attrs =~= seq![a] + rest);
        assert(attrs.to_multiset() == rest.to_multiset().insert(a));
        if a is Cfg {
            assert(cfgs_of(attrs) == seq![a] + cfgs_of(rest));
            lemma_cons_to_multiset(a, cfgs_of(rest));
            assert(non_cfgs_of(attrs) == non_cfgs_of(rest));
        } else if a is Rauk {
            lemma_rauk_count_zero(rest);
            assert(rauk_count(attrs) == 1 + rauk_count(rest));
            assert(!rauk_in(rest));
            assert(cfgs_of(attrs) == cfgs_of(rest));
            assert(non_cfgs_of(attrs) == seq![a] + non_cfgs_of(rest));
            assert(non_cfgs_of(attrs).drop_first() =~= non_cfgs_of(rest));
            assert(sans_rauk_of(non_cfgs_of(attrs)) == sans_rauk_of(non_cfgs_of(rest)));
            lemma_rauk_unaffected_by_cfgs(rest);
        } else {
            assert(cfgs_of(attrs) == cfgs_of(rest));
            assert(non_cfgs_of(attrs) == seq![a] + non_cfgs_of(rest));
            assert(non_cfgs_of(attrs).drop_first() =~= non_cfgs_of(rest));
            assert(sans_rauk_of(non_cfgs_of(attrs)) == seq![a] + sans_rauk_of(non_cfgs_of(rest)));
            lemma_cons_to_multiset(a, sans_rauk_of(non_cfgs_of(rest)));
        }
    }
}

/// The round trip, read off a parsed hardware descriptor: its
/// conditional-compilation annotations, its scheduling-analysis flag as a
/// singleton when set, and its ordinary annotations together are exactly
/// the declaration's annotation multiset.
pub proof fn lemma_descriptor_annotations_round_trip(args: HardwareTaskArgs, d: TaskDeclV)
    requires
        rauk_count(d.sig.attrs) <= 1,
        hw_parse_spec(args, d) is Ok,
    ensures
        ({
            let t = hw_parse_spec(args, d)->Ok_0;
            t.cfgs.to_multiset().add(
                if t.rauk {
                    Multiset::empty().insert(AttrV::Rauk)
                } else {
                    Multiset::empty()
                },
            ).add(t.attrs.to_multiset()) =~= d.sig.attrs.to_multiset()
        }),
{
    lemma_rauk_unaffected_by_cfgs(d.sig.attrs);
    lemma_partition_round_trip(d.sig.attrs);
}

// ---------------------------------------------------------------------------
// Atomicity and determinism
// ---------------------------------------------------------------------------

/// A descriptor is well formed when being external forces empty locals and
/// empty statements: no partially-filled descriptor exists.
pub open spec fn hw_wf(t: HardwareTaskV) -> bool {
    t.is_extern ==> t.locals.len() == 0 && t.stmts.len() == 0
}

/// The same, for a software descriptor.
pub open spec fn sw_wf(t: SoftwareTaskV) -> bool {
    t.is_extern ==> t.locals.len() == 0 && t.stmts.len() == 0
}

/// Every descriptor either parser constructs is well formed: a descriptor
/// marked external never carries locals or statements, and a body-bearing
/// parse is never marked external.
pub proof fn lemma_descriptor_atomic(
    hargs: HardwareTaskArgs,
    sargs: SoftwareTaskArgs,
    d: TaskDeclV,
    fd: ForeignTaskDeclV,
)
    ensures
        hw_parse_spec(hargs, d) is Ok ==> !hw_parse_spec(hargs, d)->Ok_0.is_extern,
        hw_parse_foreign_spec(hargs, fd) is Ok ==> hw_wf(hw_parse_foreign_spec(hargs, fd)->Ok_0),
        sw_parse_spec(sargs, d) is Ok ==> !sw_parse_spec(sargs, d)->Ok_0.is_extern,
        sw_parse_foreign_spec(sargs, fd) is Ok ==> sw_wf(sw_parse_foreign_spec(sargs, fd)->Ok_0),
{
}

/// Parsing is deterministic: the result is a function of the declaration
/// and the configuration arguments alone, so parsing one declaration twice
/// yields descriptors equal field for field. Together with the parsers'
/// contracts, which pin each executable result's view to these spec
/// functions, two calls on equal inputs agree.
pub proof fn lemma_parse_deterministic(
    hargs: HardwareTaskArgs,
    sargs: SoftwareTaskArgs,
    d1: TaskDeclV,
    d2: TaskDeclV,
)
    requires
        d1 == d2,
    ensures
        hw_parse_spec(hargs, d1) == hw_parse_spec(hargs, d2),
        sw_parse_spec(sargs, d1) == sw_parse_spec(sargs, d2),
{
}

} // verus!
