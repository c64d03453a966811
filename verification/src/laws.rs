//! Laws the rule obeys on every input, each proved once and for all from the
//! contracts in `detect` and `rule`.

use vstd::prelude::*;

use crate::detect::body_has_markup;
use crate::detect::component_shape;
use crate::detect::is_destructuring;
use crate::detect::pattern_fields;
use crate::detect::verdict_of;
use crate::model::FunctionNode;
use crate::model::ParentShape;
use crate::rule::finding_of;
use crate::rule::findings_of;
use crate::rule::signals_of;
use crate::rule::FindingModel;

verus! {

/// A finding exists for a candidate exactly when every gate holds at once:
/// the function has the component shape (one parameter, markup in the body),
/// that parameter is an object pattern destructuring at least one field, and
/// the function is not a render prop (its parent is not a call argument). In
/// particular, no finding is ever produced for an identifier-only parameter.
pub proof fn lemma_finding_conditions(f: FunctionNode)
    ensures
        findings_of(f).len() != 0 <==> {
            &&& component_shape(f)
            &&& is_destructuring(f.params@[0])
            &&& pattern_fields(f.params@[0]).len() > 0
            &&& !(f.parent is CallArgument)
        },
{
}

/// A single-parameter function whose parameter is a plain identifier yields
/// zero findings, whether or not its body contains markup.
pub proof fn lemma_plain_parameter_no_finding(f: FunctionNode)
    requires
        f.params@.len() == 1,
        f.params@[0] is Identifier,
    ensures
        findings_of(f).len() == 0,
{
}

/// A function whose parameter list does not have exactly one parameter yields
/// zero findings: a second parameter conventionally carries non-reactive
/// values, so such functions are scoped out.
pub proof fn lemma_arity_exemption(f: FunctionNode)
    requires
        f.params@.len() != 1,
    ensures
        findings_of(f).len() == 0,
{
}

/// A function whose body contains no markup expression yields zero findings:
/// it is not a component, whatever its parameter looks like.
pub proof fn lemma_no_markup_no_finding(f: FunctionNode)
    requires
        !body_has_markup(f.body@),
    ensures
        findings_of(f).len() == 0,
{
}

/// A function literal standing in call-argument position is a render prop:
/// its parameter carries per-invocation values, so destructuring it is
/// permitted and yields zero findings.
pub proof fn lemma_render_prop_exemption(f: FunctionNode)
    requires
        f.parent is CallArgument,
    ensures
        findings_of(f).len() == 0,
{
}

/// On a well-formed candidate the rule reports one finding per destructured
/// field when it matches, each finding spanning its field's name token, and
/// the findings stand in strictly ascending source order — the declaration
/// order of the fields.
pub proof fn lemma_findings_ordered(f: FunctionNode)
    requires
        f.wf(),
    ensures
        findings_of(f).len() == signals_of(f).len(),
        verdict_of(f) is Violation ==> findings_of(f).len() == pattern_fields(
            f.params@[0],
        ).len(),
        forall|i: int|
            0 <= i < findings_of(f).len() ==> (#[trigger] findings_of(f)[i]).range == signals_of(
                f,
            )[i].range,
        forall|i: int, j: int|
            0 <= i < j < findings_of(f).len() ==> findings_of(f)[i].range.start < findings_of(
                f,
            )[j].range.start,
{
    if verdict_of(f) is Violation {
        assert(f.params@[0].wf());
    }
    assert forall|i: int| 0 <= i < findings_of(f).len() implies (#[trigger] findings_of(f)[i]).range
        == signals_of(f)[i].range by {
        assert(findings_of(f)[i] == finding_of(signals_of(f)[i]));
    }
}

/// Re-running the rule on an unchanged tree yields a byte-identical finding
/// set: every evaluation's findings have the model `findings_of(f)`, a pure
/// function of the candidate, so any two evaluations agree.
pub proof fn lemma_rule_idempotent(
    f: FunctionNode,
    first: Seq<FindingModel>,
    second: Seq<FindingModel>,
)
    requires
        first == findings_of(f),
        second == findings_of(f),
    ensures
        first == second,
{
}

} // verus!
