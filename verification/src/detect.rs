//! The three checks the rule is built from: the binding-pattern classifier,
//! the component-shape detector (one parameter, markup in the body), and the
//! render-prop exception. Each executable check is proved equal to a spec
//! function, so the adapter's contract can be stated purely over the model.

use vstd::prelude::*;

use crate::model::BindingPattern;
use crate::model::BodyNode;
use crate::model::DestructuredField;
use crate::model::ExceptionVerdict;
use crate::model::FunctionNode;
use crate::model::ParentShape;

verus! {

/// Result of classifying one parameter binding. Array patterns and malformed
/// (error-recovery) nodes classify as `Identifier`: the rule addresses only
/// object/property access, and must never fail on a node the parser could not
/// shape.
pub enum PatternClass<'a> {
    Identifier,
    Destructuring(&'a Vec<DestructuredField>),
}

/// The binding is an object-destructuring pattern.
pub open spec fn is_destructuring(b: BindingPattern) -> bool {
    b is ObjectPattern
}

/// The fields an object pattern extracts, in left-to-right source order;
/// empty for every other binding shape.
pub open spec fn pattern_fields(b: BindingPattern) -> Seq<DestructuredField> {
    match b {
        BindingPattern::ObjectPattern { fields, .. } => fields@,
        _ => Seq::empty(),
    }
}

/// Classify one parameter binding. Every binding classifies into exactly one
/// of the two shapes; there is no failure condition. An object pattern with
/// zero fields still classifies as `Destructuring`: it is syntactically a
/// pattern, even though it yields nothing to flag.
pub fn classify<'a>(binding: &'a BindingPattern) -> (c: PatternClass<'a>)
    ensures
        c is Destructuring <==> is_destructuring(*binding),
        c matches PatternClass::Destructuring(fields) ==> fields@ == pattern_fields(*binding),
{
    match binding {
        BindingPattern::ObjectPattern { fields, .. } => PatternClass::Destructuring(fields),
        _ => PatternClass::Identifier,
    }
}

/// A markup expression occurs in this node, not counting the bodies of nested
/// functions (those are evaluated independently when the traversal visits
/// them).
pub open spec fn node_has_markup(n: BodyNode) -> bool
    decreases n,
{
    match n {
        BodyNode::Markup => true,
        BodyNode::NestedFunction(_) => false,
        BodyNode::Plain(children) => body_has_markup(children@),
    }
}

/// A markup expression occurs somewhere in the body: in its first node, or in
/// the rest.
pub open spec fn body_has_markup(body: Seq<BodyNode>) -> bool
    decreases body,
{
    if body.len() == 0 {
        false
    } else {
        node_has_markup(body[0]) || body_has_markup(body.subrange(1, body.len() as int))
    }
}

/// `body_has_markup` holds exactly when some node of the body contains
/// markup.
pub proof fn lemma_body_has_markup_iff(body: Seq<BodyNode>)
    ensures
        body_has_markup(body) <==> exists|i: int|
            0 <= i < body.len() && #[trigger] node_has_markup(body[i]),
    decreases body,
{
    if body.len() != 0 {
        let rest = body.subrange(1, body.len() as int);
        lemma_body_has_markup_iff(rest);
        if body_has_markup(body) && !node_has_markup(body[0]) {
            let k = choose|i: int| 0 <= i < rest.len() && #[trigger] node_has_markup(rest[i]);
            assert(node_has_markup(body[k + 1]));
        }
        if exists|i: int| 0 <= i < body.len() && #[trigger] node_has_markup(body[i]) {
            let k = choose|i: int| 0 <= i < body.len() && #[trigger] node_has_markup(body[i]);
            if k > 0 {
                assert(node_has_markup(rest[k - 1]));
            }
        }
    }
}

/// Depth-first scan for a markup expression, short-circuiting on the first
/// match and skipping nested function bodies. A fresh scan is performed per
/// function; the walk is pure and deterministic for a given tree.
pub fn contains_markup(nodes: &Vec<BodyNode>) -> (r: bool)
    ensures
        r == body_has_markup(nodes@),
    decreases nodes@,
{
    let mut i: usize = 0;
    proof {
        assert(nodes@.subrange(0, nodes@.len() as int) =~= nodes@);
    }
    while i < nodes.len()
        invariant
            i <= nodes@.len(),
            body_has_markup(nodes@) == body_has_markup(nodes@.subrange(i as int, nodes@.len() as int)),
        decreases nodes@.len() - i,
    {
        let ghost pending = nodes@.subrange(i as int, nodes@.len() as int);
        proof {
            assert(pending[0] == nodes@[i as int]);
            assert(pending.subrange(1, pending.len() as int)
                =~= nodes@.subrange(i as int + 1, nodes@.len() as int));
        }
        if node_contains_markup(&nodes[i]) {
            return true;
        }
        i = i + 1;
    }
    proof {
        assert(nodes@.subrange(nodes@.len() as int, nodes@.len() as int) =~= Seq::<BodyNode>::empty());
    }
    false
}

fn node_contains_markup(n: &BodyNode) -> (r: bool)
    ensures
        r == node_has_markup(*n),
    decreases *n,
{
    match n {
        BodyNode::Markup => true,
        BodyNode::NestedFunction(_) => false,
        BodyNode::Plain(children) => contains_markup(children),
    }
}

/// The function is a plausible UI component: exactly one parameter, and at
/// least one markup expression in its body.
pub open spec fn component_shape(f: FunctionNode) -> bool {
    f.params@.len() == 1 && body_has_markup(f.body@)
}

/// A pure, side-effect-free test of the component shape.
pub fn is_component_shape(f: &FunctionNode) -> (r: bool)
    ensures
        r == component_shape(*f),
{
    if f.params.len() != 1 {
        return false;
    }
    contains_markup(&f.body)
}

/// The render-prop check applies only when the function has the component
/// shape and its one parameter destructures at least one field.
pub open spec fn applicable(f: FunctionNode) -> bool {
    &&& component_shape(f)
    &&& is_destructuring(f.params@[0])
    &&& pattern_fields(f.params@[0]).len() > 0
}

/// What the parent shape alone decides once the check applies: a function
/// literal standing in call-argument position is a render prop and exempt;
/// every other parent shape — a variable initializer, an exported or named
/// declaration, an exhausted ancestor walk, or anything else — is a
/// violation. The default is deliberately conservative: a false positive at a
/// declaration boundary is preferred to a false negative.
pub open spec fn parent_verdict(p: ParentShape) -> ExceptionVerdict {
    match p {
        ParentShape::CallArgument => ExceptionVerdict::Exempt,
        _ => ExceptionVerdict::Violation,
    }
}

/// The full tri-state verdict for one candidate function.
pub open spec fn verdict_of(f: FunctionNode) -> ExceptionVerdict {
    if applicable(f) {
        parent_verdict(f.parent)
    } else {
        ExceptionVerdict::NotApplicable
    }
}

/// Compute the render-prop exception verdict. The parent shape is consulted
/// only after the cheaper applicability checks, mirroring the rule that the
/// ancestor walk is skipped whenever the candidate cannot match anyway.
pub fn exception_verdict(f: &FunctionNode) -> (v: ExceptionVerdict)
    ensures
        v == verdict_of(*f),
{
    if f.params.len() != 1 {
        return ExceptionVerdict::NotApplicable;
    }
    let destructures_fields = match &f.params[0] {
        BindingPattern::ObjectPattern { fields, .. } => fields.len() > 0,
        _ => false,
    };
    if !destructures_fields {
        return ExceptionVerdict::NotApplicable;
    }
    if !contains_markup(&f.body) {
        return ExceptionVerdict::NotApplicable;
    }
    match f.parent {
        ParentShape::CallArgument => ExceptionVerdict::Exempt,
        _ => ExceptionVerdict::Violation,
    }
}

} // verus!
