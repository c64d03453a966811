//! The data the rule reads from a candidate node: the parameter bindings of
//! the enclosing function, the shape of its body, and the syntactic shape of
//! its parent. A host analyzer walks its own syntax tree and hands the rule
//! one `FunctionNode` per candidate; everything the rule decides is a pure
//! function of that value.

use vstd::prelude::*;

verus! {

/// A half-open span of source text, in byte offsets.
#[derive(Clone, Copy, Debug, PartialEq, Eq, Structural)]
pub struct TextRange {
    pub start: u32,
    pub end: u32,
}

impl TextRange {
    /// A range is well formed when it does not end before it starts.
    pub open spec fn wf(self) -> bool {
        self.start <= self.end
    }

    pub fn new(start: u32, end: u32) -> (r: TextRange)
        requires
            start <= end,
        ensures
            r.wf(),
            r.start == start,
            r.end == end,
    {
        TextRange { start, end }
    }
}

/// One name extracted by an object-destructuring pattern.
///
/// `name` is the property name as written in the pattern; `local` is the
/// binding it introduces (these differ when the pattern renames, as in
/// `{page: p}`). `range` spans the property-name token only, so a diagnostic
/// can highlight the minimal offending token.
#[derive(Debug)]
pub struct DestructuredField {
    pub name: String,
    pub local: String,
    pub range: TextRange,
    /// The pattern gives the field a default value, as in `{page = 1}`.
    pub has_default: bool,
    /// The field is a rest element, as in `{...rest}`.
    pub is_rest: bool,
}

impl DestructuredField {
    pub open spec fn wf(self) -> bool {
        self.range.wf()
    }
}

/// The syntactic shape of one parameter binding.
///
/// Array-destructuring parameters are out of scope for this rule and are kept
/// as their own variant only so a host can hand them over unchanged; the
/// classifier treats them like plain identifiers. `Malformed` stands for a
/// parser error-recovery node: the rule must degrade to "no finding" on it
/// rather than abort the file.
#[derive(Debug)]
pub enum BindingPattern {
    Identifier { name: String, range: TextRange },
    ObjectPattern { fields: Vec<DestructuredField>, range: TextRange },
    ArrayPattern { range: TextRange },
    Malformed,
}

/// Fields of an object pattern stand in left-to-right source order: strictly
/// ascending start offsets.
pub open spec fn fields_ordered(fields: Seq<DestructuredField>) -> bool {
    forall|i: int, j: int|
        0 <= i < j < fields.len() ==> fields[i].range.start < fields[j].range.start
}

impl BindingPattern {
    pub open spec fn wf(self) -> bool {
        match self {
            BindingPattern::Identifier { range, .. } => range.wf(),
            BindingPattern::ObjectPattern { fields, range } => {
                &&& range.wf()
                &&& fields_ordered(fields@)
                &&& forall|i: int| 0 <= i < fields@.len() ==> (#[trigger] fields@[i]).wf()
            },
            BindingPattern::ArrayPattern { range } => range.wf(),
            BindingPattern::Malformed => true,
        }
    }
}

/// One node of the function body, reduced to what the markup scan looks at.
///
/// `Markup` is a markup (JSX-like) expression. `NestedFunction` is a nested
/// function-like node: its subtree is skipped by the scan, because nested
/// functions are evaluated independently when the traversal visits them.
/// `Plain` is any other node, scanned through to its children.
#[derive(Debug)]
pub enum BodyNode {
    Markup,
    NestedFunction(Vec<BodyNode>),
    Plain(Vec<BodyNode>),
}

/// The syntactic shape of the function node's immediate parent, as far as the
/// render-prop exception cares. `Root` stands for an ancestor walk that ran
/// out of tree without meeting a definitive shape.
#[derive(Clone, Copy, Debug, PartialEq, Eq, Structural)]
pub enum ParentShape {
    CallArgument,
    VariableInitializer,
    ExportedDeclaration,
    NamedFunctionDeclaration,
    Other,
    Root,
}

/// Tri-state result of the render-prop exception check.
#[derive(Clone, Copy, Debug, PartialEq, Eq, Structural)]
pub enum ExceptionVerdict {
    Exempt,
    Violation,
    NotApplicable,
}

/// The read-only view of one function-like declaration that the rule is
/// queried on: its parameter list, its body, and its parent's shape.
#[derive(Debug)]
pub struct FunctionNode {
    pub params: Vec<BindingPattern>,
    pub body: Vec<BodyNode>,
    pub parent: ParentShape,
}

impl FunctionNode {
    pub open spec fn wf(self) -> bool {
        forall|i: int| 0 <= i < self.params@.len() ==> (#[trigger] self.params@[i]).wf()
    }
}

} // verus!
