//! The rule's contract with its host analyzer: registration metadata, the
//! per-candidate signal computation (`run`), and the diagnostic built for each
//! signal (`diagnostic`). The rule holds no state across candidates; every
//! result is a pure function of the candidate `FunctionNode`, which is what
//! lets a host evaluate candidates in parallel and re-run the rule with
//! identical output.

use vstd::prelude::*;
use vstd::string::StringExecFns;

use crate::detect::exception_verdict;
use crate::detect::pattern_fields;
use crate::detect::verdict_of;
use crate::model::BindingPattern;
use crate::model::DestructuredField;
use crate::model::ExceptionVerdict;
use crate::model::FunctionNode;
use crate::model::TextRange;

verus! {

/// The severity category a finding is filed under. The rule always reports at
/// `Warning`: the pattern is legal code, but it silently breaks reactivity.
#[derive(Clone, Copy, Debug, PartialEq, Eq, Structural)]
pub enum Severity {
    Hint,
    Information,
    Warning,
    Error,
}

/// What the rule declares to the host's registry: a stable name, the language
/// dialect it applies to (a markup-capable one), the release channel, and
/// whether it is enabled by default.
pub struct RuleMetadata {
    pub name: String,
    pub language: String,
    pub version: String,
    pub recommended: bool,
}

/// One immutable diagnostic record, handed to the host's reporting pipeline.
/// `range` spans exactly the offending field-name token inside the pattern,
/// so editor tooling highlights the minimal token.
#[derive(Debug, PartialEq, Eq)]
pub struct Finding {
    pub rule_name: String,
    pub severity: Severity,
    pub range: TextRange,
    pub message: String,
    pub note: String,
}

/// The mathematical image of a `Finding`: every text field as a sequence of
/// characters. Two findings with equal models are byte-identical reports.
pub struct FindingModel {
    pub rule_name: Seq<char>,
    pub severity: Severity,
    pub range: TextRange,
    pub message: Seq<char>,
    pub note: Seq<char>,
}

impl Finding {
    pub open spec fn model(self) -> FindingModel {
        FindingModel {
            rule_name: self.rule_name@,
            severity: self.severity,
            range: self.range,
            message: self.message@,
            note: self.note@,
        }
    }
}

/// The message text for a field named `name`.
pub open spec fn message_of(name: Seq<char>) -> Seq<char> {
    "Do not destructure `"@ + name
        + "` from the props object: destructuring copies the value out once, at binding time."@
}

/// The remediation note for a field named `name` bound locally as `local`.
pub open spec fn note_of(name: Seq<char>, local: Seq<char>) -> Seq<char> {
    "Access the value as `props."@ + name + "` at each place `"@ + local
        + "` is used, so that later updates are observed."@
}

/// The finding owed for one destructured field.
pub open spec fn finding_of(field: DestructuredField) -> FindingModel {
    FindingModel {
        rule_name: "noDestructure"@,
        severity: Severity::Warning,
        range: field.range,
        message: message_of(field.name@),
        note: note_of(field.name@, field.local@),
    }
}

/// The signals the rule owes the host for one candidate: every destructured
/// field of the single parameter when the verdict is a violation, in
/// left-to-right source order, and nothing otherwise.
pub open spec fn signals_of(f: FunctionNode) -> Seq<DestructuredField> {
    if verdict_of(f) is Violation {
        pattern_fields(f.params@[0])
    } else {
        Seq::empty()
    }
}

/// The findings the rule owes the host for one candidate: one per signal, in
/// the same order.
pub open spec fn findings_of(f: FunctionNode) -> Seq<FindingModel> {
    signals_of(f).map_values(|field: DestructuredField| finding_of(field))
}

fn clone_field(field: &DestructuredField) -> (r: DestructuredField)
    ensures
        r == *field,
{
    DestructuredField {
        name: field.name.clone(),
        local: field.local.clone(),
        range: field.range,
        has_default: field.has_default,
        is_rest: field.is_rest,
    }
}

/// The rule: disallow destructuring props in the parameter list of a markup
/// component. It is a set of pure functions the host dispatches to; it owns
/// no state.
pub struct NoDestructure {}

impl NoDestructure {
    /// What the rule registers with the host: the stable name
    /// `noDestructure`, applicability to the markup-capable dialect, the
    /// pre-release channel, and opt-in (not recommended-by-default)
    /// enablement.
    pub fn metadata() -> (m: RuleMetadata)
        ensures
            m.name@ == "noDestructure"@,
            m.language@ == "jsx"@,
            m.version@ == "next"@,
            !m.recommended,
    {
        RuleMetadata {
            name: "noDestructure".to_owned(),
            language: "jsx".to_owned(),
            version: "next".to_owned(),
            recommended: false,
        }
    }

    /// Compute the match signals for one candidate. Zero signals when the
    /// parameter is not an object pattern, destructures no field, the
    /// function lacks the component shape, or the render-prop exception
    /// applies; otherwise one signal per destructured field, in source order.
    pub fn run(f: &FunctionNode) -> (signals: Vec<DestructuredField>)
        ensures
            signals@ == signals_of(*f),
    {
        let verdict = exception_verdict(f);
        let mut signals: Vec<DestructuredField> = Vec::new();
        if verdict == ExceptionVerdict::Violation {
            match &f.params[0] {
                BindingPattern::ObjectPattern { fields, .. } => {
                    let mut i: usize = 0;
                    while i < fields.len()
                        invariant
                            i <= fields@.len(),
                            signals@ =~= fields@.subrange(0, i as int),
                        decreases fields@.len() - i,
                    {
                        signals.push(clone_field(&fields[i]));
                        proof {
                            assert(signals@ =~= fields@.subrange(0, i as int + 1));
                        }
                        i = i + 1;
                    }
                    proof {
                        assert(fields@.subrange(0, fields@.len() as int) =~= fields@);
                    }
                },
                _ => {},
            }
        }
        signals
    }

    /// Build the diagnostic for one signal: the rule's category, the exact
    /// span of the field-name token, a message naming the field, and a note
    /// telling the reader to access the value through the parameter instead.
    pub fn diagnostic(state: &DestructuredField) -> (d: Option<Finding>)
        ensures
            d matches Some(finding) && finding.model() == finding_of(*state),
    {
        let mut message = "Do not destructure `".to_owned();
        message.append(state.name.as_str());
        message.append(
            "` from the props object: destructuring copies the value out once, at binding time.",
        );
        let mut note = "Access the value as `props.".to_owned();
        note.append(state.name.as_str());
        note.append("` at each place `");
        note.append(state.local.as_str());
        note.append("` is used, so that later updates are observed.");
        Some(
            Finding {
                rule_name: "noDestructure".to_owned(),
                severity: Severity::Warning,
                range: state.range,
                message,
                note,
            },
        )
    }

    /// The whole per-candidate evaluation, as the host drives it: compute the
    /// signals, then one finding per signal. The findings' models are exactly
    /// `findings_of(*f)`, so any two evaluations of the same candidate yield
    /// byte-identical reports.
    pub fn evaluate(f: &FunctionNode) -> (findings: Vec<Finding>)
        ensures
            findings@.len() == findings_of(*f).len(),
            forall|i: int|
                0 <= i < findings@.len() ==> (#[trigger] findings@[i]).model() == findings_of(
                    *f,
                )[i],
    {
        let signals = Self::run(f);
        let mut findings: Vec<Finding> = Vec::new();
        let mut i: usize = 0;
        while i < signals.len()
            invariant
                i <= signals@.len(),
                signals@ == signals_of(*f),
                findings@.len() == i,
                forall|j: int|
                    0 <= j < i ==> (#[trigger] findings@[j]).model() == finding_of(signals@[j]),
            decreases signals@.len() - i,
        {
            match Self::diagnostic(&signals[i]) {
                Some(finding) => findings.push(finding),
                None => {},
            }
            i = i + 1;
        }
        findings
    }
}

} // verus!
