use no_destructure::detect::classify;
use no_destructure::detect::contains_markup;
use no_destructure::detect::exception_verdict;
use no_destructure::detect::is_component_shape;
use no_destructure::detect::PatternClass;
use no_destructure::model::BindingPattern;
use no_destructure::model::BodyNode;
use no_destructure::model::DestructuredField;
use no_destructure::model::ExceptionVerdict;
use no_destructure::model::FunctionNode;
use no_destructure::model::ParentShape;
use no_destructure::model::TextRange;
use no_destructure::rule::NoDestructure;
use no_destructure::rule::Severity;

fn field(name: &str, start: u32, end: u32) -> DestructuredField {
    DestructuredField {
        name: name.to_string(),
        local: name.to_string(),
        range: TextRange::new(start, end),
        has_default: false,
        is_rest: false,
    }
}

fn object_pattern(fields: Vec<DestructuredField>, start: u32, end: u32) -> BindingPattern {
    BindingPattern::ObjectPattern { fields, range: TextRange::new(start, end) }
}

fn identifier(name: &str, start: u32, end: u32) -> BindingPattern {
    BindingPattern::Identifier { name: name.to_string(), range: TextRange::new(start, end) }
}

fn component(params: Vec<BindingPattern>, body: Vec<BodyNode>, parent: ParentShape) -> FunctionNode {
    FunctionNode { params, body, parent }
}

// `const Child = ({page}) => <div><p>{page}</p></div>;`
// with `page` inside the pattern at bytes 16..20.
fn destructuring_child_component() -> FunctionNode {
    component(
        vec![object_pattern(vec![field("page", 16, 20)], 15, 21)],
        vec![BodyNode::Markup],
        ParentShape::VariableInitializer,
    )
}

#[test]
fn plain_identifier_parameter_not_flagged() {
    // `const Child = (props) => <div><p>{props.page}</p></div>;`
    let f = component(
        vec![identifier("props", 15, 20)],
        vec![BodyNode::Markup],
        ParentShape::VariableInitializer,
    );
    assert_eq!(NoDestructure::evaluate(&f).len(), 0);
}

#[test]
fn destructured_field_flagged_with_exact_range() {
    let f = destructuring_child_component();
    let findings = NoDestructure::evaluate(&f);
    assert_eq!(findings.len(), 1);
    assert_eq!(findings[0].range, TextRange::new(16, 20));
    assert_eq!(findings[0].rule_name, "noDestructure");
    assert_eq!(findings[0].severity, Severity::Warning);
    assert_eq!(
        findings[0].message,
        "Do not destructure `page` from the props object: \
         destructuring copies the value out once, at binding time."
    );
    assert_eq!(
        findings[0].note,
        "Access the value as `props.page` at each place `page` is used, \
         so that later updates are observed."
    );
}

#[test]
fn multi_field_findings_in_declaration_order() {
    // `({a, b, c}) => <div>{a}{b}{c}</div>`
    let f = component(
        vec![object_pattern(
            vec![field("a", 2, 3), field("b", 5, 6), field("c", 8, 9)],
            1,
            10,
        )],
        vec![BodyNode::Markup],
        ParentShape::VariableInitializer,
    );
    let findings = NoDestructure::evaluate(&f);
    assert_eq!(findings.len(), 3);
    assert_eq!(findings[0].range, TextRange::new(2, 3));
    assert_eq!(findings[1].range, TextRange::new(5, 6));
    assert_eq!(findings[2].range, TextRange::new(8, 9));
    assert!(findings[0].message.contains("`a`"));
    assert!(findings[1].message.contains("`b`"));
    assert!(findings[2].message.contains("`c`"));
    assert!(findings[0].range.start < findings[1].range.start);
    assert!(findings[1].range.start < findings[2].range.start);
}

#[test]
fn two_parameters_not_flagged() {
    // `({page}, context) => <div>{page}</div>`
    let f = component(
        vec![
            object_pattern(vec![field("page", 2, 6)], 1, 7),
            identifier("context", 9, 16),
        ],
        vec![BodyNode::Markup],
        ParentShape::VariableInitializer,
    );
    assert_eq!(NoDestructure::evaluate(&f).len(), 0);
}

#[test]
fn body_without_markup_not_flagged() {
    // `({page}) => page + 1`
    let f = component(
        vec![object_pattern(vec![field("page", 2, 6)], 1, 7)],
        vec![BodyNode::Plain(vec![])],
        ParentShape::VariableInitializer,
    );
    assert_eq!(NoDestructure::evaluate(&f).len(), 0);
}

#[test]
fn render_prop_in_call_argument_exempt() {
    // `list.map(({item}) => <li>{item}</li>)`
    let f = component(
        vec![object_pattern(vec![field("item", 11, 15)], 10, 16)],
        vec![BodyNode::Markup],
        ParentShape::CallArgument,
    );
    assert_eq!(NoDestructure::evaluate(&f).len(), 0);
}

#[test]
fn rerun_on_unchanged_tree_is_byte_identical() {
    let f = destructuring_child_component();
    let first = NoDestructure::evaluate(&f);
    let second = NoDestructure::evaluate(&f);
    assert_eq!(first, second);
}

#[test]
fn empty_object_pattern_yields_nothing() {
    // `({}) => <div/>`: syntactically a pattern, but no field to flag.
    let f = component(
        vec![object_pattern(vec![], 1, 3)],
        vec![BodyNode::Markup],
        ParentShape::VariableInitializer,
    );
    assert_eq!(NoDestructure::evaluate(&f).len(), 0);
    assert_eq!(exception_verdict(&f), ExceptionVerdict::NotApplicable);
}

#[test]
fn rest_and_default_fields_still_flagged() {
    // `({page = 1, ...rest}) => <div>{page}</div>`
    let mut with_default = field("page", 2, 6);
    with_default.has_default = true;
    let mut rest = field("rest", 15, 19);
    rest.is_rest = true;
    let f = component(
        vec![object_pattern(vec![with_default, rest], 1, 20)],
        vec![BodyNode::Markup],
        ParentShape::VariableInitializer,
    );
    let findings = NoDestructure::evaluate(&f);
    assert_eq!(findings.len(), 2);
    assert!(findings[0].message.contains("`page`"));
    assert!(findings[1].message.contains("`rest`"));
}

#[test]
fn renamed_field_note_names_the_local_binding() {
    // `({page: p}) => <div>{p}</div>`
    let f = component(
        vec![object_pattern(
            vec![DestructuredField {
                name: "page".to_string(),
                local: "p".to_string(),
                range: TextRange::new(2, 6),
                has_default: false,
                is_rest: false,
            }],
            1,
            10,
        )],
        vec![BodyNode::Markup],
        ParentShape::VariableInitializer,
    );
    let findings = NoDestructure::evaluate(&f);
    assert_eq!(findings.len(), 1);
    assert_eq!(
        findings[0].note,
        "Access the value as `props.page` at each place `p` is used, \
         so that later updates are observed."
    );
}

#[test]
fn array_pattern_parameter_not_flagged() {
    let f = component(
        vec![BindingPattern::ArrayPattern { range: TextRange::new(1, 7) }],
        vec![BodyNode::Markup],
        ParentShape::VariableInitializer,
    );
    assert_eq!(NoDestructure::evaluate(&f).len(), 0);
}

#[test]
fn malformed_binding_not_flagged() {
    let f = component(
        vec![BindingPattern::Malformed],
        vec![BodyNode::Markup],
        ParentShape::VariableInitializer,
    );
    assert_eq!(NoDestructure::evaluate(&f).len(), 0);
}

#[test]
fn markup_inside_nested_function_does_not_count() {
    // `({page}) => { return list.map(() => <li/>); }`: the only markup sits
    // in a nested function body, which is scanned independently.
    let f = component(
        vec![object_pattern(vec![field("page", 2, 6)], 1, 7)],
        vec![BodyNode::Plain(vec![BodyNode::NestedFunction(vec![BodyNode::Markup])])],
        ParentShape::VariableInitializer,
    );
    assert_eq!(NoDestructure::evaluate(&f).len(), 0);
}

#[test]
fn deeply_nested_markup_is_found() {
    let body = vec![BodyNode::Plain(vec![
        BodyNode::Plain(vec![]),
        BodyNode::Plain(vec![BodyNode::Plain(vec![BodyNode::Markup])]),
    ])];
    assert!(contains_markup(&body));
    let f = component(
        vec![object_pattern(vec![field("page", 2, 6)], 1, 7)],
        body,
        ParentShape::VariableInitializer,
    );
    assert_eq!(NoDestructure::evaluate(&f).len(), 1);
}

#[test]
fn exhausted_ancestor_walk_defaults_to_violation() {
    let f = component(
        vec![object_pattern(vec![field("page", 2, 6)], 1, 7)],
        vec![BodyNode::Markup],
        ParentShape::Root,
    );
    assert_eq!(exception_verdict(&f), ExceptionVerdict::Violation);
    assert_eq!(NoDestructure::evaluate(&f).len(), 1);
}

#[test]
fn exported_and_named_declarations_are_violations() {
    for parent in [
        ParentShape::ExportedDeclaration,
        ParentShape::NamedFunctionDeclaration,
        ParentShape::Other,
    ] {
        let f = component(
            vec![object_pattern(vec![field("page", 2, 6)], 1, 7)],
            vec![BodyNode::Markup],
            parent,
        );
        assert_eq!(exception_verdict(&f), ExceptionVerdict::Violation);
        assert_eq!(NoDestructure::evaluate(&f).len(), 1);
    }
}

#[test]
fn component_shape_requires_one_param_and_markup() {
    let one_param_markup = component(
        vec![identifier("props", 1, 6)],
        vec![BodyNode::Markup],
        ParentShape::VariableInitializer,
    );
    assert!(is_component_shape(&one_param_markup));

    let zero_params = component(vec![], vec![BodyNode::Markup], ParentShape::VariableInitializer);
    assert!(!is_component_shape(&zero_params));

    let no_markup = component(
        vec![identifier("props", 1, 6)],
        vec![BodyNode::Plain(vec![])],
        ParentShape::VariableInitializer,
    );
    assert!(!is_component_shape(&no_markup));
}

#[test]
fn classifier_separates_the_two_shapes() {
    let pattern = object_pattern(vec![field("page", 2, 6)], 1, 7);
    match classify(&pattern) {
        PatternClass::Destructuring(fields) => {
            assert_eq!(fields.len(), 1);
            assert_eq!(fields[0].name, "page");
        }
        PatternClass::Identifier => panic!("object pattern classified as identifier"),
    }
    let empty = object_pattern(vec![], 1, 3);
    assert!(matches!(classify(&empty), PatternClass::Destructuring(_)));
    let ident = identifier("props", 1, 6);
    assert!(matches!(classify(&ident), PatternClass::Identifier));
    let array = BindingPattern::ArrayPattern { range: TextRange::new(1, 7) };
    assert!(matches!(classify(&array), PatternClass::Identifier));
    assert!(matches!(classify(&BindingPattern::Malformed), PatternClass::Identifier));
}

#[test]
fn run_returns_one_signal_per_field() {
    let f = destructuring_child_component();
    let signals = NoDestructure::run(&f);
    assert_eq!(signals.len(), 1);
    assert_eq!(signals[0].name, "page");
    assert_eq!(signals[0].local, "page");
    assert_eq!(signals[0].range, TextRange::new(16, 20));
}

#[test]
fn diagnostic_builds_one_finding_per_signal() {
    let signal = field("page", 16, 20);
    let finding = NoDestructure::diagnostic(&signal).expect("a finding is owed per signal");
    assert_eq!(finding.range, TextRange::new(16, 20));
    assert_eq!(finding.rule_name, "noDestructure");
}

#[test]
fn registration_metadata_is_stable() {
    let m = NoDestructure::metadata();
    assert_eq!(m.name, "noDestructure");
    assert_eq!(m.language, "jsx");
    assert_eq!(m.version, "next");
    assert!(!m.recommended);
}
