use ion_macro_table::ExpansionAnalysis;
use ion_macro_table::ExpansionSingleton;
use ion_macro_table::IonType;
use ion_macro_table::Macro;
use ion_macro_table::MacroKind;
use ion_macro_table::MacroSignature;
use ion_macro_table::Parameter;
use ion_macro_table::ParameterCardinality;
use ion_macro_table::ParameterEncoding;
use ion_macro_table::RestSyntaxPolicy;
use ion_macro_table::Symbol;
use ion_macro_table::TemplateBody;
use ion_macro_table::TemplateBodyElement;
use ion_macro_table::TemplateBodyExpr;
use ion_macro_table::TemplateMacro;
use ion_macro_table::template::ExprRange;
use ion_macro_table::template::TemplateBodyExprKind;
use ion_macro_table::template::TemplateValue;

fn tagged(name: &str, cardinality: ParameterCardinality, rest: RestSyntaxPolicy) -> Parameter {
    Parameter::new(name, ParameterEncoding::Tagged, cardinality, rest)
}

#[test]
fn parameter_accessors_read_back_what_was_given() {
    let p = tagged("items", ParameterCardinality::OneOrMore, RestSyntaxPolicy::Allowed);
    assert_eq!(p.name(), "items");
    assert_eq!(p.encoding(), ParameterEncoding::Tagged);
    assert_eq!(p.cardinality(), ParameterCardinality::OneOrMore);
    assert_eq!(p.rest_syntax_policy(), RestSyntaxPolicy::Allowed);
    assert!(p.is_rest_eligible());
    let q = tagged("single", ParameterCardinality::ExactlyOne, RestSyntaxPolicy::NotAllowed);
    assert!(!q.is_rest_eligible());
}

#[test]
fn signature_accepts_valid_parameter_orders() {
    let empty = MacroSignature::new(Vec::new()).unwrap();
    assert_eq!(empty.len(), 0);

    let ordered = MacroSignature::new(vec![
        tagged("a", ParameterCardinality::ExactlyOne, RestSyntaxPolicy::NotAllowed),
        tagged("b", ParameterCardinality::ZeroOrOne, RestSyntaxPolicy::NotAllowed),
        tagged("c", ParameterCardinality::ZeroOrMore, RestSyntaxPolicy::Allowed),
    ])
    .unwrap();
    assert_eq!(ordered.len(), 3);
    assert_eq!(ordered.parameters()[2].name(), "c");

    let all_rest = MacroSignature::new(vec![
        tagged("x", ParameterCardinality::ZeroOrMore, RestSyntaxPolicy::Allowed),
        tagged("y", ParameterCardinality::ZeroOrMore, RestSyntaxPolicy::Allowed),
    ]);
    assert!(all_rest.is_ok());
}

#[test]
fn signature_rejects_non_rest_after_rest() {
    let r = MacroSignature::new(vec![
        tagged("x", ParameterCardinality::ZeroOrMore, RestSyntaxPolicy::Allowed),
        tagged("y", ParameterCardinality::ZeroOrMore, RestSyntaxPolicy::NotAllowed),
        tagged("z", ParameterCardinality::ZeroOrMore, RestSyntaxPolicy::Allowed),
    ]);
    assert!(r.is_err());
}

#[test]
fn symbol_owns_its_text() {
    let s = Symbol::owned("$ion_encoding");
    assert_eq!(s.text(), "$ion_encoding");
    assert_eq!(s, Symbol::owned("$ion_encoding"));
    assert_ne!(s, Symbol::owned("other"));
}

#[test]
fn body_expressions_carry_their_subtree_ranges() {
    let annotated = TemplateBodyElement::with_value(TemplateValue::SExp).with_annotations(0, 1);
    let expr = TemplateBodyExpr::element(annotated, ExprRange::new(0, 3));
    assert_eq!(expr.range(), ExprRange::new(0, 3));
    match expr.kind() {
        TemplateBodyExprKind::Element(e) => {
            assert_eq!(e.value, TemplateValue::SExp);
            let range = e.annotations_range.unwrap();
            assert_eq!(range.start, 0);
            assert_eq!(range.end, 1);
        }
        TemplateBodyExprKind::Variable(_) => panic!("expected an element"),
    }
    let var = TemplateBodyExpr::variable(0, ExprRange::new(2, 3));
    match var.kind() {
        TemplateBodyExprKind::Variable(index) => assert_eq!(*index, 0),
        TemplateBodyExprKind::Element(_) => panic!("expected a variable"),
    }
}

/// A flattened `(seq "a" (%items))` body: the ranges let a consumer skip
/// the whole subtree of any node by jumping to its range end.
#[test]
fn flattened_body_supports_subtree_skipping() {
    let exprs = vec![
        TemplateBodyExpr::element(
            TemplateBodyElement::with_value(TemplateValue::SExp),
            ExprRange::new(0, 3),
        ),
        TemplateBodyExpr::element(
            TemplateBodyElement::with_value(TemplateValue::String("a".to_string())),
            ExprRange::new(1, 2),
        ),
        TemplateBodyExpr::variable(0, ExprRange::new(2, 3)),
    ];
    // Every node's range starts at its own index.
    for (i, e) in exprs.iter().enumerate() {
        assert_eq!(e.range().start, i);
        assert!(e.range().end <= exprs.len());
    }
    // Children lie strictly inside the parent's range, and jumping to the
    // root's range end skips the whole tree.
    let root = exprs[0].range();
    for e in &exprs[1..] {
        assert!(root.start < e.range().start);
        assert!(e.range().end <= root.end);
    }
    assert_eq!(root.end, exprs.len());
}

#[test]
fn from_template_macro_wraps_the_body() {
    let template = TemplateMacro {
        name: Some("wrap".to_string()),
        signature: MacroSignature::new(vec![tagged(
            "items",
            ParameterCardinality::ZeroOrMore,
            RestSyntaxPolicy::Allowed,
        )])
        .unwrap(),
        body: TemplateBody {
            expressions: vec![TemplateBodyExpr::variable(0, ExprRange::new(0, 1))],
            annotations_storage: Vec::new(),
        },
        expansion_analysis: ExpansionAnalysis::default(),
    };
    let m = Macro::from_template_macro(template);
    assert_eq!(m.name(), Some("wrap"));
    match m.kind() {
        MacroKind::Template(body) => assert_eq!(body.expressions.len(), 1),
        other => panic!("expected a template kind, found {other:?}"),
    }
}

#[test]
fn macro_constructors_and_accessors() {
    let signature = MacroSignature::new(Vec::new()).unwrap();
    let analysis = ExpansionAnalysis {
        could_produce_system_value: false,
        must_produce_exactly_one_value: true,
        can_be_lazily_evaluated_at_top_level: true,
        expansion_singleton: Some(ExpansionSingleton {
            is_null: true,
            ion_type: IonType::Null,
            num_annotations: 0,
        }),
    };
    let named = Macro::named("lit", signature.clone(), MacroKind::Empty, analysis);
    assert_eq!(named.name(), Some("lit"));
    assert_eq!(named.clone_name(), Some("lit".to_string()));
    assert_eq!(*named.kind(), MacroKind::Empty);
    assert_eq!(named.signature().len(), 0);
    assert!(named.must_produce_exactly_one_value());
    assert!(named.can_be_lazily_evaluated_at_top_level());
    assert_eq!(named.expansion_analysis(), analysis);

    let anon = Macro::anonymous(signature.clone(), MacroKind::ExprGroup, analysis);
    assert_eq!(anon.name(), None);
    assert_eq!(anon.clone_name(), None);

    let by_new = Macro::new(Some("lit".to_string()), signature, MacroKind::Empty, analysis);
    assert_eq!(by_new, named);
}

#[test]
fn default_analysis_is_conservative() {
    let analysis = ExpansionAnalysis::default();
    assert!(!analysis.must_produce_exactly_one_value());
    assert!(!analysis.can_be_lazily_evaluated_at_top_level());
    assert!(analysis.expansion_singleton().is_none());
}
