use ion_macro_table::ExpansionAnalysis;
use ion_macro_table::IonError;
use ion_macro_table::IonType;
use ion_macro_table::MacroIdRef;
use ion_macro_table::MacroKind;
use ion_macro_table::MacroSignature;
use ion_macro_table::MacroTable;
use ion_macro_table::Parameter;
use ion_macro_table::ParameterCardinality;
use ion_macro_table::ParameterEncoding;
use ion_macro_table::RestSyntaxPolicy;
use ion_macro_table::TemplateBody;
use ion_macro_table::TemplateMacro;
use ion_macro_table::FIRST_USER_MACRO_ID;
use ion_macro_table::NUM_SYSTEM_MACROS;

fn empty_template(name: Option<&str>) -> TemplateMacro {
    TemplateMacro {
        name: name.map(|n| n.to_string()),
        signature: MacroSignature::new(Vec::new()).unwrap(),
        body: TemplateBody { expressions: Vec::new(), annotations_storage: Vec::new() },
        expansion_analysis: ExpansionAnalysis::default(),
    }
}

#[test]
fn bootstrap_has_system_partition() {
    let mut table = MacroTable::with_system_macros();
    assert_eq!(table.len(), NUM_SYSTEM_MACROS);
    assert_eq!(table.len(), 9);
    assert!(!table.is_empty());
    for address in 0..NUM_SYSTEM_MACROS {
        assert!(table.macro_at_address(address).is_some());
    }
    assert!(table.macro_at_address(NUM_SYSTEM_MACROS).is_none());
    let id = table.add_macro(empty_template(Some("greet"))).unwrap();
    assert_eq!(id, FIRST_USER_MACRO_ID);
}

#[test]
fn bootstrap_resolves_every_system_name() {
    let table = MacroTable::with_system_macros();
    let expected = [
        ("none", 0),
        ("values", 1),
        ("make_string", 2),
        ("make_sexp", 3),
        ("annotate", 4),
        ("set_symbols", 5),
        ("add_symbols", 6),
        ("set_macros", 7),
        ("add_macros", 8),
    ];
    for (name, address) in expected {
        let mr = table.macro_with_name(name).unwrap();
        assert_eq!(mr.address(), address);
        assert_eq!(mr.name(), Some(name));
        assert_eq!(table.address_for_name(name), Some(address));
    }
    assert!(table.macro_with_name("no_such_macro").is_none());
    assert!(table.address_for_name("no_such_macro").is_none());
}

#[test]
fn resolve_make_string_primitive() {
    let table = MacroTable::with_system_macros();
    let mr = table.macro_with_name("make_string").unwrap();
    assert_eq!(mr.address(), 2);
    assert_eq!(*mr.kind(), MacroKind::MakeString);
    let params = mr.signature().parameters();
    assert_eq!(params.len(), 1);
    assert_eq!(params[0].name(), "text_values");
    assert_eq!(params[0].encoding(), ParameterEncoding::Tagged);
    assert_eq!(params[0].cardinality(), ParameterCardinality::ZeroOrMore);
    assert_eq!(params[0].rest_syntax_policy(), RestSyntaxPolicy::Allowed);
    let analysis = mr.expansion_analysis();
    assert!(analysis.must_produce_exactly_one_value());
    assert!(analysis.can_be_lazily_evaluated_at_top_level());
    let singleton = analysis.expansion_singleton().unwrap();
    assert!(!singleton.is_null);
    assert_eq!(singleton.ion_type, IonType::String);
    assert_eq!(singleton.num_annotations, 0);
}

#[test]
fn annotate_is_never_lazy() {
    let table = MacroTable::with_system_macros();
    let mr = table.macro_with_name("annotate").unwrap();
    assert_eq!(*mr.kind(), MacroKind::Annotate);
    assert!(mr.must_produce_exactly_one_value());
    assert!(!mr.can_be_lazily_evaluated_at_top_level());
    assert!(mr.expansion_analysis().expansion_singleton().is_none());
    let params = mr.signature().parameters();
    assert_eq!(params.len(), 2);
    assert_eq!(params[0].name(), "annotations");
    assert_eq!(params[0].cardinality(), ParameterCardinality::ZeroOrMore);
    assert!(!params[0].is_rest_eligible());
    assert_eq!(params[1].name(), "value_to_annotate");
    assert_eq!(params[1].cardinality(), ParameterCardinality::ExactlyOne);
}

#[test]
fn greet_scenario() {
    let mut table = MacroTable::empty();
    assert!(table.is_empty());
    let id = table.add_macro(empty_template(Some("greet"))).unwrap();
    assert_eq!(id, 0);
    let by_name = table.macro_with_name("greet").unwrap();
    assert_eq!(by_name.address(), 0);
    let by_address = table.macro_at_address(0).unwrap();
    assert_eq!(by_address.name(), Some("greet"));
    assert_eq!(by_name.reference(), by_address.reference());
    let second = table.add_macro(empty_template(Some("greet")));
    assert_eq!(second, Err(IonError::DuplicateMacroName("greet".to_string())));
}

#[test]
fn duplicate_rejection_leaves_table_unchanged() {
    let mut table = MacroTable::with_system_macros();
    let id = table.add_macro(empty_template(Some("greet"))).unwrap();
    let before_len = table.len();
    let err = table.add_macro(empty_template(Some("greet"))).unwrap_err();
    assert_eq!(err, IonError::DuplicateMacroName("greet".to_string()));
    assert_eq!(err.description(), "macro named 'greet' already exists");
    assert_eq!(table.len(), before_len);
    assert_eq!(table.address_for_name("greet"), Some(id));
    // A colliding name of a system macro is rejected just the same.
    let err = table.add_macro(empty_template(Some("values"))).unwrap_err();
    assert_eq!(err, IonError::DuplicateMacroName("values".to_string()));
    assert_eq!(table.len(), before_len);
}

#[test]
fn anonymous_macros_have_address_but_no_name() {
    let mut table = MacroTable::empty();
    let a0 = table.add_macro(empty_template(None)).unwrap();
    let a1 = table.add_macro(empty_template(None)).unwrap();
    assert_eq!(a0, 0);
    assert_eq!(a1, 1);
    assert_eq!(table.len(), 2);
    let mr = table.macro_at_address(0).unwrap();
    assert_eq!(mr.name(), None);
    // A duplicate anonymous template cannot collide.
    assert!(table.add_macro(empty_template(None)).is_ok());
    assert_eq!(table.len(), 3);
}

#[test]
fn addresses_are_stable_across_appends_and_clones() {
    let mut table = MacroTable::empty();
    let a1 = table.add_macro(empty_template(Some("first"))).unwrap();
    let a2 = table.add_macro(empty_template(Some("second"))).unwrap();
    assert!(a1 < a2);
    let first_before = table.macro_at_address(a1).unwrap().reference().clone();
    table.add_macro(empty_template(Some("third"))).unwrap();
    let cloned = table.clone();
    assert_eq!(table.macro_at_address(a1).unwrap().reference(), &first_before);
    assert_eq!(cloned.macro_at_address(a1).unwrap().reference(), &first_before);
    assert_eq!(cloned.address_for_name("second"), Some(a2));
}

#[test]
fn clone_is_independent_of_the_original() {
    let table = MacroTable::with_system_macros();
    let mut copy = table.clone();
    assert_eq!(copy.len(), table.len());
    copy.add_macro(empty_template(Some("extra"))).unwrap();
    assert_eq!(copy.len(), table.len() + 1);
    assert!(table.macro_with_name("extra").is_none());
    assert!(copy.macro_with_name("extra").is_some());
}

#[test]
fn macro_with_id_accepts_both_addressing_forms() {
    let table = MacroTable::with_system_macros();
    let by_name = table.macro_with_id(MacroIdRef::LocalName("make_sexp")).unwrap();
    let by_address = table.macro_with_id(MacroIdRef::LocalAddress(3)).unwrap();
    assert_eq!(by_name.address(), 3);
    assert_eq!(by_address.address(), 3);
    assert_eq!(by_name.reference(), by_address.reference());
    assert!(table.macro_with_id(MacroIdRef::LocalName("missing")).is_none());
    assert!(table.macro_with_id(MacroIdRef::LocalAddress(999)).is_none());
}

#[test]
fn clone_macro_lookups_share_the_definition() {
    let table = MacroTable::with_system_macros();
    let by_name = table.clone_macro_with_name("values").unwrap();
    let by_address = table.clone_macro_with_address(1).unwrap();
    let by_id = table.clone_macro_with_id(MacroIdRef::LocalName("values")).unwrap();
    assert_eq!(by_name.name(), Some("values"));
    assert_eq!(*by_name, *by_address);
    assert_eq!(*by_name, *by_id);
    assert!(table.clone_macro_with_name("missing").is_none());
    assert!(table.clone_macro_with_address(999).is_none());
}

#[test]
fn id_text_uses_name_or_address() {
    let mut table = MacroTable::empty();
    for _ in 0..11 {
        table.add_macro(empty_template(None)).unwrap();
    }
    table.add_macro(empty_template(Some("named"))).unwrap();
    assert_eq!(table.macro_at_address(0).unwrap().id_text(), "0");
    assert_eq!(table.macro_at_address(10).unwrap().id_text(), "10");
    assert_eq!(table.macro_at_address(11).unwrap().id_text(), "named");
}

#[test]
fn require_template_hands_out_the_body() {
    let table = MacroTable::with_system_macros();
    let mr = table.macro_with_name("values").unwrap();
    let tm = mr.require_template();
    assert_eq!(tm.macro_ref.name(), Some("values"));
    assert_eq!(tm.body.expressions.len(), 1);
    let mr = table.macro_with_name("set_symbols").unwrap();
    let tm = mr.require_template();
    assert_eq!(tm.body.expressions.len(), 8);
    assert_eq!(tm.body.annotations_storage.len(), 1);
    assert_eq!(tm.body.annotations_storage[0].text(), "$ion_encoding");
    // The flattened ranges nest: every expression's range starts at its own
    // index, the root's range spans the whole body, and jumping to a
    // subtree's end lands on the next sibling.
    for (i, expr) in tm.body.expressions.iter().enumerate() {
        assert_eq!(expr.range().start, i);
        assert!(expr.range().end <= tm.body.expressions.len());
    }
    let symbol_table_clause = tm.body.expressions[1].range();
    assert_eq!(symbol_table_clause.end, 5);
    let macro_table_clause = tm.body.expressions[5].range();
    assert_eq!(macro_table_clause.start, symbol_table_clause.end);
    assert_eq!(tm.body.expressions[0].range().end, 8);
}

#[test]
fn merge_round_trip_with_disjoint_names() {
    let mut a = MacroTable::empty();
    a.add_macro(empty_template(Some("alpha"))).unwrap();
    a.add_macro(empty_template(Some("beta"))).unwrap();
    let mut b = MacroTable::empty();
    b.add_macro(empty_template(Some("gamma"))).unwrap();
    b.add_macro(empty_template(None)).unwrap();
    b.add_macro(empty_template(Some("delta"))).unwrap();
    assert_eq!(a.append_all_macros_from(&b), Ok(()));
    assert_eq!(a.len(), 5);
    assert_eq!(a.address_for_name("alpha"), Some(0));
    assert_eq!(a.address_for_name("beta"), Some(1));
    assert_eq!(a.address_for_name("gamma"), Some(2));
    assert_eq!(a.address_for_name("delta"), Some(4));
    let merged = a.macro_with_name("gamma").unwrap();
    let original = b.macro_with_name("gamma").unwrap();
    assert_eq!(merged.reference(), original.reference());
    assert!(merged.address() >= 2);
}

#[test]
fn merge_aborts_on_collision_but_keeps_earlier_entries() {
    let mut a = MacroTable::empty();
    a.add_macro(empty_template(Some("shared"))).unwrap();
    let mut b = MacroTable::empty();
    b.add_macro(empty_template(Some("early"))).unwrap();
    b.add_macro(empty_template(Some("shared"))).unwrap();
    b.add_macro(empty_template(Some("late"))).unwrap();
    let err = a.append_all_macros_from(&b).unwrap_err();
    assert_eq!(err, IonError::DuplicateMacroName("shared".to_string()));
    // The entry merged before the collision remains; the rest never arrive.
    assert_eq!(a.len(), 2);
    assert_eq!(a.address_for_name("early"), Some(1));
    assert_eq!(a.address_for_name("shared"), Some(0));
    assert!(a.macro_with_name("late").is_none());
}

#[test]
fn merging_system_macros_into_empty_table() {
    let system = MacroTable::with_system_macros();
    let mut fresh = MacroTable::empty();
    assert_eq!(fresh.append_all_macros_from(&system), Ok(()));
    assert_eq!(fresh.len(), NUM_SYSTEM_MACROS);
    assert_eq!(fresh.address_for_name("make_string"), Some(2));
}

#[test]
fn default_table_is_the_system_table() {
    let table = MacroTable::default();
    assert_eq!(table.len(), NUM_SYSTEM_MACROS);
    assert!(table.macro_with_name("none").is_some());
}

#[test]
fn parameter_rejection_names_the_offending_parameter() {
    let params = vec![
        Parameter::new(
            "rest",
            ParameterEncoding::Tagged,
            ParameterCardinality::ZeroOrMore,
            RestSyntaxPolicy::Allowed,
        ),
        Parameter::new(
            "after_rest",
            ParameterEncoding::Tagged,
            ParameterCardinality::ExactlyOne,
            RestSyntaxPolicy::NotAllowed,
        ),
    ];
    let err = MacroSignature::new(params).unwrap_err();
    assert_eq!(err, IonError::InvalidMacroSignature("after_rest".to_string()));
    assert_eq!(
        err.description(),
        "invalid signature: non-rest parameter 'after_rest' follows a rest-eligible parameter"
    );
}
