//! Bootstrapping of the built-in ("system") macro table. Parsing template
//! definitions from surface syntax would require a reader, and a reader
//! requires a system macro table to exist first; to break that cycle the
//! fixed set of system macros is assembled here by direct construction,
//! template bodies included.

use vstd::prelude::*;

use std::rc::Rc;

use crate::analysis::analysis_consistent;
use crate::analysis::ExpansionAnalysis;
use crate::analysis::ExpansionSingleton;
use crate::name_index;
use crate::table::deref_macros;
use crate::table::Macro;
use crate::table::MacroKind;
use crate::table::MacroTable;
use crate::table::NUM_SYSTEM_MACROS;
use crate::template::body_matches_arity;
use crate::template::expr_well_formed_at;
use crate::template::parameters_valid;
use crate::template::template_body_well_formed;
use crate::template::AnnotationsRange;
use crate::template::ExprRange;
use crate::template::MacroSignature;
use crate::template::Parameter;
use crate::template::ParameterCardinality;
use crate::template::ParameterEncoding;
use crate::template::RestSyntaxPolicy;
use crate::template::TemplateBody;
use crate::template::TemplateBodyElement;
use crate::template::TemplateBodyExpr;
use crate::template::TemplateBodyExprKind;
use crate::template::TemplateMacro;
use crate::template::TemplateValue;
use crate::value::IonType;
use crate::value::Symbol;

verus! {

/// A macro is well-formed when its signature is structurally valid, its
/// body (if it is a template) satisfies the flattened-tree invariant and
/// speaks only of parameters the signature has, and its analysis makes
/// internally consistent claims.
pub open spec fn macro_well_formed(m: Macro) -> bool {
    &&& parameters_valid(m.signature.spec_parameters())
    &&& (m.kind matches MacroKind::Template(b) ==> template_body_well_formed(b)
        && body_matches_arity(b, m.signature.spec_parameters().len() as int))
    &&& analysis_consistent(m.expansion_analysis)
}

pub open spec fn is_param(
    p: Parameter,
    name: Seq<char>,
    cardinality: ParameterCardinality,
    rest: RestSyntaxPolicy,
) -> bool {
    &&& p.spec_name() == name
    &&& p.spec_encoding() == ParameterEncoding::Tagged
    &&& p.spec_cardinality() == cardinality
    &&& p.spec_rest_syntax_policy() == rest
}

/// A signature of exactly one zero-or-more, rest-eligible parameter.
pub open spec fn is_rest_param_signature(s: MacroSignature, name: Seq<char>) -> bool {
    &&& s.spec_parameters().len() == 1
    &&& is_param(
        s.spec_parameters()[0],
        name,
        ParameterCardinality::ZeroOrMore,
        RestSyntaxPolicy::Allowed,
    )
}

/// The analysis of a primitive that always yields exactly one unannotated,
/// non-null value of type `t`.
pub open spec fn singleton_analysis(t: IonType) -> ExpansionAnalysis {
    ExpansionAnalysis {
        could_produce_system_value: false,
        must_produce_exactly_one_value: true,
        can_be_lazily_evaluated_at_top_level: true,
        expansion_singleton: Some(
            ExpansionSingleton { is_null: false, ion_type: t, num_annotations: 0 },
        ),
    }
}

/// The analysis shared by the encoding-directive templates: exactly one
/// value, an s-expression under one annotation, with stream-control
/// significance, so never lazily evaluated.
pub open spec fn directive_analysis() -> ExpansionAnalysis {
    ExpansionAnalysis {
        could_produce_system_value: true,
        must_produce_exactly_one_value: true,
        can_be_lazily_evaluated_at_top_level: false,
        expansion_singleton: Some(
            ExpansionSingleton { is_null: false, ion_type: IonType::SExp, num_annotations: 1 },
        ),
    }
}

pub open spec fn conservative_analysis() -> ExpansionAnalysis {
    ExpansionAnalysis {
        could_produce_system_value: false,
        must_produce_exactly_one_value: false,
        can_be_lazily_evaluated_at_top_level: false,
        expansion_singleton: None,
    }
}

pub open spec fn is_sexp_expr(e: TemplateBodyExpr, start: usize, end: usize) -> bool {
    e == (TemplateBodyExpr {
        kind: TemplateBodyExprKind::Element(
            TemplateBodyElement { value: TemplateValue::SExp, annotations_range: None },
        ),
        range: ExprRange { start, end },
    })
}

/// An s-expression element carrying the annotations at `astart..aend` of
/// the body's annotations storage.
pub open spec fn is_annotated_sexp_expr(
    e: TemplateBodyExpr,
    astart: usize,
    aend: usize,
    start: usize,
    end: usize,
) -> bool {
    e == (TemplateBodyExpr {
        kind: TemplateBodyExprKind::Element(
            TemplateBodyElement {
                value: TemplateValue::SExp,
                annotations_range: Some(AnnotationsRange { start: astart, end: aend }),
            },
        ),
        range: ExprRange { start, end },
    })
}

pub open spec fn is_list_expr(e: TemplateBodyExpr, start: usize, end: usize) -> bool {
    e == (TemplateBodyExpr {
        kind: TemplateBodyExprKind::Element(
            TemplateBodyElement { value: TemplateValue::List, annotations_range: None },
        ),
        range: ExprRange { start, end },
    })
}

pub open spec fn is_symbol_expr(
    e: TemplateBodyExpr,
    text: Seq<char>,
    start: usize,
    end: usize,
) -> bool {
    &&& e.kind matches TemplateBodyExprKind::Element(el) && el.annotations_range is None && (
    el.value matches TemplateValue::Symbol(s) && s.spec_text() == text)
    &&& e.range == (ExprRange { start, end })
}

pub open spec fn is_variable_expr(
    e: TemplateBodyExpr,
    signature_index: usize,
    start: usize,
    end: usize,
) -> bool {
    e == (TemplateBodyExpr {
        kind: TemplateBodyExprKind::Variable(signature_index),
        range: ExprRange { start, end },
    })
}

/// `(.none)`: the empty expansion.
pub open spec fn is_none_macro(m: Macro) -> bool {
    &&& m.name matches Some(n) && n@ == "none"@
    &&& m.signature.spec_parameters().len() == 0
    &&& m.kind == MacroKind::Empty
    &&& m.expansion_analysis == conservative_analysis()
}

/// `values`: a user-addressable expression group, as the template
/// `(macro values (x*) x)`.
pub open spec fn is_values_macro(m: Macro) -> bool {
    &&& m.name matches Some(n) && n@ == "values"@
    &&& is_rest_param_signature(m.signature, "expr_group"@)
    &&& m.kind matches MacroKind::Template(b) && {
        &&& b.expressions@.len() == 1
        &&& is_variable_expr(b.expressions@[0], 0, 0, 1)
        &&& b.annotations_storage@.len() == 0
    }
    &&& m.expansion_analysis == conservative_analysis()
}

pub open spec fn is_make_string_macro(m: Macro) -> bool {
    &&& m.name matches Some(n) && n@ == "make_string"@
    &&& is_rest_param_signature(m.signature, "text_values"@)
    &&& m.kind == MacroKind::MakeString
    &&& m.expansion_analysis == singleton_analysis(IonType::String)
}

pub open spec fn is_make_sexp_macro(m: Macro) -> bool {
    &&& m.name matches Some(n) && n@ == "make_sexp"@
    &&& is_rest_param_signature(m.signature, "sequences"@)
    &&& m.kind == MacroKind::MakeSExp
    &&& m.expansion_analysis == singleton_analysis(IonType::SExp)
}

pub open spec fn is_annotate_macro(m: Macro) -> bool {
    &&& m.name matches Some(n) && n@ == "annotate"@
    &&& m.signature.spec_parameters().len() == 2
    &&& is_param(
        m.signature.spec_parameters()[0],
        "annotations"@,
        ParameterCardinality::ZeroOrMore,
        RestSyntaxPolicy::NotAllowed,
    )
    &&& is_param(
        m.signature.spec_parameters()[1],
        "value_to_annotate"@,
        ParameterCardinality::ExactlyOne,
        RestSyntaxPolicy::NotAllowed,
    )
    &&& m.kind == MacroKind::Annotate
    &&& m.expansion_analysis == (ExpansionAnalysis {
        could_produce_system_value: true,
        must_produce_exactly_one_value: true,
        can_be_lazily_evaluated_at_top_level: false,
        expansion_singleton: None,
    })
}

/// `set_symbols`: emits `$ion_encoding::((symbol_table [(%symbols)])
/// (macro_table $ion_encoding))`, replacing the active symbol table while
/// keeping the active macros.
pub open spec fn is_set_symbols_macro(m: Macro) -> bool {
    &&& m.name matches Some(n) && n@ == "set_symbols"@
    &&& is_rest_param_signature(m.signature, "symbols"@)
    &&& m.kind matches MacroKind::Template(b) && {
        &&& b.expressions@.len() == 8
        &&& is_annotated_sexp_expr(b.expressions@[0], 0, 1, 0, 8)
        &&& is_sexp_expr(b.expressions@[1], 1, 5)
        &&& is_symbol_expr(b.expressions@[2], "symbol_table"@, 2, 3)
        &&& is_list_expr(b.expressions@[3], 3, 5)
        &&& is_variable_expr(b.expressions@[4], 0, 4, 5)
        &&& is_sexp_expr(b.expressions@[5], 5, 8)
        &&& is_symbol_expr(b.expressions@[6], "macro_table"@, 6, 7)
        &&& is_symbol_expr(b.expressions@[7], "$ion_encoding"@, 7, 8)
        &&& b.annotations_storage@.len() == 1
        &&& b.annotations_storage@[0].spec_text() == "$ion_encoding"@
    }
    &&& m.expansion_analysis == directive_analysis()
}

/// `add_symbols`: emits `$ion_encoding::((symbol_table $ion_encoding
/// [(%symbols)]) (macro_table $ion_encoding))`, appending to the active
/// symbol table while keeping the active macros.
pub open spec fn is_add_symbols_macro(m: Macro) -> bool {
    &&& m.name matches Some(n) && n@ == "add_symbols"@
    &&& is_rest_param_signature(m.signature, "symbols"@)
    &&& m.kind matches MacroKind::Template(b) && {
        &&& b.expressions@.len() == 9
        &&& is_annotated_sexp_expr(b.expressions@[0], 0, 1, 0, 9)
        &&& is_sexp_expr(b.expressions@[1], 1, 6)
        &&& is_symbol_expr(b.expressions@[2], "symbol_table"@, 2, 3)
        &&& is_symbol_expr(b.expressions@[3], "$ion_encoding"@, 3, 4)
        &&& is_list_expr(b.expressions@[4], 4, 6)
        &&& is_variable_expr(b.expressions@[5], 0, 5, 6)
        &&& is_sexp_expr(b.expressions@[6], 6, 9)
        &&& is_symbol_expr(b.expressions@[7], "macro_table"@, 7, 8)
        &&& is_symbol_expr(b.expressions@[8], "$ion_encoding"@, 8, 9)
        &&& b.annotations_storage@.len() == 1
        &&& b.annotations_storage@[0].spec_text() == "$ion_encoding"@
    }
    &&& m.expansion_analysis == directive_analysis()
}

/// `set_macros`: emits `$ion_encoding::((symbol_table $ion_encoding)
/// (macro_table (%macro_definitions)))`, replacing the active macro table
/// while keeping the active symbols.
pub open spec fn is_set_macros_macro(m: Macro) -> bool {
    &&& m.name matches Some(n) && n@ == "set_macros"@
    &&& is_rest_param_signature(m.signature, "macro_definitions"@)
    &&& m.kind matches MacroKind::Template(b) && {
        &&& b.expressions@.len() == 7
        &&& is_annotated_sexp_expr(b.expressions@[0], 0, 1, 0, 7)
        &&& is_sexp_expr(b.expressions@[1], 1, 4)
        &&& is_symbol_expr(b.expressions@[2], "symbol_table"@, 2, 3)
        &&& is_symbol_expr(b.expressions@[3], "$ion_encoding"@, 3, 4)
        &&& is_sexp_expr(b.expressions@[4], 4, 7)
        &&& is_symbol_expr(b.expressions@[5], "macro_table"@, 5, 6)
        &&& is_variable_expr(b.expressions@[6], 0, 6, 7)
        &&& b.annotations_storage@.len() == 1
        &&& b.annotations_storage@[0].spec_text() == "$ion_encoding"@
    }
    &&& m.expansion_analysis == directive_analysis()
}

/// `add_macros`: emits `$ion_encoding::((symbol_table $ion_encoding)
/// (macro_table $ion_encoding (%macro_definitions)))`, appending to the
/// active macro table while keeping the active symbols.
pub open spec fn is_add_macros_macro(m: Macro) -> bool {
    &&& m.name matches Some(n) && n@ == "add_macros"@
    &&& is_rest_param_signature(m.signature, "macro_definitions"@)
    &&& m.kind matches MacroKind::Template(b) && {
        &&& b.expressions@.len() == 8
        &&& is_annotated_sexp_expr(b.expressions@[0], 0, 1, 0, 8)
        &&& is_sexp_expr(b.expressions@[1], 1, 4)
        &&& is_symbol_expr(b.expressions@[2], "symbol_table"@, 2, 3)
        &&& is_symbol_expr(b.expressions@[3], "$ion_encoding"@, 3, 4)
        &&& is_sexp_expr(b.expressions@[4], 4, 8)
        &&& is_symbol_expr(b.expressions@[5], "macro_table"@, 5, 6)
        &&& is_symbol_expr(b.expressions@[6], "$ion_encoding"@, 6, 7)
        &&& is_variable_expr(b.expressions@[7], 0, 7, 8)
        &&& b.annotations_storage@.len() == 1
        &&& b.annotations_storage@[0].spec_text() == "$ion_encoding"@
    }
    &&& m.expansion_analysis == directive_analysis()
}

/// The fixed system macro set, in address order.
pub open spec fn is_system_macro_seq(s: Seq<Macro>) -> bool {
    &&& s.len() == NUM_SYSTEM_MACROS
    &&& is_none_macro(s[0])
    &&& is_values_macro(s[1])
    &&& is_make_string_macro(s[2])
    &&& is_make_sexp_macro(s[3])
    &&& is_annotate_macro(s[4])
    &&& is_set_symbols_macro(s[5])
    &&& is_add_symbols_macro(s[6])
    &&& is_set_macros_macro(s[7])
    &&& is_add_macros_macro(s[8])
}


/// The nine system macro names are pairwise distinct.
proof fn lemma_system_names_distinct(s: Seq<Macro>)
    requires
        is_system_macro_seq(s),
    ensures
        forall|i: int, j: int|
            0 <= i < j < s.len() ==> (#[trigger] s[i]).name->Some_0@ != (
            #[trigger] s[j]).name->Some_0@,
{
    reveal_strlit("none");
    reveal_strlit("values");
    reveal_strlit("make_string");
    reveal_strlit("make_sexp");
    reveal_strlit("annotate");
    reveal_strlit("set_symbols");
    reveal_strlit("add_symbols");
    reveal_strlit("set_macros");
    reveal_strlit("add_macros");
    // Names of equal length differ in their first character; the rest
    // differ in length already.
    assert("make_string"@[0] != "set_symbols"@[0]);
    assert("make_string"@[0] != "add_symbols"@[0]);
    assert("set_symbols"@[0] != "add_symbols"@[0]);
    assert("set_macros"@[0] != "add_macros"@[0]);
    assert forall|i: int, j: int|
        0 <= i < j < s.len() implies (#[trigger] s[i]).name->Some_0@ != (
        #[trigger] s[j]).name->Some_0@ by {
        assert(system_macro_name(s, i) == system_literal(i));
        assert(system_macro_name(s, j) == system_literal(j));
        assert(system_literal(i) != system_literal(j));
    }
}

/// The name of the system macro at index `i` of `s`.
spec fn system_macro_name(s: Seq<Macro>, i: int) -> Seq<char> {
    s[i].name->Some_0@
}

/// The expected name of the system macro at address `i`.
spec fn system_literal(i: int) -> Seq<char> {
    if i == 0 {
        "none"@
    } else if i == 1 {
        "values"@
    } else if i == 2 {
        "make_string"@
    } else if i == 3 {
        "make_sexp"@
    } else if i == 4 {
        "annotate"@
    } else if i == 5 {
        "set_symbols"@
    } else if i == 6 {
        "add_symbols"@
    } else if i == 7 {
        "set_macros"@
    } else {
        "add_macros"@
    }
}

/// Every system macro is well-formed: valid signature, well-formed template
/// body that stays within the signature's arity, and an internally
/// consistent analysis.
pub proof fn lemma_system_macros_well_formed(s: Seq<Macro>)
    requires
        is_system_macro_seq(s),
    ensures
        forall|i: int| 0 <= i < s.len() ==> macro_well_formed(#[trigger] s[i]),
{
    assert forall|i: int| 0 <= i < s.len() implies macro_well_formed(#[trigger] s[i]) by {
        if i == 1 {
            let b = s[1].kind->Template_0;
            assert forall|k: int| 0 <= k < b.expressions@.len() implies expr_well_formed_at(
                b.expressions@, k) by {}
        } else if i == 5 {
            let b = s[5].kind->Template_0;
            assert forall|k: int| 0 <= k < b.expressions@.len() implies expr_well_formed_at(
                b.expressions@, k) by {}
        } else if i == 6 {
            let b = s[6].kind->Template_0;
            assert forall|k: int| 0 <= k < b.expressions@.len() implies expr_well_formed_at(
                b.expressions@, k) by {}
        } else if i == 7 {
            let b = s[7].kind->Template_0;
            assert forall|k: int| 0 <= k < b.expressions@.len() implies expr_well_formed_at(
                b.expressions@, k) by {}
        } else if i == 8 {
            let b = s[8].kind->Template_0;
            assert forall|k: int| 0 <= k < b.expressions@.len() implies expr_well_formed_at(
                b.expressions@, k) by {}
        }
    }
}

/// Builds the signature of one zero-or-more, rest-eligible parameter.
fn rest_param_signature(name: &str) -> (s: MacroSignature)
    ensures
        is_rest_param_signature(s, name@),
{
    let params = vec![
        Parameter::new(
            name,
            ParameterEncoding::Tagged,
            ParameterCardinality::ZeroOrMore,
            RestSyntaxPolicy::Allowed,
        ),
    ];
    match MacroSignature::new(params) {
        Ok(s) => s,
        Err(_) => vstd::pervasive::unreached(),
    }
}

fn system_macro_none() -> (m: Macro)
    ensures
        is_none_macro(m),
{
    let signature = match MacroSignature::new(Vec::new()) {
        Ok(s) => s,
        Err(_) => vstd::pervasive::unreached(),
    };
    Macro::named(
        "none",
        signature,
        MacroKind::Empty,
        ExpansionAnalysis {
            could_produce_system_value: false,
            must_produce_exactly_one_value: false,
            // Lazy evaluation hands the caller a handle to a single
            // deferred value; an expansion of zero values has no such
            // handle to give.
            can_be_lazily_evaluated_at_top_level: false,
            expansion_singleton: None,
        },
    )
}

fn system_macro_values() -> (m: Macro)
    ensures
        is_values_macro(m),
{
    Macro::from_template_macro(
        TemplateMacro {
            name: Some("values".to_owned()),
            signature: rest_param_signature("expr_group"),
            body: TemplateBody {
                expressions: vec![TemplateBodyExpr::variable(0, ExprRange::new(0, 1))],
                annotations_storage: Vec::new(),
            },
            expansion_analysis: ExpansionAnalysis::default(),
        },
    )
}

fn system_macro_make_string() -> (m: Macro)
    ensures
        is_make_string_macro(m),
{
    Macro::named(
        "make_string",
        rest_param_signature("text_values"),
        MacroKind::MakeString,
        ExpansionAnalysis {
            could_produce_system_value: false,
            must_produce_exactly_one_value: true,
            can_be_lazily_evaluated_at_top_level: true,
            expansion_singleton: Some(
                ExpansionSingleton {
                    is_null: false,
                    ion_type: IonType::String,
                    num_annotations: 0,
                },
            ),
        },
    )
}

fn system_macro_make_sexp() -> (m: Macro)
    ensures
        is_make_sexp_macro(m),
{
    Macro::named(
        "make_sexp",
        rest_param_signature("sequences"),
        MacroKind::MakeSExp,
        ExpansionAnalysis {
            // `make_sexp` produces an unannotated s-expression, which
            // cannot be a system value on its own; it would have to be
            // nested in a call to `annotate`.
            could_produce_system_value: false,
            must_produce_exactly_one_value: true,
            can_be_lazily_evaluated_at_top_level: true,
            expansion_singleton: Some(
                ExpansionSingleton { is_null: false, ion_type: IonType::SExp, num_annotations: 0 },
            ),
        },
    )
}

fn system_macro_annotate() -> (m: Macro)
    ensures
        is_annotate_macro(m),
{
    let params = vec![
        Parameter::new(
            "annotations",
            ParameterEncoding::Tagged,
            ParameterCardinality::ZeroOrMore,
            RestSyntaxPolicy::NotAllowed,
        ),
        Parameter::new(
            "value_to_annotate",
            ParameterEncoding::Tagged,
            ParameterCardinality::ExactlyOne,
            RestSyntaxPolicy::NotAllowed,
        ),
    ];
    let signature = match MacroSignature::new(params) {
        Ok(s) => s,
        Err(_) => vstd::pervasive::unreached(),
    };
    Macro::named(
        "annotate",
        signature,
        MacroKind::Annotate,
        ExpansionAnalysis {
            could_produce_system_value: true,
            must_produce_exactly_one_value: true,
            can_be_lazily_evaluated_at_top_level: false,
            expansion_singleton: None,
        },
    )
}

/// The analysis shared by the four encoding-directive templates.
fn directive_expansion_analysis() -> (a: ExpansionAnalysis)
    ensures
        a == directive_analysis(),
{
    ExpansionAnalysis {
        could_produce_system_value: true,
        must_produce_exactly_one_value: true,
        can_be_lazily_evaluated_at_top_level: false,
        expansion_singleton: Some(
            ExpansionSingleton { is_null: false, ion_type: IonType::SExp, num_annotations: 1 },
        ),
    }
}

fn system_macro_set_symbols() -> (m: Macro)
    ensures
        is_set_symbols_macro(m),
{
    let expressions = vec![
        // The `$ion_encoding::(...)` s-expression; its annotation is the
        // first entry of the annotations storage below.
        TemplateBodyExpr::element(
            TemplateBodyElement::with_value(TemplateValue::SExp).with_annotations(0, 1),
            ExprRange::new(0, 8),
        ),
        // The `(symbol_table ...)` s-expression.
        TemplateBodyExpr::element(
            TemplateBodyElement::with_value(TemplateValue::SExp),
            ExprRange::new(1, 5),
        ),
        TemplateBodyExpr::element(
            TemplateBodyElement::with_value(TemplateValue::Symbol(Symbol::owned("symbol_table"))),
            ExprRange::new(2, 3),
        ),
        // The list that receives the expanded `symbols` variable. The
        // symbol literal `$ion_encoding` is absent here: the existing
        // symbol table is replaced.
        TemplateBodyExpr::element(
            TemplateBodyElement::with_value(TemplateValue::List),
            ExprRange::new(3, 5),
        ),
        TemplateBodyExpr::variable(0, ExprRange::new(4, 5)),
        // The `(macro_table $ion_encoding)` s-expression.
        TemplateBodyExpr::element(
            TemplateBodyElement::with_value(TemplateValue::SExp),
            ExprRange::new(5, 8),
        ),
        TemplateBodyExpr::element(
            TemplateBodyElement::with_value(TemplateValue::Symbol(Symbol::owned("macro_table"))),
            ExprRange::new(6, 7),
        ),
        TemplateBodyExpr::element(
            TemplateBodyElement::with_value(TemplateValue::Symbol(Symbol::owned("$ion_encoding"))),
            ExprRange::new(7, 8),
        ),
    ];
    Macro::from_template_macro(
        TemplateMacro {
            name: Some("set_symbols".to_owned()),
            signature: rest_param_signature("symbols"),
            body: TemplateBody {
                expressions,
                annotations_storage: vec![Symbol::owned("$ion_encoding")],
            },
            expansion_analysis: directive_expansion_analysis(),
        },
    )
}

fn system_macro_add_symbols() -> (m: Macro)
    ensures
        is_add_symbols_macro(m),
{
    let expressions = vec![
        // The `$ion_encoding::(...)` s-expression.
        TemplateBodyExpr::element(
            TemplateBodyElement::with_value(TemplateValue::SExp).with_annotations(0, 1),
            ExprRange::new(0, 9),
        ),
        // The `(symbol_table $ion_encoding [...])` s-expression: the
        // module name keeps the active symbols, the list adds more.
        TemplateBodyExpr::element(
            TemplateBodyElement::with_value(TemplateValue::SExp),
            ExprRange::new(1, 6),
        ),
        TemplateBodyExpr::element(
            TemplateBodyElement::with_value(TemplateValue::Symbol(Symbol::owned("symbol_table"))),
            ExprRange::new(2, 3),
        ),
        TemplateBodyExpr::element(
            TemplateBodyElement::with_value(TemplateValue::Symbol(Symbol::owned("$ion_encoding"))),
            ExprRange::new(3, 4),
        ),
        TemplateBodyExpr::element(
            TemplateBodyElement::with_value(TemplateValue::List),
            ExprRange::new(4, 6),
        ),
        TemplateBodyExpr::variable(0, ExprRange::new(5, 6)),
        // The `(macro_table $ion_encoding)` s-expression.
        TemplateBodyExpr::element(
            TemplateBodyElement::with_value(TemplateValue::SExp),
            ExprRange::new(6, 9),
        ),
        TemplateBodyExpr::element(
            TemplateBodyElement::with_value(TemplateValue::Symbol(Symbol::owned("macro_table"))),
            ExprRange::new(7, 8),
        ),
        TemplateBodyExpr::element(
            TemplateBodyElement::with_value(TemplateValue::Symbol(Symbol::owned("$ion_encoding"))),
            ExprRange::new(8, 9),
        ),
    ];
    Macro::from_template_macro(
        TemplateMacro {
            name: Some("add_symbols".to_owned()),
            signature: rest_param_signature("symbols"),
            body: TemplateBody {
                expressions,
                annotations_storage: vec![Symbol::owned("$ion_encoding")],
            },
            expansion_analysis: directive_expansion_analysis(),
        },
    )
}

fn system_macro_set_macros() -> (m: Macro)
    ensures
        is_set_macros_macro(m),
{
    let expressions = vec![
        // The `$ion_encoding::(...)` s-expression.
        TemplateBodyExpr::element(
            TemplateBodyElement::with_value(TemplateValue::SExp).with_annotations(0, 1),
            ExprRange::new(0, 7),
        ),
        // The `(symbol_table $ion_encoding)` s-expression.
        TemplateBodyExpr::element(
            TemplateBodyElement::with_value(TemplateValue::SExp),
            ExprRange::new(1, 4),
        ),
        TemplateBodyExpr::element(
            TemplateBodyElement::with_value(TemplateValue::Symbol(Symbol::owned("symbol_table"))),
            ExprRange::new(2, 3),
        ),
        TemplateBodyExpr::element(
            TemplateBodyElement::with_value(TemplateValue::Symbol(Symbol::owned("$ion_encoding"))),
            ExprRange::new(3, 4),
        ),
        // The `(macro_table ...)` s-expression. The module name is absent
        // here: the existing macro table is replaced.
        TemplateBodyExpr::element(
            TemplateBodyElement::with_value(TemplateValue::SExp),
            ExprRange::new(4, 7),
        ),
        TemplateBodyExpr::element(
            TemplateBodyElement::with_value(TemplateValue::Symbol(Symbol::owned("macro_table"))),
            ExprRange::new(5, 6),
        ),
        TemplateBodyExpr::variable(0, ExprRange::new(6, 7)),
    ];
    Macro::from_template_macro(
        TemplateMacro {
            name: Some("set_macros".to_owned()),
            signature: rest_param_signature("macro_definitions"),
            body: TemplateBody {
                expressions,
                annotations_storage: vec![Symbol::owned("$ion_encoding")],
            },
            expansion_analysis: directive_expansion_analysis(),
        },
    )
}

fn system_macro_add_macros() -> (m: Macro)
    ensures
        is_add_macros_macro(m),
{
    let expressions = vec![
        // The `$ion_encoding::(...)` s-expression.
        TemplateBodyExpr::element(
            TemplateBodyElement::with_value(TemplateValue::SExp).with_annotations(0, 1),
            ExprRange::new(0, 8),
        ),
        // The `(symbol_table $ion_encoding)` s-expression.
        TemplateBodyExpr::element(
            TemplateBodyElement::with_value(TemplateValue::SExp),
            ExprRange::new(1, 4),
        ),
        TemplateBodyExpr::element(
            TemplateBodyElement::with_value(TemplateValue::Symbol(Symbol::owned("symbol_table"))),
            ExprRange::new(2, 3),
        ),
        TemplateBodyExpr::element(
            TemplateBodyElement::with_value(TemplateValue::Symbol(Symbol::owned("$ion_encoding"))),
            ExprRange::new(3, 4),
        ),
        // The `(macro_table $ion_encoding ...)` s-expression: the module
        // name keeps the active macros, the variable adds more.
        TemplateBodyExpr::element(
            TemplateBodyElement::with_value(TemplateValue::SExp),
            ExprRange::new(4, 8),
        ),
        TemplateBodyExpr::element(
            TemplateBodyElement::with_value(TemplateValue::Symbol(Symbol::owned("macro_table"))),
            ExprRange::new(5, 6),
        ),
        TemplateBodyExpr::element(
            TemplateBodyElement::with_value(TemplateValue::Symbol(Symbol::owned("$ion_encoding"))),
            ExprRange::new(6, 7),
        ),
        TemplateBodyExpr::variable(0, ExprRange::new(7, 8)),
    ];
    Macro::from_template_macro(
        TemplateMacro {
            name: Some("add_macros".to_owned()),
            signature: rest_param_signature("macro_definitions"),
            body: TemplateBody {
                expressions,
                annotations_storage: vec![Symbol::owned("$ion_encoding")],
            },
            expansion_analysis: directive_expansion_analysis(),
        },
    )
}

impl MacroTable {
    /// Hand-compiles the fixed system macros, in address order.
    fn compile_system_macros() -> (v: Vec<Rc<Macro>>)
        ensures
            is_system_macro_seq(deref_macros(v@)),
    {
        let v: Vec<Rc<Macro>> = vec![
            Rc::new(system_macro_none()),
            Rc::new(system_macro_values()),
            Rc::new(system_macro_make_string()),
            Rc::new(system_macro_make_sexp()),
            Rc::new(system_macro_annotate()),
            Rc::new(system_macro_set_symbols()),
            Rc::new(system_macro_add_symbols()),
            Rc::new(system_macro_set_macros()),
            Rc::new(system_macro_add_macros()),
        ];
        v
    }

    /// Assembles the system macro table: the compiled system macros, with
    /// every one of them indexed under its name at its own address.
    pub(crate) fn construct_system_macro_table() -> (t: Self)
        ensures
            t.well_formed(),
            is_system_macro_seq(t.spec_macros()),
    {
        let macros_by_id = Self::compile_system_macros();
        let ghost mac_seq = deref_macros(macros_by_id@);
        proof {
            lemma_system_names_distinct(mac_seq);
        }
        let mut macros_by_name = name_index::new_index();
        let mut id: usize = 0;
        while id < macros_by_id.len()
            invariant
                macros_by_id@.len() == mac_seq.len(),
                mac_seq == deref_macros(macros_by_id@),
                is_system_macro_seq(mac_seq),
                0 <= id <= mac_seq.len(),
                forall|i: int, j: int|
                    0 <= i < j < mac_seq.len() ==> (#[trigger] mac_seq[i]).name->Some_0@ != (
                    #[trigger] mac_seq[j]).name->Some_0@,
                forall|n: Seq<char>| #[trigger]
                    name_index::entries(macros_by_name).contains_key(n) ==> name_index::entries(
                        macros_by_name)[n] < id && (mac_seq[name_index::entries(macros_by_name)[
                        n] as int].name matches Some(nm) && nm@ == n),
                forall|i: int|
                    0 <= i < id ==> ((#[trigger] mac_seq[i]).name matches Some(nm)
                        ==> name_index::entries(macros_by_name).contains_key(nm@)
                        && name_index::entries(macros_by_name)[nm@] == i),
            decreases macros_by_id@.len() - id,
        {
            let mac: &Macro = &macros_by_id[id];
            proof {
                assert(*mac == mac_seq[id as int]);
            }
            match mac.name() {
                Some(name) => {
                    name_index::insert_name(&mut macros_by_name, name.to_owned(), id);
                },
                None => {},
            }
            id = id + 1;
        }
        let t = MacroTable::from_parts(macros_by_id, macros_by_name);
        proof {
            assert(t.spec_macros() == mac_seq);
        }
        t
    }

    /// A table pre-populated with the system macros: the common starting
    /// point for a consuming context, which then extends its own copy.
    pub fn with_system_macros() -> (t: Self)
        ensures
            t.well_formed(),
            is_system_macro_seq(t.spec_macros()),
    {
        Self::construct_system_macro_table()
    }
}

impl Default for MacroTable {
    /// The default table is the system macro table.
    fn default() -> (t: Self)
        ensures
            t.well_formed(),
            is_system_macro_seq(t.spec_macros()),
    {
        Self::with_system_macros()
    }
}

} // verus!
