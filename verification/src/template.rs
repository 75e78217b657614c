use vstd::prelude::*;

use crate::analysis::ExpansionAnalysis;
use crate::errors::IonError;
use crate::value::Symbol;

verus! {

/// How an argument bound to a parameter is encoded in an invocation.
#[derive(Clone, Copy, Debug, PartialEq, Eq, Structural)]
pub enum ParameterEncoding {
    /// The argument is an ordinary value preceded by its own opcode.
    Tagged,
}

/// How many argument expressions an invocation may bind to a parameter.
#[derive(Clone, Copy, Debug, PartialEq, Eq, Structural)]
pub enum ParameterCardinality {
    ExactlyOne,
    ZeroOrOne,
    ZeroOrMore,
    OneOrMore,
}

/// Whether, when this parameter is the last one, an invocation may supply its
/// arguments as a trailing unbracketed run instead of an explicit group.
#[derive(Clone, Copy, Debug, PartialEq, Eq, Structural)]
pub enum RestSyntaxPolicy {
    Allowed,
    NotAllowed,
}

/// A formal parameter of a macro signature. Immutable once constructed.
#[derive(Clone, Debug, PartialEq, Eq)]
pub struct Parameter {
    name: String,
    encoding: ParameterEncoding,
    cardinality: ParameterCardinality,
    rest_syntax_policy: RestSyntaxPolicy,
}

impl Parameter {
    pub closed spec fn spec_name(&self) -> Seq<char> {
        self.name@
    }

    pub closed spec fn spec_encoding(&self) -> ParameterEncoding {
        self.encoding
    }

    pub closed spec fn spec_cardinality(&self) -> ParameterCardinality {
        self.cardinality
    }

    pub closed spec fn spec_rest_syntax_policy(&self) -> RestSyntaxPolicy {
        self.rest_syntax_policy
    }

    pub fn new(
        name: &str,
        encoding: ParameterEncoding,
        cardinality: ParameterCardinality,
        rest_syntax_policy: RestSyntaxPolicy,
    ) -> (p: Parameter)
        ensures
            p.spec_name() == name@,
            p.spec_encoding() == encoding,
            p.spec_cardinality() == cardinality,
            p.spec_rest_syntax_policy() == rest_syntax_policy,
    {
        Parameter { name: name.to_owned(), encoding, cardinality, rest_syntax_policy }
    }

    pub fn name(&self) -> (n: &str)
        ensures
            n@ == self.spec_name(),
    {
        self.name.as_str()
    }

    pub fn encoding(&self) -> (e: ParameterEncoding)
        ensures
            e == self.spec_encoding(),
    {
        self.encoding
    }

    pub fn cardinality(&self) -> (c: ParameterCardinality)
        ensures
            c == self.spec_cardinality(),
    {
        self.cardinality
    }

    pub fn rest_syntax_policy(&self) -> (r: RestSyntaxPolicy)
        ensures
            r == self.spec_rest_syntax_policy(),
    {
        self.rest_syntax_policy
    }

    /// Whether this parameter may receive its arguments in rest syntax.
    pub fn is_rest_eligible(&self) -> (r: bool)
        ensures
            r == (self.spec_rest_syntax_policy() == RestSyntaxPolicy::Allowed),
    {
        self.rest_syntax_policy == RestSyntaxPolicy::Allowed
    }
}

/// A parameter list is structurally valid when no parameter that forbids rest
/// syntax follows a rest-eligible one: once a rest-eligible parameter
/// appears, every later parameter must be rest-eligible as well.
pub open spec fn parameters_valid(params: Seq<Parameter>) -> bool {
    forall|i: int, j: int|
        0 <= i < j < params.len() && (#[trigger] params[i]).spec_rest_syntax_policy()
            == RestSyntaxPolicy::Allowed ==> (#[trigger] params[j]).spec_rest_syntax_policy()
            == RestSyntaxPolicy::Allowed
}

/// The ordered formal parameters a macro accepts; the order is the positional
/// binding order for invocations. Structural validity is checked once, here,
/// and never re-checked by the macro or table code that carries a signature.
#[derive(Clone, Debug, PartialEq, Eq)]
pub struct MacroSignature {
    parameters: Vec<Parameter>,
}

impl MacroSignature {
    pub closed spec fn spec_parameters(&self) -> Seq<Parameter> {
        self.parameters@
    }

    /// Validates and wraps a parameter list. Returns an error naming the
    /// first parameter that forbids rest syntax yet follows a rest-eligible
    /// parameter; succeeds exactly when no such parameter exists.
    pub fn new(parameters: Vec<Parameter>) -> (r: Result<MacroSignature, IonError>)
        ensures
            (match r {
                Ok(s) => parameters_valid(parameters@) && s.spec_parameters() == parameters@,
                Err(e) => !parameters_valid(parameters@) && (e matches
                    IonError::InvalidMacroSignature(_)),
            }),
    {
        let mut i: usize = 0;
        let mut seen_rest: bool = false;
        while i < parameters.len()
            invariant
                0 <= i <= parameters.len(),
                seen_rest == exists|k: int|
                    0 <= k < i && (#[trigger] parameters@[k]).spec_rest_syntax_policy()
                        == RestSyntaxPolicy::Allowed,
                forall|k: int, l: int|
                    0 <= k < l < i && (#[trigger] parameters@[k]).spec_rest_syntax_policy()
                        == RestSyntaxPolicy::Allowed ==> (#[trigger] parameters@[l]).spec_rest_syntax_policy()
                        == RestSyntaxPolicy::Allowed,
            decreases parameters.len() - i,
        {
            let p = &parameters[i];
            if seen_rest && !p.is_rest_eligible() {
                return Err(IonError::InvalidMacroSignature(p.name().to_owned()));
            }
            if p.is_rest_eligible() {
                seen_rest = true;
            }
            i = i + 1;
        }
        Ok(MacroSignature { parameters })
    }

    pub fn parameters(&self) -> (params: &Vec<Parameter>)
        ensures
            params@ == self.spec_parameters(),
    {
        &self.parameters
    }

    pub fn len(&self) -> (n: usize)
        ensures
            n == self.spec_parameters().len(),
    {
        self.parameters.len()
    }
}

/// A half-open range of indices into a template body's flattened expression
/// sequence. An expression's range starts at its own index and ends just past
/// its last descendant.
#[derive(Clone, Copy, Debug, PartialEq, Eq, Structural)]
pub struct ExprRange {
    pub start: usize,
    pub end: usize,
}

impl ExprRange {
    pub fn new(start: usize, end: usize) -> (r: ExprRange)
        ensures
            r == (ExprRange { start, end }),
    {
        ExprRange { start, end }
    }
}

/// A half-open range of indices into a template body's annotations storage.
#[derive(Clone, Copy, Debug, PartialEq, Eq, Structural)]
pub struct AnnotationsRange {
    pub start: usize,
    pub end: usize,
}

/// A value that a template body's literal node expands to.
#[derive(Clone, Debug, PartialEq, Eq)]
pub enum TemplateValue {
    Null,
    Bool(bool),
    Int(i64),
    String(String),
    Symbol(Symbol),
    List,
    SExp,
    Struct,
}

/// A literal value node in a template body: a value together with the range
/// of the body's annotations storage holding its annotations, if any.
#[derive(Clone, Debug, PartialEq, Eq)]
pub struct TemplateBodyElement {
    pub value: TemplateValue,
    pub annotations_range: Option<AnnotationsRange>,
}

impl TemplateBodyElement {
    pub fn with_value(value: TemplateValue) -> (e: TemplateBodyElement)
        ensures
            e == (TemplateBodyElement { value, annotations_range: None }),
    {
        TemplateBodyElement { value, annotations_range: None }
    }

    pub fn with_annotations(self, start: usize, end: usize) -> (e: TemplateBodyElement)
        ensures
            e == (TemplateBodyElement {
                value: self.value,
                annotations_range: Some(AnnotationsRange { start, end }),
            }),
    {
        TemplateBodyElement {
            value: self.value,
            annotations_range: Some(AnnotationsRange { start, end }),
        }
    }
}

/// What a template body expression is: a literal value node, or a reference
/// to a signature parameter by position.
#[derive(Clone, Debug, PartialEq, Eq)]
pub enum TemplateBodyExprKind {
    Element(TemplateBodyElement),
    Variable(usize),
}

/// One node of a flattened template body, paired with the subtree range that
/// lets a consumer skip the whole subtree without interpreting its contents.
#[derive(Clone, Debug, PartialEq, Eq)]
pub struct TemplateBodyExpr {
    pub kind: TemplateBodyExprKind,
    pub range: ExprRange,
}

impl TemplateBodyExpr {
    pub fn element(element: TemplateBodyElement, range: ExprRange) -> (e: TemplateBodyExpr)
        ensures
            e == (TemplateBodyExpr { kind: TemplateBodyExprKind::Element(element), range }),
    {
        TemplateBodyExpr { kind: TemplateBodyExprKind::Element(element), range }
    }

    pub fn variable(signature_index: usize, range: ExprRange) -> (e: TemplateBodyExpr)
        ensures
            e == (TemplateBodyExpr {
                kind: TemplateBodyExprKind::Variable(signature_index),
                range,
            }),
    {
        TemplateBodyExpr { kind: TemplateBodyExprKind::Variable(signature_index), range }
    }

    pub fn kind(&self) -> (k: &TemplateBodyExprKind)
        ensures
            k == &self.kind,
    {
        &self.kind
    }

    pub fn range(&self) -> (r: ExprRange)
        ensures
            r == self.range,
    {
        self.range
    }
}

/// A macro's expansion body: a flattened pre-order walk of an expression
/// tree, plus the shared pool of annotation symbols that the body's
/// elements draw from.
#[derive(Clone, Debug, PartialEq, Eq)]
pub struct TemplateBody {
    pub expressions: Vec<TemplateBodyExpr>,
    pub annotations_storage: Vec<Symbol>,
}

/// The flattened-tree invariant of one expression at index `i`: its range
/// starts at its own index, spans at least itself, stays inside the body,
/// closes over every descendant's range, and a variable node is a leaf.
pub open spec fn expr_well_formed_at(exprs: Seq<TemplateBodyExpr>, i: int) -> bool {
    &&& exprs[i].range.start == i
    &&& i < exprs[i].range.end <= exprs.len()
    &&& (exprs[i].kind matches TemplateBodyExprKind::Variable(_) ==> exprs[i].range.end == i + 1)
    &&& forall|k: int|
        i < k < exprs[i].range.end ==> (#[trigger] exprs[k].range).end <= exprs[i].range.end
}

/// The flattened-tree invariant of a whole expression sequence.
pub open spec fn exprs_well_formed(exprs: Seq<TemplateBodyExpr>) -> bool {
    forall|i: int| 0 <= i < exprs.len() ==> #[trigger] expr_well_formed_at(exprs, i)
}

/// A whole template body is well-formed when its expression sequence is and
/// every element's annotations range lies inside the annotations storage.
pub open spec fn template_body_well_formed(body: TemplateBody) -> bool {
    &&& exprs_well_formed(body.expressions@)
    &&& forall|i: int|
        0 <= i < body.expressions@.len() ==> ((#[trigger] body.expressions@[i]).kind matches
            TemplateBodyExprKind::Element(e) ==> (e.annotations_range matches Some(r)
            ==> r.start <= r.end <= body.annotations_storage@.len()))
}

/// A template body speaks only of parameters that a signature of `n_params`
/// parameters actually has.
pub open spec fn body_matches_arity(body: TemplateBody, n_params: int) -> bool {
    forall|i: int|
        0 <= i < body.expressions@.len() ==> ((#[trigger] body.expressions@[i]).kind matches
            TemplateBodyExprKind::Variable(p) ==> p < n_params)
}

/// Range nesting: in a well-formed expression sequence, every expression `k`
/// strictly inside the subtree range of the expression at `i` has a range
/// fully contained in that subtree range.
pub proof fn lemma_range_nesting(exprs: Seq<TemplateBodyExpr>, i: int, k: int)
    requires
        exprs_well_formed(exprs),
        0 <= i < exprs.len(),
        i < k < exprs[i].range.end,
    ensures
        exprs[k].range.start == k,
        i < exprs[k].range.start,
        exprs[k].range.end <= exprs[i].range.end,
{
    assert(expr_well_formed_at(exprs, i));
    assert(expr_well_formed_at(exprs, k));
}

/// Sibling subtrees are disjoint and contiguous: when the expression at `j`
/// stands at or past the end of the subtree of the expression at `k`, the
/// two subtree ranges do not overlap, and the subtree that begins exactly at
/// `k`'s end starts where `k`'s subtree stops.
pub proof fn lemma_sibling_ranges_disjoint(exprs: Seq<TemplateBodyExpr>, k: int, j: int)
    requires
        exprs_well_formed(exprs),
        0 <= k < exprs.len(),
        0 <= j < exprs.len(),
        exprs[k].range.end <= j,
    ensures
        exprs[k].range.end <= exprs[j].range.start,
        j == exprs[k].range.end ==> exprs[j].range.start == exprs[k].range.end,
{
    assert(expr_well_formed_at(exprs, j));
}

/// A compiled macro definition, ready to be added to a table: an optional
/// name, a validated signature, a flattened body, and the analysis derived
/// when the macro was defined.
#[derive(Clone, Debug, PartialEq)]
pub struct TemplateMacro {
    pub name: Option<String>,
    pub signature: MacroSignature,
    pub body: TemplateBody,
    pub expansion_analysis: ExpansionAnalysis,
}

} // verus!
