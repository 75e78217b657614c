use vstd::prelude::*;

use std::rc::Rc;

use crate::analysis::ExpansionAnalysis;
use crate::errors::IonError;
use crate::name_index;
use crate::name_index::NameIndex;
use crate::template::MacroSignature;
use crate::template::TemplateBody;
use crate::template::TemplateMacro;

verus! {

/// The number of built-in system macros; a freshly bootstrapped table holds
/// exactly this many entries, at addresses `0..NUM_SYSTEM_MACROS`.
pub const NUM_SYSTEM_MACROS: usize = 9;

/// The first address handed to a user-defined macro added to a table that
/// starts from the system macros.
pub const FIRST_USER_MACRO_ID: usize = NUM_SYSTEM_MACROS;

/// The kinds of macro a table can hold: the built-in primitives, whose
/// evaluation semantics are native to the evaluator, and template-defined
/// macros, whose expansion is spelled out by a `TemplateBody`.
#[derive(Clone, Debug, PartialEq)]
pub enum MacroKind {
    /// The `none` primitive: expands to the empty stream.
    Empty,
    /// An expression group made addressable as a macro.
    ExprGroup,
    MakeString,
    MakeSExp,
    Annotate,
    /// Any macro (system or user) defined by a template expansion.
    Template(TemplateBody),
}

/// A named or anonymous, parameterized macro definition, together with the
/// expansion analysis derived when it was defined. Immutable after
/// construction.
#[derive(Clone, Debug, PartialEq)]
pub struct Macro {
    pub name: Option<String>,
    pub signature: MacroSignature,
    pub kind: MacroKind,
    pub expansion_analysis: ExpansionAnalysis,
}

/// The `Macro` that a compiled template turns into when it is added to a
/// table.
pub open spec fn template_to_macro(t: TemplateMacro) -> Macro {
    Macro {
        name: t.name,
        signature: t.signature,
        kind: MacroKind::Template(t.body),
        expansion_analysis: t.expansion_analysis,
    }
}

impl Macro {
    pub fn new(
        name: Option<String>,
        signature: MacroSignature,
        kind: MacroKind,
        expansion_analysis: ExpansionAnalysis,
    ) -> (m: Macro)
        ensures
            m == (Macro { name, signature, kind, expansion_analysis }),
    {
        Macro { name, signature, kind, expansion_analysis }
    }

    pub fn named(
        name: &str,
        signature: MacroSignature,
        kind: MacroKind,
        expansion_analysis: ExpansionAnalysis,
    ) -> (m: Macro)
        ensures
            m.name matches Some(n) && n@ == name@,
            m.signature == signature,
            m.kind == kind,
            m.expansion_analysis == expansion_analysis,
    {
        Macro::new(Some(name.to_owned()), signature, kind, expansion_analysis)
    }

    pub fn anonymous(
        signature: MacroSignature,
        kind: MacroKind,
        expansion_analysis: ExpansionAnalysis,
    ) -> (m: Macro)
        ensures
            m == (Macro { name: None, signature, kind, expansion_analysis }),
    {
        Macro::new(None, signature, kind, expansion_analysis)
    }

    pub fn from_template_macro(template_macro: TemplateMacro) -> (m: Macro)
        ensures
            m == template_to_macro(template_macro),
    {
        Macro::new(
            template_macro.name,
            template_macro.signature,
            MacroKind::Template(template_macro.body),
            template_macro.expansion_analysis,
        )
    }

    pub fn name(&self) -> (r: Option<&str>)
        ensures
            (match r {
                Some(s) => self.name matches Some(n) && s@ == n@,
                None => self.name is None,
            }),
    {
        match &self.name {
            Some(n) => Some(n.as_str()),
            None => None,
        }
    }

    /// A shared copy of the macro's name, if it has one.
    pub fn clone_name(&self) -> (r: Option<String>)
        ensures
            r == self.name,
    {
        match &self.name {
            Some(n) => Some(n.clone()),
            None => None,
        }
    }

    pub fn signature(&self) -> (s: &MacroSignature)
        ensures
            s == &self.signature,
    {
        &self.signature
    }

    pub fn kind(&self) -> (k: &MacroKind)
        ensures
            k == &self.kind,
    {
        &self.kind
    }

    pub fn expansion_analysis(&self) -> (a: ExpansionAnalysis)
        ensures
            a == self.expansion_analysis,
    {
        self.expansion_analysis
    }

    pub fn can_be_lazily_evaluated_at_top_level(&self) -> (r: bool)
        ensures
            r == self.expansion_analysis.can_be_lazily_evaluated_at_top_level,
    {
        self.expansion_analysis().can_be_lazily_evaluated_at_top_level()
    }

    pub fn must_produce_exactly_one_value(&self) -> (r: bool)
        ensures
            r == self.expansion_analysis.must_produce_exactly_one_value,
    {
        self.expansion_analysis().must_produce_exactly_one_value()
    }
}

/// A macro identifier as an invocation carries it: either a name or a
/// numeric address, usable interchangeably to resolve a table entry.
#[derive(Clone, Copy, Debug, PartialEq)]
pub enum MacroIdRef<'data> {
    LocalName(&'data str),
    LocalAddress(usize),
}

/// A transient, non-owning pairing of a macro with the address a table
/// resolved it at; valid for the duration of the borrow. Lets the evaluator
/// keep the numeric address at hand without a second lookup.
#[derive(Clone, Copy, Debug, PartialEq)]
pub struct MacroRef<'top> {
    pub address: usize,
    pub reference: &'top Macro,
}

/// A non-owning pairing of a template-defined macro with its body, handed
/// out when a caller requires the macro it resolved to be a template.
#[derive(Clone, Copy, Debug)]
pub struct TemplateMacroRef<'top> {
    pub macro_ref: &'top Macro,
    pub body: &'top TemplateBody,
}

impl<'top> TemplateMacroRef<'top> {
    pub fn new(macro_ref: &'top Macro, body: &'top TemplateBody) -> (r: Self)
        ensures
            r.macro_ref == macro_ref,
            r.body == body,
    {
        TemplateMacroRef { macro_ref, body }
    }
}

/// The decimal digit character for `d`.
pub open spec fn decimal_digit(d: int) -> char {
    if d == 0 {
        '0'
    } else if d == 1 {
        '1'
    } else if d == 2 {
        '2'
    } else if d == 3 {
        '3'
    } else if d == 4 {
        '4'
    } else if d == 5 {
        '5'
    } else if d == 6 {
        '6'
    } else if d == 7 {
        '7'
    } else if d == 8 {
        '8'
    } else {
        '9'
    }
}

/// The decimal rendering of a non-negative number, most significant digit
/// first.
pub open spec fn decimal_digits(n: int) -> Seq<char>
    decreases n,
{
    if n < 10 {
        seq![decimal_digit(n)]
    } else {
        decimal_digits(n / 10).push(decimal_digit(n % 10))
    }
}

/// Renders an address in decimal, for anonymous macros' identifier text.
fn address_text(address: usize) -> (s: String)
    ensures
        s@ == decimal_digits(address as int),
    decreases address,
{
    let digit = address % 10;
    let ds: &str = match digit {
        0 => "0",
        1 => "1",
        2 => "2",
        3 => "3",
        4 => "4",
        5 => "5",
        6 => "6",
        7 => "7",
        8 => "8",
        _ => "9",
    };
    proof {
        reveal_strlit("0");
        reveal_strlit("1");
        reveal_strlit("2");
        reveal_strlit("3");
        reveal_strlit("4");
        reveal_strlit("5");
        reveal_strlit("6");
        reveal_strlit("7");
        reveal_strlit("8");
        reveal_strlit("9");
    }
    assert(ds@ == seq![decimal_digit(address as int % 10)]);
    if address < 10 {
        ds.to_owned()
    } else {
        let mut s = address_text(address / 10);
        s.append(ds);
        assert(s@ =~= decimal_digits(address as int / 10).push(decimal_digit(address as int % 10)));
        s
    }
}

impl<'top> MacroRef<'top> {
    pub fn new(address: usize, reference: &'top Macro) -> (r: Self)
        ensures
            r == (MacroRef { address, reference }),
    {
        Self { address, reference }
    }

    /// The resolved macro's definition, which the caller requires to be a
    /// template-defined macro.
    pub fn require_template(self) -> (r: TemplateMacroRef<'top>)
        requires
            self.reference.kind matches MacroKind::Template(_),
        ensures
            r.macro_ref == self.reference,
            self.reference.kind matches MacroKind::Template(b) && *r.body == b,
    {
        match &self.reference.kind {
            MacroKind::Template(body) => TemplateMacroRef::new(self.reference, body),
            _ => vstd::pervasive::unreached(),
        }
    }

    /// The macro's identifier as text: its name if it has one, and the
    /// decimal rendering of its address otherwise.
    pub fn id_text(&self) -> (r: String)
        ensures
            (match self.reference.name {
                Some(n) => r@ == n@,
                None => r@ == decimal_digits(self.address as int),
            }),
    {
        match self.reference.name() {
            Some(n) => n.to_owned(),
            None => address_text(self.address),
        }
    }

    pub fn address(&self) -> (a: usize)
        ensures
            a == self.address,
    {
        self.address
    }

    pub fn reference(&self) -> (r: &'top Macro)
        ensures
            r == self.reference,
    {
        self.reference
    }

    pub fn name(&self) -> (r: Option<&str>)
        ensures
            (match r {
                Some(s) => self.reference.name matches Some(n) && s@ == n@,
                None => self.reference.name is None,
            }),
    {
        self.reference.name()
    }

    pub fn signature(&self) -> (s: &'top MacroSignature)
        ensures
            s == &self.reference.signature,
    {
        self.reference.signature()
    }

    pub fn kind(&self) -> (k: &'top MacroKind)
        ensures
            k == &self.reference.kind,
    {
        self.reference.kind()
    }

    pub fn expansion_analysis(&self) -> (a: ExpansionAnalysis)
        ensures
            a == self.reference.expansion_analysis,
    {
        self.reference.expansion_analysis()
    }

    pub fn can_be_lazily_evaluated_at_top_level(&self) -> (r: bool)
        ensures
            r == self.reference.expansion_analysis.can_be_lazily_evaluated_at_top_level,
    {
        self.reference.can_be_lazily_evaluated_at_top_level()
    }

    pub fn must_produce_exactly_one_value(&self) -> (r: bool)
        ensures
            r == self.reference.expansion_analysis.must_produce_exactly_one_value,
    {
        self.reference.must_produce_exactly_one_value()
    }
}


/// The registry: an append-only list of macros addressable by position,
/// plus a name index mapping each named macro's name to its address.
/// Addresses are assigned at append time and are stable for the table's
/// lifetime; anonymous macros occupy an address but no name-index entry.
/// Macro definitions are shared by reference counting so that duplicating a
/// table copies only the address list and the name index.
#[derive(Debug)]
pub struct MacroTable {
    macros_by_address: Vec<Rc<Macro>>,
    macros_by_name: NameIndex,
}

/// The macros a shared address list holds, in order.
pub open spec fn deref_macros(s: Seq<Rc<Macro>>) -> Seq<Macro> {
    Seq::new(s.len(), |i: int| *s[i])
}

impl MacroTable {
    /// The macros the table holds, in address order.
    pub closed spec fn spec_macros(&self) -> Seq<Macro> {
        deref_macros(self.macros_by_address@)
    }

    /// The table's name index: which address each name resolves to.
    pub closed spec fn spec_names(&self) -> Map<Seq<char>, usize> {
        name_index::entries(self.macros_by_name)
    }

    /// Every name-index entry points at a macro of that name.
    pub open spec fn names_consistent(&self) -> bool {
        forall|n: Seq<char>| #[trigger]
            self.spec_names().contains_key(n) ==> self.spec_names()[n] < self.spec_macros().len()
                && (self.spec_macros()[self.spec_names()[n] as int].name matches Some(nm)
                && nm@ == n)
    }

    /// Every named macro is indexed under its name, at its own address.
    pub open spec fn macros_indexed(&self) -> bool {
        forall|i: int|
            0 <= i < self.spec_macros().len() ==> ((#[trigger] self.spec_macros()[i]).name matches
                Some(nm) ==> self.spec_names().contains_key(nm@) && self.spec_names()[nm@] == i)
    }

    /// The table's invariant: the name index and the address list agree.
    /// Established by every constructor and preserved by every mutation.
    pub open spec fn well_formed(&self) -> bool {
        self.names_consistent() && self.macros_indexed()
    }

    /// Assembles a table from an address list and a name index; the caller
    /// establishes their coherence.
    pub(crate) fn from_parts(macros_by_address: Vec<Rc<Macro>>, macros_by_name: NameIndex) -> (t:
        Self)
        ensures
            t.spec_macros() == deref_macros(macros_by_address@),
            t.spec_names() == name_index::entries(macros_by_name),
    {
        Self { macros_by_address, macros_by_name }
    }

    /// A table with no macros at all.
    pub fn empty() -> (t: Self)
        ensures
            t.well_formed(),
            t.spec_macros() =~= Seq::<Macro>::empty(),
            t.spec_names() =~= Map::<Seq<char>, usize>::empty(),
    {
        Self { macros_by_address: Vec::new(), macros_by_name: name_index::new_index() }
    }

    pub fn len(&self) -> (n: usize)
        ensures
            n == self.spec_macros().len(),
    {
        self.macros_by_address.len()
    }

    pub fn is_empty(&self) -> (r: bool)
        ensures
            r == (self.spec_macros().len() == 0),
    {
        self.len() == 0
    }

    /// Resolves a numeric address. Succeeds exactly when the address has
    /// been assigned; an out-of-bounds address is an ordinary miss, not an
    /// error.
    pub fn macro_at_address(&self, address: usize) -> (r: Option<MacroRef<'_>>)
        ensures
            (match r {
                Some(mr) => address < self.spec_macros().len() && mr.address == address
                    && *mr.reference == self.spec_macros()[address as int],
                None => address >= self.spec_macros().len(),
            }),
    {
        if address < self.macros_by_address.len() {
            let reference: &Macro = &self.macros_by_address[address];
            Some(MacroRef { address, reference })
        } else {
            None
        }
    }

    /// The address the table's name index binds `name` to, if any.
    pub fn address_for_name(&self, name: &str) -> (r: Option<usize>)
        ensures
            (match r {
                Some(address) => self.spec_names().contains_key(name@) && self.spec_names()[name@]
                    == address,
                None => !self.spec_names().contains_key(name@),
            }),
    {
        name_index::lookup(&self.macros_by_name, name)
    }

    /// Resolves a name. Succeeds exactly when the name index binds `name`,
    /// and then returns the macro standing at the bound address.
    pub fn macro_with_name<'a>(&'a self, name: &str) -> (r: Option<MacroRef<'a>>)
        requires
            self.well_formed(),
        ensures
            (match r {
                Some(mr) => self.spec_names().contains_key(name@) && mr.address
                    == self.spec_names()[name@] && mr.address < self.spec_macros().len()
                    && *mr.reference == self.spec_macros()[mr.address as int],
                None => !self.spec_names().contains_key(name@),
            }),
    {
        match name_index::lookup(&self.macros_by_name, name) {
            Some(address) => {
                let reference: &Macro = &self.macros_by_address[address];
                Some(MacroRef { address, reference })
            },
            None => None,
        }
    }

    /// Resolves an identifier in whichever addressing form the invocation
    /// used: by name or by numeric address.
    pub fn macro_with_id<'a, 'b>(&'a self, id: MacroIdRef<'b>) -> (r: Option<MacroRef<'a>>)
        requires
            self.well_formed(),
        ensures
            (match id {
                MacroIdRef::LocalName(name) => (match r {
                    Some(mr) => self.spec_names().contains_key(name@) && mr.address
                        == self.spec_names()[name@] && mr.address < self.spec_macros().len()
                        && *mr.reference == self.spec_macros()[mr.address as int],
                    None => !self.spec_names().contains_key(name@),
                }),
                MacroIdRef::LocalAddress(address) => (match r {
                    Some(mr) => address < self.spec_macros().len() && mr.address == address
                        && *mr.reference == self.spec_macros()[address as int],
                    None => address >= self.spec_macros().len(),
                }),
            }),
    {
        match id {
            MacroIdRef::LocalName(name) => self.macro_with_name(name),
            MacroIdRef::LocalAddress(address) => self.macro_at_address(address),
        }
    }

    /// A shared handle to the macro the name index binds `name` to, if any.
    pub fn clone_macro_with_name(&self, name: &str) -> (r: Option<Rc<Macro>>)
        requires
            self.well_formed(),
        ensures
            (match r {
                Some(m) => self.spec_names().contains_key(name@) && *m == self.spec_macros()[
                    self.spec_names()[name@] as int],
                None => !self.spec_names().contains_key(name@),
            }),
    {
        match name_index::lookup(&self.macros_by_name, name) {
            Some(address) => Some(Rc::clone(&self.macros_by_address[address])),
            None => None,
        }
    }

    /// A shared handle to the macro at `address`, if that address has been
    /// assigned.
    pub fn clone_macro_with_address(&self, address: usize) -> (r: Option<Rc<Macro>>)
        ensures
            (match r {
                Some(m) => address < self.spec_macros().len() && *m == self.spec_macros()[
                    address as int],
                None => address >= self.spec_macros().len(),
            }),
    {
        if address < self.macros_by_address.len() {
            Some(Rc::clone(&self.macros_by_address[address]))
        } else {
            None
        }
    }

    /// A shared handle to the macro an identifier resolves to, if any.
    pub fn clone_macro_with_id(&self, macro_id: MacroIdRef<'_>) -> (r: Option<Rc<Macro>>)
        requires
            self.well_formed(),
        ensures
            (match macro_id {
                MacroIdRef::LocalName(name) => (match r {
                    Some(m) => self.spec_names().contains_key(name@) && *m == self.spec_macros()[
                        self.spec_names()[name@] as int],
                    None => !self.spec_names().contains_key(name@),
                }),
                MacroIdRef::LocalAddress(address) => (match r {
                    Some(m) => address < self.spec_macros().len() && *m == self.spec_macros()[
                        address as int],
                    None => address >= self.spec_macros().len(),
                }),
            }),
    {
        match macro_id {
            MacroIdRef::LocalName(name) => self.clone_macro_with_name(name),
            MacroIdRef::LocalAddress(address) => self.clone_macro_with_address(address),
        }
    }

    /// Appends a template-defined macro at the next address. Fails, leaving
    /// the table unchanged, exactly when the template is named and that name
    /// is already bound; anonymous templates always succeed.
    pub fn add_macro(&mut self, template: TemplateMacro) -> (r: Result<usize, IonError>)
        requires
            old(self).well_formed(),
        ensures
            final(self).well_formed(),
            (match r {
                Ok(id) => {
                    &&& (template.name matches Some(n) ==> !old(self).spec_names().contains_key(
                        n@))
                    &&& id == old(self).spec_macros().len()
                    &&& final(self).spec_macros() == old(self).spec_macros().push(
                        template_to_macro(template))
                    &&& final(self).spec_names() == (match template.name {
                        Some(n) => old(self).spec_names().insert(n@, id),
                        None => old(self).spec_names(),
                    })
                },
                Err(e) => {
                    &&& template.name matches Some(n) && old(self).spec_names().contains_key(n@)
                        && e == IonError::DuplicateMacroName(n)
                    &&& *final(self) == *old(self)
                },
            }),
    {
        let id = self.macros_by_address.len();
        let is_named = match &template.name {
            Some(name) => {
                match name_index::lookup(&self.macros_by_name, name.as_str()) {
                    Some(_) => {
                        return Err(IonError::DuplicateMacroName(name.clone()));
                    },
                    None => {},
                }
                name_index::insert_name(&mut self.macros_by_name, name.clone(), id);
                true
            },
            None => false,
        };
        let new_macro = Macro::new(
            template.name,
            template.signature,
            MacroKind::Template(template.body),
            template.expansion_analysis,
        );
        self.macros_by_address.push(Rc::new(new_macro));
        proof {
            assert(self.spec_macros() =~= old(self).spec_macros().push(template_to_macro(
                template)));
            if is_named {
                assert(self.spec_names() == old(self).spec_names().insert(
                    template.name->Some_0@, id as usize));
            }
            Self::lemma_step_preserves_wf(*old(self), *self, template_to_macro(template), id);
        }
        Ok(id)
    }

    /// Appending one macro, and indexing its name if it has one, keeps the
    /// name index and the address list in agreement.
    proof fn lemma_step_preserves_wf(prev: MacroTable, cur: MacroTable, m: Macro, next: usize)
        requires
            prev.well_formed(),
            next == prev.spec_macros().len(),
            cur.spec_macros() == prev.spec_macros().push(m),
            (match m.name {
                Some(n) => !prev.spec_names().contains_key(n@) && cur.spec_names()
                    == prev.spec_names().insert(n@, next),
                None => cur.spec_names() == prev.spec_names(),
            }),
        ensures
            cur.well_formed(),
    {
        assert forall|n: Seq<char>| #[trigger] cur.spec_names().contains_key(n) implies
            cur.spec_names()[n] < cur.spec_macros().len() && (cur.spec_macros()[cur.spec_names()[
            n] as int].name matches Some(nm) && nm@ == n) by {
            if prev.spec_names().contains_key(n) && (!(m.name is Some && m.name->Some_0@ == n)) {
                assert(cur.spec_macros()[prev.spec_names()[n] as int] == prev.spec_macros()[
                    prev.spec_names()[n] as int]);
            }
        }
        assert forall|i: int| 0 <= i < cur.spec_macros().len() implies ((
        #[trigger] cur.spec_macros()[i]).name matches Some(nm) ==> cur.spec_names().contains_key(
            nm@) && cur.spec_names()[nm@] == i) by {
            if i < prev.spec_macros().len() {
                assert(cur.spec_macros()[i] == prev.spec_macros()[i]);
            }
        }
    }
}

/// The outcome of a completed import: `after` holds `before`'s macros
/// followed by all of `other`'s, `before`'s name bindings survive
/// unchanged, each of `other`'s named macros is bound at its old position
/// shifted past `before`'s length, and no other binding exists.
pub open spec fn merge_completed(before: MacroTable, other: MacroTable, after: MacroTable) -> bool {
    &&& forall|i: int|
        0 <= i < other.spec_macros().len() ==> ((#[trigger] other.spec_macros()[i]).name matches
            Some(ni) ==> !before.spec_names().contains_key(ni@))
    &&& after.spec_macros() == before.spec_macros() + other.spec_macros()
    &&& forall|n: Seq<char>| #[trigger]
        before.spec_names().contains_key(n) ==> after.spec_names().contains_key(n)
            && after.spec_names()[n] == before.spec_names()[n]
    &&& forall|i: int|
        0 <= i < other.spec_macros().len() ==> ((#[trigger] other.spec_macros()[i]).name matches
            Some(ni) ==> after.spec_names().contains_key(ni@) && after.spec_names()[ni@]
            == before.spec_macros().len() + i)
    &&& forall|n: Seq<char>| #[trigger]
        after.spec_names().contains_key(n) ==> before.spec_names().contains_key(n)
            || other.spec_names().contains_key(n)
}

/// The outcome of an import aborted at `other`'s entry `k`, whose name was
/// already bound before the import began: the entries before `k` remain
/// appended and named as a completed import would have left them, and the
/// error carries the colliding name.
pub open spec fn merge_aborted_at(
    before: MacroTable,
    other: MacroTable,
    after: MacroTable,
    e: IonError,
    k: int,
) -> bool {
    &&& 0 <= k < other.spec_macros().len()
    &&& (#[trigger] other.spec_macros()[k]).name matches Some(nk)
        && before.spec_names().contains_key(nk@) && e == IonError::DuplicateMacroName(nk)
    &&& forall|i: int|
        0 <= i < k ==> ((#[trigger] other.spec_macros()[i]).name matches Some(ni)
            ==> !before.spec_names().contains_key(ni@))
    &&& after.spec_macros() == before.spec_macros() + other.spec_macros().take(k)
    &&& forall|n: Seq<char>| #[trigger]
        before.spec_names().contains_key(n) ==> after.spec_names().contains_key(n)
            && after.spec_names()[n] == before.spec_names()[n]
    &&& forall|i: int|
        0 <= i < k ==> ((#[trigger] other.spec_macros()[i]).name matches Some(ni)
            ==> after.spec_names().contains_key(ni@) && after.spec_names()[ni@]
            == before.spec_macros().len() + i)
    &&& forall|n: Seq<char>| #[trigger]
        after.spec_names().contains_key(n) ==> before.spec_names().contains_key(n)
            || other.spec_names().contains_key(n)
}

impl MacroTable {
    /// Imports every macro of `other`, preserving their relative order and
    /// reassigning addresses to continue from this table's current length.
    /// A duplicate name anywhere aborts the remaining import, but entries
    /// appended before the collision remain appended: the merge is partial
    /// on conflict, not atomic.
    #[verifier::rlimit(80)]
    #[verifier::spinoff_prover]
    #[verifier::loop_isolation(false)]
    pub fn append_all_macros_from(&mut self, other: &MacroTable) -> (r: Result<(), IonError>)
        requires
            old(self).well_formed(),
            other.well_formed(),
        ensures
            final(self).well_formed(),
            (match r {
                Ok(_) => merge_completed(*old(self), *other, *final(self)),
                Err(e) => exists|k: int|
                    #[trigger] merge_aborted_at(*old(self), *other, *final(self), e, k),
            }),
    {
        let ghost old_table = *old(self);
        let mut j: usize = 0;
        while j < other.macros_by_address.len()
            invariant
                old_table.well_formed(),
                other.well_formed(),
                self.well_formed(),
                0 <= j <= other.spec_macros().len(),
                other.spec_macros().len() == other.macros_by_address@.len(),
                self.spec_macros() == old_table.spec_macros() + other.spec_macros().take(j as int),
                forall|n: Seq<char>| #[trigger]
                    old_table.spec_names().contains_key(n) ==> self.spec_names().contains_key(n)
                        && self.spec_names()[n] == old_table.spec_names()[n],
                forall|i: int|
                    0 <= i < j ==> ((#[trigger] other.spec_macros()[i]).name matches Some(ni)
                        ==> !old_table.spec_names().contains_key(ni@)
                        && self.spec_names().contains_key(ni@) && self.spec_names()[ni@]
                        == old_table.spec_macros().len() + i),
                forall|n: Seq<char>| #[trigger]
                    self.spec_names().contains_key(n) ==> old_table.spec_names().contains_key(n)
                        || (other.spec_names().contains_key(n) && other.spec_names()[n] < j),
            decreases other.macros_by_address@.len() - j,
        {
            let ghost prev = *self;
            let next_id = self.macros_by_address.len();
            let mac: &Macro = &other.macros_by_address[j];
            proof {
                assert(*mac == other.spec_macros()[j as int]);
            }
            match mac.clone_name() {
                Some(name) => {
                    match name_index::lookup(&self.macros_by_name, name.as_str()) {
                        Some(_) => {
                            proof {
                                // The colliding name was already bound before the
                                // import began: `other`'s names are unique, so it
                                // cannot have been bound by an earlier iteration.
                                if !old_table.spec_names().contains_key(name@) {
                                    assert(other.spec_names().contains_key(name@)
                                        && other.spec_names()[name@] < j);
                                    assert(other.spec_macros()[other.spec_names()[
                                        name@] as int].name matches Some(nm) && nm@ == name@);
                                    assert(other.spec_names()[name@] == j);
                                }
                            }
                            let e = IonError::DuplicateMacroName(name);
                            proof {
                                assert(merge_aborted_at(*old(self), *other, *self, e, j as int));
                            }
                            return Err(e);
                        },
                        None => {},
                    }
                    name_index::insert_name(&mut self.macros_by_name, name, next_id);
                },
                None => {},
            }
            self.macros_by_address.push(Rc::clone(&other.macros_by_address[j]));
            proof {
                assert(other.spec_macros().take(j + 1) =~= other.spec_macros().take(
                    j as int).push(other.spec_macros()[j as int]));
                assert(self.spec_macros() =~= prev.spec_macros().push(other.spec_macros()[
                    j as int]));
                assert(self.spec_macros() =~= old_table.spec_macros() + other.spec_macros().take(
                    j + 1));
                if other.spec_macros()[j as int].name is Some {
                    let nj = other.spec_macros()[j as int].name->Some_0;
                    assert(other.spec_names().contains_key(nj@) && other.spec_names()[nj@] == j);
                    assert(!prev.spec_names().contains_key(nj@));
                    assert(self.spec_names() == prev.spec_names().insert(nj@, next_id));
                } else {
                    assert(self.spec_names() == prev.spec_names());
                }
                Self::lemma_step_preserves_wf(prev, *self, other.spec_macros()[j as int],
                    next_id);
            }
            j = j + 1;
        }
        proof {
            assert(other.spec_macros().take(j as int) =~= other.spec_macros());
            assert(merge_completed(old_table, *other, *self));
        }
        Ok(())
    }
}

impl Clone for MacroTable {
    /// Duplicating a table copies the address list and the name index but
    /// shares the macro definitions themselves: the copy resolves exactly
    /// what the original resolves.
    fn clone(&self) -> (r: Self)
        ensures
            r.spec_macros() == self.spec_macros(),
            r.spec_names() == self.spec_names(),
            self.well_formed() ==> r.well_formed(),
    {
        let mut macros_by_address: Vec<Rc<Macro>> = Vec::new();
        let mut i: usize = 0;
        while i < self.macros_by_address.len()
            invariant
                0 <= i <= self.macros_by_address@.len(),
                macros_by_address@.len() == i,
                forall|k: int|
                    0 <= k < i ==> macros_by_address@[k] == self.macros_by_address@[k],
            decreases self.macros_by_address@.len() - i,
        {
            macros_by_address.push(Rc::clone(&self.macros_by_address[i]));
            i = i + 1;
        }
        let r = MacroTable {
            macros_by_address,
            macros_by_name: name_index::clone_index(&self.macros_by_name),
        };
        proof {
            assert(r.spec_macros() =~= self.spec_macros());
        }
        r
    }
}


} // verus!
