use vstd::prelude::*;

verus! {

/// An Ion data type, as it appears in a value's header or in the static
/// description of a macro's output.
#[derive(Clone, Copy, Debug, PartialEq, Eq, Structural)]
pub enum IonType {
    Null,
    Bool,
    Int,
    Float,
    Decimal,
    Timestamp,
    Symbol,
    String,
    Clob,
    Blob,
    List,
    SExp,
    Struct,
}

/// A symbol value: a piece of interned text, as it appears in template
/// bodies and annotation sequences.
#[derive(Clone, Debug, PartialEq, Eq)]
pub struct Symbol {
    text: String,
}

impl Symbol {
    /// The symbol's text, as a sequence of characters.
    pub closed spec fn spec_text(&self) -> Seq<char> {
        self.text@
    }

    /// Constructs a symbol that owns its text.
    pub fn owned(text: &str) -> (s: Symbol)
        ensures
            s.spec_text() == text@,
    {
        Symbol { text: text.to_owned() }
    }

    /// The symbol's text.
    pub fn text(&self) -> (t: &str)
        ensures
            t@ == self.spec_text(),
    {
        self.text.as_str()
    }
}

} // verus!
