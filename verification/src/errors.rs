use vstd::prelude::*;

verus! {

/// The failures that constructing or growing a macro table can report.
/// Looking up an unknown name or address is not an error; lookups return
/// `Option` instead.
#[derive(Clone, Debug, PartialEq, Eq)]
pub enum IonError {
    /// A parameter that does not allow rest syntax followed a rest-eligible
    /// parameter in a signature's parameter list. Holds the offending
    /// parameter's name.
    InvalidMacroSignature(String),
    /// A macro's name was already present in the table's name index. Holds
    /// the colliding name.
    DuplicateMacroName(String),
}

impl IonError {
    /// A human-readable account of the failure.
    pub fn description(&self) -> (text: String)
        ensures
            (match self {
                IonError::InvalidMacroSignature(p) => text@ == "invalid signature: non-rest parameter '"@
                    + p@ + "' follows a rest-eligible parameter"@,
                IonError::DuplicateMacroName(n) => text@ == "macro named '"@ + n@
                    + "' already exists"@,
            }),
    {
        match self {
            IonError::InvalidMacroSignature(p) => {
                let mut text = String::from_str("invalid signature: non-rest parameter '");
                text.append(p.as_str());
                text.append("' follows a rest-eligible parameter");
                text
            },
            IonError::DuplicateMacroName(n) => {
                let mut text = String::from_str("macro named '");
                text.append(n.as_str());
                text.append("' already exists");
                text
            },
        }
    }
}

} // verus!
