//! The table's name index: a hash map from macro names to addresses,
//! provided by the `rustc_hash` crate. The map itself is outside code, so
//! the handful of operations the table needs stand here behind trusted
//! wrappers whose contracts speak of the map's contents through the
//! uninterpreted `entries` function.

use vstd::prelude::*;

verus! {

#[verifier::external_type_specification]
#[verifier::external_body]
pub struct ExFxBuildHasher(rustc_hash::FxBuildHasher);

/// A mapping from macro names to the addresses the table assigned them.
pub type NameIndex = rustc_hash::FxHashMap<String, usize>;

/// The contents of a name index: which address each name is bound to.
pub uninterp spec fn entries(m: NameIndex) -> Map<Seq<char>, usize>;

/// Holds exactly when a name map binds no name at all.
pub open spec fn no_entries(m: Map<Seq<char>, usize>) -> bool {
    m =~= Map::empty()
}

/// Relies on `HashMap::default` (rustc_hash's `FxHashMap` is a
/// `std::collections::HashMap` with the crate's hasher): a freshly built map
/// contains no entries.
#[verifier::external_body]
pub fn new_index() -> (m: NameIndex)
    ensures
        no_entries(entries(m)),
{
    rustc_hash::FxHashMap::default()
}

/// Relies on `HashMap::insert`: after the call the map binds `name` to
/// `address` and every other name to what it was bound to before.
#[verifier::external_body]
pub fn insert_name(m: &mut NameIndex, name: String, address: usize)
    ensures
        entries(*final(m)) == entries(*old(m)).insert(name@, address),
{
    m.insert(name, address);
}

/// Relies on `HashMap::get` with a borrowed `str` key: the result is the
/// address bound to `name`, or `None` when the map does not bind `name`.
#[verifier::external_body]
pub fn lookup(m: &NameIndex, name: &str) -> (r: Option<usize>)
    ensures
        (match r {
            Some(address) => entries(*m).contains_key(name@) && entries(*m)[name@] == address,
            None => !entries(*m).contains_key(name@),
        }),
{
    m.get(name).copied()
}

/// Relies on `HashMap::clone`: the copy binds exactly the names the
/// original binds, to the same addresses.
#[verifier::external_body]
pub fn clone_index(m: &NameIndex) -> (r: NameIndex)
    ensures
        entries(r) == entries(*m),
{
    m.clone()
}

} // verus!
