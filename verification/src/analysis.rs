use vstd::prelude::*;

use crate::value::IonType;

verus! {

/// A description of a macro whose output is statically known to be exactly one
/// value with a fixed nullability, type, and annotation count, regardless of
/// the arguments it is invoked with.
#[derive(Clone, Copy, Debug, PartialEq, Eq, Structural)]
pub struct ExpansionSingleton {
    pub is_null: bool,
    pub ion_type: IonType,
    pub num_annotations: usize,
}

/// Facts about a macro's output that are derived once, when the macro is
/// defined. Downstream evaluation consults them to decide between lazy and
/// eager expansion and to short-circuit work when the output shape is
/// statically known.
///
/// An invocation that could produce zero or several values cannot be handed
/// out as a single lazy value. At the top level, an invocation can be
/// evaluated lazily only when it is guaranteed to produce exactly one value
/// and that value cannot carry stream-control ("system") significance.
#[derive(Clone, Copy, Debug, PartialEq, Eq, Structural)]
pub struct ExpansionAnalysis {
    pub could_produce_system_value: bool,
    pub must_produce_exactly_one_value: bool,
    pub can_be_lazily_evaluated_at_top_level: bool,
    pub expansion_singleton: Option<ExpansionSingleton>,
}

impl ExpansionAnalysis {
    pub fn can_be_lazily_evaluated_at_top_level(&self) -> (r: bool)
        ensures
            r == self.can_be_lazily_evaluated_at_top_level,
    {
        self.can_be_lazily_evaluated_at_top_level
    }

    pub fn must_produce_exactly_one_value(&self) -> (r: bool)
        ensures
            r == self.must_produce_exactly_one_value,
    {
        self.must_produce_exactly_one_value
    }

    pub fn expansion_singleton(&self) -> (r: Option<ExpansionSingleton>)
        ensures
            r == self.expansion_singleton,
    {
        self.expansion_singleton
    }
}

/// An analysis makes internally consistent claims when a statically known
/// singleton output implies that exactly one value is produced, and top-level
/// laziness is only claimed for macros that produce exactly one value that
/// cannot be a system value.
pub open spec fn analysis_consistent(a: ExpansionAnalysis) -> bool {
    &&& (a.expansion_singleton matches Some(_) ==> a.must_produce_exactly_one_value)
    &&& (a.can_be_lazily_evaluated_at_top_level ==> a.must_produce_exactly_one_value
        && !a.could_produce_system_value)
}

impl Default for ExpansionAnalysis {
    /// The conservative analysis: nothing is statically known about the
    /// macro's output, so it cannot be evaluated lazily.
    fn default() -> (r: Self)
        ensures
            r == (ExpansionAnalysis {
                could_produce_system_value: false,
                must_produce_exactly_one_value: false,
                can_be_lazily_evaluated_at_top_level: false,
                expansion_singleton: None,
            }),
    {
        ExpansionAnalysis {
            could_produce_system_value: false,
            must_produce_exactly_one_value: false,
            can_be_lazily_evaluated_at_top_level: false,
            expansion_singleton: None,
        }
    }
}

} // verus!
