use vstd::prelude::*;
use crate::models::{CasbinRule, rows_view};
use crate::loader::{LoadedRule, loaded_view, route_all, route_policies};

verus! {

/// The flag after a load: a partial load sets it, a full one leaves it.
pub open spec fn flag_after_load(flag: bool, partial: bool) -> bool {
    flag || partial
}

/// What an adapter keeps between calls: whether a partial load happened.
pub struct AdapterState {
    is_filtered: bool,
}

impl AdapterState {
    pub closed spec fn filtered(&self) -> bool {
        self.is_filtered
    }

    /// A state in which no partial load happened.
    pub fn new() -> (r: AdapterState)
        ensures
            !r.filtered(),
    {
        AdapterState { is_filtered: false }
    }

    /// Whether a partial load happened.
    pub fn is_filtered(&self) -> (r: bool)
        ensures
            r == self.filtered(),
    {
        self.is_filtered
    }

    /// Takes the rows of a full load: the rules they hold, with where each goes.
    pub fn load_policy(&mut self, rows: &Vec<CasbinRule>) -> (r: Vec<LoadedRule>)
        ensures
            final(self).filtered() == flag_after_load(old(self).filtered(), false),
            loaded_view(r@) == route_all(rows_view(rows@)),
    {
        route_policies(rows)
    }

    /// Takes the rows of a partial load, and records that one happened.
    pub fn load_filtered_policy(&mut self, rows: &Vec<CasbinRule>) -> (r: Vec<LoadedRule>)
        ensures
            final(self).filtered() == flag_after_load(old(self).filtered(), true),
            loaded_view(r@) == route_all(rows_view(rows@)),
    {
        self.is_filtered = true;
        route_policies(rows)
    }
}

/// The filtered flag is false on a new state, true after any partial load,
/// and stays true after a later full load.
pub proof fn lemma_filtered_flag(flag: bool)
    ensures
        flag_after_load(flag, true),
        flag_after_load(flag_after_load(flag, true), false),
        flag_after_load(flag, false) == flag,
{
}

} // verus!
