use vstd::prelude::*;

verus! {

/// Name of the table that holds the rules.
pub const TABLE_NAME: &'static str = "casbin_rule";

/// Number of value columns of a stored rule.
pub const FIELD_COUNT: usize = 6;

/// One stored row: a surrogate key, a policy type and six value slots.
#[derive(Clone, Debug)]
pub struct CasbinRule {
    pub id: Option<i32>,
    pub ptype: Option<String>,
    pub v0: Option<String>,
    pub v1: Option<String>,
    pub v2: Option<String>,
    pub v3: Option<String>,
    pub v4: Option<String>,
    pub v5: Option<String>,
}

/// The mathematical content of a row: `values` always has six entries.
pub struct RuleView {
    pub id: Option<i32>,
    pub ptype: Option<Seq<char>>,
    pub values: Seq<Option<Seq<char>>>,
}

pub open spec fn opt_view(o: Option<String>) -> Option<Seq<char>> {
    match o {
        Some(s) => Some(s@),
        None => None,
    }
}

pub open spec fn strings_view(s: Seq<String>) -> Seq<Seq<char>> {
    s.map_values(|x: String| x@)
}

pub open spec fn opt_strings_view(s: Seq<Option<String>>) -> Seq<Option<Seq<char>>> {
    s.map_values(|x: Option<String>| opt_view(x))
}

impl View for CasbinRule {
    type V = RuleView;

    open spec fn view(&self) -> RuleView {
        RuleView {
            id: self.id,
            ptype: opt_view(self.ptype),
            values: seq![
                opt_view(self.v0),
                opt_view(self.v1),
                opt_view(self.v2),
                opt_view(self.v3),
                opt_view(self.v4),
                opt_view(self.v5),
            ],
        }
    }
}

pub open spec fn rules_view(rules: Seq<Vec<String>>) -> Seq<Seq<Seq<char>>> {
    rules.map_values(|r: Vec<String>| strings_view(r@))
}

pub open spec fn rows_view(rows: Seq<CasbinRule>) -> Seq<RuleView> {
    rows.map_values(|c: CasbinRule| c@)
}

pub open spec fn opt_rule_view(r: Option<CasbinRule>) -> Option<RuleView> {
    match r {
        Some(c) => Some(c@),
        None => None,
    }
}

pub proof fn lemma_strings_view_push(s: Seq<String>, x: String)
    ensures
        strings_view(s.push(x)) == strings_view(s).push(x@),
{
    assert(strings_view(s.push(x)) =~= strings_view(s).push(x@));
}

impl CasbinRule {
    /// The value slot at column `j`.
    pub fn slot(&self, j: usize) -> (r: &Option<String>)
        requires
            j < FIELD_COUNT,
        ensures
            opt_view(*r) == self@.values[j as int],
    {
        match j {
            0 => &self.v0,
            1 => &self.v1,
            2 => &self.v2,
            3 => &self.v3,
            4 => &self.v4,
            _ => &self.v5,
        }
    }
}

} // verus!
