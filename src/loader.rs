use vstd::prelude::*;
use crate::models::{CasbinRule, RuleView, strings_view, rows_view};
use crate::utils::{decode, normalize_policy};

verus! {

/// The two kinds of rules: policies ("p", "p2", ...) and groupings ("g", "g2", ...).
#[derive(Clone, Copy, PartialEq, Eq, Debug, Structural)]
pub enum Section {
    P,
    G,
}

/// The section that a policy type belongs to, by its first character.
pub open spec fn section_of(ptype: Seq<char>) -> Option<Section> {
    if ptype.len() > 0 && ptype[0] == 'p' {
        Some(Section::P)
    } else if ptype.len() > 0 && ptype[0] == 'g' {
        Some(Section::G)
    } else {
        None
    }
}

/// A rule read back from the table, with the section and the policy type it goes to.
pub struct LoadedRule {
    pub section: Section,
    pub ptype: String,
    pub rule: Vec<String>,
}

impl View for LoadedRule {
    type V = (Section, Seq<char>, Seq<Seq<char>>);

    open spec fn view(&self) -> (Section, Seq<char>, Seq<Seq<char>>) {
        (self.section, self.ptype@, strings_view(self.rule@))
    }
}

pub open spec fn loaded_view(rules: Seq<LoadedRule>) -> Seq<(Section, Seq<char>, Seq<Seq<char>>)> {
    rules.map_values(|r: LoadedRule| r@)
}

/// Where a row goes: nowhere without a policy type of a known section or
/// without a rule.
pub open spec fn route(row: RuleView) -> Option<(Section, Seq<char>, Seq<Seq<char>>)> {
    match row.ptype {
        None => None,
        Some(t) => match section_of(t) {
            None => None,
            Some(sec) => match decode(row) {
                None => None,
                Some(rule) => Some((sec, t, rule)),
            },
        },
    }
}

/// The routed rows, in order; the others are skipped.
pub open spec fn route_all(rows: Seq<RuleView>) -> Seq<(Section, Seq<char>, Seq<Seq<char>>)>
    decreases rows.len(),
{
    if rows.len() == 0 {
        Seq::empty()
    } else {
        let init = route_all(rows.drop_last());
        match route(rows.last()) {
            Some(x) => init.push(x),
            None => init,
        }
    }
}

impl Section {
    /// The section of `ptype`.
    pub fn of_ptype(ptype: &str) -> (r: Option<Section>)
        ensures
            r == section_of(ptype@),
    {
        if ptype.unicode_len() == 0 {
            return None;
        }
        let c = ptype.get_char(0);
        if c == 'p' {
            Some(Section::P)
        } else if c == 'g' {
            Some(Section::G)
        } else {
            None
        }
    }
}

/// The rule that `row` holds, with where it goes.
pub fn route_policy(row: &CasbinRule) -> (r: Option<LoadedRule>)
    ensures
        match r {
            Some(l) => route(row@) == Some(l@),
            None => route(row@) is None,
        },
{
    match &row.ptype {
        None => None,
        Some(t) => match Section::of_ptype(t.as_str()) {
            None => None,
            Some(section) => match normalize_policy(row) {
                None => None,
                Some(rule) => Some(LoadedRule { section, ptype: t.clone(), rule }),
            },
        },
    }
}

/// The rules that `rows` hold, in order, with where each goes.
pub fn route_policies(rows: &Vec<CasbinRule>) -> (r: Vec<LoadedRule>)
    ensures
        loaded_view(r@) == route_all(rows_view(rows@)),
{
    let ghost all = rows_view(rows@);
    let mut out: Vec<LoadedRule> = Vec::new();
    let mut i: usize = 0;
    while i < rows.len()
        invariant
            i <= rows@.len(),
            all == rows_view(rows@),
            loaded_view(out@) == route_all(all.subrange(0, i as int)),
        decreases rows@.len() - i,
    {
        assert(all.subrange(0, i as int + 1).drop_last() =~= all.subrange(0, i as int));
        assert(all.subrange(0, i as int + 1).last() == rows@[i as int]@);
        let ghost before = out@;
        match route_policy(&rows[i]) {
            Some(l) => {
                out.push(l);
                assert(loaded_view(out@) =~= loaded_view(before).push(l@));
            },
            None => {},
        }
        i = i + 1;
    }
    assert(all.subrange(0, rows@.len() as int) =~= all);
    out
}

} // verus!
