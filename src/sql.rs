use vstd::prelude::*;
use crate::models::{CasbinRule, RuleView, FIELD_COUNT, opt_strings_view, strings_view};

verus! {

/// A statement with `?` placeholders and the values bound to them in order;
/// an absent value is bound as NULL.
pub struct SqlStatement {
    pub sql: String,
    pub args: Vec<Option<String>>,
}

pub struct SqlView {
    pub sql: Seq<char>,
    pub args: Seq<Option<Seq<char>>>,
}

impl View for SqlStatement {
    type V = SqlView;

    open spec fn view(&self) -> SqlView {
        SqlView { sql: self.sql@, args: opt_strings_view(self.args@) }
    }
}

pub open spec fn select_all_sql() -> Seq<char> {
    "SELECT id, ptype, v0, v1, v2, v3, v4, v5 FROM casbin_rule"@
}

pub open spec fn insert_sql() -> Seq<char> {
    "INSERT INTO casbin_rule (ptype, v0, v1, v2, v3, v4, v5) VALUES (?, ?, ?, ?, ?, ?, ?)"@
}

pub open spec fn delete_exact_sql() -> Seq<char> {
    "DELETE FROM casbin_rule WHERE ptype = ? AND v0 = ? AND v1 = ? AND v2 = ? AND v3 = ? AND v4 = ? AND v5 = ?"@
}

pub open spec fn delete_all_sql() -> Seq<char> {
    "DELETE FROM casbin_rule"@
}

/// The values that an insert of `r` binds: the policy type, then the six slots.
pub open spec fn insert_args(r: RuleView) -> Seq<Option<Seq<char>>> {
    seq![r.ptype] + r.values
}

/// The values that an exact delete binds: the policy type, then each slot.
pub open spec fn delete_exact_args(ptype: Seq<char>, rule: Seq<Seq<char>>) -> Seq<Option<Seq<char>>> {
    seq![Some(ptype)] + rule.map_values(|v: Seq<char>| Some(v))
}

/// Reads every row.
pub fn select_all() -> (r: SqlStatement)
    ensures
        r@.sql == select_all_sql(),
        r@.args.len() == 0,
{
    SqlStatement {
        sql: "SELECT id, ptype, v0, v1, v2, v3, v4, v5 FROM casbin_rule".to_owned(),
        args: Vec::new(),
    }
}

/// Inserts the row `rule`, whose identity the database assigns.
pub fn insert(rule: &CasbinRule) -> (r: SqlStatement)
    ensures
        r@.sql == insert_sql(),
        r@.args == insert_args(rule@),
{
    let mut args: Vec<Option<String>> = Vec::new();
    args.push(rule.ptype.clone());
    let mut j: usize = 0;
    while j < FIELD_COUNT
        invariant
            j <= FIELD_COUNT,
            opt_strings_view(args@) == insert_args(rule@).subrange(0, j as int + 1),
        decreases FIELD_COUNT - j,
    {
        let ghost before = args@;
        args.push(rule.slot(j).clone());
        assert(opt_strings_view(args@) =~= opt_strings_view(before).push(rule@.values[j as int]));
        assert(insert_args(rule@).subrange(0, j as int + 2) =~= insert_args(rule@).subrange(
            0,
            j as int + 1,
        ).push(rule@.values[j as int]));
        j = j + 1;
    }
    assert(insert_args(rule@).subrange(0, 7) =~= insert_args(rule@));
    SqlStatement {
        sql: "INSERT INTO casbin_rule (ptype, v0, v1, v2, v3, v4, v5) VALUES (?, ?, ?, ?, ?, ?, ?)".to_owned(),
        args,
    }
}

/// Deletes the rows of type `ptype` whose six slots equal the six values of `rule`.
pub fn delete_exact(ptype: &str, rule: &Vec<String>) -> (r: SqlStatement)
    requires
        rule@.len() == FIELD_COUNT,
    ensures
        r@.sql == delete_exact_sql(),
        r@.args == delete_exact_args(ptype@, strings_view(rule@)),
{
    let ghost want = delete_exact_args(ptype@, strings_view(rule@));
    let mut args: Vec<Option<String>> = Vec::new();
    args.push(Some(ptype.to_owned()));
    let mut j: usize = 0;
    while j < FIELD_COUNT
        invariant
            j <= FIELD_COUNT,
            rule@.len() == FIELD_COUNT,
            want == delete_exact_args(ptype@, strings_view(rule@)),
            opt_strings_view(args@) == want.subrange(0, j as int + 1),
        decreases FIELD_COUNT - j,
    {
        let ghost before = args@;
        args.push(Some(rule[j].clone()));
        assert(opt_strings_view(args@) =~= opt_strings_view(before).push(Some(rule@[j as int]@)));
        assert(want.subrange(0, j as int + 2) =~= want.subrange(0, j as int + 1).push(
            Some(rule@[j as int]@),
        ));
        j = j + 1;
    }
    assert(want.subrange(0, 7) =~= want);
    SqlStatement {
        sql: "DELETE FROM casbin_rule WHERE ptype = ? AND v0 = ? AND v1 = ? AND v2 = ? AND v3 = ? AND v4 = ? AND v5 = ?".to_owned(),
        args,
    }
}

/// Deletes every row.
pub fn delete_all() -> (r: SqlStatement)
    ensures
        r@.sql == delete_all_sql(),
        r@.args.len() == 0,
{
    SqlStatement { sql: "DELETE FROM casbin_rule".to_owned(), args: Vec::new() }
}

} // verus!
