use vstd::prelude::*;
use crate::models::{CasbinRule, RuleView, FIELD_COUNT, opt_view, opt_strings_view, strings_view};
use crate::actions::{normalize_casbin_rule_option, padded_options};
use crate::sql::{SqlStatement, SqlView, select_all_sql};

verus! {

/// Whether a cell passes a column condition: an absent condition admits
/// anything, a value admits NULL and itself.
pub open spec fn column_admits(cell: Option<Seq<char>>, want: Option<Seq<char>>) -> bool {
    match want {
        None => true,
        Some(w) => cell is None || cell == Some(w),
    }
}

/// The column conditions of a filtered delete that starts at column `offset`:
/// value `i` constrains column `offset + i` unless it is empty.
pub open spec fn offset_columns(offset: int, values: Seq<Seq<char>>) -> Seq<Option<Seq<char>>> {
    Seq::new(
        FIELD_COUNT as nat,
        |j: int|
            if offset <= j < offset + values.len() && values[j - offset].len() > 0 {
                Some(values[j - offset])
            } else {
                None
            },
    )
}

/// The condition of a filtered delete: a row of type `ptype` whose every
/// constrained column is NULL or equal to its value.
pub struct DeleteFilter {
    pub ptype: String,
    pub columns: Vec<Option<String>>,
}

pub struct DeleteFilterView {
    pub ptype: Seq<char>,
    pub columns: Seq<Option<Seq<char>>>,
}

impl View for DeleteFilter {
    type V = DeleteFilterView;

    open spec fn view(&self) -> DeleteFilterView {
        DeleteFilterView { ptype: self.ptype@, columns: opt_strings_view(self.columns@) }
    }
}

pub open spec fn delete_filter_holds(f: DeleteFilterView, row: RuleView) -> bool {
    &&& row.ptype == Some(f.ptype)
    &&& forall|j: int| 0 <= j < FIELD_COUNT ==> column_admits(row.values[j], #[trigger] f.columns[j])
}

pub open spec fn null_or_eq_clause(j: int) -> Seq<char> {
    if j == 0 {
        " AND (v0 IS NULL OR v0 = ?)"@
    } else if j == 1 {
        " AND (v1 IS NULL OR v1 = ?)"@
    } else if j == 2 {
        " AND (v2 IS NULL OR v2 = ?)"@
    } else if j == 3 {
        " AND (v3 IS NULL OR v3 = ?)"@
    } else if j == 4 {
        " AND (v4 IS NULL OR v4 = ?)"@
    } else {
        " AND (v5 IS NULL OR v5 = ?)"@
    }
}

/// The clauses of the first `n` column conditions.
pub open spec fn delete_filter_clauses(columns: Seq<Option<Seq<char>>>, n: int) -> Seq<char>
    decreases n,
{
    if n <= 0 {
        Seq::empty()
    } else {
        delete_filter_clauses(columns, n - 1) + if columns[n - 1] is Some {
            null_or_eq_clause(n - 1)
        } else {
            Seq::empty()
        }
    }
}

/// The values bound by the first `n` column conditions.
pub open spec fn delete_filter_args(columns: Seq<Option<Seq<char>>>, n: int) -> Seq<Option<Seq<char>>>
    decreases n,
{
    if n <= 0 {
        Seq::empty()
    } else if columns[n - 1] is Some {
        delete_filter_args(columns, n - 1).push(columns[n - 1])
    } else {
        delete_filter_args(columns, n - 1)
    }
}

pub open spec fn delete_filter_prefix() -> Seq<char> {
    "DELETE FROM casbin_rule WHERE ptype = ?"@
}

/// The statement of a filtered delete of type `ptype` from column `offset`.
pub open spec fn delete_filter_statement(ptype: Seq<char>, offset: int, values: Seq<Seq<char>>) -> SqlView {
    let columns = offset_columns(offset, values);
    SqlView {
        sql: delete_filter_prefix() + delete_filter_clauses(columns, FIELD_COUNT as int),
        args: seq![Some(ptype)] + delete_filter_args(columns, FIELD_COUNT as int),
    }
}

fn null_or_eq_clause_text(j: usize) -> (r: &'static str)
    requires
        j < FIELD_COUNT,
    ensures
        r@ == null_or_eq_clause(j as int),
{
    match j {
        0 => " AND (v0 IS NULL OR v0 = ?)",
        1 => " AND (v1 IS NULL OR v1 = ?)",
        2 => " AND (v2 IS NULL OR v2 = ?)",
        3 => " AND (v3 IS NULL OR v3 = ?)",
        4 => " AND (v4 IS NULL OR v4 = ?)",
        _ => " AND (v5 IS NULL OR v5 = ?)",
    }
}

impl DeleteFilter {
    pub open spec fn wf(&self) -> bool {
        self.columns@.len() == FIELD_COUNT
    }

    /// The condition for rows of type `ptype` whose columns from `field_index`
    /// on match `field_values`, an empty value matching anything.
    pub fn new(ptype: &str, field_index: usize, field_values: Vec<String>) -> (r: DeleteFilter)
        requires
            field_values@.len() > 0,
            field_index + field_values@.len() <= FIELD_COUNT,
        ensures
            r.wf(),
            r@.ptype == ptype@,
            r@.columns == offset_columns(field_index as int, strings_view(field_values@)),
    {
        let ghost vals = strings_view(field_values@);
        let opts = normalize_casbin_rule_option(field_values);
        assert(opt_strings_view(opts@).len() == opts@.len());
        let mut columns: Vec<Option<String>> = Vec::new();
        let mut j: usize = 0;
        while j < FIELD_COUNT
            invariant
                j <= FIELD_COUNT,
                columns@.len() == j,
                field_index + vals.len() <= FIELD_COUNT,
                opt_strings_view(opts@) == padded_options(vals),
                opts@.len() == FIELD_COUNT,
                forall|k: int|
                    0 <= k < j ==> opt_view(#[trigger] columns@[k]) == offset_columns(
                        field_index as int,
                        vals,
                    )[k],
            decreases FIELD_COUNT - j,
        {
            if j >= field_index {
                assert(opt_view(opts@[j - field_index]) == opt_strings_view(opts@)[j - field_index]);
                columns.push(opts[j - field_index].clone());
            } else {
                columns.push(None);
            }
            j = j + 1;
        }
        assert(opt_strings_view(columns@) =~= offset_columns(field_index as int, vals));
        DeleteFilter { ptype: ptype.to_owned(), columns }
    }

    /// Whether `row` meets the condition.
    pub fn holds(&self, row: &CasbinRule) -> (r: bool)
        requires
            self.wf(),
        ensures
            r == delete_filter_holds(self@, row@),
    {
        match &row.ptype {
            None => {
                return false;
            },
            Some(t) => {
                if !(*t == self.ptype) {
                    return false;
                }
            },
        }
        let mut j: usize = 0;
        while j < FIELD_COUNT
            invariant
                j <= FIELD_COUNT,
                self.wf(),
                forall|k: int|
                    0 <= k < j ==> column_admits(row@.values[k], #[trigger] self@.columns[k]),
            decreases FIELD_COUNT - j,
        {
            assert(opt_view(self.columns@[j as int]) == self@.columns[j as int]);
            match &self.columns[j] {
                None => {},
                Some(want) => {
                    match row.slot(j) {
                        None => {},
                        Some(cell) => {
                            if !(*cell == *want) {
                                return false;
                            }
                        },
                    }
                },
            }
            j = j + 1;
        }
        true
    }

    /// The statement that deletes the rows meeting the condition.
    pub fn to_sql(&self) -> (r: SqlStatement)
        requires
            self.wf(),
        ensures
            r@.sql == delete_filter_prefix() + delete_filter_clauses(self@.columns, FIELD_COUNT as int),
            r@.args == seq![Some(self@.ptype)] + delete_filter_args(self@.columns, FIELD_COUNT as int),
    {
        let mut sql = "DELETE FROM casbin_rule WHERE ptype = ?".to_owned();
        let mut args: Vec<Option<String>> = Vec::new();
        args.push(Some(self.ptype.clone()));
        let mut j: usize = 0;
        while j < FIELD_COUNT
            invariant
                j <= FIELD_COUNT,
                self.wf(),
                sql@ == delete_filter_prefix() + delete_filter_clauses(self@.columns, j as int),
                opt_strings_view(args@) == seq![Some(self@.ptype)] + delete_filter_args(
                    self@.columns,
                    j as int,
                ),
            decreases FIELD_COUNT - j,
        {
            assert(opt_view(self.columns@[j as int]) == self@.columns[j as int]);
            let ghost before = args@;
            match &self.columns[j] {
                None => {
                    assert(sql@ =~= delete_filter_prefix() + delete_filter_clauses(
                        self@.columns,
                        j as int + 1,
                    ));
                },
                Some(want) => {
                    sql.append(null_or_eq_clause_text(j));
                    args.push(Some(want.clone()));
                    assert(opt_strings_view(args@) =~= opt_strings_view(before).push(
                        self@.columns[j as int],
                    ));
                    assert(sql@ =~= delete_filter_prefix() + delete_filter_clauses(
                        self@.columns,
                        j as int + 1,
                    ));
                },
            }
            assert(seq![Some(self@.ptype)] + delete_filter_args(self@.columns, j as int + 1)
                =~= if self@.columns[j as int] is Some {
                (seq![Some(self@.ptype)] + delete_filter_args(self@.columns, j as int)).push(
                    self@.columns[j as int],
                )
            } else {
                seq![Some(self@.ptype)] + delete_filter_args(self@.columns, j as int)
            });
            j = j + 1;
        }
        SqlStatement { sql, args }
    }
}

/// A filter for a partial load: values for the "p" rules and for the "g"
/// rules, aligned to the columns from the first on.
pub struct PolicyFilter {
    pub p: Vec<String>,
    pub g: Vec<String>,
}

pub struct PolicyFilterView {
    pub p: Seq<Seq<char>>,
    pub g: Seq<Seq<char>>,
}

impl View for PolicyFilter {
    type V = PolicyFilterView;

    open spec fn view(&self) -> PolicyFilterView {
        PolicyFilterView { p: strings_view(self.p@), g: strings_view(self.g@) }
    }
}

/// Whether `row` belongs to the group of types starting with `prefix` and
/// equals every non-empty value at its column; a row has no column beyond
/// the sixth, so a non-empty value there admits no row.
pub open spec fn group_admits(row: RuleView, prefix: char, values: Seq<Seq<char>>) -> bool {
    &&& row.ptype is Some
    &&& row.ptype->0.len() > 0
    &&& row.ptype->0[0] == prefix
    &&& forall|k: int|
        0 <= k < values.len() && #[trigger] values[k].len() > 0 ==> k < FIELD_COUNT && row.values[k]
            == Some(values[k])
}

pub open spec fn load_filter_holds(f: PolicyFilterView, row: RuleView) -> bool {
    group_admits(row, 'g', f.g) || group_admits(row, 'p', f.p)
}

pub open spec fn eq_clause(k: int) -> Seq<char> {
    if k == 0 {
        " AND v0 = ?"@
    } else if k == 1 {
        " AND v1 = ?"@
    } else if k == 2 {
        " AND v2 = ?"@
    } else if k == 3 {
        " AND v3 = ?"@
    } else if k == 4 {
        " AND v4 = ?"@
    } else if k == 5 {
        " AND v5 = ?"@
    } else {
        " AND 1 = 0"@
    }
}

/// The clauses of the first `n` values of a group: one for each non-empty value.
pub open spec fn group_clauses(values: Seq<Seq<char>>, n: int) -> Seq<char>
    decreases n,
{
    if n <= 0 {
        Seq::empty()
    } else {
        group_clauses(values, n - 1) + if values[n - 1].len() > 0 {
            eq_clause(n - 1)
        } else {
            Seq::empty()
        }
    }
}

/// The values bound by the first `n` values of a group.
pub open spec fn group_args(values: Seq<Seq<char>>, n: int) -> Seq<Option<Seq<char>>>
    decreases n,
{
    if n <= 0 {
        Seq::empty()
    } else if values[n - 1].len() > 0 && n - 1 < FIELD_COUNT {
        group_args(values, n - 1).push(Some(values[n - 1]))
    } else {
        group_args(values, n - 1)
    }
}

pub open spec fn load_filter_sql(f: PolicyFilterView) -> Seq<char> {
    select_all_sql() + " WHERE (ptype LIKE 'g%'"@ + group_clauses(f.g, f.g.len() as int)
        + ") OR (ptype LIKE 'p%'"@ + group_clauses(f.p, f.p.len() as int) + ")"@
}

pub open spec fn load_filter_args(f: PolicyFilterView) -> Seq<Option<Seq<char>>> {
    group_args(f.g, f.g.len() as int) + group_args(f.p, f.p.len() as int)
}

fn eq_clause_text(k: usize) -> (r: &'static str)
    ensures
        r@ == eq_clause(k as int),
{
    match k {
        0 => " AND v0 = ?",
        1 => " AND v1 = ?",
        2 => " AND v2 = ?",
        3 => " AND v3 = ?",
        4 => " AND v4 = ?",
        5 => " AND v5 = ?",
        _ => " AND 1 = 0",
    }
}

fn starts_with(t: &String, prefix: char) -> (r: bool)
    ensures
        r == (t@.len() > 0 && t@[0] == prefix),
{
    let s = t.as_str();
    s.unicode_len() > 0 && s.get_char(0) == prefix
}

/// Appends the clauses and the bound values of one group.
fn push_group(sql: &mut String, args: &mut Vec<Option<String>>, values: &Vec<String>)
    ensures
        final(sql)@ == old(sql)@ + group_clauses(strings_view(values@), values@.len() as int),
        opt_strings_view(final(args)@) == opt_strings_view(old(args)@) + group_args(
            strings_view(values@),
            values@.len() as int,
        ),
{
    let ghost vals = strings_view(values@);
    let ghost sql0 = sql@;
    let ghost args0 = opt_strings_view(args@);
    let mut k: usize = 0;
    while k < values.len()
        invariant
            k <= values@.len(),
            vals == strings_view(values@),
            sql@ == sql0 + group_clauses(vals, k as int),
            opt_strings_view(args@) == args0 + group_args(vals, k as int),
        decreases values@.len() - k,
    {
        let ghost before = args@;
        let ghost sql_before = sql@;
        let v = &values[k];
        if !v.as_str().is_empty() {
            sql.append(eq_clause_text(k));
            if k < FIELD_COUNT {
                args.push(Some(v.clone()));
                assert(opt_strings_view(args@) =~= opt_strings_view(before).push(Some(vals[k as int])));
            }
        }
        assert(sql@ =~= sql0 + group_clauses(vals, k as int + 1));
        assert(opt_strings_view(args@) =~= args0 + group_args(vals, k as int + 1));
        k = k + 1;
    }
}

fn group_holds(row: &CasbinRule, prefix: char, values: &Vec<String>) -> (r: bool)
    ensures
        r == group_admits(row@, prefix, strings_view(values@)),
{
    let ghost vals = strings_view(values@);
    match &row.ptype {
        None => {
            return false;
        },
        Some(t) => {
            if !starts_with(t, prefix) {
                return false;
            }
        },
    }
    let mut k: usize = 0;
    while k < values.len()
        invariant
            k <= values@.len(),
            vals == strings_view(values@),
            forall|i: int|
                0 <= i < k && #[trigger] vals[i].len() > 0 ==> i < FIELD_COUNT && row@.values[i]
                    == Some(vals[i]),
        decreases values@.len() - k,
    {
        let v = &values[k];
        if !v.as_str().is_empty() {
            assert(vals[k as int] == v@ && vals[k as int].len() > 0);
            if k >= FIELD_COUNT {
                return false;
            }
            match row.slot(k) {
                None => {
                    return false;
                },
                Some(cell) => {
                    if !(*cell == *v) {
                        return false;
                    }
                },
            }
        }
        k = k + 1;
    }
    true
}

impl PolicyFilter {
    /// Whether a partial load under this filter takes `row`.
    pub fn holds(&self, row: &CasbinRule) -> (r: bool)
        ensures
            r == load_filter_holds(self@, row@),
    {
        group_holds(row, 'g', &self.g) || group_holds(row, 'p', &self.p)
    }

    /// The query of a partial load under this filter.
    pub fn to_sql(&self) -> (r: SqlStatement)
        ensures
            r@.sql == load_filter_sql(self@),
            r@.args == load_filter_args(self@),
    {
        let mut sql = "SELECT id, ptype, v0, v1, v2, v3, v4, v5 FROM casbin_rule".to_owned();
        let mut args: Vec<Option<String>> = Vec::new();
        assert(opt_strings_view(args@) =~= Seq::empty());
        sql.append(" WHERE (ptype LIKE 'g%'");
        push_group(&mut sql, &mut args, &self.g);
        sql.append(") OR (ptype LIKE 'p%'");
        push_group(&mut sql, &mut args, &self.p);
        sql.append(")");
        assert(sql@ =~= load_filter_sql(self@));
        assert(opt_strings_view(args@) =~= load_filter_args(self@));
        SqlStatement { sql, args }
    }
}

} // verus!
