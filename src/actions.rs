use vstd::prelude::*;
use crate::models::{FIELD_COUNT, RuleView, strings_view, opt_strings_view, opt_view, rules_view, rows_view};
use crate::utils::{encode, encode_all, save_policy_line, save_policy_lines};
use crate::sql::{SqlStatement, SqlView, insert, insert_sql, insert_args, delete_all, delete_all_sql, delete_exact_sql, delete_exact_args};
use crate::filter::{DeleteFilter, delete_filter_statement};
use crate::engine::{Batch, BatchState, StoreEvent, Command, Outcome};
use crate::schema::{Driver, driver_named, schema_sql};

verus! {

/// A rule brought to six slots: missing slots hold the empty string.
pub open spec fn padded(rule: Seq<Seq<char>>) -> Seq<Seq<char>> {
    Seq::new(FIELD_COUNT as nat, |i: int| if i < rule.len() { rule[i] } else { Seq::<char>::empty() })
}

/// Values brought to six slots: an empty or missing value is absent.
pub open spec fn padded_options(rule: Seq<Seq<char>>) -> Seq<Option<Seq<char>>> {
    Seq::new(
        FIELD_COUNT as nat,
        |i: int| if i < rule.len() && rule[i].len() > 0 { Some(rule[i]) } else { None },
    )
}

/// Brings `rule` to six slots, filling with empty strings or dropping the surplus.
pub fn normalize_casbin_rule(rule: Vec<String>) -> (r: Vec<String>)
    ensures
        strings_view(r@) == padded(strings_view(rule@)),
{
    let ghost src = strings_view(rule@);
    let mut rule = rule;
    rule.truncate(FIELD_COUNT);
    let ghost kept = rule@.len();
    while rule.len() < FIELD_COUNT
        invariant
            kept <= rule@.len() <= FIELD_COUNT,
            kept == if src.len() < FIELD_COUNT { src.len() } else { FIELD_COUNT as nat },
            forall|i: int| 0 <= i < kept ==> #[trigger] rule@[i]@ == src[i],
            forall|i: int| kept <= i < rule@.len() ==> #[trigger] rule@[i]@ == Seq::<char>::empty(),
        decreases FIELD_COUNT - rule@.len(),
    {
        rule.push(String::new());
    }
    assert(strings_view(rule@) =~= padded(src));
    rule
}

/// Brings `rule` to six slots of which the empty and the missing ones are absent.
pub fn normalize_casbin_rule_option(rule: Vec<String>) -> (r: Vec<Option<String>>)
    ensures
        opt_strings_view(r@) == padded_options(strings_view(rule@)),
{
    let ghost src = strings_view(rule@);
    let mut out: Vec<Option<String>> = Vec::new();
    let mut i: usize = 0;
    while i < FIELD_COUNT
        invariant
            i <= FIELD_COUNT,
            out@.len() == i,
            src == strings_view(rule@),
            forall|k: int| 0 <= k < i ==> opt_view(#[trigger] out@[k]) == padded_options(src)[k],
        decreases FIELD_COUNT - i,
    {
        if i < rule.len() && !rule[i].as_str().is_empty() {
            out.push(Some(rule[i].clone()));
        } else {
            out.push(None);
        }
        i = i + 1;
    }
    assert(opt_strings_view(out@) =~= padded_options(src));
    out
}

/// An error that the library reports itself.
#[derive(Clone, Debug)]
pub enum AdapterError {
    /// The database kind, named here, has no known table layout.
    UnsupportedDriver(String),
}

/// The statement that creates the rule table on a database of kind
/// `driver_type`; an error for a kind without a known layout.
pub fn db_sync(driver_type: &str) -> (r: Result<SqlStatement, AdapterError>)
    ensures
        match r {
            Ok(s) => driver_named(driver_type@) is Some && s@.sql == schema_sql(
                driver_named(driver_type@)->0,
            ) && s@.args.len() == 0,
            Err(AdapterError::UnsupportedDriver(n)) => driver_named(driver_type@) is None && n@
                == driver_type@,
        },
{
    match Driver::from_name(driver_type) {
        Some(d) => Ok(SqlStatement { sql: d.schema().to_owned(), args: Vec::new() }),
        None => Err(AdapterError::UnsupportedDriver(driver_type.to_owned())),
    }
}

pub open spec fn insert_statement(row: RuleView) -> SqlView {
    SqlView { sql: insert_sql(), args: insert_args(row) }
}

/// A transaction that inserts `rows` in order.
pub open spec fn inserts_all(b: Batch, rows: Seq<RuleView>) -> bool {
    &&& b.wf()
    &&& b.state == BatchState::initial(rows.len() as usize, true)
    &&& b.views().len() == rows.len()
    &&& forall|i: int| 0 <= i < rows.len() ==> #[trigger] b.views()[i] == insert_statement(rows[i])
}

/// Adds one rule: a single insert of its row, or nothing to do when the
/// rule gives no row.
pub fn add_policy(ptype: &str, rule: &Vec<String>) -> (r: Option<Batch>)
    ensures
        match encode(ptype@, strings_view(rule@)) {
            None => r is None,
            Some(row) => r matches Some(b) && b.wf() && b.state == BatchState::initial(1, false)
                && b.views() == seq![insert_statement(row)],
        },
{
    match save_policy_line(ptype, rule.as_slice()) {
        Some(row) => Some(Batch::single(insert(&row))),
        None => None,
    }
}

/// Adds rules in one transaction; the rules that give no row are skipped.
pub fn add_policies(ptype: &str, rules: &Vec<Vec<String>>) -> (r: Batch)
    ensures
        inserts_all(r, encode_all(ptype@, rules_view(rules@))),
{
    let rows = save_policy_lines(ptype, rules);
    let r = Batch::insert_many(&rows);
    assert forall|i: int| 0 <= i < rows@.len() implies #[trigger] r.views()[i] == insert_statement(
        rows_view(rows@)[i],
    ) by {
        assert(rows_view(rows@)[i] == rows@[i]@);
    }
    r
}

/// The policies of a model, one list of rules for each policy type.
pub open spec fn groups_view(groups: Seq<(String, Vec<Vec<String>>)>) -> Seq<(Seq<char>, Seq<Seq<Seq<char>>>)> {
    groups.map_values(|g: (String, Vec<Vec<String>>)| (g.0@, rules_view(g.1@)))
}

/// The rows of every group, in order.
pub open spec fn encode_groups(groups: Seq<(Seq<char>, Seq<Seq<Seq<char>>>)>) -> Seq<RuleView>
    decreases groups.len(),
{
    if groups.len() == 0 {
        Seq::empty()
    } else {
        encode_groups(groups.drop_last()) + encode_all(groups.last().0, groups.last().1)
    }
}

/// Stores every rule of `groups` in one transaction, adding to the rows
/// already in the table.
pub fn save_policy(groups: &Vec<(String, Vec<Vec<String>>)>) -> (r: Batch)
    ensures
        inserts_all(r, encode_groups(groups_view(groups@))),
{
    let ghost all = groups_view(groups@);
    let mut rows: Vec<crate::models::CasbinRule> = Vec::new();
    let mut i: usize = 0;
    while i < groups.len()
        invariant
            i <= groups@.len(),
            all == groups_view(groups@),
            rows_view(rows@) == encode_groups(all.subrange(0, i as int)),
        decreases groups@.len() - i,
    {
        let group = &groups[i];
        let mut more = save_policy_lines(group.0.as_str(), &group.1);
        let ghost before = rows_view(rows@);
        let ghost added = rows_view(more@);
        rows.append(&mut more);
        assert(all.subrange(0, i as int + 1).drop_last() =~= all.subrange(0, i as int));
        assert(all.subrange(0, i as int + 1).last() == all[i as int]);
        assert(rows_view(rows@) =~= before + added);
        i = i + 1;
    }
    assert(all.subrange(0, groups@.len() as int) =~= all);
    let r = Batch::insert_many(&rows);
    assert forall|k: int| 0 <= k < rows@.len() implies #[trigger] r.views()[k] == insert_statement(
        rows_view(rows@)[k],
    ) by {
        assert(rows_view(rows@)[k] == rows@[k]@);
    }
    r
}

/// Removes, in one transaction, the rows of type `pt` equal to each rule
/// brought to six slots.
pub fn remove_policies(pt: &str, rules: Vec<Vec<String>>) -> (r: Batch)
    ensures
        r.wf(),
        r.state == BatchState::initial(rules@.len() as usize, true),
        r.views().len() == rules@.len(),
        forall|i: int|
            0 <= i < rules@.len() ==> #[trigger] r.views()[i] == (SqlView {
                sql: delete_exact_sql(),
                args: delete_exact_args(pt@, padded(strings_view(rules@[i]@))),
            }),
{
    Batch::delete_exact_many(pt, rules)
}

/// Removes the rows of type `pt` equal to `rule` brought to six slots.
pub fn remove_policy(pt: &str, rule: Vec<String>) -> (r: Batch)
    ensures
        r.wf(),
        r.state == BatchState::initial(1, true),
        r.views() == seq![
            SqlView { sql: delete_exact_sql(), args: delete_exact_args(pt@, padded(strings_view(rule@))) },
        ],
{
    let ghost v = strings_view(rule@);
    let mut rules: Vec<Vec<String>> = Vec::new();
    rules.push(rule);
    let r = remove_policies(pt, rules);
    assert(r.views() =~= seq![
        SqlView { sql: delete_exact_sql(), args: delete_exact_args(pt@, padded(v)) },
    ]);
    r
}

/// Whether a filtered removal from column `field_index` with `len` values
/// stays within the six columns.
pub open spec fn filter_in_range(field_index: int, len: int) -> bool {
    field_index <= 5 && len > 0 && field_index + len <= FIELD_COUNT
}

/// Removes the rows of type `pt` whose columns from `field_index` on are
/// NULL or equal to the non-empty `field_values`; nothing to do when the
/// values do not fit in the six columns from `field_index`.
pub fn remove_filtered_policy(pt: &str, field_index: usize, field_values: Vec<String>) -> (r:
    Option<Batch>)
    ensures
        filter_in_range(field_index as int, field_values@.len() as int) <==> r is Some,
        r matches Some(b) ==> b.wf() && b.state == BatchState::initial(1, false) && b.views()
            == seq![delete_filter_statement(pt@, field_index as int, strings_view(field_values@))],
{
    if field_index <= 5 && field_values.len() > 0 && field_values.len() <= FIELD_COUNT - field_index {
        let f = DeleteFilter::new(pt, field_index, field_values);
        Some(Batch::single(f.to_sql()))
    } else {
        None
    }
}

/// Removes every row.
pub fn clear_policy() -> (r: Batch)
    ensures
        r.wf(),
        r.state == BatchState::initial(1, false),
        r.views() == seq![SqlView { sql: delete_all_sql(), args: Seq::empty() }],
{
    let s = delete_all();
    assert(s@.args =~= Seq::<Option<Seq<char>>>::empty());
    Batch::single(s)
}

/// Clearing succeeds whether or not there is anything to delete: the batch
/// of `clear_policy` runs its one statement and, whatever number of rows the
/// store reports, ends applied, with a row affected exactly when one was.
pub proof fn lemma_clear_policy_succeeds(rows_affected: u64)
    ensures
        BatchState::initial(1, false).step(StoreEvent::Succeeded(0)).1 == Command::Execute(0),
        BatchState::initial(1, false).step(StoreEvent::Succeeded(0)).0.step(
            StoreEvent::Succeeded(rows_affected),
        ).1 == Command::Finish(Outcome::Applied(rows_affected > 0)),
{
}

} // verus!
