use casbin_rb_adapter::actions::remove_filtered_policy;
use casbin_rb_adapter::filter::{DeleteFilter, PolicyFilter};
use casbin_rb_adapter::utils::save_policy_line;
use casbin_rb_adapter::CasbinRule;

fn strings(v: &[&str]) -> Vec<String> {
    v.iter().map(|s| s.to_string()).collect()
}

fn stored(ptype: &str, v: &[&str]) -> CasbinRule {
    save_policy_line(ptype, &strings(v)).unwrap()
}

/// Deletes from `table` the rows that `f` selects; returns how many went.
fn apply(table: &mut Vec<CasbinRule>, f: &DeleteFilter) -> usize {
    let before = table.len();
    table.retain(|r| !f.holds(r));
    before - table.len()
}

#[test]
fn filtered_delete_at_offset_zero_removes_only_the_match() {
    let mut table = vec![
        stored("p", &["alice", "data1", "read"]),
        stored("p", &["bob", "data2", "write"]),
    ];
    let f = DeleteFilter::new("p", 0, strings(&["alice"]));
    assert_eq!(apply(&mut table, &f), 1);
    assert_eq!(table.len(), 1);
    assert_eq!(table[0].v0, Some("bob".to_string()));
}

#[test]
fn filtered_delete_at_offset_one_matches_trailing_columns() {
    let mut table = vec![stored("g", &["data2_admin", "domain1", "domain2"])];
    let f = DeleteFilter::new("g", 1, strings(&["domain1", "domain2"]));
    assert_eq!(apply(&mut table, &f), 1);
    assert!(table.is_empty());
}

#[test]
fn filtered_delete_treats_null_columns_as_matching() {
    let legacy = CasbinRule {
        id: Some(7),
        ptype: Some("g".to_string()),
        v0: Some("alice".to_string()),
        v1: None,
        v2: None,
        v3: None,
        v4: None,
        v5: None,
    };
    let f = DeleteFilter::new("g", 0, strings(&["alice", "admin", "domain1"]));
    assert!(f.holds(&legacy));
    let g = DeleteFilter::new("g", 0, strings(&["bob"]));
    assert!(!g.holds(&legacy));
    let h = DeleteFilter::new("p", 0, strings(&["alice"]));
    assert!(!h.holds(&legacy));
}

#[test]
fn filtered_delete_with_gap_and_wrong_type() {
    let mut table = vec![
        stored("p", &["alice_rfp", "book_rfp", "read_rfp"]),
        stored("p", &["bob_rfp", "book_rfp", "read_rfp"]),
        stored("p", &["bob_rfp", "book_rfp", "write_rfp"]),
        stored("p", &["alice_rfp", "pen_rfp", "get_rfp"]),
        stored("p", &["bob_rfp", "pen_rfp", "get_rfp"]),
        stored("p", &["alice_rfp", "pencil_rfp", "get_rfp"]),
    ];
    assert_eq!(apply(&mut table, &DeleteFilter::new("p", 1, strings(&["book_rfp"]))), 3);
    assert_eq!(apply(&mut table, &DeleteFilter::new("p", 0, strings(&["alice_rfp", "", "get_rfp"]))), 2);
    assert_eq!(table.len(), 1);
    assert_eq!(table[0].v0, Some("bob_rfp".to_string()));
    assert_eq!(apply(&mut table, &DeleteFilter::new("g", 0, strings(&["bob_rfp"]))), 0);
}

#[test]
fn filtered_delete_statement_text() {
    let f = DeleteFilter::new("g", 1, strings(&["data2_admin", "", "domain2"]));
    assert_eq!(f.columns, vec![None, Some("data2_admin".to_string()), None, Some("domain2".to_string()), None, None]);
    let s = f.to_sql();
    assert_eq!(
        s.sql,
        "DELETE FROM casbin_rule WHERE ptype = ? AND (v1 IS NULL OR v1 = ?) AND (v3 IS NULL OR v3 = ?)"
    );
    assert_eq!(
        s.args,
        vec![Some("g".to_string()), Some("data2_admin".to_string()), Some("domain2".to_string())]
    );
}

#[test]
fn filtered_removal_checks_the_range_first() {
    assert!(remove_filtered_policy("g", 0, strings(&["alice", "data2_admin"])).is_some());
    assert!(remove_filtered_policy("g", 5, strings(&["x"])).is_some());
    assert!(remove_filtered_policy("g", 0, vec![]).is_none());
    assert!(remove_filtered_policy("g", 6, strings(&["x"])).is_none());
    assert!(remove_filtered_policy("g", 4, strings(&["x", "y", "z"])).is_none());
    assert!(remove_filtered_policy("g", usize::MAX, strings(&["x"])).is_none());
    let b = remove_filtered_policy("g", 0, strings(&["carol"])).unwrap();
    assert_eq!(b.statements.len(), 1);
    assert_eq!(b.statements[0].sql, "DELETE FROM casbin_rule WHERE ptype = ? AND (v0 IS NULL OR v0 = ?)");
    assert!(!b.state.transactional);
}

#[test]
fn load_filter_selects_by_section_and_non_empty_values() {
    let f = PolicyFilter { p: strings(&["", "domain1"]), g: strings(&["", "", "domain1"]) };
    assert!(f.holds(&stored("p", &["admin", "domain1", "data1", "read"])));
    assert!(!f.holds(&stored("p", &["admin", "domain2", "data2", "read"])));
    assert!(f.holds(&stored("g", &["alice", "admin", "domain1"])));
    assert!(!f.holds(&stored("g", &["bob", "admin", "domain2"])));
    assert!(f.holds(&stored("g2", &["x", "y", "domain1"])));
    assert!(!f.holds(&stored("r", &["x", "domain1", "domain1"])));
    let legacy = CasbinRule {
        id: None,
        ptype: Some("p".to_string()),
        v0: Some("admin".to_string()),
        v1: None,
        v2: None,
        v3: None,
        v4: None,
        v5: None,
    };
    assert!(!f.holds(&legacy));
}

#[test]
fn load_filter_beyond_sixth_column_admits_nothing() {
    let f = PolicyFilter { p: strings(&["a", "", "", "", "", "", "x"]), g: vec![] };
    assert!(!f.holds(&stored("p", &["a"])));
    assert!(f.holds(&stored("g", &["a"])));
    let s = f.to_sql();
    assert_eq!(
        s.sql,
        "SELECT id, ptype, v0, v1, v2, v3, v4, v5 FROM casbin_rule WHERE (ptype LIKE 'g%') OR (ptype LIKE 'p%' AND v0 = ? AND 1 = 0)"
    );
    assert_eq!(s.args, vec![Some("a".to_string())]);
}

#[test]
fn load_filter_statement_text() {
    let f = PolicyFilter { p: strings(&["", "domain1"]), g: strings(&["", "", "domain1"]) };
    let s = f.to_sql();
    assert_eq!(
        s.sql,
        "SELECT id, ptype, v0, v1, v2, v3, v4, v5 FROM casbin_rule WHERE (ptype LIKE 'g%' AND v2 = ?) OR (ptype LIKE 'p%' AND v1 = ?)"
    );
    assert_eq!(s.args, vec![Some("domain1".to_string()), Some("domain1".to_string())]);
}
