use casbin_rb_adapter::adapter::AdapterState;
use casbin_rb_adapter::loader::{route_policies, route_policy, Section};
use casbin_rb_adapter::utils::save_policy_line;
use casbin_rb_adapter::CasbinRule;

fn strings(v: &[&str]) -> Vec<String> {
    v.iter().map(|s| s.to_string()).collect()
}

fn stored(ptype: &str, v: &[&str]) -> CasbinRule {
    save_policy_line(ptype, &strings(v)).unwrap()
}

#[test]
fn rows_route_by_first_character_of_type() {
    let l = route_policy(&stored("p2", &["alice", "data1", "read"])).unwrap();
    assert_eq!(l.section, Section::P);
    assert_eq!(l.ptype, "p2");
    assert_eq!(l.rule, strings(&["alice", "data1", "read"]));
    let l = route_policy(&stored("g", &["alice", "admin"])).unwrap();
    assert_eq!(l.section, Section::G);
    assert!(route_policy(&stored("r", &["x"])).is_none());
}

#[test]
fn rows_without_type_or_values_are_skipped() {
    let mut no_type = stored("p", &["alice"]);
    no_type.ptype = None;
    let empty = CasbinRule {
        id: Some(3),
        ptype: Some("p".to_string()),
        v0: Some(String::new()),
        v1: None,
        v2: None,
        v3: None,
        v4: None,
        v5: None,
    };
    let rows = vec![no_type, stored("p", &["alice", "data1"]), empty, stored("g", &["bob", "admin"])];
    let loaded = route_policies(&rows);
    assert_eq!(loaded.len(), 2);
    assert_eq!(loaded[0].rule, strings(&["alice", "data1"]));
    assert_eq!(loaded[1].section, Section::G);
}

#[test]
fn filtered_flag_is_sticky() {
    let rows = vec![stored("p", &["alice", "data1", "read"])];
    let mut st = AdapterState::new();
    assert!(!st.is_filtered());
    assert_eq!(st.load_policy(&rows).len(), 1);
    assert!(!st.is_filtered());
    st.load_filtered_policy(&rows);
    assert!(st.is_filtered());
    st.load_policy(&rows);
    assert!(st.is_filtered());
}
