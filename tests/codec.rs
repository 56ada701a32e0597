use casbin_rb_adapter::actions::{normalize_casbin_rule, normalize_casbin_rule_option};
use casbin_rb_adapter::utils::{is_blank, normalize_policy, save_policy_line, save_policy_lines};
use casbin_rb_adapter::CasbinRule;

fn strings(v: &[&str]) -> Vec<String> {
    v.iter().map(|s| s.to_string()).collect()
}

fn row(ptype: Option<&str>, values: [Option<&str>; 6]) -> CasbinRule {
    let v: Vec<Option<String>> = values.iter().map(|x| x.map(|s| s.to_string())).collect();
    CasbinRule {
        id: None,
        ptype: ptype.map(|s| s.to_string()),
        v0: v[0].clone(),
        v1: v[1].clone(),
        v2: v[2].clone(),
        v3: v[3].clone(),
        v4: v[4].clone(),
        v5: v[5].clone(),
    }
}

#[test]
fn test_normalize_casbin_rule() {
    let rule = strings(&["alice", "data1", "write"]);
    let new_rule = normalize_casbin_rule(rule.clone());
    println!("{new_rule:?}");
    assert!(new_rule.len() == 6);
    assert_eq!(new_rule[0], "alice".to_string());
    assert_eq!(new_rule[1], "data1".to_string());
    assert_eq!(new_rule[2], "write".to_string());
    assert_eq!(new_rule[3], "".to_string());
    assert_eq!(new_rule[4], "".to_string());
    assert_eq!(new_rule[5], "".to_string());

    let new_rule = normalize_casbin_rule_option(rule);
    println!("{new_rule:?}");
    assert!(new_rule.len() == 6);
    assert_eq!(new_rule[0], Some("alice".to_string()));
    assert_eq!(new_rule[1], Some("data1".to_string()));
    assert_eq!(new_rule[2], Some("write".to_string()));
    assert_eq!(new_rule[3], None);
    assert_eq!(new_rule[4], None);
    assert_eq!(new_rule[5], None);
}

#[test]
fn test_save_policy_line() {
    let rule = strings(&["alice", "data1", "read"]);
    let casbin_rule = save_policy_line("p", &rule).unwrap();
    assert_eq!(casbin_rule.ptype, Some("p".to_owned()));
    assert_eq!(casbin_rule.v0, Some("alice".to_owned()));
    assert_eq!(casbin_rule.v1, Some("data1".to_owned()));
    assert_eq!(casbin_rule.v2, Some("read".to_owned()));
    assert_eq!(casbin_rule.v3, Some("".to_owned()));
    assert_eq!(casbin_rule.v4, Some("".to_owned()));
    assert_eq!(casbin_rule.v5, Some("".to_owned()));
}

#[test]
fn test_normalize_policy() {
    let casbin_rule = CasbinRule {
        id: None,
        ptype: Some("p".to_owned()),
        v0: Some("alice".to_owned()),
        v1: Some("data1".to_owned()),
        v2: Some("read".to_owned()),
        v3: None,
        v4: None,
        v5: Some("".to_owned()),
    };
    let policy = normalize_policy(&casbin_rule).unwrap();
    assert_eq!(policy, strings(&["alice", "data1", "read"]));
}

#[test]
fn encode_pads_two_values_with_empty_strings() {
    let r = save_policy_line("p", &strings(&["a", "b"])).unwrap();
    assert_eq!(r.id, None);
    assert_eq!(r.ptype, Some("p".to_string()));
    assert_eq!(r.v0, Some("a".to_string()));
    assert_eq!(r.v1, Some("b".to_string()));
    assert_eq!(r.v2, Some("".to_string()));
    assert_eq!(r.v3, Some("".to_string()));
    assert_eq!(r.v4, Some("".to_string()));
    assert_eq!(r.v5, Some("".to_string()));
}

#[test]
fn encode_skips_blank_type_and_empty_rule() {
    assert!(save_policy_line("", &strings(&["a"])).is_none());
    assert!(save_policy_line(" \t\n", &strings(&["a"])).is_none());
    assert!(save_policy_line("\u{3000}", &strings(&["a"])).is_none());
    assert!(save_policy_line("p", &[]).is_none());
    assert!(save_policy_line(" p ", &strings(&["a"])).is_some());
}

#[test]
fn encode_drops_values_beyond_the_sixth() {
    let r = save_policy_line("p", &strings(&["1", "2", "3", "4", "5", "6", "7"])).unwrap();
    assert_eq!(r.v5, Some("6".to_string()));
    assert_eq!(normalize_policy(&r).unwrap(), strings(&["1", "2", "3", "4", "5", "6"]));
}

#[test]
fn blank_detection() {
    assert!(is_blank(""));
    assert!(is_blank("  \u{a0}\u{2028}"));
    assert!(!is_blank(" x "));
}

#[test]
fn round_trip_of_full_and_short_rules() {
    for rule in [
        strings(&["alice"]),
        strings(&["alice", "data1", "read"]),
        strings(&["a", "b", "c", "d", "e", "f"]),
    ] {
        let r = save_policy_line("g2", &rule).unwrap();
        assert_eq!(normalize_policy(&r), Some(rule));
    }
}

#[test]
fn decode_skips_middle_gaps() {
    let r = row(Some("p"), [Some("a"), None, Some("b"), Some(""), None, None]);
    assert_eq!(normalize_policy(&r), Some(strings(&["a", "b"])));
}

#[test]
fn decode_without_type_or_values_gives_nothing() {
    let r = row(None, [Some("a"), None, None, None, None, None]);
    assert_eq!(normalize_policy(&r), None);
    let r = row(Some("p"), [Some(""), None, Some(""), None, None, None]);
    assert_eq!(normalize_policy(&r), None);
}

#[test]
fn encode_many_skips_empty_rules() {
    let rules = vec![strings(&["alice", "data1"]), vec![], strings(&["bob"])];
    let rows = save_policy_lines("p", &rules);
    assert_eq!(rows.len(), 2);
    assert_eq!(rows[0].v0, Some("alice".to_string()));
    assert_eq!(rows[1].v0, Some("bob".to_string()));
    assert!(save_policy_lines("", &rules).is_empty());
}

#[test]
fn normalize_truncates_long_rules() {
    let r = normalize_casbin_rule(strings(&["1", "2", "3", "4", "5", "6", "7"]));
    assert_eq!(r, strings(&["1", "2", "3", "4", "5", "6"]));
    let o = normalize_casbin_rule_option(strings(&["", "x"]));
    assert_eq!(o, vec![None, Some("x".to_string()), None, None, None, None]);
}
