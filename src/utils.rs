use vstd::prelude::*;
use crate::models::{
    CasbinRule, RuleView, FIELD_COUNT, opt_view, strings_view, opt_rule_view, rules_view,
    rows_view, lemma_strings_view_push,
};

verus! {

/// The characters that Unicode gives the White_Space property.
pub open spec fn is_white_space(c: char) -> bool {
    let u = c as u32;
    (0x09 <= u <= 0x0D) || u == 0x20 || u == 0x85 || u == 0xA0 || u == 0x1680
        || (0x2000 <= u <= 0x200A) || u == 0x2028 || u == 0x2029 || u == 0x202F
        || u == 0x205F || u == 0x3000
}

/// A policy type is blank when it is empty or made of white space only.
pub open spec fn blank(s: Seq<char>) -> bool {
    forall|i: int| 0 <= i < s.len() ==> is_white_space(#[trigger] s[i])
}

/// The row that stores `rule` under `ptype`: slots beyond the rule hold the
/// empty string, values beyond the sixth are dropped.
pub open spec fn encode(ptype: Seq<char>, rule: Seq<Seq<char>>) -> Option<RuleView> {
    if blank(ptype) || rule.len() == 0 {
        None
    } else {
        Some(
            RuleView {
                id: None,
                ptype: Some(ptype),
                values: Seq::new(
                    FIELD_COUNT as nat,
                    |i: int| Some(if i < rule.len() { rule[i] } else { Seq::<char>::empty() }),
                ),
            },
        )
    }
}

/// The non-empty values among `values`, in order.
pub open spec fn present_values(values: Seq<Option<Seq<char>>>) -> Seq<Seq<char>>
    decreases values.len(),
{
    if values.len() == 0 {
        Seq::empty()
    } else {
        let init = present_values(values.drop_last());
        match values.last() {
            Some(v) => if v.len() > 0 {
                init.push(v)
            } else {
                init
            },
            None => init,
        }
    }
}

/// The rule that a row stands for: none without a policy type or without a
/// single non-empty value.
pub open spec fn decode(r: RuleView) -> Option<Seq<Seq<char>>> {
    if r.ptype is None || present_values(r.values).len() == 0 {
        None
    } else {
        Some(present_values(r.values))
    }
}

pub fn is_white_space_char(c: char) -> (r: bool)
    ensures
        r == is_white_space(c),
{
    let u = c as u32;
    (0x09 <= u && u <= 0x0D) || u == 0x20 || u == 0x85 || u == 0xA0 || u == 0x1680 || (0x2000
        <= u && u <= 0x200A) || u == 0x2028 || u == 0x2029 || u == 0x202F || u == 0x205F || u
        == 0x3000
}

/// Whether `s` is empty or holds white space only.
pub fn is_blank(s: &str) -> (r: bool)
    ensures
        r == blank(s@),
{
    let n = s.unicode_len();
    let mut i: usize = 0;
    while i < n
        invariant
            n == s@.len(),
            i <= n,
            forall|k: int| 0 <= k < i ==> is_white_space(#[trigger] s@[k]),
        decreases n - i,
    {
        let c = s.get_char(i);
        if !is_white_space_char(c) {
            return false;
        }
        i = i + 1;
    }
    true
}

fn slot_or_empty(rule: &[String], i: usize) -> (r: Option<String>)
    ensures
        opt_view(r) == Some(if i < rule@.len() { rule@[i as int]@ } else { Seq::<char>::empty() }),
{
    if i < rule.len() {
        Some(rule[i].clone())
    } else {
        Some(String::new())
    }
}

/// Turns a rule of type `ptype` into a row; none for a blank type or an empty rule.
pub fn save_policy_line(ptype: &str, rule: &[String]) -> (r: Option<CasbinRule>)
    ensures
        opt_rule_view(r) == encode(ptype@, strings_view(rule@)),
{
    if is_blank(ptype) || rule.len() == 0 {
        return None;
    }
    let c = CasbinRule {
        id: None,
        ptype: Some(ptype.to_owned()),
        v0: slot_or_empty(rule, 0),
        v1: slot_or_empty(rule, 1),
        v2: slot_or_empty(rule, 2),
        v3: slot_or_empty(rule, 3),
        v4: slot_or_empty(rule, 4),
        v5: slot_or_empty(rule, 5),
    };
    let ghost e = encode(ptype@, strings_view(rule@));
    assert(c@.values =~= e.unwrap().values);
    Some(c)
}

/// Turns a row back into a rule: the non-empty values in column order.
pub fn normalize_policy(casbin_rule: &CasbinRule) -> (r: Option<Vec<String>>)
    ensures
        match r {
            Some(v) => decode(casbin_rule@) == Some(strings_view(v@)),
            None => decode(casbin_rule@) is None,
        },
{
    let ghost values = casbin_rule@.values;
    let mut result: Vec<String> = Vec::new();
    let mut j: usize = 0;
    while j < FIELD_COUNT
        invariant
            j <= FIELD_COUNT,
            values == casbin_rule@.values,
            values.len() == FIELD_COUNT,
            strings_view(result@) == present_values(values.subrange(0, j as int)),
        decreases FIELD_COUNT - j,
    {
        let ghost before = result@;
        assert(values.subrange(0, j as int + 1).drop_last() =~= values.subrange(0, j as int));
        match casbin_rule.slot(j) {
            Some(v) => {
                if !v.as_str().is_empty() {
                    result.push(v.clone());
                    proof {
                        lemma_strings_view_push(before, *v);
                    }
                }
            },
            None => {},
        }
        j = j + 1;
    }
    assert(values.subrange(0, FIELD_COUNT as int) =~= values);
    if result.len() == 0 || casbin_rule.ptype.is_none() {
        return None;
    }
    Some(result)
}

proof fn lemma_present_prefix(rule: Seq<Seq<char>>, values: Seq<Option<Seq<char>>>, k: int)
    requires
        0 <= k <= values.len(),
        rule.len() <= values.len(),
        forall|i: int| 0 <= i < rule.len() ==> #[trigger] rule[i].len() > 0,
        forall|i: int| 0 <= i < rule.len() ==> values[i] == Some(#[trigger] rule[i]),
        forall|i: int| rule.len() <= i < values.len() ==> #[trigger] values[i] == Some(Seq::<char>::empty()),
    ensures
        present_values(values.subrange(0, k)) == rule.subrange(0, if k < rule.len() { k } else { rule.len() as int }),
    decreases k,
{
    if k == 0 {
        assert(rule.subrange(0, 0) =~= Seq::<Seq<char>>::empty());
    } else {
        lemma_present_prefix(rule, values, k - 1);
        assert(values.subrange(0, k).drop_last() =~= values.subrange(0, k - 1));
        if k - 1 < rule.len() {
            assert(rule.subrange(0, k - 1).push(rule[k - 1]) =~= rule.subrange(0, k));
        }
    }
}

/// Storing a rule of one to six non-empty values under a non-blank type and
/// reading the row back gives the same rule.
pub proof fn lemma_decode_encode(ptype: Seq<char>, rule: Seq<Seq<char>>)
    requires
        !blank(ptype),
        1 <= rule.len() <= FIELD_COUNT,
        forall|i: int| 0 <= i < rule.len() ==> #[trigger] rule[i].len() > 0,
    ensures
        encode(ptype, rule) is Some,
        decode(encode(ptype, rule).unwrap()) == Some(rule),
{
    let values = encode(ptype, rule).unwrap().values;
    lemma_present_prefix(rule, values, FIELD_COUNT as int);
    assert(values.subrange(0, FIELD_COUNT as int) =~= values);
    assert(rule.subrange(0, rule.len() as int) =~= rule);
}

/// The rows that store `rules` under `ptype`, the rules that cannot be
/// stored left out.
pub open spec fn encode_all(ptype: Seq<char>, rules: Seq<Seq<Seq<char>>>) -> Seq<RuleView>
    decreases rules.len(),
{
    if rules.len() == 0 {
        Seq::empty()
    } else {
        let init = encode_all(ptype, rules.drop_last());
        match encode(ptype, rules.last()) {
            Some(r) => init.push(r),
            None => init,
        }
    }
}

/// The rows that store each rule of `rules` under `ptype`; the rules that
/// give no row are skipped.
pub fn save_policy_lines(ptype: &str, rules: &Vec<Vec<String>>) -> (r: Vec<CasbinRule>)
    ensures
        rows_view(r@) == encode_all(ptype@, rules_view(rules@)),
{
    let ghost all = rules_view(rules@);
    let mut out: Vec<CasbinRule> = Vec::new();
    let mut i: usize = 0;
    while i < rules.len()
        invariant
            i <= rules@.len(),
            all == rules_view(rules@),
            rows_view(out@) == encode_all(ptype@, all.subrange(0, i as int)),
        decreases rules@.len() - i,
    {
        assert(all.subrange(0, i as int + 1).drop_last() =~= all.subrange(0, i as int));
        assert(all.subrange(0, i as int + 1).last() == strings_view(rules@[i as int]@));
        let ghost before = out@;
        match save_policy_line(ptype, rules[i].as_slice()) {
            Some(c) => {
                out.push(c);
                assert(rows_view(out@) =~= rows_view(before).push(c@));
            },
            None => {},
        }
        i = i + 1;
    }
    assert(all.subrange(0, rules@.len() as int) =~= all);
    out
}

} // verus!
