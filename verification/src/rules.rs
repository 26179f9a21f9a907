//! Per-OS rule blocks on libraries, and their evaluation.
//!
//! Evaluation starts from "denied"; every rule whose OS constraint is absent
//! or names the current OS overwrites the decision with its action, so the
//! last matching rule wins.

use vstd::prelude::*;

verus! {

/// What a matching rule decides.
#[derive(Clone, Copy, PartialEq, Eq, Debug, Structural)]
pub enum RuleAction {
    Allow,
    Disallow,
}

/// One rule of a library's `rules` block.  `os_name` is absent when the rule
/// applies everywhere; a rule whose OS block carried no name is stored with
/// an empty name and never matches.
#[derive(Clone, Debug)]
pub struct Rule {
    pub action: RuleAction,
    pub os_name: Option<String>,
}

/// Whether a rule applies on the OS called `os`.
pub open spec fn spec_rule_applies(r: Rule, os: Seq<char>) -> bool {
    match r.os_name {
        Option::None => true,
        Option::Some(n) => n@ == os,
    }
}

/// The decision of a rule list on the OS called `os`: the action of the last
/// applying rule, or `Disallow` when none applies.
pub open spec fn spec_rules_decision(rules: Seq<Rule>, os: Seq<char>) -> RuleAction
    decreases rules.len(),
{
    if rules.len() == 0 {
        RuleAction::Disallow
    } else if spec_rule_applies(rules.last(), os) {
        rules.last().action
    } else {
        spec_rules_decision(rules.drop_last(), os)
    }
}

/// A library with no rule block is always downloaded; otherwise the rule
/// decision must be `Allow`.
pub open spec fn spec_library_allowed(rules: Option<Seq<Rule>>, os: Seq<char>) -> bool {
    match rules {
        Option::None => true,
        Option::Some(rs) => spec_rules_decision(rs, os) is Allow,
    }
}

/// Evaluates a rule list for the OS called `os`.
pub fn evaluate_rules(rules: &Vec<Rule>, os: &str) -> (allow: bool)
    ensures
        allow == (spec_rules_decision(rules@, os@) is Allow),
{
    let mut allowed = false;
    let mut i: usize = 0;
    proof {
        assert(rules@.take(0) =~= Seq::<Rule>::empty());
    }
    while i < rules.len()
        invariant
            i <= rules@.len(),
            allowed == (spec_rules_decision(rules@.take(i as int), os@) is Allow),
        decreases rules@.len() - i,
    {
        let applies = match &rules[i].os_name {
            Option::None => true,
            Option::Some(n) => crate::text::str_eq(n.as_str(), os),
        };
        if applies {
            allowed = match rules[i].action {
                RuleAction::Allow => true,
                RuleAction::Disallow => false,
            };
        }
        proof {
            let pre = rules@.take(i as int);
            let now = rules@.take(i + 1);
            assert(now.drop_last() =~= pre);
            assert(now.last() == rules@[i as int]);
        }
        i += 1;
    }
    proof {
        assert(rules@.take(rules@.len() as int) =~= rules@);
    }
    allowed
}

/// Whether a library with the given (possibly absent) rule block is
/// downloaded on the OS called `os`.
pub fn should_download_library(rules: &Option<Vec<Rule>>, os: &str) -> (r: bool)
    ensures
        r == spec_library_allowed(
            match rules {
                Option::None => Option::None,
                Option::Some(rs) => Option::Some(rs@),
            },
            os@,
        ),
{
    match rules {
        Option::None => true,
        Option::Some(rs) => evaluate_rules(rs, os),
    }
}

/// The decision of a rule list equals the action of its last applying rule.
pub proof fn lemma_rule_decision_is_last_match(rules: Seq<Rule>, os: Seq<char>, i: int)
    requires
        0 <= i < rules.len(),
        spec_rule_applies(rules[i], os),
        forall|j: int| i < j < rules.len() ==> !spec_rule_applies(#[trigger] rules[j], os),
    ensures
        spec_rules_decision(rules, os) == rules[i].action,
    decreases rules.len(),
{
    if i == rules.len() - 1 {
    } else {
        assert(!spec_rule_applies(rules.last(), os));
        assert(rules.drop_last()[i] == rules[i]);
        lemma_rule_decision_is_last_match(rules.drop_last(), os, i);
    }
}

/// The decision of a rule list with no applying rule is `Disallow`.
pub proof fn lemma_rule_decision_no_match(rules: Seq<Rule>, os: Seq<char>)
    requires
        forall|j: int| 0 <= j < rules.len() ==> !spec_rule_applies(#[trigger] rules[j], os),
    ensures
        spec_rules_decision(rules, os) == RuleAction::Disallow,
    decreases rules.len(),
{
    if rules.len() > 0 {
        lemma_rule_decision_no_match(rules.drop_last(), os);
    }
}

} // verus!
