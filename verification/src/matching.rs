//! Finding rules by a fragment of their id or of a matcher's address.

use crate::cloudflare_api::{
    rule_views, EmailRoutingRule, EmailRoutingRuleMatcher, EmailRoutingRuleMatcherType,
    MatcherView, RuleView,
};
use crate::text::{contains, is_substring, lowercase, lowercased};
use vstd::prelude::*;

verus! {

/// `input` occurs in `other` when case is set aside.
pub open spec fn kinda_matches(input: Seq<char>, other: Seq<char>) -> bool {
    is_substring(lowercased(input), lowercased(other))
}

/// A literal matcher is found by its address; a catch-all by nothing.
pub open spec fn matcher_matches(input: Seq<char>, matcher: MatcherView) -> bool {
    match matcher {
        MatcherView::MatchAll => false,
        MatcherView::MatchLiteral { address } => kinda_matches(input, address),
    }
}

/// A rule is found by its id or by any of its matchers.
pub open spec fn rule_matches(input: Seq<char>, rule: RuleView) -> bool {
    kinda_matches(input, rule.id) || exists|i: int|
        0 <= i < rule.matchers.len() && matcher_matches(input, #[trigger] rule.matchers[i])
}

/// Whether `input` occurs in `other`, case set aside.
pub fn string_kinda_matches(input: &str, other: &str) -> (b: bool)
    ensures
        b == kinda_matches(input@, other@),
{
    let hay = lowercase(other);
    let needle = lowercase(input);
    contains(hay.as_str(), needle.as_str())
}

/// Whether the identifier finds this matcher.
pub fn matcher_kinda_matches(identifier: &str, matcher: &EmailRoutingRuleMatcher) -> (b: bool)
    ensures
        b == matcher_matches(identifier@, matcher@),
{
    match &matcher.matcher_type {
        EmailRoutingRuleMatcherType::All => false,
        EmailRoutingRuleMatcherType::Literal { value } => string_kinda_matches(
            identifier,
            value.as_str(),
        ),
    }
}

/// Whether the identifier finds this rule.
pub fn rule_kinda_matches(identifier: &str, rule: &EmailRoutingRule) -> (b: bool)
    ensures
        b == rule_matches(identifier@, rule@),
{
    if string_kinda_matches(identifier, rule.id.as_str()) {
        return true;
    }
    let mut i: usize = 0;
    while i < rule.matchers.len()
        invariant
            i <= rule.matchers.len(),
            !kinda_matches(identifier@, rule@.id),
            forall|j: int| 0 <= j < i ==> !matcher_matches(identifier@, #[trigger] rule@.matchers[j]),
        decreases rule.matchers.len() - i,
    {
        if matcher_kinda_matches(identifier, &rule.matchers[i]) {
            assert(matcher_matches(identifier@, rule@.matchers[i as int]));
            return true;
        }
        i += 1;
    }
    false
}

/// The rules that the identifier finds, in the order in which they stand.
pub open spec fn matching_rules(identifier: Seq<char>, rules: Seq<RuleView>) -> Seq<RuleView> {
    rules.filter(|r: RuleView| rule_matches(identifier, r))
}

/// The rules at the given places.
pub open spec fn rules_at(rules: Seq<EmailRoutingRule>, places: Seq<usize>) -> Seq<RuleView> {
    places.map_values(|i: usize| rules[i as int]@)
}

/// The places of the rules that the identifier finds, in rising order.
pub fn find_matching(rules: &Vec<EmailRoutingRule>, identifier: &str) -> (places: Vec<usize>)
    ensures
        forall|k: int| 0 <= k < places@.len() ==> (#[trigger] places@[k]) < rules@.len(),
        forall|k: int, l: int| 0 <= k < l < places@.len() ==> places@[k] < places@[l],
        forall|i: int|
            0 <= i < rules@.len() ==> (rule_matches(identifier@, (#[trigger] rules@[i])@)
                <==> places@.contains(i as usize)),
        rules_at(rules@, places@) == matching_rules(identifier@, rule_views(rules@)),
{
    let mut places: Vec<usize> = Vec::new();
    let mut i: usize = 0;
    proof {
        reveal(Seq::filter);
        assert(rule_views(rules@).take(0) =~= Seq::empty());
        assert(rules_at(rules@, places@) =~= Seq::empty());
    }
    while i < rules.len()
        invariant
            i <= rules.len(),
            forall|k: int| 0 <= k < places@.len() ==> (#[trigger] places@[k]) < i,
            forall|k: int, l: int| 0 <= k < l < places@.len() ==> places@[k] < places@[l],
            forall|j: int|
                0 <= j < i ==> (rule_matches(identifier@, (#[trigger] rules@[j])@)
                    <==> places@.contains(j as usize)),
            rules_at(rules@, places@) == matching_rules(
                identifier@,
                rule_views(rules@).take(i as int),
            ),
        decreases rules.len() - i,
    {
        let ghost before = places@;
        let ghost seen = rule_views(rules@).take(i as int);
        let ghost next = rule_views(rules@).take(i + 1);
        let hit = rule_kinda_matches(identifier, &rules[i]);
        if hit {
            places.push(i);
        }
        proof {
            assert(next.drop_last() =~= seen);
            assert(next.last() == rules@[i as int]@);
            reveal(Seq::filter);
            if hit {
                assert(places@.last() == i);
                assert(rules_at(rules@, places@) =~= rules_at(rules@, before).push(
                    rules@[i as int]@,
                ));
                assert forall|j: int| 0 <= j < i + 1 implies (rule_matches(
                    identifier@,
                    (#[trigger] rules@[j])@,
                ) <==> places@.contains(j as usize)) by {
                    if j < i {
                        if before.contains(j as usize) {
                            let k = choose|k: int| 0 <= k < before.len() && before[k] == j as usize;
                            assert(places@[k] == j as usize);
                        }
                        if places@.contains(j as usize) {
                            let k = choose|k: int|
                                0 <= k < places@.len() && places@[k] == j as usize;
                            assert(k < before.len());
                            assert(before[k] == j as usize);
                        }
                    }
                }
            } else {
                assert forall|j: int| 0 <= j < i + 1 implies (rule_matches(
                    identifier@,
                    (#[trigger] rules@[j])@,
                ) <==> places@.contains(j as usize)) by {
                    if j == i && places@.contains(j as usize) {
                        let k = choose|k: int| 0 <= k < places@.len() && places@[k] == j as usize;
                        assert(places@[k] < i);
                    }
                }
            }
        }
        i += 1;
    }
    assert(rule_views(rules@).take(rules@.len() as int) =~= rule_views(rules@));
    places
}

/// An identifier whose lower-case form occurs in the lower-case form of a
/// rule's id finds that rule.
pub proof fn lemma_fragment_of_id_matches(identifier: Seq<char>, rule: RuleView)
    requires
        is_substring(lowercased(identifier), lowercased(rule.id)),
    ensures
        rule_matches(identifier, rule),
{
}

/// An identifier whose lower-case form occurs in the lower-case form of the
/// address of one of a rule's literal matchers finds that rule.
pub proof fn lemma_fragment_of_address_matches(
    identifier: Seq<char>,
    rule: RuleView,
    which: int,
    address: Seq<char>,
)
    requires
        0 <= which < rule.matchers.len(),
        rule.matchers[which] == (MatcherView::MatchLiteral { address }),
        is_substring(lowercased(identifier), lowercased(address)),
    ensures
        rule_matches(identifier, rule),
{
    assert(matcher_matches(identifier, rule.matchers[which]));
}

/// Only the lower-case form of the identifier counts: two identifiers with
/// the same lower-case form find the same rules.
pub proof fn lemma_match_ignores_case(first: Seq<char>, second: Seq<char>, rule: RuleView)
    requires
        lowercased(first) == lowercased(second),
    ensures
        rule_matches(first, rule) == rule_matches(second, rule),
{
    assert forall|i: int| 0 <= i < rule.matchers.len() implies matcher_matches(
        first,
        #[trigger] rule.matchers[i],
    ) == matcher_matches(second, rule.matchers[i]) by {}
    if rule_matches(first, rule) && !kinda_matches(first, rule.id) {
        let i = choose|i: int|
            0 <= i < rule.matchers.len() && matcher_matches(first, #[trigger] rule.matchers[i]);
        assert(matcher_matches(second, rule.matchers[i]));
    }
    if rule_matches(second, rule) && !kinda_matches(second, rule.id) {
        let i = choose|i: int|
            0 <= i < rule.matchers.len() && matcher_matches(second, #[trigger] rule.matchers[i]);
        assert(matcher_matches(first, rule.matchers[i]));
    }
}

/// A rule with nothing but catch-all matchers is found by its id alone.
pub proof fn lemma_catch_all_found_by_id_only(identifier: Seq<char>, rule: RuleView)
    requires
        forall|i: int| 0 <= i < rule.matchers.len() ==> rule.matchers[i] is MatchAll,
    ensures
        rule_matches(identifier, rule) == kinda_matches(identifier, rule.id),
{
}

/// The identifier finds none of the rules.
pub open spec fn none_match(identifier: Seq<char>, rules: Seq<RuleView>) -> bool {
    forall|i: int| 0 <= i < rules.len() ==> !rule_matches(identifier, #[trigger] rules[i])
}

/// The identifier finds the rule at `place` and no other.
pub open spec fn only_match(identifier: Seq<char>, rules: Seq<RuleView>, place: int) -> bool {
    &&& 0 <= place < rules.len()
    &&& rule_matches(identifier, rules[place])
    &&& forall|j: int|
        0 <= j < rules.len() && j != place ==> !rule_matches(identifier, #[trigger] rules[j])
}

/// The list of rules found is empty exactly where the identifier finds none,
/// and holds a single rule exactly where the identifier finds one rule and no
/// other; that rule is then the one listed.
pub proof fn lemma_matching_rules_count(identifier: Seq<char>, rules: Seq<RuleView>)
    ensures
        matching_rules(identifier, rules).len() == 0 <==> none_match(identifier, rules),
        matching_rules(identifier, rules).len() == 1 <==> exists|place: int|
            only_match(identifier, rules, place),
        forall|place: int|
            only_match(identifier, rules, place) ==> matching_rules(identifier, rules)[0]
                == rules[place],
    decreases rules.len(),
{
    reveal(Seq::filter);
    let pred = |r: RuleView| rule_matches(identifier, r);
    if rules.len() == 0 {
        assert(matching_rules(identifier, rules).len() == 0);
    } else {
        let rest = rules.drop_last();
        let last = rules.len() - 1;
        lemma_matching_rules_count(identifier, rest);
        let found = matching_rules(identifier, rules);
        let before = matching_rules(identifier, rest);
        assert forall|j: int| 0 <= j < rest.len() implies rest[j] == rules[j] by {}
        if rule_matches(identifier, rules[last]) {
            assert(found == before.push(rules[last]));
            assert(!none_match(identifier, rules));
            if before.len() == 0 {
                assert(none_match(identifier, rest));
                assert forall|j: int| 0 <= j < rules.len() && j != last implies !rule_matches(
                    identifier,
                    #[trigger] rules[j],
                ) by {
                    assert(rules[j] == rest[j]);
                }
                assert(only_match(identifier, rules, last));
            }
            assert forall|place: int| only_match(identifier, rules, place) implies before.len()
                == 0 && found[0] == rules[place] by {
                assert(place == last);
                assert forall|j: int| 0 <= j < rest.len() implies !rule_matches(
                    identifier,
                    #[trigger] rest[j],
                ) by {
                    assert(rest[j] == rules[j]);
                }
                assert(none_match(identifier, rest));
            }
        } else {
            assert(found == before);
            if none_match(identifier, rest) {
                assert forall|j: int| 0 <= j < rules.len() implies !rule_matches(
                    identifier,
                    #[trigger] rules[j],
                ) by {
                    if j < last {
                        assert(rules[j] == rest[j]);
                    }
                }
            }
            if none_match(identifier, rules) {
                assert forall|j: int| 0 <= j < rest.len() implies !rule_matches(
                    identifier,
                    #[trigger] rest[j],
                ) by {
                    assert(rest[j] == rules[j]);
                }
            }
            if before.len() == 1 {
                let place = choose|place: int| only_match(identifier, rest, place);
                assert forall|j: int| 0 <= j < rules.len() && j != place implies !rule_matches(
                    identifier,
                    #[trigger] rules[j],
                ) by {
                    if j < last {
                        assert(rules[j] == rest[j]);
                    }
                }
                assert(only_match(identifier, rules, place));
            }
            assert forall|place: int| only_match(identifier, rules, place) implies only_match(
                identifier,
                rest,
                place,
            ) by {
                assert(place != last);
                assert forall|j: int| 0 <= j < rest.len() && j != place implies !rule_matches(
                    identifier,
                    #[trigger] rest[j],
                ) by {
                    assert(rest[j] == rules[j]);
                }
            }
        }
    }
}

} // verus!
