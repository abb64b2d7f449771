//! Deleting a rule that the user names by a fragment: list the zones, list
//! the rules, find the one rule that the fragment means, delete it. A fragment
//! that means no rule or several deletes nothing.

use crate::cloudflare_api::{rule_views, zone_views, EmailRoutingRule, RuleView, Zone, ZoneView};
use crate::command::{select_first_zone, CommandError};
use crate::display::{renderings, Render};
use crate::flow::{
    bullet, bullets, chosen_zone, prefixed, push_bullets, selected_zone_line, selected_zone_note,
    CallView, Outcome, ProviderCall, ProviderReply, ReplyView, Step, StepView,
};
use crate::matching::{
    find_matching, lemma_matching_rules_count, matching_rules, none_match, only_match, rules_at,
};
use crate::text::texts;
use vstd::prelude::*;

verus! {

/// Where the deletion stands.
#[derive(Debug)]
pub enum DeleteRuleState {
    /// The zones were asked for.
    AwaitingZones { identifier: String },
    /// The zone is chosen and its rules were asked for.
    AwaitingRules { zone: Zone, identifier: String },
    /// The deletion was asked for.
    AwaitingDeletion,
}

/// The model of the state of a deletion.
pub enum DeleteStateView {
    AwaitingZones { identifier: Seq<char> },
    AwaitingRules { zone: ZoneView, identifier: Seq<char> },
    AwaitingDeletion,
}

impl View for DeleteRuleState {
    type V = DeleteStateView;

    open spec fn view(&self) -> DeleteStateView {
        match *self {
            DeleteRuleState::AwaitingZones { identifier } => DeleteStateView::AwaitingZones {
                identifier: identifier@,
            },
            DeleteRuleState::AwaitingRules { zone, identifier } => DeleteStateView::AwaitingRules {
                zone: zone@,
                identifier: identifier@,
            },
            DeleteRuleState::AwaitingDeletion => DeleteStateView::AwaitingDeletion,
        }
    }
}

/// The texts of a list of rules.
pub open spec fn rule_texts(rules: Seq<RuleView>) -> Seq<Seq<char>> {
    rules.map_values(|r: RuleView| r.rendered())
}

/// What the user is told when the rules could not be listed and the
/// identifier is taken for a rule's id as it stands.
pub open spec fn fallback_note() -> Seq<char> {
    "Fetching rule identifier failed. Assuming user provided an existing rule ID."@
}

/// What the user is told when the identifier finds no rule: that, and every
/// rule there is.
pub open spec fn not_found_notes(identifier: Seq<char>, rules: Seq<RuleView>) -> Seq<Seq<char>> {
    seq!["No rules found with identifier "@ + identifier + "."@, "Available rules:"@] + bullets(
        rule_texts(rules),
    )
}

/// What the user is told when the identifier finds several rules: that, the
/// rules found, and what to do about it.
pub open spec fn ambiguous_notes(identifier: Seq<char>, found: Seq<RuleView>) -> Seq<Seq<char>> {
    seq!["Multiple rules found with identifier "@ + identifier + ":"@] + bullets(
        rule_texts(found),
    ) + seq!["Please specify a unique identifier."@]
}

/// What to do once the rules are listed, or could not be.
pub open spec fn delete_after_rules(
    zone: ZoneView,
    identifier: Seq<char>,
    rules: Option<Seq<RuleView>>,
) -> StepView<DeleteStateView> {
    match rules {
        None => StepView::Call {
            state: DeleteStateView::AwaitingDeletion,
            call: CallView::DeleteRule { zone_id: zone.id, rule_id: identifier },
            notes: seq![fallback_note()],
        },
        Some(all) => {
            let found = matching_rules(identifier, all);
            if found.len() == 0 {
                StepView::Done {
                    outcome: Outcome::IdentifierNotFound,
                    notes: not_found_notes(identifier, all),
                }
            } else if found.len() == 1 {
                StepView::Call {
                    state: DeleteStateView::AwaitingDeletion,
                    call: CallView::DeleteRule { zone_id: zone.id, rule_id: found[0].id },
                    notes: seq!["Found rule: "@ + found[0].rendered()],
                }
            } else {
                StepView::Done {
                    outcome: Outcome::AmbiguousIdentifier,
                    notes: ambiguous_notes(identifier, found),
                }
            }
        },
    }
}

/// The step of the deletion: what follows from a state and the reply to the
/// call that the state waits for. A reply to another call is a failure of the
/// provider.
pub open spec fn delete_rule_next(state: DeleteStateView, reply: ReplyView) -> StepView<
    DeleteStateView,
> {
    match (state, reply) {
        (DeleteStateView::AwaitingZones { identifier }, ReplyView::Zones { zones, errors }) => {
            match chosen_zone(zones) {
                Some(zone) => StepView::Call {
                    state: DeleteStateView::AwaitingRules { zone, identifier },
                    call: CallView::ListRules { zone_id: zone.id },
                    notes: seq![selected_zone_note(zone)],
                },
                None => StepView::Failed { error: CommandError::NoZoneAvailable },
            }
        },
        (
            DeleteStateView::AwaitingRules { zone, identifier },
            ReplyView::Rules { rules, errors },
        ) => delete_after_rules(zone, identifier, rules),
        (DeleteStateView::AwaitingDeletion, ReplyView::Deleted { success, errors }) => {
            if success {
                StepView::Done {
                    outcome: Outcome::RuleDeleted,
                    notes: seq!["Rule deleted successfully."@],
                }
            } else {
                StepView::Failed { error: CommandError::ProviderCallFailed { errors } }
            }
        },
        _ => StepView::Failed { error: CommandError::ProviderCallFailed { errors: reply.errors() } },
    }
}

/// The first step of a deletion: ask for the zones.
pub fn delete_rule_start(identifier: String) -> (step: Step<DeleteRuleState>)
    ensures
        step@ == (StepView::Call {
            state: DeleteStateView::AwaitingZones { identifier: identifier@ },
            call: CallView::ListZones,
            notes: Seq::<Seq<char>>::empty(),
        }),
{
    let notes: Vec<String> = Vec::new();
    assert(texts(notes@) =~= Seq::empty());
    Step::Call {
        state: DeleteRuleState::AwaitingZones { identifier },
        call: ProviderCall::ListZones,
        notes,
    }
}

/// Adds the rules at the given places to the lines, one line each.
fn push_bullets_at(lines: &mut Vec<String>, rules: &Vec<EmailRoutingRule>, places: &Vec<usize>)
    requires
        forall|k: int| 0 <= k < places@.len() ==> (#[trigger] places@[k]) < rules@.len(),
    ensures
        texts(final(lines)@) == texts(old(lines)@) + bullets(
            rule_texts(rules_at(rules@, places@)),
        ),
{
    let mut k: usize = 0;
    proof {
        assert(bullets(rule_texts(rules_at(rules@, places@))).take(0) =~= Seq::empty());
        assert(texts(lines@) =~= texts(old(lines)@) + Seq::empty());
    }
    while k < places.len()
        invariant
            k <= places.len(),
            forall|j: int| 0 <= j < places@.len() ==> (#[trigger] places@[j]) < rules@.len(),
            texts(lines@) == texts(old(lines)@) + bullets(
                rule_texts(rules_at(rules@, places@)),
            ).take(k as int),
        decreases places.len() - k,
    {
        let ghost before = texts(lines@);
        let shown = rules[places[k]].render();
        let item = prefixed("  - ", shown.as_str());
        lines.push(item);
        proof {
            let all = bullets(rule_texts(rules_at(rules@, places@)));
            assert(all[k as int] == bullet(rules@[places@[k as int] as int]@.rendered()));
            assert(texts(lines@) =~= before.push(item@));
            assert(all.take(k + 1) =~= all.take(k as int).push(all[k as int]));
            assert(texts(lines@) =~= texts(old(lines)@) + all.take(k + 1));
        }
        k += 1;
    }
    proof {
        let all = bullets(rule_texts(rules_at(rules@, places@)));
        assert(all.take(places@.len() as int) =~= all);
    }
}

/// What to do once the rules are listed, or could not be.
fn after_rules(zone: Zone, identifier: String, rules: Option<Vec<EmailRoutingRule>>) -> (step:
    Step<DeleteRuleState>)
    ensures
        step@ == delete_after_rules(
            zone@,
            identifier@,
            match rules {
                Some(list) => Some(rule_views(list@)),
                None => None,
            },
        ),
{
    match rules {
        None => {
            let mut notes: Vec<String> = Vec::new();
            notes.push(
                "Fetching rule identifier failed. Assuming user provided an existing rule ID.".to_owned(),
            );
            assert(texts(notes@) =~= seq![fallback_note()]);
            Step::Call {
                state: DeleteRuleState::AwaitingDeletion,
                call: ProviderCall::DeleteRule { zone_id: zone.id, rule_id: identifier },
                notes,
            }
        },
        Some(list) => {
            let places = find_matching(&list, identifier.as_str());
            let ghost found = matching_rules(identifier@, rule_views(list@));
            let mut notes: Vec<String> = Vec::new();
            if places.len() == 0 {
                let mut head = prefixed("No rules found with identifier ", identifier.as_str());
                head.append(".");
                notes.push(head);
                notes.push("Available rules:".to_owned());
                let ghost start = texts(notes@);
                push_bullets(&mut notes, list.as_slice());
                proof {
                    assert(start =~= seq![
                        "No rules found with identifier "@ + identifier@ + "."@,
                        "Available rules:"@,
                    ]);
                    assert(renderings(list@) =~= rule_texts(rule_views(list@)));
                }
                Step::Done { outcome: Outcome::IdentifierNotFound, notes }
            } else if places.len() == 1 {
                let rule = &list[places[0]];
                let shown = rule.render();
                notes.push(prefixed("Found rule: ", shown.as_str()));
                proof {
                    assert(found[0] == list@[places@[0] as int]@);
                    assert(texts(notes@) =~= seq!["Found rule: "@ + found[0].rendered()]);
                }
                Step::Call {
                    state: DeleteRuleState::AwaitingDeletion,
                    call: ProviderCall::DeleteRule { zone_id: zone.id, rule_id: rule.id.clone() },
                    notes,
                }
            } else {
                let mut head = prefixed("Multiple rules found with identifier ", identifier.as_str());
                head.append(":");
                notes.push(head);
                let ghost start = texts(notes@);
                push_bullets_at(&mut notes, &list, &places);
                let ghost middle = texts(notes@);
                notes.push("Please specify a unique identifier.".to_owned());
                proof {
                    assert(start =~= seq![
                        "Multiple rules found with identifier "@ + identifier@ + ":"@,
                    ]);
                    assert(texts(notes@) =~= middle + seq!["Please specify a unique identifier."@]);
                }
                Step::Done { outcome: Outcome::AmbiguousIdentifier, notes }
            }
        },
    }
}

/// One step of the deletion.
pub fn delete_rule_step(state: DeleteRuleState, reply: ProviderReply) -> (step: Step<
    DeleteRuleState,
>)
    ensures
        step@ == delete_rule_next(state@, reply@),
{
    match state {
        DeleteRuleState::AwaitingZones { identifier } => match reply {
            ProviderReply::Zones(response) => {
                let ghost zones = response.result;
                match select_first_zone(response.result) {
                    Ok(zone) => {
                        let mut notes: Vec<String> = Vec::new();
                        notes.push(selected_zone_line(&zone));
                        proof {
                            assert(zone@ == zone_views(zones->0@).last());
                            assert(texts(notes@) =~= seq![selected_zone_note(zone@)]);
                        }
                        Step::Call {
                            call: ProviderCall::ListRules { zone_id: zone.id.clone() },
                            state: DeleteRuleState::AwaitingRules { zone, identifier },
                            notes,
                        }
                    },
                    Err(error) => Step::Failed { error },
                }
            },
            other => Step::Failed {
                error: CommandError::ProviderCallFailed { errors: other.into_errors() },
            },
        },
        DeleteRuleState::AwaitingRules { zone, identifier } => match reply {
            ProviderReply::Rules(response) => after_rules(zone, identifier, response.result),
            other => Step::Failed {
                error: CommandError::ProviderCallFailed { errors: other.into_errors() },
            },
        },
        DeleteRuleState::AwaitingDeletion => match reply {
            ProviderReply::Deleted(response) => {
                if response.success {
                    let mut notes: Vec<String> = Vec::new();
                    notes.push("Rule deleted successfully.".to_owned());
                    assert(texts(notes@) =~= seq!["Rule deleted successfully."@]);
                    Step::Done { outcome: Outcome::RuleDeleted, notes }
                } else {
                    Step::Failed {
                        error: CommandError::ProviderCallFailed { errors: response.errors },
                    }
                }
            },
            other => Step::Failed {
                error: CommandError::ProviderCallFailed { errors: other.into_errors() },
            },
        },
    }
}

/// Once the rules are listed, a rule is deleted only where the identifier
/// finds that rule and no other, and it is that rule's id that goes into the
/// call. Where the identifier finds nothing, or more than one rule, the
/// command ends without a call and without a failure.
pub proof fn lemma_deletion_never_guesses(
    zone: ZoneView,
    identifier: Seq<char>,
    rules: Seq<RuleView>,
)
    ensures
        forall|place: int|
            only_match(identifier, rules, place) ==> (#[trigger] delete_after_rules(
                zone,
                identifier,
                Some(rules),
            ) matches StepView::Call { call, .. } && call == (CallView::DeleteRule {
                zone_id: zone.id,
                rule_id: rules[place].id,
            })),
        none_match(identifier, rules) ==> (delete_after_rules(
            zone,
            identifier,
            Some(rules),
        ) matches StepView::Done { outcome, .. } && outcome == Outcome::IdentifierNotFound),
        !none_match(identifier, rules) && !(exists|place: int|
            only_match(identifier, rules, place)) ==> (delete_after_rules(
            zone,
            identifier,
            Some(rules),
        ) matches StepView::Done { outcome, .. } && outcome == Outcome::AmbiguousIdentifier),
{
    lemma_matching_rules_count(identifier, rules);
}

} // verus!
