//! The exchange between a command and the provider. A command is a state
//! machine: a step takes the state and the provider's reply and gives the
//! next call to make, or the end of the command. Whoever drives the machine
//! makes the calls and shows the notes; the machine decides.

use crate::cloudflare_api::{
    address_views, rule_views, zone_views, Address, AddressView, CreateRequestView,
    CreateRoutingRuleRequest, EmailRoutingRule, EmailRoutingSettings, RequestError, Response,
    RuleView, Zone, ZoneView,
};
use crate::command::CommandError;
use crate::display::{renderings, Render};
use crate::text::texts;
use vstd::prelude::*;

verus! {

/// A call that the provider offers.
#[derive(Debug, PartialEq, Eq)]
pub enum ProviderCall {
    ListZones,
    GetRoutingSettings { zone_id: String },
    ListRules { zone_id: String },
    CreateRule { zone_id: String, request: CreateRoutingRuleRequest },
    DeleteRule { zone_id: String, rule_id: String },
    ListDestinationAddresses { account_id: String },
}

/// The model of a call.
pub enum CallView {
    ListZones,
    GetRoutingSettings { zone_id: Seq<char> },
    ListRules { zone_id: Seq<char> },
    CreateRule { zone_id: Seq<char>, request: CreateRequestView },
    DeleteRule { zone_id: Seq<char>, rule_id: Seq<char> },
    ListDestinationAddresses { account_id: Seq<char> },
}

impl View for ProviderCall {
    type V = CallView;

    open spec fn view(&self) -> CallView {
        match *self {
            ProviderCall::ListZones => CallView::ListZones,
            ProviderCall::GetRoutingSettings { zone_id } => CallView::GetRoutingSettings {
                zone_id: zone_id@,
            },
            ProviderCall::ListRules { zone_id } => CallView::ListRules { zone_id: zone_id@ },
            ProviderCall::CreateRule { zone_id, request } => CallView::CreateRule {
                zone_id: zone_id@,
                request: request@,
            },
            ProviderCall::DeleteRule { zone_id, rule_id } => CallView::DeleteRule {
                zone_id: zone_id@,
                rule_id: rule_id@,
            },
            ProviderCall::ListDestinationAddresses { account_id } => {
                CallView::ListDestinationAddresses { account_id: account_id@ }
            },
        }
    }
}

/// The provider's answer to a call, named after what was asked for.
#[derive(Debug)]
pub enum ProviderReply {
    Zones(Response<Vec<Zone>>),
    Settings(Response<EmailRoutingSettings>),
    Rules(Response<Vec<EmailRoutingRule>>),
    Created(Response<EmailRoutingRule>),
    Deleted(Response<EmailRoutingRule>),
    Addresses(Response<Vec<Address>>),
}

/// What a machine reads of a reply: the result where there is one, the
/// success flag of a deletion, and the errors to hand on.
pub enum ReplyView {
    Zones { zones: Option<Seq<ZoneView>>, errors: Vec<RequestError> },
    Settings { domain: Option<Seq<char>>, errors: Vec<RequestError> },
    Rules { rules: Option<Seq<RuleView>>, errors: Vec<RequestError> },
    Created { rule: Option<RuleView>, errors: Vec<RequestError> },
    Deleted { success: bool, errors: Vec<RequestError> },
    Addresses { addresses: Option<Seq<AddressView>>, errors: Vec<RequestError> },
}

impl ReplyView {
    /// The errors that came with the reply.
    pub open spec fn errors(self) -> Vec<RequestError> {
        match self {
            ReplyView::Zones { errors, .. } => errors,
            ReplyView::Settings { errors, .. } => errors,
            ReplyView::Rules { errors, .. } => errors,
            ReplyView::Created { errors, .. } => errors,
            ReplyView::Deleted { errors, .. } => errors,
            ReplyView::Addresses { errors, .. } => errors,
        }
    }
}

impl View for ProviderReply {
    type V = ReplyView;

    open spec fn view(&self) -> ReplyView {
        match *self {
            ProviderReply::Zones(response) => ReplyView::Zones {
                zones: match response.result {
                    Some(list) => Some(zone_views(list@)),
                    None => None,
                },
                errors: response.errors,
            },
            ProviderReply::Settings(response) => ReplyView::Settings {
                domain: match response.result {
                    Some(settings) => Some(settings.name@),
                    None => None,
                },
                errors: response.errors,
            },
            ProviderReply::Rules(response) => ReplyView::Rules {
                rules: match response.result {
                    Some(list) => Some(rule_views(list@)),
                    None => None,
                },
                errors: response.errors,
            },
            ProviderReply::Created(response) => ReplyView::Created {
                rule: match response.result {
                    Some(rule) => Some(rule@),
                    None => None,
                },
                errors: response.errors,
            },
            ProviderReply::Deleted(response) => ReplyView::Deleted {
                success: response.success,
                errors: response.errors,
            },
            ProviderReply::Addresses(response) => ReplyView::Addresses {
                addresses: match response.result {
                    Some(list) => Some(address_views(list@)),
                    None => None,
                },
                errors: response.errors,
            },
        }
    }
}

impl ProviderReply {
    /// Takes the errors out of a reply that is of no other use.
    pub fn into_errors(self) -> (errors: Vec<RequestError>)
        ensures
            errors == self@.errors(),
    {
        match self {
            ProviderReply::Zones(response) => response.errors,
            ProviderReply::Settings(response) => response.errors,
            ProviderReply::Rules(response) => response.errors,
            ProviderReply::Created(response) => response.errors,
            ProviderReply::Deleted(response) => response.errors,
            ProviderReply::Addresses(response) => response.errors,
        }
    }
}

/// How a command ended when it did not fail.
#[derive(Debug, PartialEq, Eq, Clone, Copy)]
pub enum Outcome {
    RuleCreated,
    RuleDeleted,
    /// The identifier found no rule; nothing was deleted.
    IdentifierNotFound,
    /// The identifier found more than one rule; nothing was deleted.
    AmbiguousIdentifier,
}

/// What a machine asks for after a step. The notes are lines for the user, to
/// be shown before anything else is done.
#[derive(Debug)]
pub enum Step<S> {
    /// Make the call and come back with the reply.
    Call { state: S, call: ProviderCall, notes: Vec<String> },
    /// The command is over.
    Done { outcome: Outcome, notes: Vec<String> },
    /// The command is over and has failed.
    Failed { error: CommandError },
}

/// The model of a step, over the model of the state.
pub enum StepView<S> {
    Call { state: S, call: CallView, notes: Seq<Seq<char>> },
    Done { outcome: Outcome, notes: Seq<Seq<char>> },
    Failed { error: CommandError },
}

impl<S: View> View for Step<S> {
    type V = StepView<S::V>;

    open spec fn view(&self) -> StepView<S::V> {
        match *self {
            Step::Call { state, call, notes } => StepView::Call {
                state: state@,
                call: call@,
                notes: texts(notes@),
            },
            Step::Done { outcome, notes } => StepView::Done { outcome, notes: texts(notes@) },
            Step::Failed { error } => StepView::Failed { error },
        }
    }
}

/// The zone that a command works on: the last of the list, if there is one.
pub open spec fn chosen_zone(zones: Option<Seq<ZoneView>>) -> Option<ZoneView> {
    match zones {
        Some(list) => if list.len() > 0 {
            Some(list.last())
        } else {
            None
        },
        None => None,
    }
}

/// The line that tells the user which zone was taken.
pub open spec fn selected_zone_note(zone: ZoneView) -> Seq<char> {
    "Selected zone: "@ + zone.rendered()
}

/// A line with `  - ` before it, as an item of a list is shown.
pub open spec fn bullet(text: Seq<char>) -> Seq<char> {
    "  - "@ + text
}

/// Each text as an item of a list.
pub open spec fn bullets(items: Seq<Seq<char>>) -> Seq<Seq<char>> {
    items.map_values(|t: Seq<char>| bullet(t))
}

/// `head` followed by `tail`.
pub fn prefixed(head: &str, tail: &str) -> (out: String)
    ensures
        out@ == head@ + tail@,
{
    let mut out = head.to_owned();
    out.append(tail);
    out
}

/// The line that tells the user which zone was taken.
pub fn selected_zone_line(zone: &Zone) -> (out: String)
    ensures
        out@ == selected_zone_note(zone@),
{
    let shown = zone.render();
    prefixed("Selected zone: ", shown.as_str())
}

/// Adds the items to the lines, one line each.
pub fn push_bullets<T: Render>(lines: &mut Vec<String>, items: &[T])
    ensures
        texts(final(lines)@) == texts(old(lines)@) + bullets(renderings(items@)),
{
    let mut i: usize = 0;
    proof {
        assert(bullets(renderings(items@)).take(0) =~= Seq::empty());
        assert(texts(lines@) =~= texts(old(lines)@) + Seq::empty());
    }
    while i < items.len()
        invariant
            i <= items.len(),
            texts(lines@) == texts(old(lines)@) + bullets(renderings(items@)).take(
                i as int,
            ),
        decreases items.len() - i,
    {
        let ghost before = texts(lines@);
        let shown = items[i].render();
        let item = prefixed("  - ", shown.as_str());
        lines.push(item);
        proof {
            let all = bullets(renderings(items@));
            assert(all[i as int] == bullet(items@[i as int].rendered()));
            assert(texts(lines@) =~= before.push(item@));
            assert(all.take(i + 1) =~= all.take(i as int).push(all[i as int]));
            assert(texts(lines@) =~= texts(old(lines)@) + all.take(i + 1));
        }
        i += 1;
    }
    proof {
        let all = bullets(renderings(items@));
        assert(all.take(items@.len() as int) =~= all);
    }
}

} // verus!
