//! Creating a rule from what the user gave: list the zones, find an action
//! and a matcher where none was given or the matcher is only a local part,
//! and send the request. The rule created has one action and one matcher.

use crate::cloudflare_api::{
    address_views, zone_views, ActionView, Address, AddressView, CreateRequestView,
    CreateRoutingRuleRequest, EmailRoutingRuleAction, EmailRoutingRuleActionType,
    EmailRoutingRuleMatcher, EmailRoutingRuleMatcherType, MatcherView, Zone, ZoneView, opt_nat,
    opt_text,
};
use crate::command::{get_email_domain, select_first_zone, CommandError};
use crate::display::Render;
use crate::flow::{
    chosen_zone, prefixed, selected_zone_line, selected_zone_note, CallView, Outcome, ProviderCall,
    ProviderReply, ReplyView, Step, StepView,
};
use crate::random::{is_generated_local_part, random_local_part};
use crate::text::{contains, is_substring, texts};
use vstd::prelude::*;

verus! {

/// Where the creation stands.
#[derive(Debug)]
pub enum CreateRuleState {
    /// The zones were asked for.
    AwaitingZones {
        matcher: Option<EmailRoutingRuleMatcher>,
        action: Option<EmailRoutingRuleAction>,
        name: Option<String>,
        priority: Option<usize>,
    },
    /// No action was given; the destination addresses were asked for.
    AwaitingAddresses {
        zone: Zone,
        matcher: Option<EmailRoutingRuleMatcher>,
        name: Option<String>,
        priority: Option<usize>,
    },
    /// The matcher lacks its domain; the routing settings were asked for.
    /// `local_part` is what the user gave, or absent where one is to be made up.
    AwaitingSettings {
        zone: Zone,
        local_part: Option<String>,
        action: EmailRoutingRuleAction,
        name: Option<String>,
        priority: Option<usize>,
    },
    /// The request was sent.
    AwaitingCreation,
}

/// The model of the state of a creation.
pub enum CreateStateView {
    AwaitingZones {
        matcher: Option<MatcherView>,
        action: Option<ActionView>,
        name: Option<Seq<char>>,
        priority: Option<nat>,
    },
    AwaitingAddresses {
        zone: ZoneView,
        matcher: Option<MatcherView>,
        name: Option<Seq<char>>,
        priority: Option<nat>,
    },
    AwaitingSettings {
        zone: ZoneView,
        local_part: Option<Seq<char>>,
        action: ActionView,
        name: Option<Seq<char>>,
        priority: Option<nat>,
    },
    AwaitingCreation,
}

/// The model of a matcher that may be absent.
pub open spec fn opt_matcher(matcher: Option<EmailRoutingRuleMatcher>) -> Option<MatcherView> {
    match matcher {
        Some(m) => Some(m@),
        None => None,
    }
}

/// The model of an action that may be absent.
pub open spec fn opt_action(action: Option<EmailRoutingRuleAction>) -> Option<ActionView> {
    match action {
        Some(a) => Some(a@),
        None => None,
    }
}

impl View for CreateRuleState {
    type V = CreateStateView;

    open spec fn view(&self) -> CreateStateView {
        match *self {
            CreateRuleState::AwaitingZones { matcher, action, name, priority } => {
                CreateStateView::AwaitingZones {
                    matcher: opt_matcher(matcher),
                    action: opt_action(action),
                    name: opt_text(name),
                    priority: opt_nat(priority),
                }
            },
            CreateRuleState::AwaitingAddresses { zone, matcher, name, priority } => {
                CreateStateView::AwaitingAddresses {
                    zone: zone@,
                    matcher: opt_matcher(matcher),
                    name: opt_text(name),
                    priority: opt_nat(priority),
                }
            },
            CreateRuleState::AwaitingSettings { zone, local_part, action, name, priority } => {
                CreateStateView::AwaitingSettings {
                    zone: zone@,
                    local_part: opt_text(local_part),
                    action: action@,
                    name: opt_text(name),
                    priority: opt_nat(priority),
                }
            },
            CreateRuleState::AwaitingCreation => CreateStateView::AwaitingCreation,
        }
    }
}

/// An address with an `@` in it is taken as complete; nothing else is checked.
pub open spec fn is_full_address(address: Seq<char>) -> bool {
    is_substring("@"@, address)
}

/// The address made of a local part and a domain.
pub open spec fn full_address(local_part: Seq<char>, domain: Seq<char>) -> Seq<char> {
    local_part + "@"@ + domain
}

/// The action taken where the user gave none: forward to the last of the
/// destination addresses, if that one has an email.
pub open spec fn default_action(addresses: Seq<AddressView>) -> Option<ActionView> {
    if addresses.len() > 0 {
        match addresses.last().email {
            Some(email) => Some(ActionView::Forward { destinations: seq![email] }),
            None => None,
        }
    } else {
        None
    }
}

/// The line that says that the domain is being looked up.
pub open spec fn fetching_domain_note() -> Seq<char> {
    "No domain specified. Fetching it from the zone..."@
}

/// The line that says which domain was found.
pub open spec fn found_domain_note(domain: Seq<char>) -> Seq<char> {
    "Found domain: "@ + domain
}

/// The line that says which local part was made up.
pub open spec fn generated_note(local_part: Seq<char>) -> Seq<char> {
    "No matcher specified. Generated random username: "@ + local_part
}

/// The step that sends the request: one action, one matcher, nothing said
/// about `enabled`, name and priority as given.
pub open spec fn create_call(
    zone: ZoneView,
    action: ActionView,
    matcher: MatcherView,
    name: Option<Seq<char>>,
    priority: Option<nat>,
    notes: Seq<Seq<char>>,
) -> StepView<CreateStateView> {
    StepView::Call {
        state: CreateStateView::AwaitingCreation,
        call: CallView::CreateRule {
            zone_id: zone.id,
            request: CreateRequestView {
                actions: seq![action],
                matchers: seq![matcher],
                enabled: None,
                name,
                priority,
            },
        },
        notes,
    }
}

/// The step that asks for the zone's domain.
pub open spec fn settings_call(
    zone: ZoneView,
    local_part: Option<Seq<char>>,
    action: ActionView,
    name: Option<Seq<char>>,
    priority: Option<nat>,
    notes: Seq<Seq<char>>,
) -> StepView<CreateStateView> {
    StepView::Call {
        state: CreateStateView::AwaitingSettings { zone, local_part, action, name, priority },
        call: CallView::GetRoutingSettings { zone_id: zone.id },
        notes: notes.push(fetching_domain_note()),
    }
}

/// What follows once zone and action are settled. A catch-all and a full
/// address go into the request as they are; a bare local part and an absent
/// matcher need the zone's domain first.
pub open spec fn create_after_action(
    zone: ZoneView,
    matcher: Option<MatcherView>,
    action: ActionView,
    name: Option<Seq<char>>,
    priority: Option<nat>,
    notes: Seq<Seq<char>>,
) -> StepView<CreateStateView> {
    match matcher {
        Some(MatcherView::MatchAll) => create_call(
            zone,
            action,
            MatcherView::MatchAll,
            name,
            priority,
            notes,
        ),
        Some(MatcherView::MatchLiteral { address }) => if is_full_address(address) {
            create_call(zone, action, MatcherView::MatchLiteral { address }, name, priority, notes)
        } else {
            settings_call(zone, Some(address), action, name, priority, notes)
        },
        None => settings_call(zone, None, action, name, priority, notes),
    }
}

/// The step of the creation: what follows from a state and the reply to the
/// call that the state waits for. `generated` is the local part to use where
/// the user gave no matcher. A reply to another call is a failure of the
/// provider.
pub open spec fn create_rule_next(
    state: CreateStateView,
    reply: ReplyView,
    generated: Seq<char>,
) -> StepView<CreateStateView> {
    match (state, reply) {
        (
            CreateStateView::AwaitingZones { matcher, action, name, priority },
            ReplyView::Zones { zones, errors },
        ) => match chosen_zone(zones) {
            None => StepView::Failed { error: CommandError::NoZoneAvailable },
            Some(zone) => match action {
                Some(given) => create_after_action(
                    zone,
                    matcher,
                    given,
                    name,
                    priority,
                    seq![selected_zone_note(zone)],
                ),
                None => StepView::Call {
                    state: CreateStateView::AwaitingAddresses { zone, matcher, name, priority },
                    call: CallView::ListDestinationAddresses { account_id: zone.account_id },
                    notes: seq![selected_zone_note(zone)],
                },
            },
        },
        (
            CreateStateView::AwaitingAddresses { zone, matcher, name, priority },
            ReplyView::Addresses { addresses, errors },
        ) => match addresses {
            None => StepView::Failed { error: CommandError::ProviderCallFailed { errors } },
            Some(list) => match default_action(list) {
                Some(action) => create_after_action(
                    zone,
                    matcher,
                    action,
                    name,
                    priority,
                    Seq::empty(),
                ),
                None => StepView::Failed { error: CommandError::NoDestinationAddress },
            },
        },
        (
            CreateStateView::AwaitingSettings { zone, local_part, action, name, priority },
            ReplyView::Settings { domain, errors },
        ) => match domain {
            None => StepView::Failed { error: CommandError::RoutingSettingsUnavailable },
            Some(found) => match local_part {
                Some(given) => create_call(
                    zone,
                    action,
                    MatcherView::MatchLiteral { address: full_address(given, found) },
                    name,
                    priority,
                    seq![found_domain_note(found)],
                ),
                None => create_call(
                    zone,
                    action,
                    MatcherView::MatchLiteral { address: full_address(generated, found) },
                    name,
                    priority,
                    seq![found_domain_note(found), generated_note(generated)],
                ),
            },
        },
        (CreateStateView::AwaitingCreation, ReplyView::Created { rule, errors }) => match rule {
            Some(created) => StepView::Done {
                outcome: Outcome::RuleCreated,
                notes: seq!["Rule created: "@ + created.rendered()],
            },
            None => StepView::Failed { error: CommandError::ProviderCallFailed { errors } },
        },
        _ => StepView::Failed { error: CommandError::ProviderCallFailed { errors: reply.errors() } },
    }
}

/// Whether the next step of this state makes up a local part.
pub open spec fn draws_local_part(state: CreateStateView) -> bool {
    state matches CreateStateView::AwaitingSettings { local_part, .. } && local_part is None
}

/// The first step of a creation: ask for the zones.
pub fn create_rule_start(
    matcher: Option<EmailRoutingRuleMatcher>,
    action: Option<EmailRoutingRuleAction>,
    name: Option<String>,
    priority: Option<usize>,
) -> (step: Step<CreateRuleState>)
    ensures
        step@ == (StepView::Call {
            state: CreateStateView::AwaitingZones {
                matcher: opt_matcher(matcher),
                action: opt_action(action),
                name: opt_text(name),
                priority: opt_nat(priority),
            },
            call: CallView::ListZones,
            notes: Seq::<Seq<char>>::empty(),
        }),
{
    let notes: Vec<String> = Vec::new();
    assert(texts(notes@) =~= Seq::empty());
    Step::Call {
        state: CreateRuleState::AwaitingZones { matcher, action, name, priority },
        call: ProviderCall::ListZones,
        notes,
    }
}

/// The literal matcher for a local part at a domain.
pub fn matcher_at(local_part: &str, domain: &str) -> (matcher: EmailRoutingRuleMatcher)
    ensures
        matcher@ == (MatcherView::MatchLiteral { address: full_address(local_part@, domain@) }),
{
    let mut value = local_part.to_owned();
    value.append("@");
    value.append(domain);
    EmailRoutingRuleMatcher { matcher_type: EmailRoutingRuleMatcherType::Literal { value } }
}

/// The action that forwards to the last of the addresses.
pub fn forward_to_last(addresses: Vec<Address>) -> (action: Option<EmailRoutingRuleAction>)
    ensures
        opt_action(action) == default_action(address_views(addresses@)),
{
    let mut addresses = addresses;
    match addresses.pop() {
        None => None,
        Some(address) => match address.email {
            None => None,
            Some(email) => {
                let mut value: Vec<String> = Vec::new();
                value.push(email);
                assert(texts(value@) =~= seq![email@]);
                Some(
                    EmailRoutingRuleAction {
                        action_type: EmailRoutingRuleActionType::Forward { value },
                    },
                )
            },
        },
    }
}

/// The step that sends the request.
fn send_request(
    zone: Zone,
    action: EmailRoutingRuleAction,
    matcher: EmailRoutingRuleMatcher,
    name: Option<String>,
    priority: Option<usize>,
    notes: Vec<String>,
) -> (step: Step<CreateRuleState>)
    ensures
        step@ == create_call(
            zone@,
            action@,
            matcher@,
            opt_text(name),
            opt_nat(priority),
            texts(notes@),
        ),
{
    let mut actions: Vec<EmailRoutingRuleAction> = Vec::new();
    actions.push(action);
    let mut matchers: Vec<EmailRoutingRuleMatcher> = Vec::new();
    matchers.push(matcher);
    let request = CreateRoutingRuleRequest { actions, matchers, enabled: None, name, priority };
    proof {
        assert(request@.actions =~= seq![action@]);
        assert(request@.matchers =~= seq![matcher@]);
    }
    Step::Call {
        state: CreateRuleState::AwaitingCreation,
        call: ProviderCall::CreateRule { zone_id: zone.id, request },
        notes,
    }
}

/// The step that asks for the zone's domain.
fn ask_settings(
    zone: Zone,
    local_part: Option<String>,
    action: EmailRoutingRuleAction,
    name: Option<String>,
    priority: Option<usize>,
    notes: Vec<String>,
) -> (step: Step<CreateRuleState>)
    ensures
        step@ == settings_call(
            zone@,
            opt_text(local_part),
            action@,
            opt_text(name),
            opt_nat(priority),
            texts(notes@),
        ),
{
    let mut notes = notes;
    let ghost before = texts(notes@);
    notes.push("No domain specified. Fetching it from the zone...".to_owned());
    assert(texts(notes@) =~= before.push(fetching_domain_note()));
    Step::Call {
        call: ProviderCall::GetRoutingSettings { zone_id: zone.id.clone() },
        state: CreateRuleState::AwaitingSettings { zone, local_part, action, name, priority },
        notes,
    }
}

/// What follows once zone and action are settled.
fn after_action(
    zone: Zone,
    matcher: Option<EmailRoutingRuleMatcher>,
    action: EmailRoutingRuleAction,
    name: Option<String>,
    priority: Option<usize>,
    notes: Vec<String>,
) -> (step: Step<CreateRuleState>)
    ensures
        step@ == create_after_action(
            zone@,
            opt_matcher(matcher),
            action@,
            opt_text(name),
            opt_nat(priority),
            texts(notes@),
        ),
{
    match matcher {
        None => ask_settings(zone, None, action, name, priority, notes),
        Some(given) => match given.matcher_type {
            EmailRoutingRuleMatcherType::All => send_request(
                zone,
                action,
                EmailRoutingRuleMatcher { matcher_type: EmailRoutingRuleMatcherType::All },
                name,
                priority,
                notes,
            ),
            EmailRoutingRuleMatcherType::Literal { value } => {
                if contains(value.as_str(), "@") {
                    send_request(
                        zone,
                        action,
                        EmailRoutingRuleMatcher {
                            matcher_type: EmailRoutingRuleMatcherType::Literal { value },
                        },
                        name,
                        priority,
                        notes,
                    )
                } else {
                    ask_settings(zone, Some(value), action, name, priority, notes)
                }
            },
        },
    }
}

/// One step of the creation, with the local part to use where the user gave
/// no matcher.
pub fn create_rule_step_with(state: CreateRuleState, reply: ProviderReply, generated: String) -> (step:
    Step<CreateRuleState>)
    ensures
        step@ == create_rule_next(state@, reply@, generated@),
{
    match state {
        CreateRuleState::AwaitingZones { matcher, action, name, priority } => match reply {
            ProviderReply::Zones(response) => {
                let ghost zones = response.result;
                match select_first_zone(response.result) {
                    Err(error) => Step::Failed { error },
                    Ok(zone) => {
                        let mut notes: Vec<String> = Vec::new();
                        notes.push(selected_zone_line(&zone));
                        proof {
                            assert(zone@ == zone_views(zones->0@).last());
                            assert(texts(notes@) =~= seq![selected_zone_note(zone@)]);
                        }
                        match action {
                            Some(given) => after_action(zone, matcher, given, name, priority, notes),
                            None => Step::Call {
                                call: ProviderCall::ListDestinationAddresses {
                                    account_id: zone.account.id.clone(),
                                },
                                state: CreateRuleState::AwaitingAddresses {
                                    zone,
                                    matcher,
                                    name,
                                    priority,
                                },
                                notes,
                            },
                        }
                    },
                }
            },
            other => Step::Failed {
                error: CommandError::ProviderCallFailed { errors: other.into_errors() },
            },
        },
        CreateRuleState::AwaitingAddresses { zone, matcher, name, priority } => match reply {
            ProviderReply::Addresses(response) => match response.result {
                None => Step::Failed {
                    error: CommandError::ProviderCallFailed { errors: response.errors },
                },
                Some(list) => match forward_to_last(list) {
                    None => Step::Failed { error: CommandError::NoDestinationAddress },
                    Some(action) => {
                        let notes: Vec<String> = Vec::new();
                        assert(texts(notes@) =~= Seq::empty());
                        after_action(zone, matcher, action, name, priority, notes)
                    },
                },
            },
            other => Step::Failed {
                error: CommandError::ProviderCallFailed { errors: other.into_errors() },
            },
        },
        CreateRuleState::AwaitingSettings { zone, local_part, action, name, priority } => {
            match reply {
                ProviderReply::Settings(response) => match get_email_domain(response.result) {
                    Err(error) => Step::Failed { error },
                    Ok(domain) => {
                        let mut notes: Vec<String> = Vec::new();
                        notes.push(prefixed("Found domain: ", domain.as_str()));
                        match local_part {
                            Some(given) => {
                                assert(texts(notes@) =~= seq![found_domain_note(domain@)]);
                                let matcher = matcher_at(given.as_str(), domain.as_str());
                                send_request(zone, action, matcher, name, priority, notes)
                            },
                            None => {
                                notes.push(
                                    prefixed(
                                        "No matcher specified. Generated random username: ",
                                        generated.as_str(),
                                    ),
                                );
                                assert(texts(notes@) =~= seq![
                                    found_domain_note(domain@),
                                    generated_note(generated@),
                                ]);
                                let matcher = matcher_at(generated.as_str(), domain.as_str());
                                send_request(zone, action, matcher, name, priority, notes)
                            },
                        }
                    },
                },
                other => Step::Failed {
                    error: CommandError::ProviderCallFailed { errors: other.into_errors() },
                },
            }
        },
        CreateRuleState::AwaitingCreation => match reply {
            ProviderReply::Created(response) => match response.result {
                Some(created) => {
                    let shown = created.render();
                    let mut notes: Vec<String> = Vec::new();
                    notes.push(prefixed("Rule created: ", shown.as_str()));
                    assert(texts(notes@) =~= seq!["Rule created: "@ + created@.rendered()]);
                    Step::Done { outcome: Outcome::RuleCreated, notes }
                },
                None => Step::Failed {
                    error: CommandError::ProviderCallFailed { errors: response.errors },
                },
            },
            other => Step::Failed {
                error: CommandError::ProviderCallFailed { errors: other.into_errors() },
            },
        },
    }
}

/// One step of the creation. Where the user gave no matcher, the local part
/// is drawn at random when the domain arrives; every other step is decided
/// by state and reply alone.
pub fn create_rule_step(state: CreateRuleState, reply: ProviderReply) -> (step: Step<
    CreateRuleState,
>)
    ensures
        draws_local_part(state@) ==> exists|generated: Seq<char>|
            is_generated_local_part(generated) && step@ == #[trigger] create_rule_next(
                state@,
                reply@,
                generated,
            ),
        !draws_local_part(state@) ==> forall|generated: Seq<char>|
            step@ == #[trigger] create_rule_next(state@, reply@, generated),
{
    let draws = match &state {
        CreateRuleState::AwaitingSettings { local_part, .. } => local_part.is_none(),
        _ => false,
    };
    let generated = if draws {
        random_local_part()
    } else {
        String::new()
    };
    create_rule_step_with(state, reply, generated)
}

/// The action taken where the user gave none is well formed.
pub proof fn lemma_default_action_well_formed(addresses: Seq<AddressView>)
    ensures
        default_action(addresses) matches Some(action) ==> action.well_formed(),
{
}

/// A local part with a domain behind it is a full address.
pub proof fn lemma_full_address_is_full(local_part: Seq<char>, domain: Seq<char>)
    ensures
        is_full_address(full_address(local_part, domain)),
{
    let whole = full_address(local_part, domain);
    let at = local_part.len() as int;
    assert(whole.subrange(at, at + "@"@.len()) =~= "@"@);
}

/// Whatever the state and the reply, a request that a step sends has one
/// action and one matcher, says nothing about `enabled`, and its matcher is a
/// catch-all or a full address: a bare local part never reaches the provider.
pub proof fn lemma_request_is_complete(
    state: CreateStateView,
    reply: ReplyView,
    generated: Seq<char>,
)
    ensures
        create_rule_next(state, reply, generated) matches StepView::Call {
            call: CallView::CreateRule { request, .. },
            ..
        } ==> {
            &&& request.actions.len() == 1
            &&& request.matchers.len() == 1
            &&& request.enabled is None
            &&& match request.matchers[0] {
                MatcherView::MatchAll => true,
                MatcherView::MatchLiteral { address } => is_full_address(address),
            }
        },
{
    match (state, reply) {
        (
            CreateStateView::AwaitingSettings { zone, local_part, action, name, priority },
            ReplyView::Settings { domain, errors },
        ) => {
            if let Some(found) = domain {
                lemma_full_address_is_full(generated, found);
                if let Some(given) = local_part {
                    lemma_full_address_is_full(given, found);
                }
            }
        },
        _ => {},
    }
}

} // verus!
