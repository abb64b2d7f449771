use cloudflare_api_client::cloudflare_api::{
    Address, CreateRoutingRuleRequest, EmailRoutingRule, EmailRoutingRuleAction,
    EmailRoutingRuleActionType, EmailRoutingRuleMatcher, EmailRoutingRuleMatcherType,
    EmailRoutingSettings, RequestError, Response, Zone, ZoneAccount,
};
use cloudflare_api_client::command::CommandError;
use cloudflare_api_client::create_rule::{
    create_rule_start, create_rule_step, create_rule_step_with, forward_to_last, matcher_at,
    CreateRuleState,
};
use cloudflare_api_client::delete_rule::{delete_rule_start, delete_rule_step, DeleteRuleState};
use cloudflare_api_client::flow::{prefixed, Outcome, ProviderCall, ProviderReply, Step};

fn lit(address: &str) -> EmailRoutingRuleMatcher {
    EmailRoutingRuleMatcher {
        matcher_type: EmailRoutingRuleMatcherType::Literal { value: address.to_string() },
    }
}

fn any() -> EmailRoutingRuleMatcher {
    EmailRoutingRuleMatcher { matcher_type: EmailRoutingRuleMatcherType::All }
}

fn dropping() -> EmailRoutingRuleAction {
    EmailRoutingRuleAction { action_type: EmailRoutingRuleActionType::Drop }
}

fn forwarding(to: &str) -> EmailRoutingRuleAction {
    EmailRoutingRuleAction {
        action_type: EmailRoutingRuleActionType::Forward { value: vec![to.to_string()] },
    }
}

fn a_rule(id: &str, address: &str) -> EmailRoutingRule {
    EmailRoutingRule {
        id: id.to_string(),
        actions: vec![dropping()],
        enabled: true,
        matchers: vec![lit(address)],
        name: None,
        priority: None,
    }
}

fn a_zone(id: &str) -> Zone {
    Zone {
        id: id.to_string(),
        account: ZoneAccount { id: format!("acc-{id}"), name: "Home".to_string() },
    }
}

fn mailbox(email: Option<&str>) -> Address {
    Address {
        id: None,
        created: None,
        email: email.map(|s| s.to_string()),
        modified: None,
        tag: None,
        verified: None,
    }
}

fn ok<R>(result: R) -> Response<R> {
    Response { errors: vec![], messages: vec![], success: true, result: Some(result) }
}

fn failed<R>(code: usize) -> Response<R> {
    Response {
        errors: vec![RequestError { code, message: "no".to_string(), error_chain: vec![] }],
        messages: vec![],
        success: false,
        result: None,
    }
}

fn call_failed(code: usize) -> CommandError {
    CommandError::ProviderCallFailed {
        errors: vec![RequestError { code, message: "no".to_string(), error_chain: vec![] }],
    }
}

fn settings(domain: &str) -> Response<EmailRoutingSettings> {
    ok(EmailRoutingSettings {
        id: "s".to_string(),
        enabled: true,
        name: domain.to_string(),
        created: None,
        modified: None,
        status: None,
    })
}

fn called<S>(step: Step<S>) -> (S, ProviderCall, Vec<String>) {
    match step {
        Step::Call { state, call, notes } => (state, call, notes),
        Step::Done { outcome, notes } => panic!("done: {outcome:?} {notes:?}"),
        Step::Failed { error } => panic!("failed: {error:?}"),
    }
}

fn done<S>(step: Step<S>) -> (Outcome, Vec<String>) {
    match step {
        Step::Done { outcome, notes } => (outcome, notes),
        Step::Call { call, .. } => panic!("call: {call:?}"),
        Step::Failed { error } => panic!("failed: {error:?}"),
    }
}

fn error_of<S>(step: Step<S>) -> CommandError {
    match step {
        Step::Failed { error } => error,
        Step::Call { call, .. } => panic!("call: {call:?}"),
        Step::Done { outcome, notes } => panic!("done: {outcome:?} {notes:?}"),
    }
}

fn request(
    action: EmailRoutingRuleAction,
    matcher: EmailRoutingRuleMatcher,
    name: Option<&str>,
    priority: Option<usize>,
) -> CreateRoutingRuleRequest {
    CreateRoutingRuleRequest {
        actions: vec![action],
        matchers: vec![matcher],
        enabled: None,
        name: name.map(|s| s.to_string()),
        priority,
    }
}

fn rules_listed(identifier: &str, rules: Response<Vec<EmailRoutingRule>>) -> Step<DeleteRuleState> {
    let (state, call, notes) = called(delete_rule_start(identifier.to_string()));
    assert_eq!(call, ProviderCall::ListZones);
    assert!(notes.is_empty());
    let (state, call, notes) =
        called(delete_rule_step(state, ProviderReply::Zones(ok(vec![a_zone("z0"), a_zone("z1")]))));
    assert_eq!(call, ProviderCall::ListRules { zone_id: "z1".to_string() });
    assert_eq!(notes, vec!["Selected zone: Home (id = z1)"]);
    delete_rule_step(state, ProviderReply::Rules(rules))
}

fn two() -> Vec<EmailRoutingRule> {
    vec![a_rule("r1", "a@x.com"), a_rule("r2", "b@x.com")]
}

#[test]
fn deletion_resolves_a_unique_fragment() {
    let (state, call, notes) = called(rules_listed("a@", ok(two())));
    assert_eq!(
        call,
        ProviderCall::DeleteRule { zone_id: "z1".to_string(), rule_id: "r1".to_string() }
    );
    assert_eq!(notes, vec!["Found rule: a@x.com -> Drop(ID: r1)"]);
    assert!(matches!(state, DeleteRuleState::AwaitingDeletion));
    let (outcome, notes) = done(delete_rule_step(state, ProviderReply::Deleted(ok(a_rule("r1", "a@x.com")))));
    assert_eq!(outcome, Outcome::RuleDeleted);
    assert_eq!(notes, vec!["Rule deleted successfully."]);
}

#[test]
fn deletion_reports_an_ambiguous_fragment() {
    let (outcome, notes) = done(rules_listed("x.com", ok(two())));
    assert_eq!(outcome, Outcome::AmbiguousIdentifier);
    assert_eq!(
        notes,
        vec![
            "Multiple rules found with identifier x.com:",
            "  - a@x.com -> Drop(ID: r1)",
            "  - b@x.com -> Drop(ID: r2)",
            "Please specify a unique identifier.",
        ]
    );
}

#[test]
fn deletion_reports_a_fragment_that_finds_nothing() {
    let (outcome, notes) = done(rules_listed("zzz", ok(two())));
    assert_eq!(outcome, Outcome::IdentifierNotFound);
    assert_eq!(
        notes,
        vec![
            "No rules found with identifier zzz.",
            "Available rules:",
            "  - a@x.com -> Drop(ID: r1)",
            "  - b@x.com -> Drop(ID: r2)",
        ]
    );
}

#[test]
fn deletion_with_no_rules_at_all_finds_nothing() {
    let (outcome, notes) = done(rules_listed("r1", ok(vec![])));
    assert_eq!(outcome, Outcome::IdentifierNotFound);
    assert_eq!(notes, vec!["No rules found with identifier r1.", "Available rules:"]);
}

#[test]
fn deletion_falls_back_to_the_identifier_as_id() {
    let (_, call, notes) = called(rules_listed("R-Exact", failed(5)));
    assert_eq!(
        call,
        ProviderCall::DeleteRule { zone_id: "z1".to_string(), rule_id: "R-Exact".to_string() }
    );
    assert_eq!(
        notes,
        vec!["Fetching rule identifier failed. Assuming user provided an existing rule ID."]
    );
}

#[test]
fn deletion_picks_the_middle_rule_of_three() {
    let rules = vec![a_rule("r1", "a@x.com"), a_rule("r2", "b@y.org"), a_rule("r3", "c@x.com")];
    let (_, call, _) = called(rules_listed("Y.ORG", ok(rules)));
    assert_eq!(
        call,
        ProviderCall::DeleteRule { zone_id: "z1".to_string(), rule_id: "r2".to_string() }
    );
}

#[test]
fn deletion_refused_by_the_provider_fails() {
    let (state, _, _) = called(rules_listed("a@", ok(two())));
    let mut refused: Response<EmailRoutingRule> = failed(44);
    refused.result = Some(a_rule("r1", "a@x.com"));
    assert_eq!(error_of(delete_rule_step(state, ProviderReply::Deleted(refused))), call_failed(44));
}

#[test]
fn deletion_without_a_zone_fails() {
    let (state, _, _) = called(delete_rule_start("a".to_string()));
    assert_eq!(
        error_of(delete_rule_step(state, ProviderReply::Zones(ok(vec![])))),
        CommandError::NoZoneAvailable
    );
    let (state, _, _) = called(delete_rule_start("a".to_string()));
    assert_eq!(
        error_of(delete_rule_step(state, ProviderReply::Zones(failed(3)))),
        CommandError::NoZoneAvailable
    );
}

#[test]
fn deletion_fails_on_a_reply_to_another_call() {
    let (state, _, _) = called(delete_rule_start("a".to_string()));
    assert_eq!(error_of(delete_rule_step(state, ProviderReply::Rules(failed(9)))), call_failed(9));
    assert_eq!(
        error_of(delete_rule_step(DeleteRuleState::AwaitingDeletion, ProviderReply::Zones(failed(2)))),
        call_failed(2)
    );
}

fn zone_chosen(
    matcher: Option<EmailRoutingRuleMatcher>,
    action: Option<EmailRoutingRuleAction>,
    name: Option<&str>,
    priority: Option<usize>,
) -> Step<CreateRuleState> {
    let (state, call, notes) =
        called(create_rule_start(matcher, action, name.map(|s| s.to_string()), priority));
    assert_eq!(call, ProviderCall::ListZones);
    assert!(notes.is_empty());
    create_rule_step(state, ProviderReply::Zones(ok(vec![a_zone("z0"), a_zone("z1")])))
}

#[test]
fn creation_with_full_address_and_action_needs_no_lookup() {
    let (state, call, notes) =
        called(zone_chosen(Some(lit("bob@other.com")), Some(dropping()), Some("n"), Some(3)));
    assert_eq!(
        call,
        ProviderCall::CreateRule {
            zone_id: "z1".to_string(),
            request: request(dropping(), lit("bob@other.com"), Some("n"), Some(3)),
        }
    );
    assert_eq!(notes, vec!["Selected zone: Home (id = z1)"]);
    let created = a_rule("new", "bob@other.com");
    let (outcome, notes) = done(create_rule_step(state, ProviderReply::Created(ok(created))));
    assert_eq!(outcome, Outcome::RuleCreated);
    assert_eq!(notes, vec!["Rule created: bob@other.com -> Drop(ID: new)"]);
}

#[test]
fn creation_with_catch_all_needs_no_lookup() {
    let (_, call, _) = called(zone_chosen(Some(any()), Some(forwarding("me@home.org")), None, None));
    assert_eq!(
        call,
        ProviderCall::CreateRule {
            zone_id: "z1".to_string(),
            request: request(forwarding("me@home.org"), any(), None, None),
        }
    );
}

#[test]
fn creation_completes_a_bare_local_part() {
    let (state, call, notes) = called(zone_chosen(Some(lit("bob")), Some(dropping()), None, Some(0)));
    assert_eq!(call, ProviderCall::GetRoutingSettings { zone_id: "z1".to_string() });
    assert_eq!(
        notes,
        vec!["Selected zone: Home (id = z1)", "No domain specified. Fetching it from the zone..."]
    );
    let (_, call, notes) =
        called(create_rule_step(state, ProviderReply::Settings(settings("example.com"))));
    assert_eq!(
        call,
        ProviderCall::CreateRule {
            zone_id: "z1".to_string(),
            request: request(dropping(), lit("bob@example.com"), None, Some(0)),
        }
    );
    assert_eq!(notes, vec!["Found domain: example.com"]);
}

#[test]
fn creation_without_matcher_uses_the_given_local_part() {
    let (state, call, _) = called(zone_chosen(None, Some(dropping()), None, None));
    assert_eq!(call, ProviderCall::GetRoutingSettings { zone_id: "z1".to_string() });
    let (_, call, notes) = called(create_rule_step_with(
        state,
        ProviderReply::Settings(settings("example.com")),
        "abcdefgh01234567".to_string(),
    ));
    assert_eq!(
        call,
        ProviderCall::CreateRule {
            zone_id: "z1".to_string(),
            request: request(dropping(), lit("abcdefgh01234567@example.com"), None, None),
        }
    );
    assert_eq!(
        notes,
        vec![
            "Found domain: example.com",
            "No matcher specified. Generated random username: abcdefgh01234567",
        ]
    );
}

#[test]
fn creation_without_matcher_draws_a_local_part() {
    let (state, _, _) = called(zone_chosen(None, Some(dropping()), None, None));
    let (_, call, notes) =
        called(create_rule_step(state, ProviderReply::Settings(settings("example.com"))));
    let ProviderCall::CreateRule { zone_id, request } = call else { panic!("{call:?}") };
    assert_eq!(zone_id, "z1");
    assert_eq!(request.actions, vec![dropping()]);
    assert_eq!(request.enabled, None);
    assert_eq!(request.matchers.len(), 1);
    let EmailRoutingRuleMatcherType::Literal { value } = &request.matchers[0].matcher_type else {
        panic!("{request:?}")
    };
    let (local, domain) = value.split_once('@').unwrap();
    assert_eq!(domain, "example.com");
    assert_eq!(local.len(), 16);
    assert!(local.chars().all(|c| c.is_ascii_lowercase() || c.is_ascii_digit()));
    assert_eq!(
        notes,
        vec![
            "Found domain: example.com".to_string(),
            format!("No matcher specified. Generated random username: {local}"),
        ]
    );
}

#[test]
fn creation_without_action_forwards_to_the_last_address() {
    let (state, call, notes) = called(zone_chosen(Some(lit("a@b.c")), None, None, None));
    assert_eq!(call, ProviderCall::ListDestinationAddresses { account_id: "acc-z1".to_string() });
    assert_eq!(notes, vec!["Selected zone: Home (id = z1)"]);
    let addresses = vec![mailbox(Some("first@home.org")), mailbox(Some("last@home.org"))];
    let (_, call, notes) = called(create_rule_step(state, ProviderReply::Addresses(ok(addresses))));
    assert_eq!(
        call,
        ProviderCall::CreateRule {
            zone_id: "z1".to_string(),
            request: request(forwarding("last@home.org"), lit("a@b.c"), None, None),
        }
    );
    assert!(notes.is_empty());
}

#[test]
fn creation_without_action_and_with_bare_matcher_looks_up_both() {
    let (state, _, _) = called(zone_chosen(Some(lit("bob")), None, Some("n"), None));
    let (state, call, notes) = called(create_rule_step(
        state,
        ProviderReply::Addresses(ok(vec![mailbox(Some("me@home.org"))])),
    ));
    assert_eq!(call, ProviderCall::GetRoutingSettings { zone_id: "z1".to_string() });
    assert_eq!(notes, vec!["No domain specified. Fetching it from the zone..."]);
    let (_, call, _) = called(create_rule_step(state, ProviderReply::Settings(settings("d.io"))));
    assert_eq!(
        call,
        ProviderCall::CreateRule {
            zone_id: "z1".to_string(),
            request: request(forwarding("me@home.org"), lit("bob@d.io"), Some("n"), None),
        }
    );
}

#[test]
fn creation_without_destination_fails() {
    let (state, _, _) = called(zone_chosen(None, None, None, None));
    assert_eq!(
        error_of(create_rule_step(state, ProviderReply::Addresses(ok(vec![])))),
        CommandError::NoDestinationAddress
    );
    let (state, _, _) = called(zone_chosen(None, None, None, None));
    let addresses = vec![mailbox(Some("first@home.org")), mailbox(None)];
    assert_eq!(
        error_of(create_rule_step(state, ProviderReply::Addresses(ok(addresses)))),
        CommandError::NoDestinationAddress
    );
    let (state, _, _) = called(zone_chosen(None, None, None, None));
    assert_eq!(
        error_of(create_rule_step(state, ProviderReply::Addresses(failed(6)))),
        call_failed(6)
    );
}

#[test]
fn creation_without_settings_fails() {
    let (state, _, _) = called(zone_chosen(Some(lit("bob")), Some(dropping()), None, None));
    assert_eq!(
        error_of(create_rule_step(state, ProviderReply::Settings(failed(1)))),
        CommandError::RoutingSettingsUnavailable
    );
}

#[test]
fn creation_without_zone_fails() {
    let (state, _, _) = called(create_rule_start(None, None, None, None));
    assert_eq!(
        error_of(create_rule_step(state, ProviderReply::Zones(ok(vec![])))),
        CommandError::NoZoneAvailable
    );
}

#[test]
fn creation_refused_by_the_provider_fails() {
    assert_eq!(
        error_of(create_rule_step(CreateRuleState::AwaitingCreation, ProviderReply::Created(failed(12)))),
        call_failed(12)
    );
}

#[test]
fn creation_fails_on_a_reply_to_another_call() {
    let (state, _, _) = called(create_rule_start(None, None, None, None));
    assert_eq!(error_of(create_rule_step(state, ProviderReply::Settings(failed(8)))), call_failed(8));
}

#[test]
fn matcher_at_joins_local_part_and_domain() {
    assert_eq!(matcher_at("bob", "example.com"), lit("bob@example.com"));
    assert_eq!(matcher_at("", ""), lit("@"));
}

#[test]
fn forward_to_last_takes_the_last_email() {
    assert_eq!(forward_to_last(vec![]), None);
    assert_eq!(forward_to_last(vec![mailbox(Some("a@x")), mailbox(None)]), None);
    assert_eq!(
        forward_to_last(vec![mailbox(None), mailbox(Some("a@x"))]),
        Some(forwarding("a@x"))
    );
}

#[test]
fn prefixed_puts_two_texts_together() {
    assert_eq!(prefixed("a", "b"), "ab");
    assert_eq!(prefixed("", ""), "");
}
