use cloudflare_api_client::cloudflare_api::{
    Address, EmailRoutingRule, EmailRoutingRuleAction, EmailRoutingRuleActionType,
    EmailRoutingRuleMatcher, EmailRoutingRuleMatcherType, EmailRoutingSettings, RequestError,
    Response, TokenStatus, VerifyTokenResult, Zone, ZoneAccount,
};
use cloudflare_api_client::command::{
    check_token, get_email_domain, list_addresses, list_lines, list_rules, list_zones,
    select_first_zone, sort_rules_by_priority, CommandError,
};
use cloudflare_api_client::config::{require_config, ClientConfig};
use cloudflare_api_client::matching::{
    find_matching, matcher_kinda_matches, rule_kinda_matches, string_kinda_matches,
};
use cloudflare_api_client::random::{alphabet_char, random_local_part, LOCAL_PART_ALPHABET};

fn literal_matcher(address: &str) -> EmailRoutingRuleMatcher {
    EmailRoutingRuleMatcher {
        matcher_type: EmailRoutingRuleMatcherType::Literal { value: address.to_string() },
    }
}

fn all_matcher() -> EmailRoutingRuleMatcher {
    EmailRoutingRuleMatcher { matcher_type: EmailRoutingRuleMatcherType::All }
}

fn rule_with(id: &str, matchers: Vec<EmailRoutingRuleMatcher>, priority: Option<usize>) -> EmailRoutingRule {
    EmailRoutingRule {
        id: id.to_string(),
        actions: vec![EmailRoutingRuleAction { action_type: EmailRoutingRuleActionType::Drop }],
        enabled: true,
        matchers,
        name: None,
        priority,
    }
}

fn zone_named(id: &str, account: &str) -> Zone {
    Zone {
        id: id.to_string(),
        account: ZoneAccount { id: format!("acc-{id}"), name: account.to_string() },
    }
}

fn answer<R>(result: Option<R>) -> Response<R> {
    Response { errors: vec![], messages: vec![], success: result.is_some(), result }
}

fn failure<R>(code: usize, message: &str) -> Response<R> {
    Response {
        errors: vec![RequestError { code, message: message.to_string(), error_chain: vec![] }],
        messages: vec![],
        success: false,
        result: None,
    }
}

fn one_error(code: usize, message: &str) -> CommandError {
    CommandError::ProviderCallFailed {
        errors: vec![RequestError { code, message: message.to_string(), error_chain: vec![] }],
    }
}

#[test]
fn zone_selection_fails_on_empty_list() {
    assert_eq!(select_first_zone(Some(vec![])), Err(CommandError::NoZoneAvailable));
}

#[test]
fn zone_selection_fails_without_a_list() {
    assert_eq!(select_first_zone(None), Err(CommandError::NoZoneAvailable));
}

#[test]
fn zone_selection_takes_the_last() {
    let zones = vec![zone_named("z1", "A"), zone_named("z2", "B"), zone_named("z3", "C")];
    assert_eq!(select_first_zone(Some(zones)), Ok(zone_named("z3", "C")));
    assert_eq!(select_first_zone(Some(vec![zone_named("z1", "A")])), Ok(zone_named("z1", "A")));
}

#[test]
fn domain_is_the_name_of_the_settings() {
    let settings = EmailRoutingSettings {
        id: "s".to_string(),
        enabled: true,
        name: "example.com".to_string(),
        created: None,
        modified: None,
        status: None,
    };
    assert_eq!(get_email_domain(Some(settings)), Ok("example.com".to_string()));
    assert_eq!(get_email_domain(None), Err(CommandError::RoutingSettingsUnavailable));
}

fn token(status: TokenStatus) -> VerifyTokenResult {
    VerifyTokenResult { id: "t".to_string(), status, expires_on: None, not_before: None }
}

#[test]
fn active_token_is_accepted() {
    assert_eq!(check_token(answer(Some(token(TokenStatus::Active)))), Ok(token(TokenStatus::Active)));
}

#[test]
fn inactive_token_is_refused() {
    assert_eq!(
        check_token(answer(Some(token(TokenStatus::Disabled)))),
        Err(CommandError::CredentialsInvalid)
    );
    assert_eq!(
        check_token(answer(Some(token(TokenStatus::Expired)))),
        Err(CommandError::CredentialsInvalid)
    );
}

#[test]
fn token_check_hands_on_the_errors() {
    assert_eq!(check_token(failure(1000, "bad")), Err(one_error(1000, "bad")));
}

#[test]
fn missing_config_is_reported() {
    assert_eq!(require_config(None), Err(CommandError::CredentialsMissing));
    let config = ClientConfig {
        email: "me@home.org".to_string(),
        api_token: "t".to_string(),
        api_key: "k".to_string(),
    };
    let same = ClientConfig {
        email: "me@home.org".to_string(),
        api_token: "t".to_string(),
        api_key: "k".to_string(),
    };
    assert_eq!(require_config(Some(config)), Ok(same));
    assert_eq!(
        ClientConfig::default(),
        ClientConfig { email: String::new(), api_token: String::new(), api_key: String::new() }
    );
}

#[test]
fn fuzzy_match_is_substring_based() {
    assert!(string_kinda_matches("a@", "a@x.com"));
    assert!(string_kinda_matches("x.com", "a@x.com"));
    assert!(string_kinda_matches("", "a@x.com"));
    assert!(string_kinda_matches("a@x.com", "a@x.com"));
    assert!(!string_kinda_matches("a@x.com!", "a@x.com"));
    assert!(!string_kinda_matches("zzz", "a@x.com"));
}

#[test]
fn fuzzy_match_ignores_case() {
    assert!(string_kinda_matches("BOB", "bob@example.com"));
    assert!(string_kinda_matches("bob", "BoB@Example.com"));
    assert!(string_kinda_matches("EXAMPLE", "bob@example.com"));
    assert!(string_kinda_matches("\u{c9}T\u{c9}", "\u{e9}t\u{e9}@x.com"));
    assert!(!string_kinda_matches("BOC", "bob@example.com"));
}

#[test]
fn fuzzy_match_goes_by_the_lower_case_forms() {
    // A capital sigma at the end of a word lower-cases to the final form,
    // alone it lower-cases to the medial form: the two texts do not meet.
    assert!(!string_kinda_matches("\u{3a3}", "\u{391}\u{3a3}"));
    assert!(string_kinda_matches("\u{3c2}", "\u{391}\u{3a3}"));
    assert!(string_kinda_matches("\u{391}\u{3a3}", "x\u{391}\u{3a3}"));
}

#[test]
fn catch_all_matcher_is_never_found() {
    assert!(!matcher_kinda_matches("", &all_matcher()));
    assert!(!matcher_kinda_matches("*", &all_matcher()));
    assert!(!matcher_kinda_matches("catch", &all_matcher()));
    assert!(matcher_kinda_matches("", &literal_matcher("a")));
}

#[test]
fn rule_is_found_by_id_or_matcher() {
    let rule = rule_with("Rule-77", vec![all_matcher(), literal_matcher("Bob@x.com")], None);
    assert!(rule_kinda_matches("rule", &rule));
    assert!(rule_kinda_matches("77", &rule));
    assert!(rule_kinda_matches("bob", &rule));
    assert!(rule_kinda_matches("X.COM", &rule));
    assert!(!rule_kinda_matches("alice", &rule));
    let catch_all = rule_with("r9", vec![all_matcher()], None);
    assert!(rule_kinda_matches("R9", &catch_all));
    assert!(!rule_kinda_matches("catch", &catch_all));
}

fn two_rules() -> Vec<EmailRoutingRule> {
    vec![
        rule_with("r1", vec![literal_matcher("a@x.com")], None),
        rule_with("r2", vec![literal_matcher("b@x.com")], None),
    ]
}

#[test]
fn fragment_finds_one_rule() {
    assert_eq!(find_matching(&two_rules(), "a@"), vec![0]);
    assert_eq!(find_matching(&two_rules(), "R2"), vec![1]);
}

#[test]
fn fragment_finds_both_rules() {
    assert_eq!(find_matching(&two_rules(), "x.com"), vec![0, 1]);
    assert_eq!(find_matching(&two_rules(), ""), vec![0, 1]);
}

#[test]
fn fragment_finds_no_rule() {
    assert_eq!(find_matching(&two_rules(), "zzz"), Vec::<usize>::new());
    assert_eq!(find_matching(&vec![], "a"), Vec::<usize>::new());
}

fn priorities(rules: &[EmailRoutingRule]) -> Vec<Option<usize>> {
    rules.iter().map(|r| r.priority).collect()
}

fn ids(rules: &[EmailRoutingRule]) -> Vec<String> {
    rules.iter().map(|r| r.id.clone()).collect()
}

#[test]
fn rules_sort_by_descending_priority() {
    let rules = vec![
        rule_with("none", vec![], None),
        rule_with("five", vec![], Some(5)),
        rule_with("zero", vec![], Some(0)),
        rule_with("three", vec![], Some(3)),
    ];
    let sorted = sort_rules_by_priority(rules);
    assert_eq!(priorities(&sorted[..2]), vec![Some(5), Some(3)]);
    let mut tail = ids(&sorted[2..]);
    tail.sort();
    assert_eq!(tail, vec!["none".to_string(), "zero".to_string()]);
}

#[test]
fn rules_of_equal_priority_keep_their_order() {
    let rules = vec![
        rule_with("a", vec![], None),
        rule_with("b", vec![], Some(2)),
        rule_with("c", vec![], Some(0)),
        rule_with("d", vec![], Some(2)),
        rule_with("e", vec![], None),
        rule_with("f", vec![], Some(9)),
    ];
    let sorted = sort_rules_by_priority(rules);
    assert_eq!(ids(&sorted), vec!["f", "b", "d", "a", "c", "e"]);
}

#[test]
fn sorting_nothing_gives_nothing() {
    assert_eq!(sort_rules_by_priority(vec![]), vec![]);
    let one = sort_rules_by_priority(vec![rule_with("a", vec![], Some(1))]);
    assert_eq!(ids(&one), vec!["a"]);
}

#[test]
fn rule_listing_is_sorted() {
    let rules = vec![
        rule_with("low", vec![literal_matcher("l@x.com")], Some(1)),
        rule_with("high", vec![all_matcher()], Some(20)),
    ];
    assert_eq!(
        list_rules(answer(Some(rules))),
        Ok(vec![
            "Rules:".to_string(),
            "  - * (catch-all) -> Drop(ID: high, Priority: 20)".to_string(),
            "  - l@x.com -> Drop(ID: low, Priority: 1)".to_string(),
        ])
    );
}

#[test]
fn empty_listings_say_so() {
    assert_eq!(list_rules(answer(Some(vec![]))), Ok(vec!["No rules found.".to_string()]));
    assert_eq!(list_addresses(answer(Some(vec![]))), Ok(vec!["No addresses found.".to_string()]));
    assert_eq!(list_zones(answer(Some(vec![]))), Ok(vec!["No zones found.".to_string()]));
}

#[test]
fn listings_without_result_fail() {
    assert_eq!(list_rules(failure(7, "no")), Err(one_error(7, "no")));
    assert_eq!(list_addresses(failure(8, "no")), Err(one_error(8, "no")));
    assert_eq!(list_zones(failure(9, "no")), Err(one_error(9, "no")));
}

#[test]
fn address_and_zone_listings() {
    let addresses = vec![
        Address {
            id: Some("1".to_string()),
            created: None,
            email: Some("a@x.com".to_string()),
            modified: None,
            tag: None,
            verified: None,
        },
        Address {
            id: None,
            created: None,
            email: Some("b@x.com".to_string()),
            modified: None,
            tag: None,
            verified: None,
        },
    ];
    assert_eq!(
        list_addresses(answer(Some(addresses))),
        Ok(vec![
            "Addresses:".to_string(),
            "  - a@x.com (id = 1)".to_string(),
            "  - b@x.com".to_string(),
        ])
    );
    assert_eq!(
        list_zones(answer(Some(vec![zone_named("z1", "Home"), zone_named("z2", "Work")]))),
        Ok(vec![
            "Zones:".to_string(),
            "  - Home (id = z1)".to_string(),
            "  - Work (id = z2)".to_string(),
        ])
    );
    assert_eq!(
        list_lines("Things:", "None.", &[all_matcher()]),
        vec!["Things:".to_string(), "  - * (catch-all)".to_string()]
    );
}

#[test]
fn random_local_part_has_sixteen_alphabet_characters() {
    for _ in 0..200 {
        let part = random_local_part();
        assert_eq!(part.chars().count(), 16);
        assert!(part.chars().all(|c| c.is_ascii_lowercase() || c.is_ascii_digit()));
    }
}

#[test]
fn random_local_parts_differ() {
    let first = random_local_part();
    let mut differs = false;
    for _ in 0..20 {
        if random_local_part() != first {
            differs = true;
        }
    }
    assert!(differs);
}

#[test]
fn alphabet_is_letters_then_digits() {
    assert_eq!(LOCAL_PART_ALPHABET, "abcdefghijklmnopqrstuvwxyz0123456789");
    assert_eq!(alphabet_char(0), Some('a'));
    assert_eq!(alphabet_char(25), Some('z'));
    assert_eq!(alphabet_char(26), Some('0'));
    assert_eq!(alphabet_char(35), Some('9'));
    assert_eq!(alphabet_char(36), None);
    assert_eq!(alphabet_char(usize::MAX), None);
}

#[test]
fn every_failure_has_its_message() {
    assert_eq!(
        CommandError::CredentialsMissing.message(),
        "No config found. Please run the setup command first."
    );
    assert_eq!(CommandError::CredentialsInvalid.message(), "Token is not active");
    assert_eq!(one_error(1, "x").message(), "The provider returned no result");
    assert_eq!(CommandError::NoZoneAvailable.message(), "No zone found");
    assert_eq!(
        CommandError::NoDestinationAddress.message(),
        "No addresses found to redirect. Please create or specify one."
    );
    assert_eq!(
        CommandError::RoutingSettingsUnavailable.message(),
        "Failed to get email routing settings"
    );
}
