//! The provider's data: responses, zones, destination addresses and routing
//! rules, with the mathematical model of each value that the commands reason
//! about, and the parsing of a matcher or an action from one word.

use crate::text::{text_equals, texts};
use std::str::FromStr;
use vstd::prelude::*;

verus! {

/// The envelope of every answer of the provider. `result` is absent when the
/// call failed; `errors` then says why.
#[derive(Debug)]
pub struct Response<R> {
    pub errors: Vec<RequestError>,
    pub messages: Vec<ResponseInfo>,
    pub success: bool,
    pub result: Option<R>,
}

/// A remark that the provider adds to an answer.
#[derive(Debug, PartialEq, Eq)]
pub struct ResponseInfo {
    pub code: usize,
    pub message: String,
}

/// One failure reported by the provider, with the failures that led to it.
#[derive(Debug, PartialEq, Eq)]
pub struct RequestError {
    pub code: usize,
    pub message: String,
    pub error_chain: Vec<RequestError>,
}

/// What the provider says of the token that a call was made with.
#[derive(Debug, PartialEq, Eq)]
pub struct VerifyTokenResult {
    pub id: String,
    pub status: TokenStatus,
    pub expires_on: Option<String>,
    pub not_before: Option<String>,
}

/// Only an active token is good for anything.
#[derive(Debug, PartialEq, Eq)]
pub enum TokenStatus {
    Active,
    Disabled,
    Expired,
}

/// The email-routing settings of a zone. `name` is the domain that the zone
/// routes mail for.
#[derive(Debug, PartialEq, Eq)]
pub struct EmailRoutingSettings {
    pub id: String,
    pub enabled: bool,
    pub name: String,
    pub created: Option<String>,
    pub modified: Option<String>,
    pub status: Option<EmailRoutingStatus>,
}

/// How far the zone's email routing is set up.
#[derive(Debug, PartialEq, Eq)]
pub enum EmailRoutingStatus {
    Ready,
    Unconfigured,
    Misconfigured,
    MisconfiguredOrLocked,
    Unlocked,
}

/// A zone and the account that owns it.
#[derive(Debug, PartialEq, Eq)]
pub struct Zone {
    pub id: String,
    pub account: ZoneAccount,
}

/// The account that owns a zone; destination addresses belong to it.
#[derive(Debug, PartialEq, Eq)]
pub struct ZoneAccount {
    pub id: String,
    pub name: String,
}

/// A routing rule as the provider stores it. An absent priority leaves the
/// choice to the provider; zero is a priority like any other.
#[derive(Debug, PartialEq, Eq)]
pub struct EmailRoutingRule {
    pub id: String,
    pub actions: Vec<EmailRoutingRuleAction>,
    pub enabled: bool,
    pub matchers: Vec<EmailRoutingRuleMatcher>,
    pub name: Option<String>,
    pub priority: Option<usize>,
}

/// What a rule does with a message.
#[derive(Debug, Clone, PartialEq, Eq)]
pub struct EmailRoutingRuleAction {
    pub action_type: EmailRoutingRuleActionType,
}

/// The kinds of action. The lists of a well-formed action are not empty;
/// the provider sees to that, and nothing here depends on it.
#[derive(Debug, Clone, PartialEq, Eq)]
pub enum EmailRoutingRuleActionType {
    Drop,
    Forward { value: Vec<String> },
    Worker { value: Vec<String> },
}

/// Which messages a rule applies to.
#[derive(Debug, Clone, PartialEq, Eq)]
pub struct EmailRoutingRuleMatcher {
    pub matcher_type: EmailRoutingRuleMatcherType,
}

/// The kinds of matcher. A literal holds a full address, or only a local part
/// that has yet to get its domain.
#[derive(Debug, Clone, PartialEq, Eq)]
pub enum EmailRoutingRuleMatcherType {
    All,
    Literal { value: String },
}

/// What is sent to have a rule created.
#[derive(Debug, PartialEq, Eq)]
pub struct CreateRoutingRuleRequest {
    pub actions: Vec<EmailRoutingRuleAction>,
    pub matchers: Vec<EmailRoutingRuleMatcher>,
    pub enabled: Option<bool>,
    pub name: Option<String>,
    pub priority: Option<usize>,
}

/// A destination mailbox. Only `id` and `email` are read here.
#[derive(Debug, PartialEq, Eq)]
pub struct Address {
    pub id: Option<String>,
    pub created: Option<String>,
    pub email: Option<String>,
    pub modified: Option<String>,
    pub tag: Option<String>,
    pub verified: Option<String>,
}

/// The characters of an optional string.
pub open spec fn opt_text(s: Option<String>) -> Option<Seq<char>> {
    match s {
        Some(t) => Some(t@),
        None => None,
    }
}

/// What a routing action is: nothing, a list of destinations, or a list of
/// worker scripts.
pub enum ActionView {
    Drop,
    Forward { destinations: Seq<Seq<char>> },
    Worker { script_names: Seq<Seq<char>> },
}

/// What a matcher is: every address, or one literal address.
pub enum MatcherView {
    MatchAll,
    MatchLiteral { address: Seq<char> },
}

/// What a rule is.
pub struct RuleView {
    pub id: Seq<char>,
    pub actions: Seq<ActionView>,
    pub matchers: Seq<MatcherView>,
    pub enabled: bool,
    pub name: Option<Seq<char>>,
    pub priority: Option<nat>,
}

/// What is read of a zone: its id, and the id and name of its account.
pub struct ZoneView {
    pub id: Seq<char>,
    pub account_id: Seq<char>,
    pub account_name: Seq<char>,
}

/// What is read of a destination address.
pub struct AddressView {
    pub id: Option<Seq<char>>,
    pub email: Option<Seq<char>>,
}

/// What a request to create a rule says.
pub struct CreateRequestView {
    pub actions: Seq<ActionView>,
    pub matchers: Seq<MatcherView>,
    pub enabled: Option<bool>,
    pub name: Option<Seq<char>>,
    pub priority: Option<nat>,
}

impl View for EmailRoutingRuleActionType {
    type V = ActionView;

    open spec fn view(&self) -> ActionView {
        match *self {
            EmailRoutingRuleActionType::Drop => ActionView::Drop,
            EmailRoutingRuleActionType::Forward { value } => ActionView::Forward {
                destinations: texts(value@),
            },
            EmailRoutingRuleActionType::Worker { value } => ActionView::Worker {
                script_names: texts(value@),
            },
        }
    }
}

impl View for EmailRoutingRuleAction {
    type V = ActionView;

    open spec fn view(&self) -> ActionView {
        self.action_type@
    }
}

impl View for EmailRoutingRuleMatcherType {
    type V = MatcherView;

    open spec fn view(&self) -> MatcherView {
        match *self {
            EmailRoutingRuleMatcherType::All => MatcherView::MatchAll,
            EmailRoutingRuleMatcherType::Literal { value } => MatcherView::MatchLiteral {
                address: value@,
            },
        }
    }
}

impl View for EmailRoutingRuleMatcher {
    type V = MatcherView;

    open spec fn view(&self) -> MatcherView {
        self.matcher_type@
    }
}

/// The models of a list of actions.
pub open spec fn action_views(actions: Seq<EmailRoutingRuleAction>) -> Seq<ActionView> {
    actions.map_values(|a: EmailRoutingRuleAction| a@)
}

/// The models of a list of matchers.
pub open spec fn matcher_views(matchers: Seq<EmailRoutingRuleMatcher>) -> Seq<MatcherView> {
    matchers.map_values(|m: EmailRoutingRuleMatcher| m@)
}

/// The models of a list of rules.
pub open spec fn rule_views(rules: Seq<EmailRoutingRule>) -> Seq<RuleView> {
    rules.map_values(|r: EmailRoutingRule| r@)
}

/// The models of a list of zones.
pub open spec fn zone_views(zones: Seq<Zone>) -> Seq<ZoneView> {
    zones.map_values(|z: Zone| z@)
}

/// The models of a list of addresses.
pub open spec fn address_views(addresses: Seq<Address>) -> Seq<AddressView> {
    addresses.map_values(|a: Address| a@)
}

/// A priority as a number without bound.
pub open spec fn opt_nat(n: Option<usize>) -> Option<nat> {
    match n {
        Some(p) => Some(p as nat),
        None => None,
    }
}

impl View for EmailRoutingRule {
    type V = RuleView;

    open spec fn view(&self) -> RuleView {
        RuleView {
            id: self.id@,
            actions: action_views(self.actions@),
            matchers: matcher_views(self.matchers@),
            enabled: self.enabled,
            name: opt_text(self.name),
            priority: opt_nat(self.priority),
        }
    }
}

impl View for Zone {
    type V = ZoneView;

    open spec fn view(&self) -> ZoneView {
        ZoneView { id: self.id@, account_id: self.account.id@, account_name: self.account.name@ }
    }
}

impl View for Address {
    type V = AddressView;

    open spec fn view(&self) -> AddressView {
        AddressView { id: opt_text(self.id), email: opt_text(self.email) }
    }
}

impl View for CreateRoutingRuleRequest {
    type V = CreateRequestView;

    open spec fn view(&self) -> CreateRequestView {
        CreateRequestView {
            actions: action_views(self.actions@),
            matchers: matcher_views(self.matchers@),
            enabled: self.enabled,
            name: opt_text(self.name),
            priority: opt_nat(self.priority),
        }
    }
}

impl Default for CreateRoutingRuleRequest {
    fn default() -> (r: Self)
        ensures
            r@ == (CreateRequestView {
                actions: Seq::empty(),
                matchers: Seq::empty(),
                enabled: None,
                name: None,
                priority: None,
            }),
    {
        let r = CreateRoutingRuleRequest {
            actions: Vec::new(),
            matchers: Vec::new(),
            enabled: None,
            name: None,
            priority: None,
        };
        assert(action_views(r.actions@) =~= Seq::empty());
        assert(matcher_views(r.matchers@) =~= Seq::empty());
        r
    }
}

impl ActionView {
    /// An action is well formed where it has something to forward to or to
    /// run: the list of a forward or of a worker is not empty.
    pub open spec fn well_formed(self) -> bool {
        match self {
            ActionView::Drop => true,
            ActionView::Forward { destinations } => destinations.len() > 0,
            ActionView::Worker { script_names } => script_names.len() > 0,
        }
    }
}

/// The action that one word of input stands for: `drop` drops the mail, any
/// other word is the single address to forward to.
pub open spec fn parsed_action(text: Seq<char>) -> ActionView {
    if text == "drop"@ {
        ActionView::Drop
    } else {
        ActionView::Forward { destinations: seq![text] }
    }
}

/// The matcher that one word of input stands for: `*` matches every address,
/// any other word is taken as a literal address, unchecked.
pub open spec fn parsed_matcher(text: Seq<char>) -> MatcherView {
    if text == "*"@ {
        MatcherView::MatchAll
    } else {
        MatcherView::MatchLiteral { address: text }
    }
}

impl FromStr for EmailRoutingRuleAction {
    type Err = String;

    fn from_str(s: &str) -> (r: Result<Self, String>)
        ensures
            r matches Ok(action) && action@ == parsed_action(s@),
    {
        if text_equals(s, "drop") {
            Ok(EmailRoutingRuleAction { action_type: EmailRoutingRuleActionType::Drop })
        } else {
            let mut value: Vec<String> = Vec::new();
            value.push(s.to_owned());
            assert(texts(value@) == seq![s@]);
            Ok(EmailRoutingRuleAction { action_type: EmailRoutingRuleActionType::Forward { value } })
        }
    }
}

impl FromStr for EmailRoutingRuleMatcher {
    type Err = String;

    fn from_str(s: &str) -> (r: Result<Self, String>)
        ensures
            r matches Ok(matcher) && matcher@ == parsed_matcher(s@),
    {
        if text_equals(s, "*") {
            Ok(EmailRoutingRuleMatcher { matcher_type: EmailRoutingRuleMatcherType::All })
        } else {
            Ok(
                EmailRoutingRuleMatcher {
                    matcher_type: EmailRoutingRuleMatcherType::Literal { value: s.to_owned() },
                },
            )
        }
    }
}

/// The action that a word stands for is well formed, whatever the word.
pub proof fn lemma_parsed_action_well_formed(text: Seq<char>)
    ensures
        parsed_action(text).well_formed(),
{
}

} // verus!
