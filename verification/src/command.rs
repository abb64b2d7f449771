//! What the commands decide: which zone to work on, how to complete a rule
//! that the user described in part, which rule an identifier means, and what
//! to show for a list.

use crate::cloudflare_api::{
    Address, EmailRoutingRule, EmailRoutingSettings, RequestError, Response, TokenStatus,
    VerifyTokenResult, Zone,
};
use crate::display::{renderings, Render};
use crate::flow::{bullets, push_bullets};
use crate::text::texts;
use vstd::prelude::*;

verus! {

/// Why a command gave up.
#[derive(Debug, PartialEq, Eq)]
pub enum CommandError {
    /// No credentials are stored yet.
    CredentialsMissing,
    /// The provider knows the token, but it is not active.
    CredentialsInvalid,
    /// The provider answered without a result; `errors` is what it said.
    ProviderCallFailed { errors: Vec<RequestError> },
    /// The account has no zone.
    NoZoneAvailable,
    /// There is no destination address to forward to.
    NoDestinationAddress,
    /// The zone's routing settings could not be read.
    RoutingSettingsUnavailable,
}

impl CommandError {
    /// What the user is told about the failure.
    pub open spec fn message_text(self) -> Seq<char> {
        match self {
            CommandError::CredentialsMissing => {
                "No config found. Please run the setup command first."@
            },
            CommandError::CredentialsInvalid => "Token is not active"@,
            CommandError::ProviderCallFailed { errors } => {
                "The provider returned no result"@
            },
            CommandError::NoZoneAvailable => "No zone found"@,
            CommandError::NoDestinationAddress => {
                "No addresses found to redirect. Please create or specify one."@
            },
            CommandError::RoutingSettingsUnavailable => "Failed to get email routing settings"@,
        }
    }

    /// What the user is told about the failure.
    pub fn message(&self) -> (text: String)
        ensures
            text@ == self.message_text(),
    {
        match self {
            CommandError::CredentialsMissing => {
                "No config found. Please run the setup command first.".to_owned()
            },
            CommandError::CredentialsInvalid => "Token is not active".to_owned(),
            CommandError::ProviderCallFailed { errors: _ } => {
                "The provider returned no result".to_owned()
            },
            CommandError::NoZoneAvailable => "No zone found".to_owned(),
            CommandError::NoDestinationAddress => {
                "No addresses found to redirect. Please create or specify one.".to_owned()
            },
            CommandError::RoutingSettingsUnavailable => {
                "Failed to get email routing settings".to_owned()
            },
        }
    }
}

/// The verified token where the provider reports it active.
pub fn check_token(response: Response<VerifyTokenResult>) -> (r: Result<
    VerifyTokenResult,
    CommandError,
>)
    ensures
        match response.result {
            None => r == Err::<VerifyTokenResult, CommandError>(
                CommandError::ProviderCallFailed { errors: response.errors },
            ),
            Some(token) => if token.status is Active {
                r == Ok::<VerifyTokenResult, CommandError>(token)
            } else {
                r == Err::<VerifyTokenResult, CommandError>(CommandError::CredentialsInvalid)
            },
        },
{
    let Response { errors, messages: _, success: _, result } = response;
    match result {
        None => Err(CommandError::ProviderCallFailed { errors }),
        Some(token) => {
            let active = match token.status {
                TokenStatus::Active => true,
                _ => false,
            };
            if active {
                Ok(token)
            } else {
                Err(CommandError::CredentialsInvalid)
            }
        },
    }
}

/// The zone to work on: the last one of the list. There is no ranking behind
/// this; an account with several zones gets the one listed last.
pub fn select_first_zone(zones: Option<Vec<Zone>>) -> (r: Result<Zone, CommandError>)
    ensures
        match zones {
            Some(list) => if list@.len() > 0 {
                r == Ok::<Zone, CommandError>(list@.last())
            } else {
                r == Err::<Zone, CommandError>(CommandError::NoZoneAvailable)
            },
            None => r == Err::<Zone, CommandError>(CommandError::NoZoneAvailable),
        },
{
    match zones {
        Some(list) => {
            let mut list = list;
            match list.pop() {
                Some(zone) => Ok(zone),
                None => Err(CommandError::NoZoneAvailable),
            }
        },
        None => Err(CommandError::NoZoneAvailable),
    }
}

/// The domain that a zone routes mail for: the name in its routing settings.
pub fn get_email_domain(settings: Option<EmailRoutingSettings>) -> (r: Result<
    String,
    CommandError,
>)
    ensures
        match settings {
            Some(s) => r == Ok::<String, CommandError>(s.name),
            None => r == Err::<String, CommandError>(CommandError::RoutingSettingsUnavailable),
        },
{
    match settings {
        Some(s) => Ok(s.name),
        None => Err(CommandError::RoutingSettingsUnavailable),
    }
}

/// The priority that a rule is listed by: its own, or zero where it has none.
pub open spec fn priority_or_zero(rule: EmailRoutingRule) -> nat {
    match rule.priority {
        Some(p) => p as nat,
        None => 0,
    }
}

/// No rule stands before one of higher priority.
pub open spec fn is_descending(rules: Seq<EmailRoutingRule>) -> bool {
    forall|i: int, j: int|
        0 <= i < j < rules.len() ==> priority_or_zero(rules[i]) >= priority_or_zero(rules[j])
}

/// The rules of one priority, in the order in which they stand.
pub open spec fn with_priority(rules: Seq<EmailRoutingRule>, p: nat) -> Seq<EmailRoutingRule> {
    rules.filter(|r: EmailRoutingRule| priority_or_zero(r) == p)
}

/// The priority that a rule is listed by.
fn listing_priority(rule: &EmailRoutingRule) -> (p: usize)
    ensures
        p == priority_or_zero(*rule),
{
    match rule.priority {
        Some(p) => p,
        None => 0,
    }
}

/// Where a rule of priority `p` goes into a descending list: behind every
/// rule that is not lower, before every rule that is.
fn insertion_point(sorted: &Vec<EmailRoutingRule>, p: usize) -> (k: usize)
    requires
        is_descending(sorted@),
    ensures
        k <= sorted.len(),
        forall|i: int| 0 <= i < k ==> priority_or_zero(sorted@[i]) >= p,
        forall|i: int| k <= i < sorted.len() ==> priority_or_zero(sorted@[i]) < p,
{
    let mut k: usize = 0;
    while k < sorted.len() && listing_priority(&sorted[k]) >= p
        invariant
            k <= sorted.len(),
            is_descending(sorted@),
            forall|i: int| 0 <= i < k ==> priority_or_zero(sorted@[i]) >= p,
        decreases sorted.len() - k,
    {
        k += 1;
    }
    k
}

/// Putting `rule` at its insertion point adds it behind the rules of its own
/// priority and leaves the rules of every other priority as they stood.
proof fn lemma_insert_keeps_order(sorted: Seq<EmailRoutingRule>, k: int, rule: EmailRoutingRule)
    requires
        0 <= k <= sorted.len(),
        forall|i: int| k <= i < sorted.len() ==> priority_or_zero(sorted[i]) < priority_or_zero(
            rule,
        ),
    ensures
        forall|p: nat|
            #![trigger with_priority(sorted.insert(k, rule), p)]
            with_priority(sorted.insert(k, rule), p) == if p == priority_or_zero(rule) {
                with_priority(sorted, p).push(rule)
            } else {
                with_priority(sorted, p)
            },
{
    assert forall|p: nat|
        #![trigger with_priority(sorted.insert(k, rule), p)]
        with_priority(sorted.insert(k, rule), p) == if p == priority_or_zero(rule) {
            with_priority(sorted, p).push(rule)
        } else {
            with_priority(sorted, p)
        } by {
        let pred = |r: EmailRoutingRule| priority_or_zero(r) == p;
        let head = sorted.take(k);
        let tail = sorted.skip(k);
        let one = seq![rule];
        assert(sorted.insert(k, rule) =~= head + one + tail);
        assert(sorted =~= head + tail);
        Seq::filter_distributes_over_add(head + one, tail, pred);
        Seq::filter_distributes_over_add(head, one, pred);
        Seq::filter_distributes_over_add(head, tail, pred);
        assert(one.filter(pred) =~= if pred(rule) {
            one
        } else {
            Seq::empty()
        }) by {
            reveal_with_fuel(Seq::filter, 2);
            assert(one.drop_last() =~= Seq::<EmailRoutingRule>::empty());
        }
        if p == priority_or_zero(rule) {
            tail.lemma_filter_len(pred);
            if tail.filter(pred).len() > 0 {
                tail.lemma_filter_pred(pred, 0);
                tail.lemma_filter_contains_rev(pred, tail.filter(pred)[0]);
                let found = choose|i: int| 0 <= i < tail.len() && tail[i] == tail.filter(pred)[0];
                assert(tail[found] == sorted[k + found]);
            }
            assert(tail.filter(pred) =~= Seq::empty());
            assert(head.filter(pred) + one + tail.filter(pred) =~= (head.filter(pred)
                + tail.filter(pred)).push(rule));
        } else {
            assert(head.filter(pred) + one.filter(pred) + tail.filter(pred) =~= head.filter(pred)
                + tail.filter(pred));
        }
    }
}

/// The rules by descending priority, a rule without one counting as zero.
/// Rules of equal priority keep the order in which they came.
pub fn sort_rules_by_priority(rules: Vec<EmailRoutingRule>) -> (sorted: Vec<EmailRoutingRule>)
    ensures
        is_descending(sorted@),
        sorted@.to_multiset() == rules@.to_multiset(),
        forall|p: nat| with_priority(sorted@, p) == with_priority(rules@, p),
{
    let mut sorted: Vec<EmailRoutingRule> = Vec::new();
    proof {
        assert(rules@.take(0) =~= Seq::empty());
        assert forall|p: nat| with_priority(sorted@, p) == with_priority(rules@.take(0), p) by {
            assert(sorted@ =~= rules@.take(0));
        }
    }
    for rule in it: rules
        invariant
            it.seq() == rules@,
            is_descending(sorted@),
            sorted@.to_multiset() == rules@.take(it.index()).to_multiset(),
            forall|p: nat|
                with_priority(sorted@, p) == with_priority(rules@.take(it.index()), p),
    {
        let ghost done = rules@.take(it.index());
        let ghost before = sorted@;
        let k = insertion_point(&sorted, listing_priority(&rule));
        sorted.insert(k, rule);
        proof {
            let next = rules@.take(it.index() + 1);
            assert(next =~= done.push(rule));
            vstd::seq_lib::to_multiset_insert(before, k as int, rule);
            vstd::seq_lib::to_multiset_build(done, rule);
            lemma_insert_keeps_order(before, k as int, rule);
            assert forall|p: nat| with_priority(sorted@, p) == with_priority(next, p) by {
                let pred = |r: EmailRoutingRule| priority_or_zero(r) == p;
                assert(with_priority(before.insert(k as int, rule), p) == if p
                    == priority_or_zero(rule) {
                    with_priority(before, p).push(rule)
                } else {
                    with_priority(before, p)
                });
                assert(next.drop_last() =~= done);
                reveal(Seq::filter);
                assert(next.filter(pred) == if pred(rule) {
                    done.filter(pred).push(rule)
                } else {
                    done.filter(pred)
                });
            }
        }
    }
    assert(rules@.take(rules@.len() as int) =~= rules@);
    sorted
}

/// The rules in the order in which they are listed: by descending priority,
/// none lost and none added, and those of equal priority as they came.
pub open spec fn is_priority_order(
    sorted: Seq<EmailRoutingRule>,
    rules: Seq<EmailRoutingRule>,
) -> bool {
    &&& is_descending(sorted)
    &&& sorted.to_multiset() == rules.to_multiset()
    &&& forall|p: nat| with_priority(sorted, p) == with_priority(rules, p)
}

/// The lines of a list: the heading and one line for each item, or a single
/// line that says there is nothing.
pub open spec fn listing(heading: Seq<char>, nothing: Seq<char>, items: Seq<Seq<char>>) -> Seq<
    Seq<char>,
> {
    if items.len() == 0 {
        seq![nothing]
    } else {
        seq![heading] + bullets(items)
    }
}

/// The lines that show a list of items.
pub fn list_lines<T: Render>(heading: &str, nothing: &str, items: &[T]) -> (lines: Vec<String>)
    ensures
        texts(lines@) == listing(heading@, nothing@, renderings(items@)),
{
    let mut lines: Vec<String> = Vec::new();
    if items.len() == 0 {
        lines.push(nothing.to_owned());
        assert(texts(lines@) =~= seq![nothing@]);
    } else {
        lines.push(heading.to_owned());
        assert(texts(lines@) =~= seq![heading@]);
        push_bullets(&mut lines, items);
    }
    lines
}

/// What the listing of rules shows: the rules by descending priority.
pub fn list_rules(response: Response<Vec<EmailRoutingRule>>) -> (r: Result<
    Vec<String>,
    CommandError,
>)
    ensures
        match response.result {
            None => r == Err::<Vec<String>, CommandError>(
                CommandError::ProviderCallFailed { errors: response.errors },
            ),
            Some(rules) => r matches Ok(lines) && exists|sorted: Seq<EmailRoutingRule>|
                #![trigger renderings(sorted)]
                is_priority_order(sorted, rules@) && texts(lines@) == listing(
                    "Rules:"@,
                    "No rules found."@,
                    renderings(sorted),
                ),
        },
{
    let Response { errors, messages: _, success: _, result } = response;
    match result {
        None => Err(CommandError::ProviderCallFailed { errors }),
        Some(rules) => {
            let sorted = sort_rules_by_priority(rules);
            let lines = list_lines("Rules:", "No rules found.", sorted.as_slice());
            assert(is_priority_order(sorted@, rules@));
            Ok(lines)
        },
    }
}

/// What the listing of destination addresses shows.
pub fn list_addresses(response: Response<Vec<Address>>) -> (r: Result<Vec<String>, CommandError>)
    ensures
        match response.result {
            None => r == Err::<Vec<String>, CommandError>(
                CommandError::ProviderCallFailed { errors: response.errors },
            ),
            Some(addresses) => r matches Ok(lines) && texts(lines@) == listing(
                "Addresses:"@,
                "No addresses found."@,
                renderings(addresses@),
            ),
        },
{
    let Response { errors, messages: _, success: _, result } = response;
    match result {
        None => Err(CommandError::ProviderCallFailed { errors }),
        Some(addresses) => Ok(
            list_lines("Addresses:", "No addresses found.", addresses.as_slice()),
        ),
    }
}

/// What the listing of zones shows.
pub fn list_zones(response: Response<Vec<Zone>>) -> (r: Result<Vec<String>, CommandError>)
    ensures
        match response.result {
            None => r == Err::<Vec<String>, CommandError>(
                CommandError::ProviderCallFailed { errors: response.errors },
            ),
            Some(zones) => r matches Ok(lines) && texts(lines@) == listing(
                "Zones:"@,
                "No zones found."@,
                renderings(zones@),
            ),
        },
{
    let Response { errors, messages: _, success: _, result } = response;
    match result {
        None => Err(CommandError::ProviderCallFailed { errors }),
        Some(zones) => Ok(list_lines("Zones:", "No zones found.", zones.as_slice())),
    }
}

} // verus!
