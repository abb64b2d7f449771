//! The text shown for actions, matchers, rules, addresses and zones.

use crate::cloudflare_api::{
    parsed_action, ActionView, Address, AddressView, EmailRoutingRule, EmailRoutingRuleAction,
    EmailRoutingRuleActionType, EmailRoutingRuleMatcher, EmailRoutingRuleMatcherType, MatcherView,
    RuleView, Zone, ZoneView,
};
use crate::text::{decimal, decimal_digits, join, joined};
use vstd::prelude::*;

verus! {

impl ActionView {
    /// `Drop`, `Forward to a, b` or `Worker (a, b)`.
    pub open spec fn rendered(self) -> Seq<char> {
        match self {
            ActionView::Drop => "Drop"@,
            ActionView::Forward { destinations } => "Forward to "@ + joined(destinations, ", "@),
            ActionView::Worker { script_names } => "Worker ("@ + joined(script_names, ", "@)
                + ")"@,
        }
    }
}

impl MatcherView {
    /// The literal address as it is, or `* (catch-all)`.
    pub open spec fn rendered(self) -> Seq<char> {
        match self {
            MatcherView::MatchAll => "* (catch-all)"@,
            MatcherView::MatchLiteral { address } => address,
        }
    }
}

impl RuleView {
    /// The name, shown only where one is set and not empty.
    pub open spec fn name_part(self) -> Seq<char> {
        match self.name {
            Some(name) => if name.len() > 0 {
                ", Name: "@ + name
            } else {
                Seq::empty()
            },
            None => Seq::empty(),
        }
    }

    /// The mark of a rule that is switched off.
    pub open spec fn disabled_part(self) -> Seq<char> {
        if self.enabled {
            Seq::empty()
        } else {
            ", Disabled"@
        }
    }

    /// The priority, shown only where one is set and not zero.
    pub open spec fn priority_part(self) -> Seq<char> {
        match self.priority {
            Some(p) => if p != 0 {
                ", Priority: "@ + decimal_digits(p)
            } else {
                Seq::empty()
            },
            None => Seq::empty(),
        }
    }

    /// Matchers, an arrow, actions, and right behind the last action, in
    /// brackets, the id with what else is worth showing.
    pub open spec fn rendered(self) -> Seq<char> {
        joined(self.matchers.map_values(|m: MatcherView| m.rendered()), ", "@) + " -> "@ + joined(
            self.actions.map_values(|a: ActionView| a.rendered()),
            ", "@,
        ) + "(ID: "@ + self.id + self.name_part() + self.disabled_part() + self.priority_part()
            + ")"@
    }
}

impl AddressView {
    /// The email where there is one, then the id in brackets where there is one.
    pub open spec fn rendered(self) -> Seq<char> {
        let email = match self.email {
            Some(e) => e,
            None => Seq::empty(),
        };
        let id = match self.id {
            Some(i) => " (id = "@ + i + ")"@,
            None => Seq::empty(),
        };
        email + id
    }
}

impl ZoneView {
    /// The account's name, then the zone's id in brackets.
    pub open spec fn rendered(self) -> Seq<char> {
        self.account_name + " (id = "@ + self.id + ")"@
    }
}

/// A value with a text for the user.
pub trait Render {
    /// The text, as a sequence of characters.
    spec fn rendered(&self) -> Seq<char>;

    /// Writes the text out.
    fn render(&self) -> (out: String)
        ensures
            out@ == self.rendered(),
    ;
}

/// The texts of a list of values.
pub open spec fn renderings<T: Render>(items: Seq<T>) -> Seq<Seq<char>> {
    items.map_values(|t: T| t.rendered())
}

/// Appends the items' texts to `f`, with `, ` between each two neighbours.
pub fn write_vec<T: Render>(f: &mut String, vec: &[T])
    ensures
        final(f)@ == old(f)@ + joined(renderings(vec@), ", "@),
{
    let mut i: usize = 0;
    while i < vec.len()
        invariant
            i <= vec.len(),
            f@ == old(f)@ + joined(renderings(vec@).take(i as int), ", "@),
        decreases vec.len() - i,
    {
        let ghost before = renderings(vec@).take(i as int);
        let ghost after = renderings(vec@).take(i + 1);
        proof {
            assert(after.drop_last() == before);
            assert(after.last() == vec@[i as int].rendered());
        }
        if i > 0 {
            f.append(", ");
        }
        let item = vec[i].render();
        f.append(item.as_str());
        assert(f@ =~= old(f)@ + joined(after, ", "@));
        i += 1;
    }
    assert(renderings(vec@).take(vec.len() as int) == renderings(vec@));
}

impl Render for EmailRoutingRuleAction {
    open spec fn rendered(&self) -> Seq<char> {
        self@.rendered()
    }

    fn render(&self) -> (out: String) {
        match &self.action_type {
            EmailRoutingRuleActionType::Drop => "Drop".to_owned(),
            EmailRoutingRuleActionType::Forward { value } => {
                let mut out = "Forward to ".to_owned();
                let list = join(value, ", ");
                out.append(list.as_str());
                out
            },
            EmailRoutingRuleActionType::Worker { value } => {
                let mut out = "Worker (".to_owned();
                let list = join(value, ", ");
                out.append(list.as_str());
                out.append(")");
                out
            },
        }
    }
}

impl Render for EmailRoutingRuleMatcher {
    open spec fn rendered(&self) -> Seq<char> {
        self@.rendered()
    }

    fn render(&self) -> (out: String) {
        match &self.matcher_type {
            EmailRoutingRuleMatcherType::All => "* (catch-all)".to_owned(),
            EmailRoutingRuleMatcherType::Literal { value } => value.clone(),
        }
    }
}

impl Render for EmailRoutingRule {
    open spec fn rendered(&self) -> Seq<char> {
        self@.rendered()
    }

    fn render(&self) -> (out: String) {
        let mut out = String::new();
        write_vec(&mut out, self.matchers.as_slice());
        out.append(" -> ");
        write_vec(&mut out, self.actions.as_slice());
        out.append("(ID: ");
        out.append(self.id.as_str());
        proof {
            assert(renderings(self.matchers@) =~= self@.matchers.map_values(
                |m: MatcherView| m.rendered(),
            ));
            assert(renderings(self.actions@) =~= self@.actions.map_values(
                |a: ActionView| a.rendered(),
            ));
        }
        if let Some(name) = &self.name {
            if !name.as_str().is_empty() {
                out.append(", Name: ");
                out.append(name.as_str());
            }
        }
        if !self.enabled {
            out.append(", Disabled");
        }
        if let Some(priority) = self.priority {
            if priority != 0 {
                out.append(", Priority: ");
                let number = decimal(priority);
                out.append(number.as_str());
            }
        }
        out.append(")");
        assert(out@ =~= self@.rendered());
        out
    }
}

impl Render for Address {
    open spec fn rendered(&self) -> Seq<char> {
        self@.rendered()
    }

    fn render(&self) -> (out: String) {
        let mut out = String::new();
        if let Some(email) = &self.email {
            out.append(email.as_str());
        }
        if let Some(id) = &self.id {
            out.append(" (id = ");
            out.append(id.as_str());
            out.append(")");
        }
        assert(out@ =~= self@.rendered());
        out
    }
}

impl Render for Zone {
    open spec fn rendered(&self) -> Seq<char> {
        self@.rendered()
    }

    fn render(&self) -> (out: String) {
        let mut out = self.account.name.clone();
        out.append(" (id = ");
        out.append(self.id.as_str());
        out.append(")");
        out
    }
}

/// What is shown for the action that a word stands for: `Drop` for the word
/// `drop`, and for any other word `Forward to ` and the word.
pub proof fn lemma_rendering_of_parsed_action(word: Seq<char>)
    ensures
        parsed_action(word).rendered() == if word == "drop"@ {
            "Drop"@
        } else {
            "Forward to "@ + word
        },
{
    assert(joined(seq![word], ", "@) == word);
}

/// The text shown for an action is never the word `drop`, so reading it back
/// as input gives an action that forwards to that text. Shown text is not
/// input: showing what was read back gives `Forward to ` and the first text,
/// not the first text again.
pub proof fn lemma_parse_of_rendering(action: ActionView)
    ensures
        action.rendered() != "drop"@,
        parsed_action(action.rendered()) == (ActionView::Forward {
            destinations: seq![action.rendered()],
        }),
        parsed_action(action.rendered()).rendered() == "Forward to "@ + action.rendered(),
        parsed_action(action.rendered()).rendered() != action.rendered(),
{
    reveal_strlit("drop");
    reveal_strlit("Drop");
    reveal_strlit("Forward to ");
    reveal_strlit("Worker (");
    let shown = action.rendered();
    match action {
        ActionView::Drop => {
            assert(shown[0] == 'D');
        },
        ActionView::Forward { destinations } => {
            assert(shown[0] == 'F');
        },
        ActionView::Worker { script_names } => {
            assert(shown[0] == 'W');
        },
    }
    assert("drop"@[0] == 'd');
    lemma_rendering_of_parsed_action(shown);
    assert(("Forward to "@ + shown).len() == shown.len() + 11);
}

/// The actions that one word can say: dropping, said by `drop`, and
/// forwarding to a single address, said by the address, unless the address
/// is itself the word `drop`.
pub proof fn lemma_words_for_actions(destination: Seq<char>)
    ensures
        parsed_action("drop"@) == ActionView::Drop,
        destination != "drop"@ ==> parsed_action(destination) == (ActionView::Forward {
            destinations: seq![destination],
        }),
{
}

} // verus!
