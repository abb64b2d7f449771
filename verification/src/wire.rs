//! The fields that an action or a matcher puts on the wire. The provider
//! tells the variants apart by a `type` field; a literal matcher carries, beside
//! its value, a field `field` that is always `to`. That field is written with
//! every literal matcher that is sent and never read from what comes back.

use crate::cloudflare_api::{
    ActionView, EmailRoutingRuleAction, EmailRoutingRuleActionType, EmailRoutingRuleMatcher,
    EmailRoutingRuleMatcherType, MatcherView,
};
use crate::text::texts;
use vstd::prelude::*;

verus! {

/// The value of a field: one text or a list of texts.
#[derive(Debug, PartialEq, Eq)]
pub enum WireValue {
    Text(String),
    List(Vec<String>),
}

/// A named field of an object on the wire.
#[derive(Debug, PartialEq, Eq)]
pub struct WireField {
    pub key: String,
    pub value: WireValue,
}

/// The model of a field's value.
pub enum WireValueView {
    Text(Seq<char>),
    List(Seq<Seq<char>>),
}

/// The model of a field.
pub struct WireFieldView {
    pub key: Seq<char>,
    pub value: WireValueView,
}

impl View for WireValue {
    type V = WireValueView;

    open spec fn view(&self) -> WireValueView {
        match *self {
            WireValue::Text(text) => WireValueView::Text(text@),
            WireValue::List(items) => WireValueView::List(texts(items@)),
        }
    }
}

impl View for WireField {
    type V = WireFieldView;

    open spec fn view(&self) -> WireFieldView {
        WireFieldView { key: self.key@, value: self.value@ }
    }
}

/// The models of a list of fields.
pub open spec fn field_views(fields: Seq<WireField>) -> Seq<WireFieldView> {
    fields.map_values(|f: WireField| f@)
}

/// A field that holds one text.
pub open spec fn text_field(key: Seq<char>, text: Seq<char>) -> WireFieldView {
    WireFieldView { key, value: WireValueView::Text(text) }
}

/// A field that holds a list of texts.
pub open spec fn list_field(key: Seq<char>, items: Seq<Seq<char>>) -> WireFieldView {
    WireFieldView { key, value: WireValueView::List(items) }
}

/// The fields of a literal matcher besides its type: the address, and the
/// fixed field that says which part of a message the address is held against.
pub open spec fn literal_wire(address: Seq<char>) -> Seq<WireFieldView> {
    seq![text_field("value"@, address), text_field("field"@, "to"@)]
}

/// The fields of a matcher, the type first.
pub open spec fn matcher_wire(matcher: MatcherView) -> Seq<WireFieldView> {
    match matcher {
        MatcherView::MatchAll => seq![text_field("type"@, "all"@)],
        MatcherView::MatchLiteral { address } => seq![text_field("type"@, "literal"@)]
            + literal_wire(address),
    }
}

/// The fields of an action, the type first.
pub open spec fn action_wire(action: ActionView) -> Seq<WireFieldView> {
    match action {
        ActionView::Drop => seq![text_field("type"@, "drop"@)],
        ActionView::Forward { destinations } => seq![
            text_field("type"@, "forward"@),
            list_field("value"@, destinations),
        ],
        ActionView::Worker { script_names } => seq![
            text_field("type"@, "worker"@),
            list_field("value"@, script_names),
        ],
    }
}

/// A field that holds one text.
fn make_text_field(key: &str, text: &str) -> (field: WireField)
    ensures
        field@ == text_field(key@, text@),
{
    WireField { key: key.to_owned(), value: WireValue::Text(text.to_owned()) }
}

/// A copy of a list of texts.
fn copy_texts(items: &Vec<String>) -> (copy: Vec<String>)
    ensures
        texts(copy@) == texts(items@),
{
    let mut copy: Vec<String> = Vec::new();
    let mut i: usize = 0;
    while i < items.len()
        invariant
            i <= items.len(),
            texts(copy@) == texts(items@).take(i as int),
        decreases items.len() - i,
    {
        let ghost before = texts(copy@);
        copy.push(items[i].clone());
        assert(texts(copy@) =~= before.push(items@[i as int]@));
        assert(texts(items@).take(i + 1) =~= texts(items@).take(i as int).push(items@[i as int]@));
        i += 1;
    }
    assert(texts(items@).take(items@.len() as int) =~= texts(items@));
    copy
}

/// The fields that a literal matcher writes besides its type.
pub fn serialize_literal(value: &String) -> (fields: Vec<WireField>)
    ensures
        field_views(fields@) == literal_wire(value@),
{
    let mut fields: Vec<WireField> = Vec::new();
    fields.push(make_text_field("value", value.as_str()));
    fields.push(make_text_field("field", "to"));
    assert(field_views(fields@) =~= literal_wire(value@));
    fields
}

impl EmailRoutingRuleMatcher {
    /// The fields that this matcher puts on the wire.
    pub fn wire_fields(&self) -> (fields: Vec<WireField>)
        ensures
            field_views(fields@) == matcher_wire(self@),
    {
        let mut fields: Vec<WireField> = Vec::new();
        match &self.matcher_type {
            EmailRoutingRuleMatcherType::All => {
                fields.push(make_text_field("type", "all"));
                assert(field_views(fields@) =~= matcher_wire(self@));
            },
            EmailRoutingRuleMatcherType::Literal { value } => {
                fields.push(make_text_field("type", "literal"));
                let ghost head = field_views(fields@);
                let mut rest = serialize_literal(value);
                let ghost tail = field_views(rest@);
                fields.append(&mut rest);
                assert(field_views(fields@) =~= head + tail);
                assert(head =~= seq![text_field("type"@, "literal"@)]);
            },
        }
        fields
    }
}

impl EmailRoutingRuleAction {
    /// The fields that this action puts on the wire.
    pub fn wire_fields(&self) -> (fields: Vec<WireField>)
        ensures
            field_views(fields@) == action_wire(self@),
    {
        let mut fields: Vec<WireField> = Vec::new();
        match &self.action_type {
            EmailRoutingRuleActionType::Drop => {
                fields.push(make_text_field("type", "drop"));
            },
            EmailRoutingRuleActionType::Forward { value } => {
                fields.push(make_text_field("type", "forward"));
                fields.push(
                    WireField { key: "value".to_owned(), value: WireValue::List(copy_texts(value)) },
                );
            },
            EmailRoutingRuleActionType::Worker { value } => {
                fields.push(make_text_field("type", "worker"));
                fields.push(
                    WireField { key: "value".to_owned(), value: WireValue::List(copy_texts(value)) },
                );
            },
        }
        assert(field_views(fields@) =~= action_wire(self@));
        fields
    }
}

/// Whatever the address, the empty one too, a literal matcher goes out with
/// three fields: its type, the address as its value, and `field` set to `to`.
pub proof fn lemma_literal_carries_discriminator(address: Seq<char>)
    ensures
        matcher_wire(MatcherView::MatchLiteral { address }) == seq![
            text_field("type"@, "literal"@),
            text_field("value"@, address),
            text_field("field"@, "to"@),
        ],
        matcher_wire(MatcherView::MatchLiteral { address }).contains(
            text_field("field"@, "to"@),
        ),
        matcher_wire(MatcherView::MatchLiteral { address }).contains(
            text_field("value"@, address),
        ),
{
    let fields = matcher_wire(MatcherView::MatchLiteral { address });
    assert(fields =~= seq![
        text_field("type"@, "literal"@),
        text_field("value"@, address),
        text_field("field"@, "to"@),
    ]);
    assert(fields[2] == text_field("field"@, "to"@));
    assert(fields[1] == text_field("value"@, address));
}

} // verus!
