//! The shape of what is sent to the card database: a tree of named members,
//! lists, texts, numbers and flags.

use vstd::prelude::*;

verus! {

/// A value to be sent.
#[derive(Debug, PartialEq, Eq)]
pub enum JsonValue {
    Bool(bool),
    Number(u64),
    Text(String),
    Array(Vec<JsonValue>),
    /// The members in the order in which they are written.
    Object(Vec<(String, JsonValue)>),
}

pub enum JsonView {
    Bool(bool),
    Number(u64),
    Text(Seq<char>),
    Array(Seq<JsonView>),
    Object(Seq<(Seq<char>, JsonView)>),
}

/// What a value says, apart from how it is held in memory.
pub open spec fn value_view(value: JsonValue) -> JsonView
    decreases value,
{
    match value {
        JsonValue::Bool(b) => JsonView::Bool(b),
        JsonValue::Number(n) => JsonView::Number(n),
        JsonValue::Text(s) => JsonView::Text(s@),
        JsonValue::Array(items) => JsonView::Array(
            Seq::new(
                items@.len(),
                |i: int|
                    if 0 <= i < items@.len() {
                        value_view(items@[i])
                    } else {
                        JsonView::Bool(false)
                    },
            ),
        ),
        JsonValue::Object(members) => JsonView::Object(
            Seq::new(
                members@.len(),
                |i: int|
                    if 0 <= i < members@.len() {
                        (members@[i].0@, value_view(members@[i].1))
                    } else {
                        (Seq::empty(), JsonView::Bool(false))
                    },
            ),
        ),
    }
}

impl View for JsonValue {
    type V = JsonView;

    open spec fn view(&self) -> JsonView {
        value_view(*self)
    }
}

impl JsonView {
    /// The object has a member named `key`.
    pub open spec fn has_key(self, key: Seq<char>) -> bool {
        self matches JsonView::Object(members) && exists|i: int|
            0 <= i < members.len() && (#[trigger] members[i]).0 == key
    }

    /// The value of the object's first member named `key`.
    pub open spec fn member(self, key: Seq<char>) -> JsonView
        recommends
            self.has_key(key),
    {
        let members = self->Object_0;
        let i = choose|i: int| 0 <= i < members.len() && (#[trigger] members[i]).0 == key;
        members[i].1
    }
}

/// Named members as they are seen in an object.
pub open spec fn members_view(members: Seq<(String, JsonValue)>) -> Seq<(Seq<char>, JsonView)> {
    members.map_values(|m: (String, JsonValue)| (m.0@, m.1@))
}

/// Values as they are seen in a list.
pub open spec fn items_view(items: Seq<JsonValue>) -> Seq<JsonView> {
    items.map_values(|v: JsonValue| v@)
}

/// A list of texts.
pub open spec fn texts(items: Seq<Seq<char>>) -> JsonView {
    JsonView::Array(items.map_values(|s: Seq<char>| JsonView::Text(s)))
}

/// A list of texts.
pub fn text_array(items: &Vec<String>) -> (out: JsonValue)
    ensures
        out@ == texts(items.deep_view()),
{
    let mut list: Vec<JsonValue> = Vec::new();
    let mut i: usize = 0;
    while i < items.len()
        invariant
            i <= items.len(),
            list@.len() == i,
            forall|k: int| 0 <= k < i ==> (#[trigger] list@[k])@ == JsonView::Text(items@[k]@),
        decreases items.len() - i,
    {
        list.push(JsonValue::Text(items[i].clone()));
        i += 1;
    }
    let out = JsonValue::Array(list);
    proof {
        assert(out@->Array_0 =~= texts(items.deep_view())->Array_0);
    }
    out
}

/// The object with the given members, in their order.
pub fn object(members: Vec<(String, JsonValue)>) -> (out: JsonValue)
    ensures
        out@ == JsonView::Object(members_view(members@)),
{
    let out = JsonValue::Object(members);
    proof {
        assert(out@->Object_0 =~= members_view(members@));
    }
    out
}

/// The list of the given values, in their order.
pub fn array(items: Vec<JsonValue>) -> (out: JsonValue)
    ensures
        out@ == JsonView::Array(items_view(items@)),
{
    let out = JsonValue::Array(items);
    proof {
        assert(out@->Array_0 =~= items_view(items@));
    }
    out
}

/// Adds the member `key` with `value` after those that `members` holds.
pub fn add_member(members: &mut Vec<(String, JsonValue)>, key: &str, value: JsonValue)
    ensures
        members_view(final(members)@) == members_view(old(members)@).push((key@, value@)),
{
    members.push((String::from_str(key), value));
    proof {
        assert(members_view(members@) =~= members_view(old(members)@).push((key@, value@)));
    }
}

/// The text `s`.
pub fn text(s: &str) -> (out: JsonValue)
    ensures
        out@ == JsonView::Text(s@),
{
    JsonValue::Text(String::from_str(s))
}

} // verus!
