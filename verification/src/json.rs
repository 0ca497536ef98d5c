//! JSON documents as trees.
//!
//! The trees hold the part of JSON that queries are made of: strings,
//! booleans, arrays and objects. An object keeps its members in the order in
//! which they were written, so a tree fixes the key order of the text that a
//! writer produces from it.

use vstd::prelude::*;

verus! {

/// A JSON document.
#[derive(Debug, PartialEq, Eq)]
pub enum JsonValue {
    /// A string.
    Str(String),
    /// `true` or `false`.
    Bool(bool),
    /// An array, first item first.
    Array(Vec<JsonValue>),
    /// An object: its members as pairs of key and value, first member first.
    Object(Vec<(String, JsonValue)>),
}

/// The texts of `strings`, in their order.
pub open spec fn texts(strings: Seq<String>) -> Seq<Seq<char>> {
    strings.map_values(|text: String| text@)
}

/// What a [`JsonValue`] stands for: the same tree over mathematical sequences.
pub enum JsonView {
    Str(Seq<char>),
    Bool(bool),
    Array(Seq<JsonView>),
    Object(Seq<(Seq<char>, JsonView)>),
}

impl View for JsonValue {
    type V = JsonView;

    // Each closure below is only ever applied to a position of its sequence;
    // the other branch is there for the proof that the recursion ends.
    open spec fn view(&self) -> JsonView
        decreases self,
    {
        match self {
            JsonValue::Str(text) => JsonView::Str(text@),
            JsonValue::Bool(flag) => JsonView::Bool(*flag),
            JsonValue::Array(items) => JsonView::Array(
                Seq::new(
                    items@.len(),
                    |i: int|
                        if 0 <= i < items@.len() {
                            items@[i].view()
                        } else {
                            JsonView::Bool(false)
                        },
                ),
            ),
            JsonValue::Object(members) => JsonView::Object(
                Seq::new(
                    members@.len(),
                    |i: int|
                        if 0 <= i < members@.len() {
                            (members@[i].0@, members@[i].1.view())
                        } else {
                            (Seq::empty(), JsonView::Bool(false))
                        },
                ),
            ),
        }
    }
}

impl JsonView {
    /// The object with the single member `key: value`.
    pub open spec fn object1(key: Seq<char>, value: JsonView) -> JsonView {
        JsonView::Object(seq![(key, value)])
    }

    /// The object with the two members `first` and `second`, in this order.
    pub open spec fn object2(first: (Seq<char>, JsonView), second: (Seq<char>, JsonView)) -> JsonView {
        JsonView::Object(seq![first, second])
    }

    /// The array of the strings `texts`, in their order.
    pub open spec fn strings(texts: Seq<Seq<char>>) -> JsonView {
        JsonView::Array(Seq::new(texts.len(), |i: int| JsonView::Str(texts[i])))
    }
}

impl JsonValue {
    /// The object with the single member `key: value`.
    pub fn object1(key: String, value: JsonValue) -> (json: JsonValue)
        ensures
            json@ == JsonView::object1(key@, value@),
    {
        let mut members: Vec<(String, JsonValue)> = Vec::new();
        members.push((key, value));
        let json = JsonValue::Object(members);
        assert(json@->Object_0 =~= seq![(key@, value@)]);
        json
    }

    /// The object with the two members `first.0: first.1` and
    /// `second.0: second.1`, in this order.
    pub fn object2(first: (String, JsonValue), second: (String, JsonValue)) -> (json: JsonValue)
        ensures
            json@ == JsonView::object2((first.0@, first.1@), (second.0@, second.1@)),
    {
        let ghost expected = seq![(first.0@, first.1@), (second.0@, second.1@)];
        let mut members: Vec<(String, JsonValue)> = Vec::new();
        members.push(first);
        members.push(second);
        let json = JsonValue::Object(members);
        assert(json@->Object_0 =~= expected);
        json
    }

    /// The array of the strings `values`, in their order.
    pub fn strings(values: &Vec<String>) -> (json: JsonValue)
        ensures
            json@ == JsonView::strings(texts(values@)),
    {
        let mut items: Vec<JsonValue> = Vec::new();
        let mut i: usize = 0;
        while i < values.len()
            invariant
                i <= values@.len(),
                items@.len() == i,
                forall|j: int| 0 <= j < i ==> (#[trigger] items@[j])@ == JsonView::Str(values@[j]@),
            decreases values@.len() - i,
        {
            items.push(JsonValue::Str(values[i].clone()));
            i = i + 1;
        }
        let json = JsonValue::Array(items);
        assert(json@->Array_0 =~= JsonView::strings(texts(values@))->Array_0);
        json
    }
}

} // verus!
