//! JSON values, as the library holds them.

use crate::text::{bool_text, bool_to_text, integer_text, text_is, write_integer};
use vstd::prelude::*;

verus! {

/// A JSON number, as the two texts a legend can show for it.
#[derive(Debug, PartialEq, Eq)]
pub struct JsonNumber {
    /// The number as a JSON document writes it, such as `5`, `2.5` or `1e21`.
    pub literal: String,
    /// The number as a plain decimal quantity, without an exponent and
    /// without a fraction where it has none, such as `5`, `2.5` or
    /// `1000000000000000000000`.
    pub plain: String,
}

/// A JSON value. An object keeps its members in the order they were
/// written; where a key occurs twice, the first member is the one found.
#[derive(Debug, PartialEq, Eq)]
pub enum Json {
    Null,
    Bool(bool),
    Number(JsonNumber),
    String(String),
    Array(Vec<Json>),
    Object(Vec<(String, Json)>),
}

/// A JSON number as a pair of texts.
pub struct NumberView {
    pub literal: Seq<char>,
    pub plain: Seq<char>,
}

/// The members of a JSON object: keys with their values, in order.
pub type Members = Seq<(Seq<char>, JsonView)>;

/// A JSON value as a mathematical tree.
pub enum JsonView {
    Null,
    Bool(bool),
    Number(NumberView),
    String(Seq<char>),
    Array(Seq<JsonView>),
    Object(Seq<(Seq<char>, JsonView)>),
}

impl View for JsonNumber {
    type V = NumberView;

    open spec fn view(&self) -> NumberView {
        NumberView { literal: self.literal@, plain: self.plain@ }
    }
}

/// The mathematical value that a JSON value stands for.
pub open spec fn json_view(value: Json) -> JsonView
    decreases value,
{
    match value {
        Json::Null => JsonView::Null,
        Json::Bool(b) => JsonView::Bool(b),
        Json::Number(n) => JsonView::Number(n@),
        Json::String(s) => JsonView::String(s@),
        Json::Array(items) => JsonView::Array(
            Seq::new(
                items@.len(),
                |i: int|
                    if 0 <= i < items@.len() {
                        json_view(items@[i])
                    } else {
                        JsonView::Null
                    },
            ),
        ),
        Json::Object(entries) => JsonView::Object(
            Seq::new(
                entries@.len(),
                |i: int|
                    if 0 <= i < entries@.len() {
                        (entries@[i].0@, json_view(entries@[i].1))
                    } else {
                        (Seq::empty(), JsonView::Null)
                    },
            ),
        ),
    }
}

impl Clone for JsonNumber {
    fn clone(&self) -> (r: Self)
        ensures
            r@ == self@,
    {
        JsonNumber { literal: self.literal.clone(), plain: self.plain.clone() }
    }
}

impl JsonNumber {
    /// The number `n`: both texts are its decimal digits.
    pub fn from_i32(n: i32) -> (r: JsonNumber)
        ensures
            r@.literal == integer_text(n as int),
            r@.plain == integer_text(n as int),
    {
        JsonNumber { literal: write_integer(n as i64), plain: write_integer(n as i64) }
    }
}

impl View for Json {
    type V = JsonView;

    open spec fn view(&self) -> JsonView {
        json_view(*self)
    }
}

/// An array's view holds the views of its items.
pub proof fn lemma_array_view(items: Vec<Json>)
    ensures
        Json::Array(items)@ == JsonView::Array(items.deep_view()),
{
    assert(Json::Array(items)@->Array_0 =~= items.deep_view());
}

/// An object's view holds the views of its entries.
pub proof fn lemma_object_view(entries: Vec<(String, Json)>)
    ensures
        Json::Object(entries)@ == JsonView::Object(entries.deep_view()),
{
    assert(Json::Object(entries)@->Object_0 =~= entries.deep_view());
}

/// An item of an array is a smaller value than the array.
pub proof fn lemma_item_smaller(value: Json, i: int)
    requires
        value is Array,
        0 <= i < value->Array_0.len(),
    ensures
        decreases_to!(value => value->Array_0[i]),
{
    assert(decreases_to!(value => value->Array_0));
    assert(decreases_to!(value->Array_0 => value->Array_0[i]));
}

/// A member of an object is a smaller value than the object.
pub proof fn lemma_member_smaller(value: Json, i: int)
    requires
        value is Object,
        0 <= i < value->Object_0.len(),
    ensures
        decreases_to!(value => value->Object_0[i].1),
{
    assert(decreases_to!(value => value->Object_0));
    assert(decreases_to!(value->Object_0 => value->Object_0[i]));
    assert(decreases_to!(value->Object_0[i] => value->Object_0[i].1));
}

impl DeepView for Json {
    type V = JsonView;

    open spec fn deep_view(&self) -> JsonView {
        self@
    }
}

/// Copies a JSON value, item by item.
fn copy_json(value: &Json) -> (r: Json)
    ensures
        r@ == value@,
    decreases value,
{
    match value {
        Json::Null => Json::Null,
        Json::Bool(b) => Json::Bool(*b),
        Json::Number(n) => Json::Number(n.clone()),
        Json::String(s) => Json::String(s.clone()),
        Json::Array(items) => {
            let mut copy: Vec<Json> = Vec::new();
            let mut i: usize = 0;
            while i < items.len()
                invariant
                    *value == Json::Array(*items),
                    i <= items.len(),
                    copy.len() == i,
                    forall|k: int| 0 <= k < i ==> copy@[k]@ == items@[k]@,
                decreases items.len() - i,
            {
                proof {
                    lemma_item_smaller(*value, i as int);
                }
                copy.push(copy_json(&items[i]));
                i += 1;
            }
            proof {
                lemma_array_view(copy);
                lemma_array_view(*items);
                assert(copy.deep_view() =~= items.deep_view());
            }
            Json::Array(copy)
        },
        Json::Object(entries) => {
            let mut copy: Vec<(String, Json)> = Vec::new();
            let mut i: usize = 0;
            while i < entries.len()
                invariant
                    *value == Json::Object(*entries),
                    i <= entries.len(),
                    copy.len() == i,
                    forall|k: int|
                        0 <= k < i ==> copy@[k].0@ == entries@[k].0@ && copy@[k].1@
                            == entries@[k].1@,
                decreases entries.len() - i,
            {
                proof {
                    lemma_member_smaller(*value, i as int);
                }
                copy.push((entries[i].0.clone(), copy_json(&entries[i].1)));
                i += 1;
            }
            proof {
                lemma_object_view(copy);
                lemma_object_view(*entries);
                assert(copy.deep_view() =~= entries.deep_view());
            }
            Json::Object(copy)
        },
    }
}

impl Clone for Json {
    fn clone(&self) -> (r: Self)
        ensures
            r@ == self@,
    {
        copy_json(self)
    }
}

/// The value of the first member with the given key, if there is one.
pub open spec fn lookup(members: Members, key: Seq<char>) -> Option<JsonView>
    decreases members.len(),
{
    if members.len() == 0 {
        None
    } else if members[0].0 == key {
        Some(members[0].1)
    } else {
        lookup(members.drop_first(), key)
    }
}

/// The member of an object with the given key; nothing for other values.
pub open spec fn member(value: JsonView, key: Seq<char>) -> Option<JsonView> {
    match value {
        JsonView::Object(members) => lookup(members, key),
        _ => None,
    }
}

/// The text that stands for a literal: a string itself, a number as it is
/// written, a boolean as `true` or `false`. Other values have none.
pub open spec fn literal_text(value: JsonView) -> Option<Seq<char>> {
    match value {
        JsonView::String(s) => Some(s),
        JsonView::Number(n) => Some(n.literal),
        JsonView::Bool(b) => Some(bool_text(b)),
        _ => None,
    }
}

/// Finds the first member with the given key.
pub fn find_member<'a>(members: &'a Vec<(String, Json)>, key: &str) -> (r: Option<&'a Json>)
    ensures
        match r {
            Some(value) => lookup(members.deep_view(), key@) == Some(value@),
            None => lookup(members.deep_view(), key@) is None,
        },
{
    let ghost all = members.deep_view();
    let mut i: usize = 0;
    assert(all.subrange(0, all.len() as int) =~= all);
    while i < members.len()
        invariant
            i <= members.len(),
            all == members.deep_view(),
            lookup(all, key@) == lookup(all.subrange(i as int, all.len() as int), key@),
        decreases members.len() - i,
    {
        let ghost rest = all.subrange(i as int, all.len() as int);
        assert(rest[0] == all[i as int]);
        assert(rest.drop_first() =~= all.subrange(i + 1, all.len() as int));
        if text_is(members[i].0.as_str(), key) {
            return Some(&members[i].1);
        }
        i += 1;
    }
    assert(all.subrange(i as int, all.len() as int).len() == 0);
    None
}

impl Json {
    /// The text of a string value.
    pub fn as_str(&self) -> (r: Option<&str>)
        ensures
            match r {
                Some(s) => self@ == JsonView::String(s@),
                None => !(self@ is String),
            },
    {
        match self {
            Json::String(s) => Some(s.as_str()),
            _ => None,
        }
    }

    /// The number of a number value.
    pub fn as_number(&self) -> (r: Option<&JsonNumber>)
        ensures
            match r {
                Some(n) => self@ == JsonView::Number(n@),
                None => !(self@ is Number),
            },
    {
        match self {
            Json::Number(n) => Some(n),
            _ => None,
        }
    }

    /// The items of an array value.
    pub fn as_array(&self) -> (r: Option<&Vec<Json>>)
        ensures
            match r {
                Some(items) => self@ == JsonView::Array(items.deep_view()),
                None => !(self@ is Array),
            },
    {
        match self {
            Json::Array(items) => {
                proof {
                    lemma_array_view(*items);
                }
                Some(items)
            },
            _ => None,
        }
    }

    /// The members of an object value.
    pub fn as_object(&self) -> (r: Option<&Vec<(String, Json)>>)
        ensures
            match r {
                Some(members) => self@ == JsonView::Object(members.deep_view()),
                None => !(self@ is Object),
            },
    {
        match self {
            Json::Object(members) => {
                proof {
                    lemma_object_view(*members);
                }
                Some(members)
            },
            _ => None,
        }
    }

    /// Whether the value is an array.
    pub fn is_array(&self) -> (r: bool)
        ensures
            r == (self@ is Array),
    {
        match self {
            Json::Array(_) => true,
            _ => false,
        }
    }

    /// The member of an object with the given key.
    pub fn get(&self, key: &str) -> (r: Option<&Json>)
        ensures
            match r {
                Some(value) => member(self@, key@) == Some(value@),
                None => member(self@, key@) is None,
            },
    {
        match self {
            Json::Object(members) => {
                proof {
                    lemma_object_view(*members);
                }
                find_member(members, key)
            },
            _ => None,
        }
    }

    /// The text that stands for a literal value.
    pub fn to_literal_text(&self) -> (r: Option<String>)
        ensures
            match r {
                Some(text) => literal_text(self@) == Some(text@),
                None => literal_text(self@) is None,
            },
    {
        match self {
            Json::String(s) => Some(s.clone()),
            Json::Number(n) => Some(n.literal.clone()),
            Json::Bool(b) => Some(bool_to_text(*b)),
            _ => None,
        }
    }
}

} // verus!
