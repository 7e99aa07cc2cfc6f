//! The JSON values that pass through the gateway, and the reading of JSON
//! text.
//!
//! A value is held as plain data. A number is kept as the literal that
//! writes it, since the gateway only ever hands numbers on. An object is a
//! list of entries in which a later entry for a key replaces an earlier one;
//! its meaning is the map from keys to values.
use vstd::prelude::*;
use crate::text::{decimal_spec, decimal_text, strings_view, text_eq};

verus! {

/// A JSON number, as the literal that writes it.
#[derive(Debug, PartialEq, Eq)]
pub struct JsonNumber {
    pub literal: String,
}

impl View for JsonNumber {
    type V = Seq<char>;

    open spec fn view(&self) -> Seq<char> {
        self.literal@
    }
}

impl Clone for JsonNumber {
    fn clone(&self) -> (copy: JsonNumber)
        ensures
            copy@ == self@,
    {
        JsonNumber { literal: self.literal.clone() }
    }
}

impl JsonNumber {
    /// The number `n`, written in decimal.
    pub fn from_u64(n: u64) -> (number: JsonNumber)
        ensures
            number@ == decimal_spec(n as nat),
    {
        JsonNumber { literal: decimal_text(n) }
    }
}

/// A JSON value.
#[derive(Debug, PartialEq)]
pub enum JsonValue {
    Null,
    Bool(bool),
    Number(JsonNumber),
    String(String),
    Array(Vec<JsonValue>),
    Object(JsonObject),
}

/// A JSON object: entries in the order in which they were added. Where a key
/// occurs more than once, its last entry counts. `==` compares the entries
/// as they are listed; `get` and the view go by what the entries stand for.
#[derive(Debug, PartialEq)]
pub struct JsonObject {
    pub entries: Vec<(String, JsonValue)>,
}

/// What a JSON value means.
pub enum JsonView {
    Null,
    Bool(bool),
    Number(Seq<char>),
    String(Seq<char>),
    Array(Seq<JsonView>),
    Object(Map<Seq<char>, JsonView>),
}

/// The meanings of a list of values, in order.
pub open spec fn items_view(items: Seq<JsonValue>) -> Seq<JsonView>
    decreases items, 0nat,
{
    if items.len() == 0 {
        Seq::empty()
    } else {
        items_view(items.drop_last()).push(items.last().view())
    }
}

/// The map that a list of entries stands for: each entry, taken in order,
/// sets its key.
pub open spec fn entries_view(entries: Seq<(String, JsonValue)>) -> Map<Seq<char>, JsonView>
    decreases entries, 0nat,
{
    if entries.len() == 0 {
        Map::empty()
    } else {
        entries_view(entries.drop_last()).insert(entries.last().0@, entries.last().1.view())
    }
}

impl View for JsonValue {
    type V = JsonView;

    open spec fn view(&self) -> JsonView
        decreases self, 1nat,
    {
        match self {
            JsonValue::Null => JsonView::Null,
            JsonValue::Bool(b) => JsonView::Bool(*b),
            JsonValue::Number(number) => JsonView::Number(number@),
            JsonValue::String(s) => JsonView::String(s@),
            JsonValue::Array(items) => JsonView::Array(items_view(items@)),
            JsonValue::Object(object) => JsonView::Object(entries_view(object.entries@)),
        }
    }
}

impl View for JsonObject {
    type V = Map<Seq<char>, JsonView>;

    open spec fn view(&self) -> Map<Seq<char>, JsonView> {
        entries_view(self.entries@)
    }
}

/// The array of JSON strings that holds `texts`, in order.
pub open spec fn text_array_view(texts: Seq<Seq<char>>) -> JsonView {
    JsonView::Array(Seq::new(texts.len(), |i: int| JsonView::String(texts[i])))
}

/// The object without entries, as a value.
pub open spec fn empty_object() -> JsonView {
    JsonView::Object(Map::empty())
}

/// An optional value that falls back on the empty object.
pub open spec fn document_or_empty(value: Option<JsonView>) -> JsonView {
    match value {
        Some(document) => document,
        None => empty_object(),
    }
}

/// The literal of an optional number.
pub open spec fn number_view(value: Option<JsonNumber>) -> Option<Seq<char>> {
    match value {
        Some(n) => Some(n@),
        None => None,
    }
}

/// The meaning of an optional value.
pub open spec fn option_view(value: Option<JsonValue>) -> Option<JsonView> {
    match value {
        Some(v) => Some(v@),
        None => None,
    }
}

/// How `entries_view` unfolds: no entries stand for the empty map, and a
/// last entry sets its key in what the entries before it stand for.
pub proof fn lemma_entries_view_step(entries: Seq<(String, JsonValue)>)
    ensures
        entries.len() == 0 ==> entries_view(entries) == Map::<Seq<char>, JsonView>::empty(),
        entries.len() > 0 ==> entries_view(entries) == entries_view(entries.drop_last()).insert(
            entries.last().0@,
            entries.last().1@,
        ),
{
}

/// Adding an entry at the end sets its key.
pub proof fn lemma_entries_view_push(
    entries: Seq<(String, JsonValue)>,
    key: String,
    value: JsonValue,
)
    ensures
        entries_view(entries.push((key, value))) == entries_view(entries).insert(key@, value@),
{
    let longer = entries.push((key, value));
    assert(longer.drop_last() =~= entries);
    lemma_entries_view_step(longer);
}

/// How `items_view` unfolds.
pub proof fn lemma_items_view_step(items: Seq<JsonValue>)
    ensures
        items.len() == 0 ==> items_view(items) == Seq::<JsonView>::empty(),
        items.len() > 0 ==> items_view(items) == items_view(items.drop_last()).push(
            items.last()@,
        ),
{
}

/// Entries after the last one for `key` do not change what `key` maps to.
pub proof fn lemma_lookup_ignores_other_keys(
    entries: Seq<(String, JsonValue)>,
    upto: int,
    key: Seq<char>,
)
    requires
        0 <= upto <= entries.len(),
        forall|j: int| upto <= j < entries.len() ==> entries[j].0@ != key,
    ensures
        entries_view(entries).contains_key(key) == entries_view(entries.take(upto)).contains_key(
            key,
        ),
        entries_view(entries).contains_key(key) ==> entries_view(entries)[key] == entries_view(
            entries.take(upto),
        )[key],
    decreases entries.len(),
{
    if upto == entries.len() {
        assert(entries.take(upto) =~= entries);
    } else {
        lemma_lookup_ignores_other_keys(entries.drop_last(), upto, key);
        assert(entries.drop_last().take(upto) =~= entries.take(upto));
        lemma_entries_view_step(entries);
    }
}

/// The items of a list keep their meaning, place by place.
pub proof fn lemma_items_view(items: Seq<JsonValue>)
    ensures
        items_view(items).len() == items.len(),
        forall|i: int| 0 <= i < items.len() ==> (#[trigger] items_view(items)[i]) == items[i]@,
    decreases items.len(),
{
    lemma_items_view_step(items);
    if items.len() > 0 {
        lemma_items_view(items.drop_last());
    }
}

/// A list of entries followed by another stands for the first map
/// overridden by the second.
pub proof fn lemma_entries_concat(a: Seq<(String, JsonValue)>, b: Seq<(String, JsonValue)>)
    ensures
        entries_view(a + b) == entries_view(a).union_prefer_right(entries_view(b)),
    decreases b.len(),
{
    lemma_entries_view_step(b);
    if b.len() == 0 {
        assert(a + b =~= a);
        assert(entries_view(a).union_prefer_right(entries_view(b)) =~= entries_view(a));
    } else {
        lemma_entries_concat(a, b.drop_last());
        assert((a + b).drop_last() =~= a + b.drop_last());
        lemma_entries_view_step(a + b);
        assert(entries_view(a + b) =~= entries_view(a).union_prefer_right(entries_view(b)));
    }
}

impl Clone for JsonValue {
    fn clone(&self) -> (copy: JsonValue)
        ensures
            copy@ == self@,
        decreases self,
    {
        match self {
            JsonValue::Null => JsonValue::Null,
            JsonValue::Bool(b) => JsonValue::Bool(*b),
            JsonValue::Number(number) => JsonValue::Number(number.clone()),
            JsonValue::String(s) => JsonValue::String(s.clone()),
            JsonValue::Array(items) => {
                let mut copies: Vec<JsonValue> = Vec::new();
                let mut i: usize = 0;
                proof {
                    lemma_items_view_step(copies@);
                    lemma_items_view_step(items@.take(0));
                }
                while i < items.len()
                    invariant
                        i <= items.len(),
                        decreases_to!(*self => *items),
                        items_view(copies@) == items_view(items@.take(i as int)),
                    decreases items.len() - i,
                {
                    proof {
                        vstd::std_specs::vec::axiom_vec_index_decreases(*items, i as int);
                    }
                    let item = items[i].clone();
                    proof {
                        lemma_items_view_step(copies@.push(item));
                        assert(copies@.push(item).drop_last() =~= copies@);
                        lemma_items_view_step(items@.take(i + 1));
                        assert(items@.take(i + 1).drop_last() =~= items@.take(i as int));
                    }
                    copies.push(item);
                    i += 1;
                }
                assert(items@.take(items@.len() as int) =~= items@);
                JsonValue::Array(copies)
            },
            JsonValue::Object(object) => {
                let mut copies: Vec<(String, JsonValue)> = Vec::new();
                let mut i: usize = 0;
                proof {
                    lemma_entries_view_step(copies@);
                    lemma_entries_view_step(object.entries@.take(0));
                }
                while i < object.entries.len()
                    invariant
                        i <= object.entries.len(),
                        decreases_to!(*self => object.entries),
                        entries_view(copies@) == entries_view(object.entries@.take(i as int)),
                    decreases object.entries.len() - i,
                {
                    proof {
                        vstd::std_specs::vec::axiom_vec_index_decreases(object.entries, i as int);
                    }
                    let key = object.entries[i].0.clone();
                    let value = object.entries[i].1.clone();
                    proof {
                        lemma_entries_view_push(copies@, key, value);
                        lemma_entries_view_step(object.entries@.take(i + 1));
                        assert(object.entries@.take(i + 1).drop_last() =~= object.entries@.take(
                            i as int,
                        ));
                    }
                    copies.push((key, value));
                    i += 1;
                }
                assert(object.entries@.take(object.entries@.len() as int) =~= object.entries@);
                JsonValue::Object(JsonObject { entries: copies })
            },
        }
    }
}

impl Clone for JsonObject {
    fn clone(&self) -> (copy: JsonObject)
        ensures
            copy@ == self@,
    {
        let mut copies: Vec<(String, JsonValue)> = Vec::new();
        let mut i: usize = 0;
        proof {
            lemma_entries_view_step(copies@);
            lemma_entries_view_step(self.entries@.take(0));
        }
        while i < self.entries.len()
            invariant
                i <= self.entries.len(),
                entries_view(copies@) == entries_view(self.entries@.take(i as int)),
            decreases self.entries.len() - i,
        {
            let key = self.entries[i].0.clone();
            let value = self.entries[i].1.clone();
            proof {
                lemma_entries_view_push(copies@, key, value);
                lemma_entries_view_step(self.entries@.take(i + 1));
                assert(self.entries@.take(i + 1).drop_last() =~= self.entries@.take(i as int));
            }
            copies.push((key, value));
            i += 1;
        }
        assert(self.entries@.take(self.entries@.len() as int) =~= self.entries@);
        JsonObject { entries: copies }
    }
}

impl JsonObject {
    /// The object without entries.
    pub fn new() -> (object: JsonObject)
        ensures
            object@ == Map::<Seq<char>, JsonView>::empty(),
            object.entries@.len() == 0,
    {
        let entries: Vec<(String, JsonValue)> = Vec::new();
        proof {
            lemma_entries_view_step(entries@);
        }
        JsonObject { entries }
    }

    /// Sets `key` to `value`, whatever it held before.
    pub fn insert(&mut self, key: String, value: JsonValue)
        ensures
            final(self)@ == old(self)@.insert(key@, value@),
    {
        proof {
            lemma_entries_view_push(self.entries@, key, value);
        }
        self.entries.push((key, value));
    }

    /// Sets `key` to `value` where a value is given, and does nothing
    /// otherwise.
    pub fn insert_some(&mut self, key: String, value: Option<JsonValue>)
        ensures
            final(self)@ == (match value {
                Some(v) => old(self)@.insert(key@, v@),
                None => old(self)@,
            }),
    {
        match value {
            Some(v) => self.insert(key, v),
            None => {},
        }
    }

    /// The value that `key` maps to, if any.
    pub fn get(&self, key: &str) -> (found: Option<&JsonValue>)
        ensures
            found is Some <==> self@.contains_key(key@),
            found matches Some(v) ==> v@ == self@[key@],
    {
        let mut i: usize = self.entries.len();
        while i > 0
            invariant
                i <= self.entries.len(),
                forall|j: int| i <= j < self.entries.len() ==> self.entries@[j].0@ != key@,
            decreases i,
        {
            i -= 1;
            if text_eq(self.entries[i].0.as_str(), key) {
                proof {
                    lemma_lookup_ignores_other_keys(self.entries@, i + 1, key@);
                    lemma_entries_view_step(self.entries@.take(i + 1));
                }
                return Some(&self.entries[i].1);
            }
        }
        proof {
            lemma_lookup_ignores_other_keys(self.entries@, 0, key@);
            lemma_entries_view_step(self.entries@.take(0));
        }
        None
    }

    /// Takes `key` and its value out of the object.
    pub fn remove(&mut self, key: &str) -> (found: Option<JsonValue>)
        ensures
            final(self)@ == old(self)@.remove(key@),
            found is Some <==> old(self)@.contains_key(key@),
            found matches Some(v) ==> v@ == old(self)@[key@],
    {
        let mut source: Vec<(String, JsonValue)> = Vec::new();
        core::mem::swap(&mut self.entries, &mut source);
        let mut found: Option<JsonValue> = None;
        let ghost all = source@;
        proof {
            lemma_entries_view_step(self.entries@);
            lemma_entries_view_step(all.take(0));
            assert(self@ =~= entries_view(all.take(0)).remove(key@));
        }
        for entry in it: source
            invariant
                it.seq() == all,
                self@ == entries_view(all.take(it.index() as int)).remove(key@),
                found is Some <==> entries_view(all.take(it.index() as int)).contains_key(key@),
                found matches Some(v) ==> v@ == entries_view(all.take(it.index() as int))[key@],
        {
            proof {
                let i = it.index() as int;
                assert(all.take(i + 1).drop_last() =~= all.take(i));
                lemma_entries_view_step(all.take(i + 1));
            }
            if text_eq(entry.0.as_str(), key) {
                found = Some(entry.1);
            } else {
                proof {
                    lemma_entries_view_push(self.entries@, entry.0, entry.1);
                }
                self.entries.push(entry);
            }
            assert(self@ =~= entries_view(all.take(it.index() + 1)).remove(key@));
        }
        assert(all.take(all.len() as int) =~= all);
        found
    }

    /// Adds every entry of `other`; where both hold a key, the value of
    /// `other` stays.
    pub fn extend(&mut self, other: JsonObject)
        ensures
            final(self)@ == old(self)@.union_prefer_right(other@),
    {
        let mut other = other;
        proof {
            lemma_entries_concat(self.entries@, other.entries@);
        }
        self.entries.append(&mut other.entries);
    }
}

impl JsonValue {
    /// The JSON string that holds the characters of `s`.
    pub fn text(s: &str) -> (value: JsonValue)
        ensures
            value@ == JsonView::String(s@),
    {
        JsonValue::String(s.to_owned())
    }

    /// The array of JSON strings that holds `items`, in order.
    pub fn text_array(items: Vec<String>) -> (value: JsonValue)
        ensures
            value@ == text_array_view(strings_view(items@)),
    {
        let mut values: Vec<JsonValue> = Vec::new();
        let ghost all = items@;
        proof {
            lemma_items_view_step(values@);
        }
        for item in it: items
            invariant
                it.seq() == all,
                values@.len() == it.index(),
                items_view(values@) == text_array_view(
                    strings_view(all.take(it.index() as int)),
                )->Array_0,
        {
            let ghost before = values@;
            values.push(JsonValue::String(item));
            proof {
                let i = it.index() as int;
                assert(values@.drop_last() =~= before);
                lemma_items_view_step(values@);
                assert(items_view(values@) =~= text_array_view(
                    strings_view(all.take(i + 1)),
                )->Array_0);
            }
        }
        assert(all.take(all.len() as int) =~= all);
        JsonValue::Array(values)
    }
}

/// What reading `text` as JSON gives: the value that the text writes, or the
/// description of what is wrong with it.
pub uninterp spec fn json_parse(text: Seq<char>) -> Result<JsonView, Seq<char>>;

/// The meaning of an outcome of reading: of the value read, or of the words
/// of the failure.
pub open spec fn outcome_view(read: Result<JsonValue, String>) -> Result<JsonView, Seq<char>> {
    match read {
        Ok(value) => Ok(value@),
        Err(cause) => Err(cause@),
    }
}

/// `serde_json::Value`, the value that `serde_json` reads from a text. Here
/// it is opaque: `from_parsed` moves it into a `JsonValue`.
#[verifier::external_type_specification]
#[verifier::external_body]
pub struct ExJsonTree(serde_json::Value);

/// Moves a parsed `serde_json::Value` into the library's own type, variant by
/// variant; a number is kept as the literal that `serde_json` prints for it.
/// Nothing is claimed of the result here: `read_json` states what reading a
/// text gives.
#[verifier::external_body]
fn from_parsed(value: serde_json::Value) -> JsonValue {
    match value {
        serde_json::Value::Null => JsonValue::Null,
        serde_json::Value::Bool(b) => JsonValue::Bool(b),
        serde_json::Value::Number(n) => JsonValue::Number(JsonNumber { literal: n.to_string() }),
        serde_json::Value::String(s) => JsonValue::String(s),
        serde_json::Value::Array(items) => JsonValue::Array(
            items.into_iter().map(from_parsed).collect(),
        ),
        serde_json::Value::Object(map) => JsonValue::Object(
            JsonObject { entries: map.into_iter().map(|(k, v)| (k, from_parsed(v))).collect() },
        ),
    }
}

/// Calls `serde_json::from_str` for a `serde_json::Value`. The contract
/// claims only that the outcome is a function of the text, named
/// `json_parse`: the value read, or the text of `serde_json`'s error.
#[verifier::external_body]
fn read_json(text: &str) -> (read: Result<JsonValue, String>)
    ensures
        outcome_view(read) == json_parse(text@),
{
    match serde_json::from_str::<serde_json::Value>(text) {
        Ok(value) => Ok(from_parsed(value)),
        Err(error) => Err(error.to_string()),
    }
}

/// Reads `text` as JSON.
pub fn parse_json(text: &str) -> (read: Result<JsonValue, String>)
    ensures
        outcome_view(read) == json_parse(text@),
{
    read_json(text)
}

} // verus!

