//! JSON documents as plain data, read and written by `serde_json`.

use vstd::prelude::*;

use crate::string_map::{
    distinct_keys, lemma_distinct_len, lemma_lookup, lemma_mapped, lemma_position_unique,
    lemma_upserted, mapped, pairs_map, StringMap,
};
use crate::text::texts;

verus! {

/// A JSON document.
#[derive(Debug)]
pub enum Json {
    /// `null`
    Null,
    /// `true` or `false`
    Bool(bool),
    /// A number, as `serde_json` holds it.
    Number(serde_json::Number),
    /// A string.
    String(String),
    /// An array.
    Array(Vec<Json>),
    /// An object.
    Object(StringMap<Json>),
}

/// What a JSON document says.
pub enum JsonView {
    /// `null`
    Null,
    /// `true` or `false`
    Bool(bool),
    /// A number.
    Number(serde_json::Number),
    /// A string.
    Text(Seq<char>),
    /// An array.
    Array(Seq<JsonView>),
    /// An object.
    Object(Map<Seq<char>, JsonView>),
}

/// The type `serde_json::Value`, opaque here.
#[verifier::external_type_specification]
#[verifier::external_body]
pub struct ExJsonValue(serde_json::Value);

/// The type `serde_json::Number`, opaque here.
#[verifier::external_type_specification]
#[verifier::external_body]
pub struct ExJsonNumber(serde_json::Number);

/// The type `serde_json::Error`, opaque here.
#[verifier::external_type_specification]
#[verifier::external_body]
pub struct ExJsonError(serde_json::Error);

/// What the document `j` says.
pub open spec fn json_view(j: Json) -> JsonView
    decreases j,
{
    match j {
        Json::Null => JsonView::Null,
        Json::Bool(b) => JsonView::Bool(b),
        Json::Number(n) => JsonView::Number(n),
        Json::String(s) => JsonView::Text(s@),
        Json::Array(items) => JsonView::Array(array_view(items@)),
        Json::Object(members) => JsonView::Object(object_view(members.entries@)),
    }
}

/// What the items of an array say.
pub open spec fn array_view(items: Seq<Json>) -> Seq<JsonView>
    decreases items,
{
    if items.len() == 0 {
        Seq::empty()
    } else {
        array_view(items.drop_last()).push(json_view(items.last()))
    }
}

/// What the members of an object say; a later member overrides an earlier one
/// with the same key.
pub open spec fn object_view(members: Seq<(String, Json)>) -> Map<Seq<char>, JsonView>
    decreases members,
{
    if members.len() == 0 {
        Map::empty()
    } else {
        object_view(members.drop_last()).insert(members.last().0@, json_view(members.last().1))
    }
}

impl View for Json {
    type V = JsonView;

    open spec fn view(&self) -> JsonView {
        json_view(*self)
    }
}

/// The member of an object with this key.
pub open spec fn member(j: JsonView, key: Seq<char>) -> Option<JsonView> {
    match j {
        JsonView::Object(members) if members.contains_key(key) => Some(members[key]),
        _ => None,
    }
}

/// The characters of a string.
pub open spec fn text_of(j: Option<JsonView>) -> Option<Seq<char>> {
    match j {
        Some(JsonView::Text(s)) => Some(s),
        _ => None,
    }
}

/// The string member of an object with this key.
pub open spec fn text_member(j: JsonView, key: Seq<char>) -> Option<Seq<char>> {
    text_of(member(j, key))
}

/// The member `inner` of the member `outer`.
pub open spec fn member2(j: JsonView, outer: Seq<char>, inner: Seq<char>) -> Option<JsonView> {
    match member(j, outer) {
        Some(m) => member(m, inner),
        None => None,
    }
}

/// Whether a member is there and is `true`.
pub open spec fn is_true(j: Option<JsonView>) -> bool {
    j == Some(JsonView::Bool(true))
}

/// A member that is there and is not `null`.
pub open spec fn non_null(j: Option<JsonView>) -> Option<JsonView> {
    match j {
        Some(JsonView::Null) => None,
        _ => j,
    }
}

/// An object with one member.
pub open spec fn object1(key: Seq<char>, value: JsonView) -> JsonView {
    JsonView::Object(Map::empty().insert(key, value))
}

/// An object with two members.
pub open spec fn object2(
    key1: Seq<char>,
    value1: JsonView,
    key2: Seq<char>,
    value2: JsonView,
) -> JsonView {
    JsonView::Object(Map::empty().insert(key1, value1).insert(key2, value2))
}

/// The string, or `null` where there is none.
pub open spec fn text_or_null(s: Option<Seq<char>>) -> JsonView {
    match s {
        Some(t) => JsonView::Text(t),
        None => JsonView::Null,
    }
}

/// The strings as an array.
pub open spec fn text_array(strings: Seq<Seq<char>>) -> JsonView {
    JsonView::Array(strings.map_values(|s: Seq<char>| JsonView::Text(s)))
}

/// What an array says, item by item.
pub proof fn lemma_array_view(items: Seq<Json>)
    ensures
        array_view(items).len() == items.len(),
        forall|i: int| 0 <= i < items.len() ==> #[trigger] array_view(items)[i] == json_view(items[i]),
    decreases items.len(),
{
    if items.len() > 0 {
        lemma_array_view(items.drop_last());
        assert forall|i: int| 0 <= i < items.len() implies #[trigger] array_view(items)[i]
            == json_view(items[i]) by {
            if i < items.len() - 1 {
                assert(array_view(items.drop_last())[i] == json_view(items.drop_last()[i]));
            }
        }
    }
}

/// What an object says, member by member.
pub proof fn lemma_object_view(members: StringMap<Json>)
    ensures
        object_view(members.entries@) == members@.map_values(|j: Json| json_view(j)),
    decreases members.entries@.len(),
{
    lemma_object_entries(members.entries@);
}

proof fn lemma_object_entries(entries: Seq<(String, Json)>)
    ensures
        object_view(entries) == pairs_map(
            entries.map_values(|entry: (String, Json)| (entry.0@, entry.1)),
        ).map_values(|j: Json| json_view(j)),
    decreases entries.len(),
{
    let pairs = entries.map_values(|entry: (String, Json)| (entry.0@, entry.1));
    if entries.len() > 0 {
        lemma_object_entries(entries.drop_last());
        assert(pairs.drop_last() =~= entries.drop_last().map_values(
            |entry: (String, Json)| (entry.0@, entry.1),
        ));
    }
    assert(object_view(entries) =~= pairs_map(pairs).map_values(|j: Json| json_view(j)));
}

/// The integer that a number is, where it is one from 0 to `u64::MAX`.
pub uninterp spec fn number_u64(n: serde_json::Number) -> Option<u64>;

/// `serde_json::Number::as_u64`: the number as an unsigned integer, `None`
/// for a negative or fractional one.
#[verifier::external_body]
fn number_as_u64(n: &serde_json::Number) -> (value: Option<u64>)
    ensures
        value == number_u64(*n),
{
    n.as_u64()
}

/// The number that is this integer.
pub uninterp spec fn number_of(value: u64) -> serde_json::Number;

/// `serde_json::Number::from::<u64>`: the number that is this integer; read
/// back as an unsigned integer it gives the same one.
#[verifier::external_body]
fn number_from_u64(value: u64) -> (n: serde_json::Number)
    ensures
        n == number_of(value),
        number_u64(n) == Some(value),
{
    serde_json::Number::from(value)
}

/// `serde_json::Number::clone`: the same number.
#[verifier::external_body]
fn clone_number(n: &serde_json::Number) -> (copy: serde_json::Number)
    ensures
        copy == *n,
{
    n.clone()
}

impl Json {
    /// The member of an object with this key.
    pub fn get(&self, key: &str) -> (value: Option<&Json>)
        ensures
            match value {
                Some(v) => member(self@, key@) == Some(v@),
                None => member(self@, key@) is None,
            },
    {
        match self {
            Json::Object(members) => {
                proof {
                    lemma_object_view(*members);
                }
                members.get(key)
            },
            _ => None,
        }
    }

    /// The characters, where this is a string.
    pub fn as_str(&self) -> (value: Option<&str>)
        ensures
            match value {
                Some(s) => self@ == JsonView::Text(s@),
                None => !(self@ is Text),
            },
    {
        match self {
            Json::String(s) => Some(s.as_str()),
            _ => None,
        }
    }

    /// The truth value, where this is one.
    pub fn as_bool(&self) -> (value: Option<bool>)
        ensures
            match value {
                Some(b) => self@ == JsonView::Bool(b),
                None => !(self@ is Bool),
            },
    {
        match self {
            Json::Bool(b) => Some(*b),
            _ => None,
        }
    }

    /// The number as an unsigned integer, where this is one.
    pub fn as_u64(&self) -> (value: Option<u64>)
        ensures
            value == (match self@ {
                JsonView::Number(n) => number_u64(n),
                _ => None,
            }),
    {
        match self {
            Json::Number(n) => number_as_u64(n),
            _ => None,
        }
    }

    /// The items, where this is an array.
    pub fn as_array(&self) -> (value: Option<&Vec<Json>>)
        ensures
            match value {
                Some(items) => self@ == JsonView::Array(array_view(items@)),
                None => !(self@ is Array),
            },
    {
        match self {
            Json::Array(items) => Some(items),
            _ => None,
        }
    }

    /// Whether this is `null`.
    pub fn is_null(&self) -> (yes: bool)
        ensures
            yes == (self@ is Null),
    {
        match self {
            Json::Null => true,
            _ => false,
        }
    }

    /// The number with this value.
    pub fn from_u64(value: u64) -> (j: Json)
        ensures
            j@ == JsonView::Number(number_of(value)),
            number_u64(number_of(value)) == Some(value),
    {
        Json::Number(number_from_u64(value))
    }
}

/// Sets a member of an object that is being put together.
pub fn set_member(members: &mut StringMap<Json>, key: &str, value: Json)
    ensures
        object_view(final(members).entries@) == object_view(old(members).entries@).insert(
            key@,
            value@,
        ),
        distinct_keys(old(members).pairs()) ==> distinct_keys(final(members).pairs()),
{
    proof {
        lemma_object_view(*members);
    }
    let ghost before = members@;
    members.insert(key.to_owned(), value);
    proof {
        lemma_object_view(*members);
        assert(members@.map_values(|j: Json| json_view(j)) =~= before.map_values(
            |j: Json| json_view(j),
        ).insert(key@, value@));
    }
}

impl Json {
    /// The string `text`.
    pub fn text(text: &str) -> (j: Json)
        ensures
            j@ == JsonView::Text(text@),
    {
        Json::String(text.to_owned())
    }

    /// An object with one member.
    pub fn object1(key: &str, value: Json) -> (j: Json)
        ensures
            j@ == object1(key@, value@),
    {
        let mut members: StringMap<Json> = StringMap::new();
        assert(members.entries@ =~= Seq::empty()) by {
            assert(members.pairs().len() == 0);
        }
        set_member(&mut members, key, value);
        Json::Object(members)
    }

    /// An object with two members.
    pub fn object2(key1: &str, value1: Json, key2: &str, value2: Json) -> (j: Json)
        ensures
            j@ == object2(key1@, value1@, key2@, value2@),
    {
        let mut members: StringMap<Json> = StringMap::new();
        assert(members.entries@ =~= Seq::empty()) by {
            assert(members.pairs().len() == 0);
        }
        set_member(&mut members, key1, value1);
        set_member(&mut members, key2, value2);
        Json::Object(members)
    }

    /// The strings as an array.
    pub fn from_texts(strings: &Vec<String>) -> (j: Json)
        ensures
            j@ == text_array(texts(strings@)),
    {
        let mut items: Vec<Json> = Vec::new();
        let mut i: usize = 0;
        while i < strings.len()
            invariant
                i <= strings.len(),
                items@.len() == i,
                forall|k: int| 0 <= k < i ==> json_view(#[trigger] items@[k]) == JsonView::Text(
                    strings@[k]@,
                ),
            decreases strings.len() - i,
        {
            items.push(Json::text(strings[i].as_str()));
            i = i + 1;
        }
        proof {
            lemma_array_view(items@);
            assert(array_view(items@) =~= texts(strings@).map_values(
                |s: Seq<char>| JsonView::Text(s),
            ));
        }
        Json::Array(items)
    }
}

impl Clone for Json {
    fn clone(&self) -> (copy: Self)
        ensures
            copy@ == self@,
        decreases self,
    {
        match self {
            Json::Null => Json::Null,
            Json::Bool(b) => Json::Bool(*b),
            Json::Number(n) => Json::Number(clone_number(n)),
            Json::String(s) => Json::String(s.clone()),
            Json::Array(items) => {
                let mut copies: Vec<Json> = Vec::new();
                let mut i: usize = 0;
                while i < items.len()
                    invariant
                        i <= items.len(),
                        *self == Json::Array(*items),
                        array_view(copies@) == array_view(items@.take(i as int)),
                    decreases items.len() - i,
                {
                    let ghost before = copies@;
                    assert(decreases_to!(*self => self->Array_0));
                    assert(decreases_to!(items => items@[i as int]));
                    let item = items[i].clone();
                    copies.push(item);
                    assert(copies@.drop_last() =~= before);
                    assert(items@.take(i + 1).drop_last() =~= items@.take(i as int));
                    i = i + 1;
                }
                assert(items@.take(i as int) =~= items@);
                Json::Array(copies)
            },
            Json::Object(members) => {
                let mut entries: Vec<(String, Json)> = Vec::new();
                let mut i: usize = 0;
                while i < members.entries.len()
                    invariant
                        i <= members.entries.len(),
                        *self == Json::Object(*members),
                        object_view(entries@) == object_view(members.entries@.take(i as int)),
                    decreases members.entries.len() - i,
                {
                    let ghost before = entries@;
                    assert(decreases_to!(*self => self->Object_0));
                    assert(decreases_to!(members => members.entries));
                    assert(decreases_to!(members.entries => members.entries@[i as int]));
                    let value = members.entries[i].1.clone();
                    entries.push((members.entries[i].0.clone(), value));
                    assert(entries@.drop_last() =~= before);
                    assert(members.entries@.take(i + 1).drop_last() =~= members.entries@.take(
                        i as int,
                    ));
                    i = i + 1;
                }
                assert(members.entries@.take(i as int) =~= members.entries@);
                Json::Object(StringMap { entries })
            },
        }
    }
}

/// What a `serde_json::Value` says.
pub uninterp spec fn value_view(value: serde_json::Value) -> JsonView;

/// The outermost layer of a `serde_json::Value`.
enum Layer {
    /// `null`
    Null,
    /// `true` or `false`
    Bool(bool),
    /// A number.
    Number(serde_json::Number),
    /// A string.
    String(String),
    /// The items of an array.
    Array(Vec<serde_json::Value>),
    /// The members of an object.
    Object(Vec<(String, serde_json::Value)>),
}

/// What members say; a later member overrides an earlier one with the same
/// key.
spec fn members_view(members: Seq<(String, serde_json::Value)>) -> Map<
    Seq<char>,
    JsonView,
> {
    pairs_map(members.map_values(|m: (String, serde_json::Value)| (m.0@, value_view(m.1))))
}

/// What a layer says.
spec fn layer_view(layer: Layer) -> JsonView {
    match layer {
        Layer::Null => JsonView::Null,
        Layer::Bool(b) => JsonView::Bool(b),
        Layer::Number(n) => JsonView::Number(n),
        Layer::String(s) => JsonView::Text(s@),
        Layer::Array(items) => JsonView::Array(
            items@.map_values(|v: serde_json::Value| value_view(v)),
        ),
        Layer::Object(members) => JsonView::Object(members_view(members@)),
    }
}

/// The members of a layer have distinct keys.
spec fn layer_distinct(layer: Layer) -> bool {
    layer matches Layer::Object(members) ==> distinct_keys(
        members@.map_values(|m: (String, serde_json::Value)| (m.0@, value_view(m.1))),
    )
}

/// Takes a `serde_json::Value` apart by its variant. The layer says what the
/// value says, and the keys of a `serde_json::Map` come out distinct.
#[verifier::external_body]
fn into_layer(value: serde_json::Value) -> (layer: Layer)
    ensures
        layer_view(layer) == value_view(value),
        layer_distinct(layer),
{
    match value {
        serde_json::Value::Null => Layer::Null,
        serde_json::Value::Bool(b) => Layer::Bool(b),
        serde_json::Value::Number(n) => Layer::Number(n),
        serde_json::Value::String(s) => Layer::String(s),
        serde_json::Value::Array(items) => Layer::Array(items),
        serde_json::Value::Object(members) => Layer::Object(members.into_iter().collect()),
    }
}

/// Puts a `serde_json::Value` together by its variant. The value says what
/// the layer says, whose members have distinct keys.
#[verifier::external_body]
fn from_layer(layer: Layer) -> (value: serde_json::Value)
    requires
        layer_distinct(layer),
    ensures
        value_view(value) == layer_view(layer),
{
    match layer {
        Layer::Null => serde_json::Value::Null,
        Layer::Bool(b) => serde_json::Value::Bool(b),
        Layer::Number(n) => serde_json::Value::Number(n),
        Layer::String(s) => serde_json::Value::String(s),
        Layer::Array(items) => serde_json::Value::Array(items),
        Layer::Object(members) => serde_json::Value::Object(members.into_iter().collect()),
    }
}

impl Json {
    /// The document that a `serde_json::Value` holds.
    pub fn from_value(value: serde_json::Value) -> (j: Json)
        ensures
            j@ == value_view(value),
        decreases value_view(value),
    {
        let ghost whole = value_view(value);
        match into_layer(value) {
            Layer::Null => Json::Null,
            Layer::Bool(b) => Json::Bool(b),
            Layer::Number(n) => Json::Number(n),
            Layer::String(s) => Json::String(s),
            Layer::Array(items) => {
                let ghost all = items@;
                let ghost views = all.map_values(|v: serde_json::Value| value_view(v));
                let mut out: Vec<Json> = Vec::new();
                for item in it: items
                    invariant
                        it.seq() == all,
                        views == all.map_values(|v: serde_json::Value| value_view(v)),
                        whole == value_view(value),
                        whole == JsonView::Array(views),
                        array_view(out@) == views.take(it.index() as int),
                {
                    let ghost before = out@;
                    assert(item == all[it.index() as int]);
                    assert(views[it.index() as int] == value_view(item));
                    assert(decreases_to!(whole => whole->Array_0));
                    assert(decreases_to!(whole->Array_0 => whole->Array_0[it.index() as int]));
                    let j = Json::from_value(item);
                    out.push(j);
                    assert(out@.drop_last() =~= before);
                }
                assert(views.take(all.len() as int) =~= views);
                Json::Array(out)
            },
            Layer::Object(members) => {
                let ghost all = members@;
                let ghost views = all.map_values(
                    |m: (String, serde_json::Value)| (m.0@, value_view(m.1)),
                );
                let mut entries: Vec<(String, Json)> = Vec::new();
                for m in it: members
                    invariant
                        it.seq() == all,
                        views == all.map_values(
                            |m: (String, serde_json::Value)| (m.0@, value_view(m.1)),
                        ),
                        whole == value_view(value),
                        whole == JsonView::Object(pairs_map(views)),
                        distinct_keys(views),
                        object_view(entries@) == pairs_map(views.take(it.index() as int)),
                {
                    let ghost before = entries@;
                    let ghost k = it.index() as int;
                    assert(m == all[k]);
                    assert(views[k] == (m.0@, value_view(m.1)));
                    proof {
                        lemma_position_unique(views, m.0@, k);
                        lemma_lookup(views, m.0@);
                        lemma_distinct_len(views);
                    }
                    assert(pairs_map(views)[m.0@] == value_view(m.1));
                    assert(decreases_to!(whole => whole->Object_0));
                    assert(decreases_to!(whole->Object_0 => whole->Object_0[m.0@]));
                    let j = Json::from_value(m.1);
                    entries.push((m.0, j));
                    assert(entries@.drop_last() =~= before);
                    assert(views.take(k + 1).drop_last() =~= views.take(k));
                }
                assert(views.take(all.len() as int) =~= views);
                Json::Object(StringMap { entries })
            },
        }
    }
}

/// The document that a JSON text holds, if the text is JSON.
pub uninterp spec fn text_json(text: Seq<char>) -> Option<JsonView>;

/// The document that JSON bytes hold, if the bytes are JSON.
pub uninterp spec fn bytes_json(bytes: Seq<u8>) -> Option<JsonView>;

/// The compact JSON text of a document.
pub uninterp spec fn json_text(j: JsonView) -> Seq<char>;

/// The text with which `{:?}` shows a document.
pub uninterp spec fn json_debug(j: JsonView) -> Seq<char>;

/// `serde_json::from_str::<serde_json::Value>`: the document in the text, an
/// error where the text is not JSON.
#[verifier::external_body]
fn value_from_str(text: &str) -> (read: Result<serde_json::Value, serde_json::Error>)
    ensures
        text_json(text@) == (match read {
            Ok(value) => Some(value_view(value)),
            Err(_) => None,
        }),
{
    serde_json::from_str(text)
}

/// `serde_json::from_slice::<serde_json::Value>`: the document in the bytes,
/// an error where the bytes are not JSON.
#[verifier::external_body]
fn value_from_slice(bytes: &[u8]) -> (read: Result<serde_json::Value, serde_json::Error>)
    ensures
        bytes_json(bytes@) == (match read {
            Ok(value) => Some(value_view(value)),
            Err(_) => None,
        }),
{
    serde_json::from_slice(bytes)
}

/// `serde_json::Value::to_string`: the compact JSON text, which depends on
/// what the value says alone (members stand in key order).
#[verifier::external_body]
fn value_to_string(value: &serde_json::Value) -> (text: String)
    ensures
        text@ == json_text(value_view(*value)),
{
    value.to_string()
}

/// The `Debug` text of a `serde_json::Value`, which depends on what the value
/// says alone (members stand in key order).
#[verifier::external_body]
fn value_debug(value: &serde_json::Value) -> (text: String)
    ensures
        text@ == json_debug(value_view(*value)),
{
    format!("{:?}", value)
}

impl Json {
    /// The document as a `serde_json::Value`.
    pub fn to_value(&self) -> (value: serde_json::Value)
        ensures
            value_view(value) == self@,
        decreases self,
    {
        match self {
            Json::Null => from_layer(Layer::Null),
            Json::Bool(b) => from_layer(Layer::Bool(*b)),
            Json::Number(n) => from_layer(Layer::Number(clone_number(n))),
            Json::String(s) => from_layer(Layer::String(s.clone())),
            Json::Array(items) => {
                let mut values: Vec<serde_json::Value> = Vec::new();
                let mut i: usize = 0;
                while i < items.len()
                    invariant
                        i <= items.len(),
                        *self == Json::Array(*items),
                        array_view(items@.take(i as int)) == values@.map_values(
                            |v: serde_json::Value| value_view(v),
                        ),
                    decreases items.len() - i,
                {
                    assert(decreases_to!(*self => self->Array_0));
                    assert(decreases_to!(items => items@[i as int]));
                    values.push(items[i].to_value());
                    assert(items@.take(i + 1).drop_last() =~= items@.take(i as int));
                    i = i + 1;
                }
                assert(items@.take(i as int) =~= items@);
                from_layer(Layer::Array(values))
            },
            Json::Object(members) => {
                let ghost says = |v: serde_json::Value| value_view(v);
                let mut out: StringMap<serde_json::Value> = StringMap::new();
                assert(mapped(out.pairs(), says) =~= Seq::empty());
                let mut i: usize = 0;
                while i < members.entries.len()
                    invariant
                        i <= members.entries.len(),
                        *self == Json::Object(*members),
                        says == (|v: serde_json::Value| value_view(v)),
                        distinct_keys(out.pairs()),
                        pairs_map(mapped(out.pairs(), says)) == object_view(
                            members.entries@.take(i as int),
                        ),
                    decreases members.entries.len() - i,
                {
                    assert(decreases_to!(*self => self->Object_0));
                    assert(decreases_to!(members => members.entries));
                    assert(decreases_to!(members.entries => members.entries@[i as int]));
                    let value = members.entries[i].1.to_value();
                    proof {
                        let key = members.entries@[i as int].0@;
                        lemma_mapped(out.pairs(), says, key, value);
                        lemma_upserted(mapped(out.pairs(), says), key, says(value));
                    }
                    out.insert(members.entries[i].0.clone(), value);
                    assert(members.entries@.take(i + 1).drop_last() =~= members.entries@.take(
                        i as int,
                    ));
                    i = i + 1;
                }
                assert(members.entries@.take(i as int) =~= members.entries@);
                proof {
                    let shown = out.entries@.map_values(
                        |m: (String, serde_json::Value)| (m.0@, value_view(m.1)),
                    );
                    assert(shown =~= mapped(out.pairs(), says));
                    assert forall|j: int, k: int| 0 <= j < k < shown.len() implies (
                    #[trigger] shown[j]).0 != (#[trigger] shown[k]).0 by {
                        assert(out.pairs()[j].0 != out.pairs()[k].0);
                    }
                }
                from_layer(Layer::Object(out.entries))
            },
        }
    }

    /// The document in a JSON text.
    pub fn parse(text: &str) -> (read: Option<Json>)
        ensures
            match read {
                Some(j) => text_json(text@) == Some(j@),
                None => text_json(text@) is None,
            },
    {
        match value_from_str(text) {
            Ok(value) => Some(Json::from_value(value)),
            Err(_) => None,
        }
    }

    /// The document in JSON bytes.
    pub fn parse_bytes(bytes: &[u8]) -> (read: Option<Json>)
        ensures
            match read {
                Some(j) => bytes_json(bytes@) == Some(j@),
                None => bytes_json(bytes@) is None,
            },
    {
        match value_from_slice(bytes) {
            Ok(value) => Some(Json::from_value(value)),
            Err(_) => None,
        }
    }

    /// The compact JSON text of the document.
    pub fn to_text(&self) -> (text: String)
        ensures
            text@ == json_text(self@),
    {
        value_to_string(&self.to_value())
    }

    /// The text with which `{:?}` shows the document.
    pub fn to_debug_text(&self) -> (text: String)
        ensures
            text@ == json_debug(self@),
    {
        value_debug(&self.to_value())
    }
}

}
