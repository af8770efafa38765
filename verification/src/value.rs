//! MessagePack and JSON values, and the outside encoders and parsers for them.

use rmpv::Value as RmpvValue;
use serde_json::Value as SerdeValue;
use crate::text::{comes_before, lemma_order_is_strict};
use vstd::prelude::*;

verus! {

/// A MessagePack value. A floating-point number is held as the decimal text that
/// reads back as it.
#[derive(Debug, PartialEq)]
pub enum MsgValue {
    Nil,
    Boolean(bool),
    Signed(i64),
    Unsigned(u64),
    Float(String),
    Text(String),
    Array(Vec<MsgValue>),
    Mapping(Vec<(MsgValue, MsgValue)>),
    Ext(i8, Vec<u8>),
}

/// What a [`MsgValue`] stands for: the same tree over mathematical values, in
/// which a number does not tell how it was held.
pub enum MsgView {
    Nil,
    Boolean(bool),
    Integer(int),
    Float(Seq<char>),
    Text(Seq<char>),
    Array(Seq<MsgView>),
    Mapping(Seq<(MsgView, MsgView)>),
    Ext(int, Seq<u8>),
}

impl MsgValue {
    /// The tree over mathematical values that this value stands for.
    pub open spec fn tree(self) -> MsgView
        decreases self,
    {
        match self {
            MsgValue::Nil => MsgView::Nil,
            MsgValue::Boolean(b) => MsgView::Boolean(b),
            MsgValue::Signed(n) => MsgView::Integer(n as int),
            MsgValue::Unsigned(n) => MsgView::Integer(n as int),
            MsgValue::Float(text) => MsgView::Float(text@),
            MsgValue::Text(text) => MsgView::Text(text@),
            MsgValue::Array(items) => MsgView::Array(
                Seq::new(
                    items@.len(),
                    |i: int|
                        if 0 <= i < items@.len() {
                            items@[i].tree()
                        } else {
                            MsgView::Nil
                        },
                ),
            ),
            MsgValue::Mapping(pairs) => MsgView::Mapping(
                Seq::new(
                    pairs@.len(),
                    |i: int|
                        if 0 <= i < pairs@.len() {
                            (pairs@[i].0.tree(), pairs@[i].1.tree())
                        } else {
                            (MsgView::Nil, MsgView::Nil)
                        },
                ),
            ),
            MsgValue::Ext(tag, data) => MsgView::Ext(tag as int, data@),
        }
    }
}

impl View for MsgValue {
    type V = MsgView;

    open spec fn view(&self) -> MsgView {
        self.tree()
    }
}

/// The values of a sequence of MessagePack values.
pub open spec fn msg_views(items: Seq<MsgValue>) -> Seq<MsgView> {
    items.map_values(|item: MsgValue| item@)
}

/// The values of a sequence of MessagePack key-value pairs.
pub open spec fn msg_pair_views(pairs: Seq<(MsgValue, MsgValue)>) -> Seq<(MsgView, MsgView)> {
    pairs.map_values(|pair: (MsgValue, MsgValue)| (pair.0@, pair.1@))
}

/// The view of an array is the array of the views.
pub proof fn lemma_msg_array_view(items: Vec<MsgValue>)
    ensures
        MsgValue::Array(items)@ == MsgView::Array(msg_views(items@)),
{
    reveal_with_fuel(MsgValue::tree, 2);
    let array = MsgValue::Array(items)@;
    assert(array->Array_0 =~= msg_views(items@));
}

/// The view of a mapping is the mapping of the views.
pub proof fn lemma_msg_mapping_view(pairs: Vec<(MsgValue, MsgValue)>)
    ensures
        MsgValue::Mapping(pairs)@ == MsgView::Mapping(msg_pair_views(pairs@)),
{
    reveal_with_fuel(MsgValue::tree, 2);
    let mapping = MsgValue::Mapping(pairs)@;
    assert(mapping->Mapping_0 =~= msg_pair_views(pairs@));
}

/// A JSON value. A number that is no 64-bit integer is held as the decimal text
/// that reads back as it.
#[derive(Debug, PartialEq)]
pub enum Json {
    Null,
    Boolean(bool),
    Signed(i64),
    Unsigned(u64),
    Float(String),
    Text(String),
    Array(Vec<Json>),
    Object(Vec<(String, Json)>),
}

/// What a [`Json`] value stands for.
pub enum JsonView {
    Null,
    Boolean(bool),
    Integer(int),
    Float(Seq<char>),
    Text(Seq<char>),
    Array(Seq<JsonView>),
    Object(Seq<(Seq<char>, JsonView)>),
}

impl Json {
    /// The tree over mathematical values that this value stands for.
    pub open spec fn tree(self) -> JsonView
        decreases self,
    {
        match self {
            Json::Null => JsonView::Null,
            Json::Boolean(b) => JsonView::Boolean(b),
            Json::Signed(n) => JsonView::Integer(n as int),
            Json::Unsigned(n) => JsonView::Integer(n as int),
            Json::Float(text) => JsonView::Float(text@),
            Json::Text(text) => JsonView::Text(text@),
            Json::Array(items) => JsonView::Array(
                Seq::new(
                    items@.len(),
                    |i: int|
                        if 0 <= i < items@.len() {
                            items@[i].tree()
                        } else {
                            JsonView::Null
                        },
                ),
            ),
            Json::Object(members) => JsonView::Object(
                Seq::new(
                    members@.len(),
                    |i: int|
                        if 0 <= i < members@.len() {
                            (members@[i].0@, members@[i].1.tree())
                        } else {
                            (Seq::empty(), JsonView::Null)
                        },
                ),
            ),
        }
    }
}

impl View for Json {
    type V = JsonView;

    open spec fn view(&self) -> JsonView {
        self.tree()
    }
}

/// The values of a sequence of named JSON values.
pub open spec fn json_member_views(members: Seq<(String, Json)>) -> Seq<(Seq<char>, JsonView)> {
    members.map_values(|member: (String, Json)| (member.0@, member.1@))
}

/// The view of an object is the object of the views.
pub proof fn lemma_json_object_view(members: Vec<(String, Json)>)
    ensures
        Json::Object(members)@ == JsonView::Object(json_member_views(members@)),
{
    reveal_with_fuel(Json::tree, 2);
    let object = Json::Object(members)@;
    assert(object->Object_0 =~= json_member_views(members@));
}

#[verifier::external_type_specification]
#[verifier::external_body]
pub struct ExRmpvValue(RmpvValue);

#[verifier::external_type_specification]
#[verifier::external_body]
pub struct ExSerdeValue(SerdeValue);

/// The same MessagePack value in the type of the `rmpv` crate: each node becomes
/// the node of the same kind. Nothing is claimed of it here; the functions that
/// hand the outcome to `rmpv` say what comes of it.
#[verifier::external_body]
fn to_rmpv(value: &MsgValue) -> RmpvValue {
    match value {
        MsgValue::Nil => RmpvValue::Nil,
        MsgValue::Boolean(b) => RmpvValue::Boolean(*b),
        MsgValue::Signed(n) => RmpvValue::from(*n),
        MsgValue::Unsigned(n) => RmpvValue::from(*n),
        MsgValue::Float(text) => RmpvValue::F64(text.parse().unwrap_or_default()),
        MsgValue::Text(text) => RmpvValue::from(text.as_str()),
        MsgValue::Array(items) => RmpvValue::Array(items.iter().map(to_rmpv).collect()),
        MsgValue::Mapping(v) => RmpvValue::Map(v.iter().map(|p| (to_rmpv(&p.0), to_rmpv(&p.1))).collect()),
        MsgValue::Ext(tag, data) => RmpvValue::Ext(*tag, data.clone()),
    }
}

/// What `rmpv::encode::write_value` writes for a MessagePack value.
pub uninterp spec fn msgpack(value: MsgView) -> Seq<u8>;

/// `rmpv::encode::write_value` into a growing buffer, which cannot fail: the
/// bytes are a function of the value alone.
#[verifier::external_body]
pub(crate) fn write_msgpack(value: &MsgValue) -> (bytes: Vec<u8>)
    ensures
        bytes@ == msgpack(value@),
{
    let mut buf = Vec::new();
    rmpv::encode::write_value(&mut buf, &to_rmpv(value)).expect("Error encoding MsgPack");
    buf
}

/// The same value out of the type of the `rmpv` crate. It is used on what a JSON
/// text was read into, where the kinds `F32`, `Binary` and `Ext` do not occur;
/// they would come out as nil.
#[verifier::external_body]
fn from_rmpv(value: RmpvValue) -> MsgValue {
    match value {
        RmpvValue::Boolean(b) => MsgValue::Boolean(b),
        RmpvValue::Integer(n) => match n.as_i64() {
            Some(n) => MsgValue::Signed(n),
            None => MsgValue::Unsigned(n.as_u64().unwrap_or_default()),
        },
        RmpvValue::F64(x) => MsgValue::Float(x.to_string()),
        RmpvValue::String(text) => MsgValue::Text(text.into_str().unwrap_or_default()),
        RmpvValue::Array(v) => MsgValue::Array(v.into_iter().map(from_rmpv).collect()),
        RmpvValue::Map(v) => MsgValue::Mapping(v.into_iter().map(|p| (from_rmpv(p.0), from_rmpv(p.1))).collect()),
        _ => MsgValue::Nil,
    }
}

/// The MessagePack value that `serde_json::from_str` reads out of a JSON text.
pub uninterp spec fn msg_from_json_text(text: Seq<char>) -> Option<MsgView>;

/// `serde_json::from_str::<rmpv::Value>`: nothing where the text is no JSON that
/// it can read, and otherwise a value that is a function of the text alone.
#[verifier::external_body]
pub(crate) fn parse_msg(text: &str) -> (value: Option<MsgValue>)
    ensures
        value is Some == msg_from_json_text(text@) is Some,
        value is Some ==> value->0@ == msg_from_json_text(text@)->0,
{
    serde_json::from_str::<RmpvValue>(text).ok().map(from_rmpv)
}

/// The same JSON value in the type of the `serde_json` crate.
#[verifier::external_body]
fn to_serde(json: &Json) -> SerdeValue {
    match json {
        Json::Null => SerdeValue::Null,
        Json::Boolean(b) => SerdeValue::Bool(*b),
        Json::Signed(n) => SerdeValue::from(*n),
        Json::Unsigned(n) => SerdeValue::from(*n),
        Json::Float(text) => serde_json::Number::from_f64(text.parse().unwrap_or_default()).into(),
        Json::Text(text) => SerdeValue::String(text.clone()),
        Json::Array(items) => SerdeValue::Array(items.iter().map(to_serde).collect()),
        Json::Object(v) => SerdeValue::Object(v.iter().map(|m| (m.0.clone(), to_serde(&m.1))).collect()),
    }
}

/// Whether a JSON value is made of nothing but null, booleans, integers, texts and
/// arrays of such, nested no deeper than `depth`.
pub open spec fn is_shallow(json: JsonView, depth: nat) -> bool
    decreases depth,
{
    match json {
        JsonView::Float(_) => false,
        JsonView::Object(_) => false,
        JsonView::Array(items) => depth > 0 && forall|i: int|
            0 <= i < items.len() ==> is_shallow(#[trigger] items[i], (depth - 1) as nat),
        _ => true,
    }
}

/// Whether a JSON value is an object with different names and shallow values.
pub open spec fn is_record(json: JsonView) -> bool {
    &&& json matches JsonView::Object(members)
    &&& forall|i: int| 0 <= i < members.len() ==> is_shallow((#[trigger] members[i]).1, 8)
    &&& forall|i: int, j: int|
        0 <= i < j < members.len() ==> (#[trigger] members[i]).0 != (#[trigger] members[j]).0
}

/// A shallow JSON value as a MessagePack value.
pub open spec fn msg_of_json(json: JsonView) -> MsgView
    decreases json,
{
    match json {
        JsonView::Boolean(b) => MsgView::Boolean(b),
        JsonView::Integer(n) => MsgView::Integer(n),
        JsonView::Text(text) => MsgView::Text(text),
        JsonView::Array(items) => MsgView::Array(
            Seq::new(
                items.len(),
                |i: int|
                    if 0 <= i < items.len() {
                        msg_of_json(items[i])
                    } else {
                        MsgView::Nil
                    },
            ),
        ),
        _ => MsgView::Nil,
    }
}

/// The members of a JSON object as pairs of MessagePack values.
pub open spec fn member_pairs(json: JsonView) -> Seq<(MsgView, MsgView)> {
    json->Object_0.map_values(
        |member: (Seq<char>, JsonView)| (MsgView::Text(member.0), msg_of_json(member.1)),
    )
}

/// Whether the keys of some pairs are texts, each of which comes before the next.
pub open spec fn keys_ascend(pairs: Seq<(MsgView, MsgView)>) -> bool {
    forall|i: int, j: int|
        0 <= i < j < pairs.len() ==> key_comes_before(
            (#[trigger] pairs[i]).0,
            (#[trigger] pairs[j]).0,
        )
}

/// Whether a key is a text that comes before another.
pub open spec fn key_comes_before(a: MsgView, b: MsgView) -> bool {
    a is Text && b is Text && comes_before(a->Text_0, b->Text_0)
}

/// Whether some pairs are the members of a JSON object in the order of their names.
pub open spec fn lists_members(pairs: Seq<(MsgView, MsgView)>, json: JsonView) -> bool {
    pairs.to_multiset() == member_pairs(json).to_multiset() && keys_ascend(pairs)
}

/// Whether a MessagePack value is the mapping of the members of a JSON object, in the
/// order of their names.
pub open spec fn maps_members(value: MsgView, json: JsonView) -> bool {
    value matches MsgView::Mapping(pairs) && lists_members(pairs, json)
}

proof fn lemma_ascending_pairs_are_unique(
    a: Seq<(MsgView, MsgView)>,
    b: Seq<(MsgView, MsgView)>,
)
    requires
        a.to_multiset() == b.to_multiset(),
        keys_ascend(a),
        keys_ascend(b),
    ensures
        a == b,
    decreases a.len(),
{
    broadcast use vstd::seq_lib::group_to_multiset_ensures;

    assert(a.len() == a.to_multiset().len() && b.len() == b.to_multiset().len());
    if a.len() == 0 {
        assert(a =~= b);
    } else {
        let end = a.len() - 1;
        let x = a[end];
        let y = b[end];
        assert(a.contains(x) && b.contains(y));
        assert(a.to_multiset().count(y) > 0 && b.to_multiset().count(x) > 0);
        let i = choose|i: int| 0 <= i < a.len() && a[i] == y;
        let j = choose|j: int| 0 <= j < b.len() && b[j] == x;
        assert(0 <= i < a.len() && a[i] == y);
        assert(0 <= j < b.len() && b[j] == x);
        if x != y {
            assert(key_comes_before(a[i].0, a[end].0));
            assert(key_comes_before(b[j].0, b[end].0));
            lemma_order_is_strict(x.0->Text_0, y.0->Text_0);
        }
        assert(a.drop_last() =~= a.remove(end));
        assert(b.drop_last() =~= b.remove(end));
        assert forall|s: int, t: int| 0 <= s < t < end implies key_comes_before(
            (#[trigger] a.drop_last()[s]).0,
            (#[trigger] a.drop_last()[t]).0,
        ) && key_comes_before(b.drop_last()[s].0, b.drop_last()[t].0) by {
            assert(key_comes_before(a[s].0, a[t].0));
            assert(key_comes_before(b[s].0, b[t].0));
        }
        assert(keys_ascend(b.drop_last())) by {
            assert forall|s: int, t: int| 0 <= s < t < end implies key_comes_before(
                (#[trigger] b.drop_last()[s]).0,
                (#[trigger] b.drop_last()[t]).0,
            ) by {
                assert(key_comes_before(b[s].0, b[t].0));
            }
        }
        lemma_ascending_pairs_are_unique(a.drop_last(), b.drop_last());
        assert(a =~= a.drop_last().push(x));
        assert(b =~= b.drop_last().push(y));
    }
}

/// The members of a JSON object can be listed in the order of their names in one way
/// only.
pub proof fn law_members_are_listed_one_way(
    a: Seq<(MsgView, MsgView)>,
    b: Seq<(MsgView, MsgView)>,
    json: JsonView,
)
    requires
        lists_members(a, json),
        lists_members(b, json),
    ensures
        a == b,
{
    lemma_ascending_pairs_are_unique(a, b);
}

/// Whether a JSON text reads, as MessagePack, as the members of a JSON object in the
/// order of their names.
pub open spec fn reads_as_members(text: Seq<char>, json: JsonView) -> bool {
    msg_from_json_text(text) matches Some(value) && maps_members(value, json)
}

/// The text that `serde_json::to_string` writes for a JSON value.
pub uninterp spec fn json_text(json: JsonView) -> Option<Seq<char>>;

/// `serde_json::to_string` of a `serde_json::Value`: a function of the value
/// alone. A record always has a text, and the text reads back, as MessagePack, as
/// the members of the record in the order of their names, by which `serde_json` keeps
/// the members of an object.
#[verifier::external_body]
pub(crate) fn print_json(json: &Json) -> (text: Option<String>)
    ensures
        text is Some == json_text(json@) is Some,
        text is Some ==> text->0@ == json_text(json@)->0,
        is_record(json@) ==> text is Some && reads_as_members(text->0@, json@),
{
    serde_json::to_string(&to_serde(json)).ok()
}

/// The same value out of the type of the `serde_json` crate.
#[verifier::external_body]
fn from_serde(value: SerdeValue) -> Json {
    match value {
        SerdeValue::Null => Json::Null,
        SerdeValue::Bool(b) => Json::Boolean(b),
        SerdeValue::Number(n) => match (n.as_i64(), n.as_u64()) {
            (Some(n), _) => Json::Signed(n),
            (None, Some(n)) => Json::Unsigned(n),
            (None, None) => Json::Float(n.to_string()),
        },
        SerdeValue::String(text) => Json::Text(text),
        SerdeValue::Array(v) => Json::Array(v.into_iter().map(from_serde).collect()),
        SerdeValue::Object(v) => Json::Object(v.into_iter().map(|m| (m.0, from_serde(m.1))).collect()),
    }
}

/// Whether a MessagePack value is made of nothing but nil, booleans, integers,
/// texts, tagged bytes and arrays of such.
pub open spec fn is_plain(value: MsgView) -> bool
    decreases value,
{
    match value {
        MsgView::Float(_) => false,
        MsgView::Mapping(_) => false,
        MsgView::Array(items) => forall|i: int|
            0 <= i < items.len() ==> is_plain(#[trigger] items[i]),
        _ => true,
    }
}

/// Bytes as a JSON array of numbers.
pub open spec fn json_of_bytes(bytes: Seq<u8>) -> JsonView {
    JsonView::Array(bytes.map_values(|b: u8| JsonView::Integer(b as int)))
}

/// A plain MessagePack value written as JSON. Tagged bytes become an array of
/// the tag and the array of the bytes.
pub open spec fn json_of(value: MsgView) -> JsonView
    decreases value,
{
    match value {
        MsgView::Boolean(b) => JsonView::Boolean(b),
        MsgView::Integer(n) => JsonView::Integer(n),
        MsgView::Text(text) => JsonView::Text(text),
        MsgView::Ext(tag, data) => JsonView::Array(
            seq![JsonView::Integer(tag), json_of_bytes(data)],
        ),
        MsgView::Array(items) => JsonView::Array(
            Seq::new(
                items.len(),
                |i: int|
                    if 0 <= i < items.len() {
                        json_of(items[i])
                    } else {
                        JsonView::Null
                    },
            ),
        ),
        _ => JsonView::Null,
    }
}

/// `serde_json::to_value` of an `rmpv::Value`: nil becomes null, booleans,
/// integers and texts stay what they are, arrays are written item by item, and
/// an extension value becomes the array of its tag and its bytes.
#[verifier::external_body]
pub(crate) fn msg_to_json(value: &MsgValue) -> (json: Json)
    requires
        is_plain(value@),
    ensures
        json@ == json_of(value@),
{
    from_serde(serde_json::to_value(to_rmpv(value)).unwrap_or_default())
}

}
