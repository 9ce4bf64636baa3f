//! JSON documents that come as text: one reading of them as a tree, and what is looked up in it.

use crate::text::{opt_text, same, texts};
use vstd::prelude::*;

verus! {

/// `serde_json::Value`: a JSON document as the crate holds it.
#[verifier::external_type_specification]
#[verifier::external_body]
pub struct ExValue(serde_json::Value);

/// A JSON value.
#[derive(Debug)]
pub enum Json {
    Null,
    Flag(bool),
    /// A number, where it is an integer in the range of `u64`; no other number is told apart.
    Number(Option<u64>),
    Text(String),
    List(Vec<Json>),
    Object(Vec<JsonEntry>),
}

/// A member of a JSON object.
#[derive(Debug)]
pub struct JsonEntry {
    pub key: String,
    pub value: Json,
}

/// Model of a JSON value: an object is what its keys stand for.
pub enum JsonModel {
    Null,
    Flag(bool),
    Number(Option<u64>),
    Text(Seq<char>),
    List(Seq<JsonModel>),
    Object(Map<Seq<char>, JsonModel>),
}

/// The model of a JSON value.
pub open spec fn json_model(value: Json) -> JsonModel
    decreases value,
{
    match value {
        Json::Null => JsonModel::Null,
        Json::Flag(b) => JsonModel::Flag(b),
        Json::Number(n) => JsonModel::Number(n),
        Json::Text(s) => JsonModel::Text(s@),
        Json::List(items) => JsonModel::List(item_models(items@)),
        Json::Object(entries) => JsonModel::Object(entry_models(entries@)),
    }
}

/// The models of some JSON values.
pub open spec fn item_models(items: Seq<Json>) -> Seq<JsonModel>
    decreases items,
{
    if items.len() == 0 {
        Seq::empty()
    } else {
        item_models(items.drop_last()).push(json_model(items.last()))
    }
}

/// What the keys of some members stand for: a key that occurs twice for its last value.
pub open spec fn entry_models(entries: Seq<JsonEntry>) -> Map<Seq<char>, JsonModel>
    decreases entries,
{
    if entries.len() == 0 {
        Map::empty()
    } else {
        entry_models(entries.drop_last()).insert(
            entries.last().key@,
            json_model(entries.last().value),
        )
    }
}

impl View for Json {
    type V = JsonModel;

    open spec fn view(&self) -> JsonModel {
        json_model(*self)
    }
}

/// A JSON document, as `serde_json` reads the text: nothing where the text is no JSON.
pub uninterp spec fn parsed_json(text: Seq<char>) -> Option<JsonModel>;

/// Takes a `serde_json::Value` over into the type of this module, variant by variant; of a number,
/// what `Number::as_u64` gives.
#[verifier::external_body]
fn from_value(value: serde_json::Value) -> Json {
    match value {
        serde_json::Value::Null => Json::Null,
        serde_json::Value::Bool(flag) => Json::Flag(flag),
        serde_json::Value::Number(number) => Json::Number(number.as_u64()),
        serde_json::Value::String(text) => Json::Text(text),
        serde_json::Value::Array(items) => Json::List(items.into_iter().map(from_value).collect()),
        serde_json::Value::Object(members) => Json::Object(
            members.into_iter().map(
                |(key, value)| JsonEntry { key, value: from_value(value) },
            ).collect(),
        ),
    }
}

/// `serde_json::from_str` into a `Value`, taken over into the type of this module. The result is
/// named by `parsed_json`; what JSON is, is not stated here.
#[verifier::external_body]
pub(crate) fn parse_json(text: &str) -> (r: Option<Json>)
    ensures
        match r {
            Some(value) => parsed_json(text@) == Some(value@),
            None => parsed_json(text@) is None,
        },
{
    serde_json::from_str::<serde_json::Value>(text).ok().map(from_value)
}

/// What is under a key, where the value is an object that has it.
pub open spec fn member(value: JsonModel, key: Seq<char>) -> Option<JsonModel> {
    match value {
        JsonModel::Object(members) if members.dom().contains(key) => Some(members[key]),
        _ => None,
    }
}

/// What is under a key, where there is a value and it is an object that has it.
pub open spec fn member_of(value: Option<JsonModel>, key: Seq<char>) -> Option<JsonModel> {
    match value {
        Some(v) => member(v, key),
        None => None,
    }
}

/// The string, where there is a value and it is one.
pub open spec fn text_of(value: Option<JsonModel>) -> Option<Seq<char>> {
    match value {
        Some(JsonModel::Text(s)) => Some(s),
        _ => None,
    }
}

/// The unsigned integer, where there is a value and it is one.
pub open spec fn number_of(value: Option<JsonModel>) -> Option<u64> {
    match value {
        Some(JsonModel::Number(n)) => n,
        _ => None,
    }
}

/// The truth value, where there is a value and it is one.
pub open spec fn flag_of(value: Option<JsonModel>) -> Option<bool> {
    match value {
        Some(JsonModel::Flag(b)) => Some(b),
        _ => None,
    }
}

/// The items, where there is a value and it is a list.
pub open spec fn items_of(value: Option<JsonModel>) -> Option<Seq<JsonModel>> {
    match value {
        Some(JsonModel::List(items)) => Some(items),
        _ => None,
    }
}

/// The item at a place, where there is a value and it is a list that has it.
pub open spec fn item_of(value: Option<JsonModel>, place: int) -> Option<JsonModel> {
    match items_of(value) {
        Some(items) if 0 <= place < items.len() => Some(items[place]),
        _ => None,
    }
}

/// The model of a value that may be missing.
pub open spec fn opt_model(value: Option<&Json>) -> Option<JsonModel> {
    match value {
        Some(v) => Some(v@),
        None => None,
    }
}

/// The models of some values are those of each of them.
pub proof fn lemma_item_models(items: Seq<Json>)
    ensures
        item_models(items).len() == items.len(),
        forall|i: int| 0 <= i < items.len() ==> #[trigger] item_models(items)[i] == items[i]@,
    decreases items.len(),
{
    if items.len() > 0 {
        lemma_item_models(items.drop_last());
        assert forall|i: int| 0 <= i < items.len() implies #[trigger] item_models(items)[i]
            == items[i]@ by {
            if i < items.len() - 1 {
                assert(item_models(items.drop_last())[i] == items.drop_last()[i]@);
            }
        }
    }
}

impl Json {
    /// What is under a key.
    pub fn get(&self, key: &str) -> (r: Option<&Json>)
        ensures
            opt_model(r) == member(self@, key@),
    {
        let entries = match self {
            Json::Object(entries) => entries,
            _ => {
                return None;
            },
        };
        let ghost all = entries@;
        let mut i: usize = entries.len();
        assert(all.take(i as int) =~= all);
        while i > 0
            invariant
                i <= entries.len(),
                all == entries@,
                self@ == JsonModel::Object(entry_models(all)),
                entry_models(all).dom().contains(key@) == entry_models(
                    all.take(i as int),
                ).dom().contains(key@),
                entry_models(all.take(i as int)).dom().contains(key@) ==> entry_models(all)[key@]
                    == entry_models(all.take(i as int))[key@],
            decreases i,
        {
            proof {
                assert(all.take(i as int).drop_last() =~= all.take(i - 1));
                assert(all.take(i as int).last() == all[i - 1]);
            }
            i = i - 1;
            if same(entries[i].key.as_str(), key) {
                return Some(&entries[i].value);
            }
        }
        assert(all.take(0) =~= Seq::empty());
        None
    }

    /// The item at a place of a list.
    pub fn item(&self, place: usize) -> (r: Option<&Json>)
        ensures
            opt_model(r) == item_of(Some(self@), place as int),
    {
        match self {
            Json::List(items) => {
                proof {
                    lemma_item_models(items@);
                }
                if place < items.len() {
                    Some(&items[place])
                } else {
                    None
                }
            },
            _ => None,
        }
    }
}

/// What is under a key of a value that may be missing.
pub fn get_in<'a>(value: Option<&'a Json>, key: &str) -> (r: Option<&'a Json>)
    ensures
        opt_model(r) == member_of(opt_model(value), key@),
{
    match value {
        Some(value) => value.get(key),
        None => None,
    }
}

/// The string in a value that may be missing.
pub fn text_in(value: Option<&Json>) -> (r: Option<String>)
    ensures
        opt_text(r) == text_of(opt_model(value)),
{
    match value {
        Some(Json::Text(text)) => Some(text.clone()),
        _ => None,
    }
}

/// The unsigned integer in a value that may be missing.
pub fn number_in(value: Option<&Json>) -> (r: Option<u64>)
    ensures
        r == number_of(opt_model(value)),
{
    match value {
        Some(Json::Number(number)) => *number,
        _ => None,
    }
}

/// The string under a key of a JSON object that comes as text.
pub open spec fn json_member_text(text: Seq<char>, key: Seq<char>) -> Option<Seq<char>> {
    text_of(member_of(parsed_json(text), key))
}

/// The unsigned integer under a key of a JSON object that comes as text.
pub open spec fn json_member_number(text: Seq<char>, key: Seq<char>) -> Option<u64> {
    number_of(member_of(parsed_json(text), key))
}

/// The truth value under a key of a JSON object that comes as text.
pub open spec fn json_member_flag(text: Seq<char>, key: Seq<char>) -> Option<bool> {
    flag_of(member_of(parsed_json(text), key))
}

/// Whether a JSON object that comes as text has something but null under a key.
pub open spec fn json_member_given(text: Seq<char>, key: Seq<char>) -> bool {
    member_of(parsed_json(text), key) matches Some(value) && !(value is Null)
}

/// The string under a key of the object under another key.
pub open spec fn json_inner_text(text: Seq<char>, outer: Seq<char>, key: Seq<char>) -> Option<
    Seq<char>,
> {
    text_of(member_of(member_of(parsed_json(text), outer), key))
}

/// The unsigned integer under a key of the object under another key.
pub open spec fn json_inner_number(text: Seq<char>, outer: Seq<char>, key: Seq<char>) -> Option<
    u64,
> {
    number_of(member_of(member_of(parsed_json(text), outer), key))
}

/// The string under a key of a JSON object that comes as text.
pub fn json_string_member(text: &str, key: &str) -> (r: Option<String>)
    ensures
        opt_text(r) == json_member_text(text@, key@),
{
    let value = parse_json(text);
    text_in(get_in(value.as_ref(), key))
}

/// The unsigned integer under a key of a JSON object that comes as text.
pub fn json_u64_member(text: &str, key: &str) -> (r: Option<u64>)
    ensures
        r == json_member_number(text@, key@),
{
    let value = parse_json(text);
    number_in(get_in(value.as_ref(), key))
}

/// The truth value under a key of a JSON object that comes as text.
pub fn json_bool_member(text: &str, key: &str) -> (r: Option<bool>)
    ensures
        r == json_member_flag(text@, key@),
{
    let value = parse_json(text);
    match get_in(value.as_ref(), key) {
        Some(Json::Flag(flag)) => Some(*flag),
        _ => None,
    }
}

/// Whether a JSON object that comes as text has something but null under a key.
pub fn json_has_member(text: &str, key: &str) -> (r: bool)
    ensures
        r == json_member_given(text@, key@),
{
    let value = parse_json(text);
    match get_in(value.as_ref(), key) {
        Some(Json::Null) => false,
        Some(_) => true,
        None => false,
    }
}

/// The string under a key of the object under another key.
pub fn json_string_inner(text: &str, outer: &str, key: &str) -> (r: Option<String>)
    ensures
        opt_text(r) == json_inner_text(text@, outer@, key@),
{
    let value = parse_json(text);
    text_in(get_in(get_in(value.as_ref(), outer), key))
}

/// The unsigned integer under a key of the object under another key.
pub fn json_u64_inner(text: &str, outer: &str, key: &str) -> (r: Option<u64>)
    ensures
        r == json_inner_number(text@, outer@, key@),
{
    let value = parse_json(text);
    number_in(get_in(get_in(value.as_ref(), outer), key))
}

/// The model of a list of strings.
pub open spec fn text_list(items: Seq<Seq<char>>) -> JsonModel {
    JsonModel::List(items.map_values(|s: Seq<char>| JsonModel::Text(s)))
}

/// Every item is a string.
pub open spec fn all_texts(items: Seq<JsonModel>) -> bool {
    forall|i: int| 0 <= i < items.len() ==> (#[trigger] items[i]) is Text
}

/// The strings of a JSON array that comes as text: nothing where the text is no JSON or the document
/// no array of strings.
pub open spec fn json_texts(text: Seq<char>) -> Option<Seq<Seq<char>>> {
    match items_of(parsed_json(text)) {
        Some(items) if all_texts(items) => Some(
            items.map_values(|item: JsonModel| item->Text_0),
        ),
        _ => None,
    }
}

/// The strings of a JSON array that comes as text.
pub fn json_string_list(text: &str) -> (r: Option<Vec<String>>)
    ensures
        match r {
            Some(list) => json_texts(text@) == Some(texts(list@)),
            None => json_texts(text@) is None,
        },
{
    let items = match parse_json(text) {
        Some(Json::List(items)) => items,
        _ => {
            return None;
        },
    };
    let ghost models = item_models(items@);
    proof {
        lemma_item_models(items@);
    }
    let n: usize = items.len();
    let mut out: Vec<String> = Vec::new();
    let mut i: usize = 0;
    while i < n
        invariant
            i <= n,
            n == items.len(),
            models == item_models(items@),
            parsed_json(text@) == Some(JsonModel::List(models)),
            models.len() == n,
            out.len() == i,
            forall|j: int| 0 <= j < n ==> #[trigger] models[j] == items@[j]@,
            forall|j: int|
                0 <= j < i ==> #[trigger] models[j] == JsonModel::Text(out@[j]@),
        decreases n - i,
    {
        assert(models[i as int] == items@[i as int]@);
        match &items[i] {
            Json::Text(item) => {
                out.push(item.clone());
            },
            _ => {
                assert(!(models[i as int] is Text));
                return None;
            },
        }
        i = i + 1;
    }
    assert(texts(out@) =~= models.map_values(|item: JsonModel| item->Text_0));
    Some(out)
}

/// The JSON array of some strings, as `serde_json` writes it.
pub uninterp spec fn json_list(items: Seq<Seq<char>>) -> Seq<char>;

/// `serde_json::to_string` of a list of strings, which does not fail. The result is named by
/// `json_list`; it is claimed that reading it gives the list of these strings.
#[verifier::external_body]
pub(crate) fn json_list_of(items: &Vec<String>) -> (r: String)
    ensures
        r@ == json_list(texts(items@)),
        parsed_json(r@) == Some(text_list(texts(items@))),
{
    serde_json::to_string(items).unwrap_or_default()
}

/// A list of strings that was written is read back as it is.
pub proof fn lemma_list_reads_back(text: Seq<char>, items: Seq<Seq<char>>)
    requires
        parsed_json(text) == Some(text_list(items)),
    ensures
        json_texts(text) == Some(items),
{
    let models = items.map_values(|s: Seq<char>| JsonModel::Text(s));
    assert(models.map_values(|item: JsonModel| item->Text_0) =~= items);
}

/// A value that is put into a JSON object.
#[derive(Debug)]
pub enum JsonMember {
    Text(String),
    Flag(bool),
}

impl View for JsonMember {
    type V = JsonModel;

    open spec fn view(&self) -> JsonModel {
        match self {
            JsonMember::Text(s) => JsonModel::Text(s@),
            JsonMember::Flag(b) => JsonModel::Flag(*b),
        }
    }
}

/// The string under a key of a JSON object that may be missing.
pub open spec fn object_text(raw: Option<Seq<char>>, key: Seq<char>) -> Option<Seq<char>> {
    match raw {
        Some(text) => json_member_text(text, key),
        None => None,
    }
}

/// The truth value under a key of a JSON object that may be missing.
pub open spec fn object_flag(raw: Option<Seq<char>>, key: Seq<char>) -> Option<bool> {
    match raw {
        Some(text) => json_member_flag(text, key),
        None => None,
    }
}

/// A text that may be missing.
pub open spec fn given_text(raw: Option<&str>) -> Option<Seq<char>> {
    match raw {
        Some(text) => Some(text@),
        None => None,
    }
}

/// The members of a JSON object that may be missing: none where the text is missing or no object.
pub open spec fn object_members(raw: Option<Seq<char>>) -> Map<Seq<char>, JsonModel> {
    match raw {
        Some(text) => match parsed_json(text) {
            Some(JsonModel::Object(members)) => members,
            _ => Map::empty(),
        },
        None => Map::empty(),
    }
}

/// A JSON object with a member put into it, as `serde_json` writes it.
pub uninterp spec fn json_with_member(
    object: Seq<char>,
    key: Seq<char>,
    value: JsonModel,
) -> Seq<char>;

/// `serde_json::Map::insert` on an object that is taken over from its text, and the text of its
/// result, which `serde_json::to_string` does not fail to write. The result is named by
/// `json_with_member`; it is claimed that reading it gives the object with the member put into it.
/// This is so of `serde_json` without its features `raw_value` and `arbitrary_precision`, which give
/// a meaning of their own to one key each.
#[verifier::external_body]
fn insert_member(object: &str, key: &str, member: &JsonMember) -> (r: String)
    requires
        parsed_json(object@) matches Some(value) && value is Object,
    ensures
        r@ == json_with_member(object@, key@, member@),
        parsed_json(r@) == Some(
            JsonModel::Object(object_members(Some(object@)).insert(key@, member@)),
        ),
{
    let value = match member {
        JsonMember::Text(text) => serde_json::Value::String(text.clone()),
        JsonMember::Flag(flag) => serde_json::Value::Bool(*flag),
    };
    let mut members = serde_json::from_str::<serde_json::Map<String, serde_json::Value>>(
        object,
    ).unwrap_or_default();
    members.insert(key.to_owned(), value);
    serde_json::to_string(&members).unwrap_or_default()
}

/// A JSON object with a single member, as `serde_json` writes it.
pub uninterp spec fn json_single(key: Seq<char>, value: JsonModel) -> Seq<char>;

/// `serde_json::to_string` of a map with a single member, which does not fail. The result is named
/// by `json_single`; it is claimed that reading it gives the object with this member alone. This is
/// so of `serde_json` without the two features named above.
#[verifier::external_body]
fn single_member(key: &str, member: &JsonMember) -> (r: String)
    ensures
        r@ == json_single(key@, member@),
        parsed_json(r@) == Some(
            JsonModel::Object(Map::<Seq<char>, JsonModel>::empty().insert(key@, member@)),
        ),
{
    let value = match member {
        JsonMember::Text(text) => serde_json::Value::String(text.clone()),
        JsonMember::Flag(flag) => serde_json::Value::Bool(*flag),
    };
    serde_json::to_string(&std::collections::BTreeMap::from([(key, value)])).unwrap_or_default()
}

/// The text of a JSON object with a member put into it. Where the text is missing or no object, the
/// member stands alone.
pub open spec fn object_with(
    raw: Option<Seq<char>>,
    key: Seq<char>,
    value: JsonModel,
) -> Seq<char> {
    match raw {
        Some(text) if parsed_json(text) matches Some(v) && v is Object => json_with_member(
            text,
            key,
            value,
        ),
        _ => json_single(key, value),
    }
}

/// Puts a member into a JSON object that comes as text.
pub fn json_object_with(raw: Option<&str>, key: &str, member: &JsonMember) -> (r: String)
    ensures
        r@ == object_with(given_text(raw), key@, member@),
        parsed_json(r@) == Some(
            JsonModel::Object(object_members(given_text(raw)).insert(key@, member@)),
        ),
{
    if let Some(text) = raw {
        if let Some(Json::Object(_)) = parse_json(text) {
            return insert_member(text, key, member);
        }
    }
    single_member(key, member)
}

/// Putting a member into a JSON object changes what is under its key, and under no other.
pub proof fn law_other_members_kept(
    raw: Option<Seq<char>>,
    key: Seq<char>,
    value: JsonModel,
    written: Seq<char>,
    other: Seq<char>,
)
    requires
        parsed_json(written) == Some(JsonModel::Object(object_members(raw).insert(key, value))),
    ensures
        member_of(parsed_json(written), key) == Some(value),
        other != key ==> member_of(parsed_json(written), other) == match raw {
            Some(text) => member_of(parsed_json(text), other),
            None => None,
        },
{
}

/// A list holds its items in order, and an object holds the last value of every key.
pub proof fn law_json_values(items: Seq<Json>, item: Json, entries: Seq<JsonEntry>, entry: JsonEntry)
    ensures
        item_models(items.push(item)) == item_models(items).push(json_model(item)),
        item_models(Seq::empty()).len() == 0,
        entry_models(entries.push(entry)) == entry_models(entries).insert(
            entry.key@,
            json_model(entry.value),
        ),
        entry_models(Seq::empty()).dom() == Set::<Seq<char>>::empty(),
{
    assert(items.push(item).drop_last() =~= items);
    assert(entries.push(entry).drop_last() =~= entries);
    assert(entry_models(Seq::empty()) == Map::<Seq<char>, JsonModel>::empty());
    assert(entry_models(Seq::empty()).dom() =~= Set::<Seq<char>>::empty());
}

/// A member, an item, a text, a number or a flag is read where it stands, and nothing is read where
/// something else stands.
pub proof fn law_json_reading(
    members: Map<Seq<char>, JsonModel>,
    key: Seq<char>,
    items: Seq<JsonModel>,
    place: int,
    value: JsonModel,
)
    ensures
        members.dom().contains(key) ==> member_of(Some(JsonModel::Object(members)), key) == Some(
            members[key],
        ),
        !members.dom().contains(key) ==> member_of(Some(JsonModel::Object(members)), key) is None,
        !(value is Object) ==> member_of(Some(value), key) is None,
        member_of(None, key) is None,
        0 <= place < items.len() ==> item_of(Some(JsonModel::List(items)), place) == Some(
            items[place],
        ),
        !(0 <= place < items.len()) ==> item_of(Some(JsonModel::List(items)), place) is None,
        !(value is List) ==> item_of(Some(value), place) is None,
        text_of(Some(value)) matches Some(s) ==> value == JsonModel::Text(s),
        !(value is Text) ==> text_of(Some(value)) is None,
        value matches JsonModel::Text(s) ==> text_of(Some(value)) == Some(s),
        value matches JsonModel::Number(n) ==> number_of(Some(value)) == n,
        !(value is Number) ==> number_of(Some(value)) is None,
        value matches JsonModel::Flag(b) ==> flag_of(Some(value)) == Some(b),
        !(value is Flag) ==> flag_of(Some(value)) is None,
{
}

} // verus!
