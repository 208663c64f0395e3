//! Token metadata: a plain JSON document model and its normalization into
//! the indexer's fixed schema.
use vstd::prelude::*;
use crate::uri::str_eq;

verus! {

/// A JSON document. Numbers keep their text; object members keep their order.
#[derive(Debug)]
pub enum JsonValue {
    Null,
    Bool(bool),
    Number(String),
    Text(String),
    Array(Vec<JsonValue>),
    Object(Vec<(String, JsonValue)>),
}

/// The first member named `key` among `members`.
pub open spec fn find_member(members: Seq<(String, JsonValue)>, key: Seq<char>) -> Option<JsonValue>
    decreases members.len(),
{
    if members.len() == 0 {
        None
    } else if members[0].0@ == key {
        Some(members[0].1)
    } else {
        find_member(members.drop_first(), key)
    }
}

/// The member `key` of an object; nothing for other values.
pub open spec fn json_get(v: JsonValue, key: Seq<char>) -> Option<JsonValue> {
    match v {
        JsonValue::Object(members) => find_member(members@, key),
        _ => None,
    }
}

/// The string member `key`, or the empty string when it is absent or not a string.
pub open spec fn str_member(v: JsonValue, key: Seq<char>) -> Seq<char> {
    match json_get(v, key) {
        Some(JsonValue::Text(s)) => s@,
        _ => Seq::empty(),
    }
}

/// One attribute of normalized metadata, as plain values.
pub struct AttributeView {
    pub trait_type: Seq<char>,
    pub value: Seq<char>,
    pub display_type: Seq<char>,
}

/// Normalized metadata as plain values.
pub struct MetadataView {
    pub description: Seq<char>,
    pub external_url: Seq<char>,
    pub image: Seq<char>,
    pub name: Seq<char>,
    pub attributes: Seq<AttributeView>,
}

pub open spec fn attribute_of(item: JsonValue) -> AttributeView {
    AttributeView {
        trait_type: str_member(item, "trait_type"@),
        value: str_member(item, "value"@),
        display_type: str_member(item, "display_type"@),
    }
}

/// The elements of the array member `attributes`, or none.
pub open spec fn attribute_items(raw: JsonValue) -> Seq<JsonValue> {
    match json_get(raw, "attributes"@) {
        Some(JsonValue::Array(items)) => items@,
        _ => Seq::empty(),
    }
}

/// Normalization of `raw`, fetched from a URI first given as `original_uri`.
pub open spec fn normalize_spec(raw: JsonValue, original_uri: Seq<char>) -> MetadataView {
    MetadataView {
        description: str_member(raw, "description"@),
        external_url: original_uri,
        image: str_member(raw, "image"@),
        name: str_member(raw, "name"@),
        attributes: attribute_items(raw).map_values(|item: JsonValue| attribute_of(item)),
    }
}

#[derive(Clone, Debug)]
pub struct MetadataAttribute {
    pub trait_type: String,
    pub value: String,
    pub display_type: String,
}

impl View for MetadataAttribute {
    type V = AttributeView;

    open spec fn view(&self) -> AttributeView {
        AttributeView {
            trait_type: self.trait_type@,
            value: self.value@,
            display_type: self.display_type@,
        }
    }
}

/// Token metadata in the indexer's schema.
#[derive(Clone, Debug)]
pub struct NormalizedMetadata {
    pub description: String,
    pub external_url: String,
    pub image: String,
    pub name: String,
    pub attributes: Vec<MetadataAttribute>,
}

impl View for NormalizedMetadata {
    type V = MetadataView;

    open spec fn view(&self) -> MetadataView {
        MetadataView {
            description: self.description@,
            external_url: self.external_url@,
            image: self.image@,
            name: self.name@,
            attributes: self.attributes@.map_values(|a: MetadataAttribute| a@),
        }
    }
}

/// Looks up the member `key` of an object.
pub fn get_member<'a>(v: &'a JsonValue, key: &str) -> (r: Option<&'a JsonValue>)
    ensures
        r matches Some(x) ==> json_get(*v, key@) == Some(*x),
        r is None ==> json_get(*v, key@) is None,
{
    match v {
        JsonValue::Object(members) => {
            let n = members.len();
            assert(json_get(*v, key@) == find_member(members@, key@));
            let mut i: usize = 0;
            assert(members@.subrange(0, n as int) =~= members@);
            while i < n
                invariant
                    i <= n,
                    n == members@.len(),
                    json_get(*v, key@) == find_member(members@.subrange(i as int, n as int), key@),
                decreases n - i,
            {
                assert(members@.subrange(i as int, n as int).drop_first() =~= members@.subrange(
                    i + 1,
                    n as int,
                ));
                if str_eq(members[i].0.as_str(), key) {
                    assert(members@.subrange(i as int, n as int)[0] == members@[i as int]);
                    assert(find_member(members@.subrange(i as int, n as int), key@) == Some(
                        members@[i as int].1,
                    ));
                    return Some(&members[i].1);
                }
                i = i + 1;
            }
            None
        },
        _ => None,
    }
}

/// The string member `key`, or an empty string.
pub fn string_member(v: &JsonValue, key: &str) -> (r: String)
    ensures
        r@ == str_member(*v, key@),
{
    match get_member(v, key) {
        Some(JsonValue::Text(s)) => s.clone(),
        _ => String::new(),
    }
}

/// Maps a fetched metadata document into the indexer's schema. Absent or
/// non-string fields become empty strings, a missing or non-array
/// `attributes` gives no attributes, and `external_url` is always the URI the
/// metadata was first requested under, whatever the document holds.
pub fn normalize_metadata(raw: &JsonValue, original_uri: &str) -> (r: NormalizedMetadata)
    ensures
        r@ == normalize_spec(*raw, original_uri@),
{
    let mut attributes: Vec<MetadataAttribute> = Vec::new();
    let ghost items = attribute_items(*raw);
    match get_member(raw, "attributes") {
        Some(JsonValue::Array(list)) => {
            let n = list.len();
            let mut i: usize = 0;
            while i < n
                invariant
                    i <= n,
                    n == list@.len(),
                    list@ == items,
                    attributes@.map_values(|a: MetadataAttribute| a@) =~= items.subrange(
                        0,
                        i as int,
                    ).map_values(|item: JsonValue| attribute_of(item)),
                decreases n - i,
            {
                let item = &list[i];
                let attribute = MetadataAttribute {
                    trait_type: string_member(item, "trait_type"),
                    value: string_member(item, "value"),
                    display_type: string_member(item, "display_type"),
                };
                assert(attribute@ == attribute_of(items[i as int]));
                let ghost before = attributes@;
                attributes.push(attribute);
                assert(items.subrange(0, i + 1) =~= items.subrange(0, i as int).push(items[i as int]));
                assert(attributes@ =~= before.push(attribute));
                assert(items.subrange(0, i + 1).map_values(|item: JsonValue| attribute_of(item))
                    =~= items.subrange(0, i as int).map_values(|item: JsonValue| attribute_of(item)).push(
                    attribute_of(items[i as int])));
                assert(attributes@.map_values(|a: MetadataAttribute| a@) =~= before.map_values(
                    |a: MetadataAttribute| a@).push(attribute@));
                i = i + 1;
            }
            assert(items.subrange(0, n as int) =~= items);
        },
        _ => {},
    }
    let r = NormalizedMetadata {
        description: string_member(raw, "description"),
        external_url: String::from_str(original_uri),
        image: string_member(raw, "image"),
        name: string_member(raw, "name"),
        attributes,
    };
    assert(r@.attributes =~= normalize_spec(*raw, original_uri@).attributes);
    r
}

/// Normalization never fails and fills in defaults: every field missing
/// from the document comes out empty, and `external_url` is the original
/// URI even when the document has an `external_url` of its own.
pub proof fn lemma_normalize_defaults(raw: JsonValue, original_uri: Seq<char>)
    ensures
        normalize_spec(raw, original_uri).external_url == original_uri,
        json_get(raw, "description"@) is None ==> normalize_spec(raw, original_uri).description
            == Seq::<char>::empty(),
        json_get(raw, "image"@) is None ==> normalize_spec(raw, original_uri).image
            == Seq::<char>::empty(),
        json_get(raw, "name"@) is None ==> normalize_spec(raw, original_uri).name
            == Seq::<char>::empty(),
        json_get(raw, "attributes"@) is None ==> normalize_spec(raw, original_uri).attributes
            == Seq::<AttributeView>::empty(),
{
    if json_get(raw, "attributes"@) is None {
        assert(normalize_spec(raw, original_uri).attributes =~= Seq::<AttributeView>::empty());
    }
}

/// A value in the key-value store's item format: a string, a list or a map
/// (members in order, names unique).
#[derive(Debug)]
pub enum StoreValue {
    S(String),
    L(Vec<StoreValue>),
    M(Vec<(String, StoreValue)>),
}

/// Whether `v` is the store string holding `s`.
pub open spec fn is_store_string(v: StoreValue, s: Seq<char>) -> bool {
    v matches StoreValue::S(t) && t@ == s
}

/// Whether `member` is named `name` and holds the string `s`.
pub open spec fn is_string_member(member: (String, StoreValue), name: Seq<char>, s: Seq<char>) -> bool {
    member.0@ == name && is_store_string(member.1, s)
}

/// Whether `v` is the stored form of an attribute.
pub open spec fn stores_attribute(v: StoreValue, a: AttributeView) -> bool {
    v matches StoreValue::M(members) && members@.len() == 3
        && is_string_member(members@[0], "trait_type"@, a.trait_type)
        && is_string_member(members@[1], "value"@, a.value)
        && is_string_member(members@[2], "display_type"@, a.display_type)
}

/// Whether `item` is the stored form of normalized metadata.
pub open spec fn stores_metadata(item: Seq<(String, StoreValue)>, m: MetadataView) -> bool {
    &&& item.len() == 5
    &&& is_string_member(item[0], "description"@, m.description)
    &&& is_string_member(item[1], "external_url"@, m.external_url)
    &&& is_string_member(item[2], "image"@, m.image)
    &&& is_string_member(item[3], "name"@, m.name)
    &&& item[4].0@ == "attributes"@
    &&& item[4].1 matches StoreValue::L(list) && list@.len() == m.attributes.len() && forall|i: int|
        0 <= i < list@.len() ==> stores_attribute(#[trigger] list@[i], m.attributes[i])
}

fn string_member_of(name: &str, value: &String) -> (r: (String, StoreValue))
    ensures
        is_string_member(r, name@, value@),
{
    (String::from_str(name), StoreValue::S(value.clone()))
}

impl NormalizedMetadata {
    /// The metadata in the store's item format: its four string fields, then
    /// `attributes` as a list of maps.
    pub fn to_store_item(&self) -> (r: Vec<(String, StoreValue)>)
        ensures
            stores_metadata(r@, self@),
    {
        proof {
            reveal_strlit("description");
            reveal_strlit("external_url");
            reveal_strlit("image");
            reveal_strlit("name");
            reveal_strlit("attributes");
            reveal_strlit("trait_type");
            reveal_strlit("value");
            reveal_strlit("display_type");
        }
        let mut list: Vec<StoreValue> = Vec::new();
        let n = self.attributes.len();
        let mut i: usize = 0;
        while i < n
            invariant
                i <= n,
                n == self.attributes@.len(),
                list@.len() == i,
                forall|j: int| 0 <= j < i ==> stores_attribute(#[trigger] list@[j], self@.attributes[j]),
            decreases n - i,
        {
            let a = &self.attributes[i];
            let mut members: Vec<(String, StoreValue)> = Vec::new();
            members.push(string_member_of("trait_type", &a.trait_type));
            members.push(string_member_of("value", &a.value));
            members.push(string_member_of("display_type", &a.display_type));
            assert(self@.attributes[i as int] == a@);
            list.push(StoreValue::M(members));
            i = i + 1;
        }
        let mut item: Vec<(String, StoreValue)> = Vec::new();
        item.push(string_member_of("description", &self.description));
        item.push(string_member_of("external_url", &self.external_url));
        item.push(string_member_of("image", &self.image));
        item.push(string_member_of("name", &self.name));
        item.push((String::from_str("attributes"), StoreValue::L(list)));
        item
    }
}

} // verus!
