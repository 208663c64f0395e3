use ark_indexer::collection::{reconcile_latest_mint, replaces_latest_mint, LatestMintUpdate};
use ark_indexer::decimal::parse_u64;
use ark_indexer::files::{AWSFileManager, FileInfo, LocalFileManager};
use ark_indexer::metadata::{normalize_metadata, JsonValue, StoreValue};
use ark_indexer::transfer::{metadata_fetch_uri, owner_from_reply, remove_quotes};
use ark_indexer::uri::{is_usable_uri, next_uri_step, UriStep};

fn text(s: &str) -> JsonValue {
    JsonValue::Text(s.to_string())
}

fn object(members: Vec<(&str, JsonValue)>) -> JsonValue {
    JsonValue::Object(members.into_iter().map(|(k, v)| (k.to_string(), v)).collect())
}

#[test]
fn uri_probe_starts_with_legacy_method() {
    assert_eq!(next_uri_step(&vec![]), UriStep::Query("tokenURI".to_string()));
}

#[test]
fn uri_probe_stops_at_usable_legacy_reply() {
    let r = next_uri_step(&vec!["ipfs://a".to_string()]);
    assert_eq!(r, UriStep::Resolved("ipfs://a".to_string()));
}

#[test]
fn uri_probe_falls_through_on_empty_or_marker() {
    let r = next_uri_step(&vec!["".to_string()]);
    assert_eq!(r, UriStep::Query("token_uri".to_string()));
    let r = next_uri_step(&vec!["undefined".to_string()]);
    assert_eq!(r, UriStep::Query("token_uri".to_string()));
    let r = next_uri_step(&vec!["undefined".to_string(), "ipfs://b".to_string()]);
    assert_eq!(r, UriStep::Resolved("ipfs://b".to_string()));
}

#[test]
fn uri_probe_ends_unresolved() {
    let r = next_uri_step(&vec!["undefined".to_string(), "undefined".to_string()]);
    assert_eq!(r, UriStep::Resolved("undefined".to_string()));
    let r = next_uri_step(&vec!["".to_string(), "".to_string()]);
    assert_eq!(r, UriStep::Resolved("undefined".to_string()));
    assert!(!is_usable_uri("undefined"));
    assert!(!is_usable_uri(""));
    assert!(is_usable_uri("undefine"));
}

#[test]
fn owner_reply_loses_quotes_and_defaults_to_empty() {
    let words = vec!["\"0xabc\"".to_string(), "\"0x1\"".to_string()];
    assert_eq!(owner_from_reply(Some(&words)), "0xabc");
    assert_eq!(owner_from_reply(Some(&vec![])), "");
    assert_eq!(owner_from_reply(None), "");
    assert_eq!(remove_quotes("a\"b\"\"c"), "abc");
}

#[test]
fn normalizing_empty_object_gives_defaults() {
    let m = normalize_metadata(&object(vec![]), "ipfs://x");
    assert_eq!(m.description, "");
    assert_eq!(m.image, "");
    assert_eq!(m.name, "");
    assert_eq!(m.external_url, "ipfs://x");
    assert!(m.attributes.is_empty());
    let m = normalize_metadata(&JsonValue::Null, "u");
    assert_eq!(m.name, "");
    assert!(m.attributes.is_empty());
}

#[test]
fn normalizing_ignores_documents_external_url() {
    let doc = object(vec![
        ("external_url", text("https://elsewhere")),
        ("name", text("Foo")),
        ("description", JsonValue::Number("7".to_string())),
    ]);
    let m = normalize_metadata(&doc, "ipfs://orig");
    assert_eq!(m.external_url, "ipfs://orig");
    assert_eq!(m.name, "Foo");
    assert_eq!(m.description, "");
}

#[test]
fn normalizing_maps_attributes_one_by_one() {
    let doc = object(vec![(
        "attributes",
        JsonValue::Array(vec![
            object(vec![("trait_type", text("Color")), ("value", text("Red"))]),
            object(vec![("value", JsonValue::Bool(true)), ("display_type", text("n"))]),
            text("odd"),
        ]),
    )]);
    let m = normalize_metadata(&doc, "");
    assert_eq!(m.attributes.len(), 3);
    assert_eq!(m.attributes[0].trait_type, "Color");
    assert_eq!(m.attributes[0].value, "Red");
    assert_eq!(m.attributes[0].display_type, "");
    assert_eq!(m.attributes[1].value, "");
    assert_eq!(m.attributes[1].display_type, "n");
    assert_eq!(m.attributes[2].trait_type, "");
    let not_array = object(vec![("attributes", text("none"))]);
    assert!(normalize_metadata(&not_array, "").attributes.is_empty());
}

#[test]
fn parse_u64_follows_std() {
    let cases = ["0", "42", "+7", "", "+", "-1", "abc", "12a", "18446744073709551615",
        "18446744073709551616", "99999999999999999999", "007"];
    for c in cases {
        assert_eq!(parse_u64(c), c.parse::<u64>().ok(), "case {}", c);
    }
}

#[test]
fn latest_mint_is_set_when_absent() {
    assert_eq!(reconcile_latest_mint(None, 1000), LatestMintUpdate::Write(1000));
}

#[test]
fn malformed_latest_mint_is_left_alone() {
    let stored = "abc".to_string();
    assert_eq!(reconcile_latest_mint(Some(&stored), 1000), LatestMintUpdate::Skip);
}

#[test]
fn latest_mint_written_back_only_when_stored_is_greater() {
    let stored = "2000".to_string();
    assert_eq!(reconcile_latest_mint(Some(&stored), 1000), LatestMintUpdate::Write(2000));
    assert_eq!(reconcile_latest_mint(Some(&stored), 3000), LatestMintUpdate::Skip);
    assert_eq!(reconcile_latest_mint(Some(&stored), 2000), LatestMintUpdate::Skip);
    assert!(replaces_latest_mint(5, 4));
    assert!(!replaces_latest_mint(4, 4));
}

fn apply(stored: Option<String>, update: LatestMintUpdate) -> Option<String> {
    match update {
        LatestMintUpdate::Write(v) => Some(v.to_string()),
        LatestMintUpdate::Skip => stored,
    }
}

#[test]
fn reconciling_twice_equals_once() {
    for stored in [None, Some("abc".to_string()), Some("2000".to_string()), Some("+500".to_string())] {
        let once = apply(stored.clone(), reconcile_latest_mint(stored.as_ref(), 1000));
        let twice = apply(once.clone(), reconcile_latest_mint(once.as_ref(), 1000));
        assert_eq!(once, twice);
    }
}

#[test]
fn metadata_is_fetched_only_for_resolved_uris() {
    assert_eq!(metadata_fetch_uri("ipfs://a", "https://g/a"), Some("https://g/a".to_string()));
    assert_eq!(metadata_fetch_uri("undefined", "https://g/a"), None);
    assert_eq!(metadata_fetch_uri("ipfs://a", ""), None);
}

#[test]
fn file_locations() {
    let f = FileInfo::new("a.png".to_string(), vec![1, 2], Some("col".to_string()));
    assert_eq!(f.object_key(), "col/a.png");
    assert_eq!(f.local_dir(), "col");
    let g = FileInfo::new("b.png".to_string(), vec![], None);
    assert_eq!(g.object_key(), "b.png");
    assert_eq!(g.local_dir(), "./tmp");
    let m = AWSFileManager::new("bucket".to_string());
    assert_eq!(m.bucket_name(), "bucket");
    let _local = LocalFileManager::default();
}

fn string_of(v: &StoreValue) -> &str {
    match v {
        StoreValue::S(s) => s.as_str(),
        other => panic!("not a string: {:?}", other),
    }
}

#[test]
fn metadata_store_item_layout() {
    let doc = object(vec![
        ("name", text("Foo")),
        ("description", text("D")),
        ("image", text("ipfs://img")),
        (
            "attributes",
            JsonValue::Array(vec![object(vec![
                ("trait_type", text("Color")),
                ("value", text("Red")),
                ("display_type", text("str")),
            ])]),
        ),
    ]);
    let item = normalize_metadata(&doc, "ipfs://orig").to_store_item();
    let names: Vec<&str> = item.iter().map(|(k, _)| k.as_str()).collect();
    assert_eq!(names, vec!["description", "external_url", "image", "name", "attributes"]);
    assert_eq!(string_of(&item[0].1), "D");
    assert_eq!(string_of(&item[1].1), "ipfs://orig");
    assert_eq!(string_of(&item[2].1), "ipfs://img");
    assert_eq!(string_of(&item[3].1), "Foo");
    match &item[4].1 {
        StoreValue::L(list) => {
            assert_eq!(list.len(), 1);
            match &list[0] {
                StoreValue::M(members) => {
                    assert_eq!(members[0].0, "trait_type");
                    assert_eq!(string_of(&members[0].1), "Color");
                    assert_eq!(members[1].0, "value");
                    assert_eq!(string_of(&members[1].1), "Red");
                    assert_eq!(members[2].0, "display_type");
                    assert_eq!(string_of(&members[2].1), "str");
                }
                other => panic!("not a map: {:?}", other),
            }
        }
        other => panic!("not a list: {:?}", other),
    }
}
