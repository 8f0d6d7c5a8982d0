use kvdynamodb_lib::adapter::{
    KeysRequest, SetRequest, StoreAdapter, StoreAdapterConfig, StoreError,
};
use kvdynamodb_lib::{Attr, AttrVal};

fn config(ttl: Option<&str>) -> StoreAdapterConfig {
    StoreAdapterConfig {
        table_name: "orders".to_string(),
        key_attribute: "K".to_string(),
        value_attribute: "V".to_string(),
        ttl_attribute: ttl.map(|s| s.to_string()),
        endpoint: None,
    }
}

fn adapter(ttl: Option<&str>) -> StoreAdapter {
    StoreAdapter::new(config(ttl))
}

fn item_with(attrs: Vec<(&str, AttrVal)>) -> Vec<Attr> {
    attrs
        .into_iter()
        .map(|(n, v)| Attr {
            name: n.to_string(),
            value: v,
        })
        .collect()
}

#[test]
fn get_missing_key_is_absent() {
    let ad = adapter(None);
    let key = "never-written".to_string();
    let r = ad.decode_get(None, &key).unwrap();
    assert_eq!(r.exists, false);
    assert_eq!(r.value, "");
}

#[test]
fn set_then_get_round_trip() {
    let ad = adapter(None);
    let req = SetRequest {
        key: "k1".to_string(),
        value: "hello world".to_string(),
        expires: 0,
    };
    let call = ad.put_call_at(&req, 1_700_000_000).unwrap();
    assert_eq!(call.table_name, "orders");
    // The store replaces the item under "k1" whole; a following get fetches it.
    let got = ad.decode_get(Some(call.item), &req.key).unwrap();
    assert_eq!(got.exists, true);
    assert_eq!(got.value, "hello world");
}

#[test]
fn set_empty_value_round_trips() {
    let ad = adapter(None);
    let req = SetRequest {
        key: "k1".to_string(),
        value: String::new(),
        expires: 0,
    };
    let call = ad.put_call_at(&req, 0).unwrap();
    let got = ad.decode_get(Some(call.item), &req.key).unwrap();
    assert_eq!(got.exists, true);
    assert_eq!(got.value, "");
}

#[test]
fn set_unicode_round_trips() {
    let ad = adapter(None);
    let req = SetRequest {
        key: "clé".to_string(),
        value: "värde ☃".to_string(),
        expires: 0,
    };
    let call = ad.put_call_at(&req, 7).unwrap();
    let got = ad.decode_get(Some(call.item), &req.key).unwrap();
    assert_eq!(got.exists, true);
    assert_eq!(got.value, "värde ☃");
}

#[test]
fn set_with_expiry_writes_absolute_instant() {
    let ad = adapter(Some("TTL"));
    let req = SetRequest {
        key: "k1".to_string(),
        value: "v1".to_string(),
        expires: 3,
    };
    let call = ad.put_call_at(&req, 1_000).unwrap();
    let ttl = call
        .item
        .iter()
        .find(|a| a.name == "TTL")
        .expect("expiry attribute written");
    match &ttl.value {
        AttrVal::Num(n) => assert_eq!(*n, 1_003),
        _ => panic!("expiry attribute must be numeric"),
    }
    // An immediate get still sees the value: the sweep is the store's.
    let got = ad.decode_get(Some(call.item), &req.key).unwrap();
    assert_eq!(got.exists, true);
    assert_eq!(got.value, "v1");
}

#[test]
fn set_without_expiry_clears_prior_expiry() {
    let ad = adapter(Some("TTL"));
    let req = SetRequest {
        key: "k1".to_string(),
        value: "v1".to_string(),
        expires: 0,
    };
    let call = ad.put_call_at(&req, 1_000).unwrap();
    assert!(call.item.iter().all(|a| a.name != "TTL"));
    assert_eq!(call.item.len(), 2);
}

#[test]
fn set_expiry_saturates_at_largest_instant() {
    let ad = adapter(Some("TTL"));
    let req = SetRequest {
        key: "k1".to_string(),
        value: "v1".to_string(),
        expires: 5,
    };
    let call = ad.put_call_at(&req, i64::MAX - 2).unwrap();
    let ttl = call.item.iter().find(|a| a.name == "TTL").unwrap();
    match &ttl.value {
        AttrVal::Num(n) => assert_eq!(*n, i64::MAX),
        _ => panic!("expiry attribute must be numeric"),
    }
}

#[test]
fn set_expiry_unconfigured_is_refused() {
    let ad = adapter(None);
    let req = SetRequest {
        key: "k1".to_string(),
        value: "v1".to_string(),
        expires: 9,
    };
    let e = ad.put_call_at(&req, 1_000).unwrap_err();
    assert!(matches!(e, StoreError::UnsupportedOperation(_)));
    assert_eq!(
        e.message(),
        "set of key k1 requests expiry but no expiry attribute is configured"
    );
    // No write call was built, so the store never sees a round trip and the
    // prior value of k1 is untouched.
}

#[test]
fn set_with_clock_builds_key_and_value() {
    let ad = adapter(None);
    let req = SetRequest {
        key: "k1".to_string(),
        value: "v1".to_string(),
        expires: 0,
    };
    let call = ad.put_call(&req).unwrap();
    let got = ad.decode_get(Some(call.item), &req.key).unwrap();
    assert_eq!(got.exists, true);
    assert_eq!(got.value, "v1");
}

#[test]
fn set_with_clock_refuses_unconfigured_expiry() {
    let ad = adapter(None);
    let req = SetRequest {
        key: "k1".to_string(),
        value: "v1".to_string(),
        expires: 1,
    };
    let e = ad.put_call(&req).unwrap_err();
    assert!(matches!(e, StoreError::UnsupportedOperation(_)));
}

#[test]
fn get_missing_value_attribute_is_schema_mismatch() {
    let ad = adapter(None);
    let key = "k1".to_string();
    let item = item_with(vec![("K", AttrVal::Text("k1".to_string()))]);
    let e = ad.decode_get(Some(item), &key).unwrap_err();
    assert!(matches!(e, StoreError::SchemaMismatch(_)));
    assert_eq!(e.message(), "record for key k1 has no value attribute V");
}

#[test]
fn get_non_string_value_attribute_is_schema_mismatch() {
    let ad = adapter(None);
    let key = "k1".to_string();
    let item = item_with(vec![
        ("K", AttrVal::Text("k1".to_string())),
        ("V", AttrVal::Num(7)),
    ]);
    let e = ad.decode_get(Some(item), &key).unwrap_err();
    assert!(matches!(e, StoreError::SchemaMismatch(_)));
    assert_eq!(
        e.message(),
        "record for key k1 has a non-string value attribute V"
    );
}

#[test]
fn delete_reports_true_and_key_reads_absent() {
    let ad = adapter(None);
    let key = "k1".to_string();
    let c1 = ad.delete_call(&key);
    assert_eq!(c1.table_name, "orders");
    assert_eq!(c1.key_attribute, "K");
    assert_eq!(c1.key, "k1");
    // Two deletes in a row both report success: the answer never depends on
    // prior existence.
    assert_eq!(ad.decode_delete(), true);
    assert_eq!(ad.decode_delete(), true);
    // After either delete the store holds no item under the key.
    let got = ad.decode_get(None, &key).unwrap();
    assert_eq!(got.exists, false);
    assert_eq!(got.value, "");
}

#[test]
fn get_call_names_table_and_key() {
    let ad = adapter(None);
    let key = "k9".to_string();
    let c = ad.get_call(&key);
    assert_eq!(c.table_name, "orders");
    assert_eq!(c.key_attribute, "K");
    assert_eq!(c.key, "k9");
}

#[test]
fn scan_call_without_cursor_starts_at_table_start() {
    let ad = adapter(None);
    let req = KeysRequest {
        cursor: None,
        limit: None,
    };
    let c = ad.scan_call(&req);
    assert_eq!(c.table_name, "orders");
    assert_eq!(c.key_attribute, "K");
    assert!(c.start_key.is_none());
    assert!(c.limit.is_none());
}

#[test]
fn scan_call_with_cursor_resumes_after_it() {
    let ad = adapter(None);
    let req = KeysRequest {
        cursor: Some("key-41".to_string()),
        limit: Some(25),
    };
    let c = ad.scan_call(&req);
    let start = c.start_key.expect("cursor becomes the start key");
    assert_eq!(start.len(), 1);
    assert_eq!(start[0].name, "K");
    match &start[0].value {
        AttrVal::Text(s) => assert_eq!(s, "key-41"),
        _ => panic!("start key must be a string"),
    }
    assert_eq!(c.limit, Some(25));
}

#[test]
fn scan_of_empty_table_is_empty_without_cursor() {
    let ad = adapter(None);
    let r = ad.decode_scan(None, None).unwrap();
    assert!(r.keys.is_empty());
    assert!(r.cursor.is_none());
    let r2 = ad.decode_scan(Some(Vec::new()), None).unwrap();
    assert!(r2.keys.is_empty());
    assert!(r2.cursor.is_none());
}

#[test]
fn scan_decodes_keys_in_store_order() {
    let ad = adapter(None);
    let items = vec![
        item_with(vec![("K", AttrVal::Text("b".to_string()))]),
        item_with(vec![("K", AttrVal::Text("a".to_string()))]),
        item_with(vec![("K", AttrVal::Text("c".to_string()))]),
    ];
    let r = ad.decode_scan(Some(items), None).unwrap();
    assert_eq!(r.keys, vec!["b", "a", "c"]);
    assert!(r.cursor.is_none());
}

#[test]
fn scan_missing_key_attribute_aborts_whole_page() {
    let ad = adapter(None);
    let items = vec![
        item_with(vec![("K", AttrVal::Text("a".to_string()))]),
        item_with(vec![("V", AttrVal::Text("stray".to_string()))]),
        item_with(vec![("K", AttrVal::Text("c".to_string()))]),
    ];
    let e = ad.decode_scan(Some(items), None).unwrap_err();
    assert!(matches!(e, StoreError::SchemaMismatch(_)));
    assert_eq!(e.message(), "record has no key attribute K");
}

#[test]
fn scan_non_string_key_attribute_aborts_whole_page() {
    let ad = adapter(None);
    let items = vec![item_with(vec![("K", AttrVal::Num(3))])];
    let e = ad.decode_scan(Some(items), None).unwrap_err();
    assert!(matches!(e, StoreError::SchemaMismatch(_)));
    assert_eq!(e.message(), "record key attribute K is not a string");
}

#[test]
fn scan_non_string_continuation_key_is_schema_mismatch() {
    let ad = adapter(None);
    let items = vec![item_with(vec![("K", AttrVal::Text("a".to_string()))])];
    let last = item_with(vec![("K", AttrVal::Num(12))]);
    let e = ad.decode_scan(Some(items), Some(last)).unwrap_err();
    assert!(matches!(e, StoreError::SchemaMismatch(_)));
    assert_eq!(e.message(), "continuation key attribute K is not a string");
}

#[test]
fn pagination_two_pages_disjoint_union() {
    let ad = adapter(None);
    let all_keys: Vec<String> = (0..150).map(|i| format!("key-{:03}", i)).collect();

    // The store's first page: the default page bound yields 100 items plus a
    // continuation key.
    let page1_items: Vec<Vec<Attr>> = all_keys[..100]
        .iter()
        .map(|k| item_with(vec![("K", AttrVal::Text(k.clone()))]))
        .collect();
    let last = item_with(vec![("K", AttrVal::Text(all_keys[99].clone()))]);
    let r1 = ad.decode_scan(Some(page1_items), Some(last)).unwrap();
    assert_eq!(r1.keys.len(), 100);
    let cursor = r1.cursor.clone().expect("more keys remain");
    assert_eq!(cursor, all_keys[99]);

    // The cursor goes back unmodified as the next start key.
    let req2 = KeysRequest {
        cursor: Some(cursor),
        limit: None,
    };
    let c2 = ad.scan_call(&req2);
    assert!(c2.start_key.is_some());

    // The store's second page: the remaining 50 items, no continuation key.
    let page2_items: Vec<Vec<Attr>> = all_keys[100..]
        .iter()
        .map(|k| item_with(vec![("K", AttrVal::Text(k.clone()))]))
        .collect();
    let r2 = ad.decode_scan(Some(page2_items), None).unwrap();
    assert_eq!(r2.keys.len(), 50);
    assert!(r2.cursor.is_none());

    // The two pages are disjoint and their union is exactly the 150 keys.
    let mut seen: std::collections::HashSet<String> = std::collections::HashSet::new();
    for k in r1.keys.iter().chain(r2.keys.iter()) {
        assert!(seen.insert(k.clone()), "pages overlap on {}", k);
    }
    let expected: std::collections::HashSet<String> = all_keys.into_iter().collect();
    assert_eq!(seen, expected);
}

#[test]
fn store_unavailable_carries_transport_message() {
    let e = StoreError::StoreUnavailable("connection refused".to_string());
    assert_eq!(e.message(), "connection refused");
}

#[test]
fn set_with_pre_epoch_clock_still_builds() {
    let ad = adapter(Some("TTL"));
    let req = SetRequest {
        key: "k1".to_string(),
        value: "v1".to_string(),
        expires: 50,
    };
    let call = ad.put_call_at(&req, -100).unwrap();
    let ttl = call.item.iter().find(|a| a.name == "TTL").unwrap();
    match &ttl.value {
        AttrVal::Num(n) => assert_eq!(*n, -50),
        _ => panic!("expiry attribute must be numeric"),
    }
}
