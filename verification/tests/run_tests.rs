use find_filter::filter::fresh_result_key;
use find_filter::filter::plan_run;
use find_filter::filter::run;
use find_filter::host::Host;
use find_filter::record::Key;
use find_filter::record::Record;
use find_filter::record::SEARCH_KEY_DOMAIN;
use find_filter::store::MemStore;

fn store_with_query(query: &str) -> MemStore {
    let mut store = MemStore::new();
    store.add_entry(
        Key { domain: SEARCH_KEY_DOMAIN, b: 0, c: 1 },
        query.to_string(),
    );
    store
}

fn candidate(domain: u64, b: i64, c: i64, value: &str) -> Record {
    Record {
        key: Key { domain, b, c },
        value: value.to_string(),
        tags: Vec::new(),
    }
}

#[test]
fn matching_record_emits_result_and_done() {
    let mut store = store_with_query("alpha");
    let rec = candidate(7, 1, 2, "xalphay");
    run(Some(&rec), &mut store);

    assert_eq!(store.created_records.len(), 1);
    let created = &store.created_records[0];
    assert_eq!(created.value, "7:1:2");
    assert_eq!(created.key.domain, SEARCH_KEY_DOMAIN);
    assert!(created.tags.is_empty());
    assert_eq!(store.added_tags, vec!["find:done".to_string()]);
}

#[test]
fn non_matching_record_gains_done_and_emits_nothing() {
    let mut store = store_with_query("alpha");
    let rec = candidate(7, 1, 2, "beta");
    run(Some(&rec), &mut store);

    assert!(store.created_records.is_empty());
    assert_eq!(store.added_tags, vec!["find:done".to_string()]);
}

#[test]
fn missing_query_gains_fail_and_emits_nothing() {
    let mut store = MemStore::new();
    let rec = candidate(7, 1, 2, "xalphay");
    run(Some(&rec), &mut store);

    assert!(store.created_records.is_empty());
    assert_eq!(store.added_tags, vec!["find:fail".to_string()]);
}

#[test]
fn absent_record_is_a_no_op() {
    let mut store = store_with_query("alpha");
    run(None, &mut store);

    assert!(store.created_records.is_empty());
    assert!(store.added_tags.is_empty());
}

#[test]
fn query_equal_to_value_matches() {
    let mut store = store_with_query("alpha");
    let rec = candidate(4, -3, 9, "alpha");
    run(Some(&rec), &mut store);

    assert_eq!(store.created_records.len(), 1);
    assert_eq!(store.created_records[0].value, "4:-3:9");
    assert_eq!(store.added_tags, vec!["find:done".to_string()]);
}

#[test]
fn empty_query_matches_any_value() {
    let mut store = store_with_query("");
    let rec = candidate(1, 0, 0, "anything");
    run(Some(&rec), &mut store);

    assert_eq!(store.created_records.len(), 1);
    assert_eq!(store.created_records[0].value, "1:0:0");
    assert_eq!(store.added_tags, vec!["find:done".to_string()]);
}

#[test]
fn result_value_renders_extreme_key_fields() {
    let mut store = store_with_query("needle");
    let rec = candidate(u64::MAX, i64::MIN, i64::MAX, "hay needle stack");
    run(Some(&rec), &mut store);

    assert_eq!(store.created_records.len(), 1);
    assert_eq!(
        store.created_records[0].value,
        "18446744073709551615:-9223372036854775808:9223372036854775807"
    );
}

#[test]
fn fresh_result_key_lives_in_search_domain() {
    for _ in 0..16 {
        let k = fresh_result_key();
        assert_eq!(k.domain, SEARCH_KEY_DOMAIN);
    }
}

#[test]
fn plan_without_query_asks_for_fail_only() {
    let rec = candidate(7, 1, 2, "xalphay");
    let effects = plan_run(&rec, None);
    assert_eq!(effects.tag, "find:fail");
    assert!(effects.create.is_none());
}

#[test]
fn plan_with_match_asks_for_done_and_a_result_record() {
    let rec = candidate(7, 1, 2, "xalphay");
    let query = "alpha".to_string();
    let effects = plan_run(&rec, Some(&query));
    assert_eq!(effects.tag, "find:done");
    let created = effects.create.expect("a match must yield a record");
    assert_eq!(created.value, "7:1:2");
    assert_eq!(created.key.domain, SEARCH_KEY_DOMAIN);
    assert!(created.tags.is_empty());
}

#[test]
fn plan_without_match_asks_for_done_only() {
    let rec = candidate(7, 1, 2, "beta");
    let query = "alpha".to_string();
    let effects = plan_run(&rec, Some(&query));
    assert_eq!(effects.tag, "find:done");
    assert!(effects.create.is_none());
}

#[test]
fn identity_and_search_key_are_fixed() {
    assert_eq!(find_filter::filter_name(), "find");
    let k = find_filter::record::search_key();
    assert_eq!(k.domain, SEARCH_KEY_DOMAIN);
    assert_eq!(k.b, 0);
    assert_eq!(k.c, 1);
}

#[test]
fn store_lookup_finds_first_match() {
    let mut store = MemStore::new();
    let key = Key { domain: 5, b: 6, c: 7 };
    store.add_entry(key, "first".to_string());
    store.add_entry(key, "second".to_string());
    assert_eq!(store.lookup_by_key(&key), Some("first".to_string()));
    assert_eq!(store.lookup_by_key(&Key { domain: 5, b: 6, c: 8 }), None);
}
