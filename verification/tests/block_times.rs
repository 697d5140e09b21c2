use altbase_epic::block_times::{
    block_time, block_times_in_document, cached_block_times, dated_block, effective_height,
    epic_block_times_by_height, fetched_block_times, foreign_endpoint, header_requests, heights_in,
    remember_block_times, take_answer, BlockTimes, Lookup,
};
use std::collections::HashSet;

fn heights(list: &[u64]) -> HashSet<u64> {
    list.iter().copied().collect()
}

fn time(millis: i64, text: &str) -> (i64, String) {
    (millis, text.to_string())
}

#[test]
fn cached_times_are_told_from_missing_ones() {
    let mut cache = BlockTimes::new();
    cache.insert(5, time(50, "five"));
    cache.insert(6, time(60, "six"));
    cache.insert(0, time(0, "zero"));
    let (times, mut missing) = cached_block_times(Some(&cache), &heights(&[0, 5, 7, 8]));
    missing.sort();
    assert_eq!(missing, vec![7, 8]);
    assert_eq!(times.len(), 1);
    assert_eq!(times.get(&5), Some(&time(50, "five")));
}

#[test]
fn without_a_cache_all_times_are_missing() {
    let (times, mut missing) = cached_block_times(None, &heights(&[0, 2, 1]));
    missing.sort();
    assert!(times.is_empty());
    assert_eq!(missing, vec![1, 2]);
}

#[test]
fn given_times_are_not_asked_for_again() {
    let mut cache = BlockTimes::new();
    cache.insert(1, time(1, "old"));
    cache.insert(9, time(9, "kept"));
    let mut fetched = BlockTimes::new();
    fetched.insert(1, time(10, "new"));
    fetched.insert(2, time(20, "two"));
    remember_block_times(&mut cache, &fetched);
    assert_eq!(cache.len(), 3);
    assert_eq!(cache.get(&1), Some(&time(10, "new")));
    assert_eq!(cache.get(&9), Some(&time(9, "kept")));
    let (times, missing) = cached_block_times(Some(&cache), &heights(&[1, 2, 3]));
    assert_eq!(missing, vec![3]);
    assert_eq!(times.get(&2), Some(&time(20, "two")));
}

#[test]
fn the_node_is_asked_for_what_is_missing() {
    let mut cache = BlockTimes::new();
    cache.insert(5, time(50, "five"));
    match epic_block_times_by_height("http://n/", &heights(&[0, 5]), Some(&cache)) {
        Lookup::Known(times) => assert_eq!(times.get(&5), Some(&time(50, "five"))),
        Lookup::Ask { .. } => panic!("asked for what is known"),
    }
    let none = epic_block_times_by_height("http://n/", &heights(&[]), None);
    assert!(matches!(none, Lookup::Known(times) if times.is_empty()));
    match epic_block_times_by_height("http://n/", &heights(&[5, 7]), Some(&cache)) {
        Lookup::Known(_) => panic!("not asked for what is missing"),
        Lookup::Ask { known, url, calls } => {
            assert_eq!(known.len(), 1);
            assert_eq!(url, "http://n/v2/foreign");
            assert_eq!(calls, header_requests(&vec![7]));
        }
    }
}

#[test]
fn answers_are_added_to_what_is_known() {
    let mut known = BlockTimes::new();
    known.insert(5, time(50, "five"));
    let (times, fetched) = take_answer(known.clone(), None);
    assert_eq!(times, known);
    assert!(fetched.is_empty());
    let body = r#"[{"id":7,"result":{"Ok":{"timestamp":"1970-01-01T00:00:01Z"}}}]"#;
    let (times, fetched) = take_answer(known, Some(body.as_bytes()));
    assert_eq!(times.len(), 2);
    assert_eq!(times.get(&5), Some(&time(50, "five")));
    assert_eq!(times.get(&7), Some(&time(1000, "1970-01-01T00:00:01Z")));
    assert_eq!(fetched.len(), 1);
}

#[test]
fn endpoint_has_one_slash() {
    assert_eq!(foreign_endpoint("http://n/"), "http://n/v2/foreign");
    assert_eq!(foreign_endpoint("http://n"), "http://n/v2/foreign");
}

#[test]
fn headers_are_asked_for_by_height() {
    assert_eq!(
        header_requests(&vec![7, 18446744073709551615]).to_string(),
        concat_two(
            r#"[{"id":7,"jsonrpc":"2.0","method":"get_header","params":[7,null,null]},"#,
            r#"{"id":18446744073709551615,"jsonrpc":"2.0","method":"get_header","params":[18446744073709551615,null,null]}]"#
        )
    );
    assert_eq!(header_requests(&vec![]).to_string(), "[]");
}

fn concat_two(a: &str, b: &str) -> String {
    format!("{}{}", a, b)
}

#[test]
fn answers_give_block_times() {
    let body = r#"[
        {"id":7,"result":{"Ok":{"height":1,"timestamp":"1970-01-01T00:00:01.5Z"}}},
        {"id":null,"result":{"Ok":{"height":8,"timestamp":"1970-01-01T01:00:00+01:00"}}},
        {"id":-9,"result":{"Ok":{"height":9,"timestamp":"2024-02-29T12:00:00+00:00"}}},
        {"id":10,"result":{"Err":"NotFound"}},
        {"id":11,"result":{"Ok":{"timestamp":"yesterday"}}},
        {"id":12,"result":{"Ok":{"timestamp":12}}},
        {"id":1.5,"result":{"Ok":{"timestamp":"1970-01-01T00:00:00Z"}}},
        "x",
        {"id":13,"result":{"Ok":{"timestamp":"1970-01-01T00:00:00Z"}}},
        {"id":13,"result":{"Ok":{"timestamp":"1970-01-01T00:00:02Z"}}}
    ]"#;
    let times = fetched_block_times(body.as_bytes());
    assert_eq!(times.len(), 4);
    assert_eq!(times.get(&7), Some(&time(1500, "1970-01-01T00:00:01.5Z")));
    assert_eq!(times.get(&8), Some(&time(0, "1970-01-01T01:00:00+01:00")));
    assert_eq!(times.get(&9), Some(&time(1_709_208_000_000, "2024-02-29T12:00:00+00:00")));
    assert_eq!(times.get(&13), Some(&time(2000, "1970-01-01T00:00:02Z")));
}

#[test]
fn kept_dates_read_as_their_millis() {
    let body = r#"[{"id":7,"result":{"Ok":{"timestamp":"1970-01-01T00:00:01.5Z"}}},
        {"id":8,"result":{"Ok":{"timestamp":"2024-02-29T12:00:00+02:30"}}}]"#;
    let fetched = fetched_block_times(body.as_bytes());
    let mut cache = BlockTimes::new();
    remember_block_times(&mut cache, &fetched);
    let (times, _missing) = cached_block_times(Some(&cache), &heights(&[7, 8]));
    assert_eq!(times.len(), 2);
    for (millis, date) in times.values() {
        let read = chrono::DateTime::parse_from_rfc3339(date).unwrap();
        assert_eq!(read.timestamp_millis(), *millis);
    }
}

#[test]
fn a_single_answer_is_one_too() {
    let body = r#"{"id":3,"result":{"Ok":{"timestamp":"1970-01-01T00:00:00Z"}}}"#;
    assert_eq!(fetched_block_times(body.as_bytes()).get(&3), Some(&time(0, "1970-01-01T00:00:00Z")));
}

#[test]
fn other_bodies_give_nothing() {
    for body in ["", "{", "3", "null", "\"x\"", "[]", "{}", "[[]]"] {
        assert!(fetched_block_times(body.as_bytes()).is_empty(), "{}", body);
    }
    assert!(fetched_block_times(b"\"\xff\"").is_empty());
}

#[test]
fn blocks_are_dated_if_their_time_could_be_read() {
    let block = dated_block(4, "t", Some(-3)).unwrap();
    assert_eq!((block.height, block.millis, block.timestamp.as_str()), (4, -3, "t"));
    assert!(dated_block(4, "t", None).is_none());
    let answer = serde_json::from_str("{\"id\":2}").unwrap();
    assert!(block_time(&answer).is_none());
    assert!(block_times_in_document(&answer).is_empty());
}

#[test]
fn the_effective_height_is_the_greatest() {
    assert_eq!(effective_height(&heights(&[]), 5), 5);
    assert_eq!(effective_height(&heights(&[3, 9, 4]), 5), 9);
    assert_eq!(effective_height(&heights(&[3]), 5), 5);
    let mut all = heights_in(&heights(&[2, 1]));
    all.sort();
    assert_eq!(all, vec![1, 2]);
}
