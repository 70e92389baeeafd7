use host_router::table::RouteTable;

fn table_of(routes: &[(&str, &str)]) -> RouteTable {
    let mut table = RouteTable::new();
    for (prefix, upstream) in routes {
        table = table.with_route(prefix.to_string(), upstream.to_string());
    }
    table
}

#[test]
fn new_table_is_empty() {
    let table = RouteTable::new();
    assert_eq!(table.len(), 0);
    assert_eq!(table.first_match("/anything"), None);
    assert!(!table.contains_prefix("/"));
}

#[test]
fn routes_stand_in_the_order_they_were_added() {
    let table = table_of(&[("/foo", "a.com"), ("/bar", "b.com")]);
    assert_eq!(table.len(), 2);
    assert_eq!(table.get(0), Some(("/foo", "a.com")));
    assert_eq!(table.get(1), Some(("/bar", "b.com")));
    assert_eq!(table.get(2), None);
    assert_eq!(table.get(usize::MAX), None);
}

#[test]
fn a_taken_prefix_is_not_added_again() {
    let table = table_of(&[("/foo", "a.com"), ("/foo", "b.com")]);
    assert_eq!(table.len(), 1);
    assert_eq!(table.get(0), Some(("/foo", "a.com")));
    assert!(table.contains_prefix("/foo"));
    assert!(!table.contains_prefix("/fo"));
}

#[test]
fn first_matching_prefix_wins() {
    let table = table_of(&[("/foo", "short.com"), ("/foo/bar", "long.com")]);
    assert_eq!(table.first_match("/foo/bar/baz"), Some(("/foo", "short.com")));
    let table = table_of(&[("/foo/bar", "long.com"), ("/foo", "short.com")]);
    assert_eq!(table.first_match("/foo/bar/baz"), Some(("/foo/bar", "long.com")));
    assert_eq!(table.first_match("/foo/other"), Some(("/foo", "short.com")));
}

#[test]
fn routes_that_do_not_match_are_passed_over() {
    let table = table_of(&[("/a", "a.com"), ("/b", "b.com"), ("/c", "c.com")]);
    assert_eq!(table.first_match("/c/d"), Some(("/c", "c.com")));
    assert_eq!(table.first_match("/b"), Some(("/b", "b.com")));
    assert_eq!(table.first_match("/d"), None);
    assert_eq!(table.first_match(""), None);
}

#[test]
fn prefixes_are_literal() {
    let table = table_of(&[("/foo*", "a.com"), ("/b.r", "b.com")]);
    assert_eq!(table.first_match("/foobar"), None);
    assert_eq!(table.first_match("/bar"), None);
    assert_eq!(table.first_match("/foo*bar"), Some(("/foo*", "a.com")));
    assert_eq!(table.first_match("/b.r?x=1"), Some(("/b.r", "b.com")));
}

#[test]
fn prefix_longer_than_the_path_does_not_match() {
    let table = table_of(&[("/foo/bar", "a.com")]);
    assert_eq!(table.first_match("/foo"), None);
}

#[test]
fn decode_reads_a_flat_object() {
    let table = RouteTable::decode("{\"/foo\": \"b.com\"}").unwrap();
    assert_eq!(table.len(), 1);
    assert_eq!(table.get(0), Some(("/foo", "b.com")));
}

#[test]
fn decode_holds_every_entry_once() {
    let table =
        RouteTable::decode("{\"/a\": \"a.com\", \"/b\": \"b.com:8443\", \"/c\": \"c.com\"}")
            .unwrap();
    assert_eq!(table.len(), 3);
    let mut routes: Vec<(String, String)> = (0..table.len())
        .map(|i| table.get(i).unwrap())
        .map(|(prefix, upstream)| (prefix.to_string(), upstream.to_string()))
        .collect();
    routes.sort();
    assert_eq!(
        routes,
        vec![
            ("/a".to_string(), "a.com".to_string()),
            ("/b".to_string(), "b.com:8443".to_string()),
            ("/c".to_string(), "c.com".to_string()),
        ]
    );
}

#[test]
fn decode_of_the_empty_object_is_the_empty_table() {
    let table = RouteTable::decode("{}").unwrap();
    assert_eq!(table.len(), 0);
}

#[test]
fn decode_keeps_the_last_value_of_a_repeated_key() {
    let table = RouteTable::decode("{\"/a\": \"first.com\", \"/a\": \"last.com\"}").unwrap();
    assert_eq!(table.len(), 1);
    assert_eq!(table.get(0), Some(("/a", "last.com")));
}

#[test]
fn decode_resolves_escapes() {
    let table = RouteTable::decode("{\"/caf\\u00e9\": \"b\\\\.com\"}").unwrap();
    assert_eq!(table.get(0), Some(("/café", "b\\.com")));
}

#[test]
fn decode_refuses_malformed_json() {
    for blob in ["", "{", "{\"/foo\": \"b.com\"", "not json", "{\"/foo\" \"b.com\"}", "{} x"] {
        let refused = RouteTable::decode(blob);
        assert!(refused.is_err(), "blob {:?}", blob);
        assert!(!refused.unwrap_err().message.is_empty());
    }
}

#[test]
fn decode_refuses_values_that_are_no_strings() {
    for blob in [
        "{\"/foo\": 1}",
        "{\"/foo\": null}",
        "{\"/foo\": true}",
        "{\"/foo\": [\"b.com\"]}",
        "{\"/foo\": {\"host\": \"b.com\"}}",
    ] {
        assert!(RouteTable::decode(blob).is_err(), "blob {:?}", blob);
    }
}

#[test]
fn decode_refuses_what_is_no_object() {
    for blob in ["[]", "\"/foo\"", "1", "null", "[[\"/foo\", \"b.com\"]]"] {
        assert!(RouteTable::decode(blob).is_err(), "blob {:?}", blob);
    }
}

#[test]
fn an_empty_prefix_matches_every_path() {
    let table = table_of(&[("", "all.com"), ("/foo", "b.com")]);
    assert_eq!(table.first_match("/foo"), Some(("", "all.com")));
    assert_eq!(table.first_match(""), Some(("", "all.com")));
}

#[test]
fn decode_then_match_finds_the_single_prefix() {
    let table = RouteTable::decode("{\"/a\": \"a.com\", \"/b\": \"b.com\"}").unwrap();
    assert_eq!(table.first_match("/b/c"), Some(("/b", "b.com")));
    assert_eq!(table.first_match("/a"), Some(("/a", "a.com")));
    assert_eq!(table.first_match("/c"), None);
}
