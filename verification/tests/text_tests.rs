use tenor::strmap::place;
use tenor::strmap::Placement;
use tenor::strmap::StringMap;
use tenor::text::chars_of;
use tenor::text::chars_spell;
use tenor::text::has_prefix;
use tenor::text::lower_char;
use tenor::text::lowered_chars;
use tenor::text::push_chars;
use tenor::text::push_decimal;
use tenor::text::same_chars;
use tenor::text::same_text;
use tenor::text::text_after;
use tenor::Labels;
use tenor::Timestamp;

fn decimal_text(n: u64) -> String {
    let mut out = String::new();
    push_decimal(&mut out, n);
    out
}

#[test]
fn numerals_are_decimal() {
    assert_eq!(decimal_text(0), "0");
    assert_eq!(decimal_text(5), "5");
    assert_eq!(decimal_text(9), "9");
    assert_eq!(decimal_text(10), "10");
    assert_eq!(decimal_text(99), "99");
    assert_eq!(decimal_text(100), "100");
    assert_eq!(decimal_text(1234567890), "1234567890");
    assert_eq!(decimal_text(u64::MAX), "18446744073709551615");
    for n in [0u64, 1, 7, 42, 1000, 65535, 4294967296] {
        assert_eq!(decimal_text(n), n.to_string());
    }
    let mut out = "t=".to_string();
    push_decimal(&mut out, 30);
    assert_eq!(out, "t=30");
}

#[test]
fn characters_go_in_and_out_of_strings() {
    assert_eq!(chars_of(""), Vec::<char>::new());
    assert_eq!(chars_of("aé/"), vec!['a', 'é', '/']);
    let mut out = "x".to_string();
    push_chars(&mut out, &vec!['a', 'b', 'c', 'd'], 1, 3);
    assert_eq!(out, "xbc");
    push_chars(&mut out, &vec!['a', 'b'], 2, 2);
    assert_eq!(out, "xbc");
    assert_eq!(text_after("unix:///a", 7), "/a");
    assert_eq!(text_after("abc", 0), "abc");
    assert_eq!(text_after("abc", 3), "");
    assert_eq!(text_after("éa", 1), "a");
}

#[test]
fn texts_compare_by_their_characters() {
    assert!(same_text("", ""));
    assert!(same_text("udp", "udp"));
    assert!(!same_text("udp", "udq"));
    assert!(!same_text("udp", "ud"));
    assert!(!same_text("ud", "udp"));
    assert!(same_chars(&vec!['a'], &vec!['a']));
    assert!(!same_chars(&vec!['a'], &vec!['b']));
    assert!(chars_spell(&vec!['d', 'e', 'a', 'd'], "dead"));
    assert!(!chars_spell(&vec!['d', 'e', 'a'], "dead"));
}

#[test]
fn prefixes_are_found() {
    assert!(has_prefix("unix:///x", "unix://"));
    assert!(has_prefix("unix://", "unix://"));
    assert!(!has_prefix("unix:/", "unix://"));
    assert!(!has_prefix("Unix://x", "unix://"));
    assert!(has_prefix("anything", ""));
    assert!(has_prefix("", ""));
    assert!(!has_prefix("", "a"));
    assert!(!has_prefix("xtcp://", "tcp://"));
}

#[test]
fn only_ascii_capitals_are_lowered() {
    assert_eq!(lower_char('A'), 'a');
    assert_eq!(lower_char('Z'), 'z');
    assert_eq!(lower_char('a'), 'a');
    assert_eq!(lower_char('@'), '@');
    assert_eq!(lower_char('['), '[');
    assert_eq!(lower_char('É'), 'É');
    assert_eq!(lower_char('0'), '0');
    assert_eq!(lowered_chars("RuNnInG"), chars_of("running"));
    assert_eq!(lowered_chars("ÀB c"), vec!['À', 'b', ' ', 'c']);
    assert_eq!(lowered_chars(""), Vec::<char>::new());
}

#[test]
fn keys_are_ordered_as_strings_are() {
    let pairs = [
        ("", ""),
        ("", "a"),
        ("a", ""),
        ("a", "a"),
        ("a", "b"),
        ("b", "a"),
        ("a", "ab"),
        ("ab", "a"),
        ("B", "a"),
        ("z", "é"),
        ("é", "z"),
        ("é", "é"),
        ("com.docker.a", "com.docker.b"),
        ("a\u{0}", "a"),
    ];
    for (a, b) in pairs {
        let expected = match a.cmp(b) {
            std::cmp::Ordering::Less => Placement::Before,
            std::cmp::Ordering::Equal => Placement::Same,
            std::cmp::Ordering::Greater => Placement::After,
        };
        assert_eq!(place(a, b), expected, "{:?} against {:?}", a, b);
    }
}

#[test]
fn a_map_keeps_its_keys_ordered_and_single() {
    let mut labels = Labels::new();
    assert!(labels.is_empty());
    assert_eq!(labels.len(), 0);
    assert_eq!(labels.get("a"), None);
    assert!(!labels.contains_key("a"));

    assert_eq!(labels.insert("m".to_string(), "1".to_string()), None);
    assert_eq!(labels.insert("z".to_string(), "2".to_string()), None);
    assert_eq!(labels.insert("a".to_string(), "3".to_string()), None);
    assert_eq!(labels.insert("n".to_string(), "4".to_string()), None);
    assert_eq!(labels.len(), 4);
    assert!(!labels.is_empty());
    assert_eq!(labels.keys(), vec!["a", "m", "n", "z"]);

    assert_eq!(labels.insert("m".to_string(), "5".to_string()), Some("1".to_string()));
    assert_eq!(labels.len(), 4);
    assert_eq!(labels.keys(), vec!["a", "m", "n", "z"]);
    assert_eq!(labels.get("m"), Some(&"5".to_string()));
    assert_eq!(labels.get("a"), Some(&"3".to_string()));
    assert_eq!(labels.get("z"), Some(&"2".to_string()));
    assert_eq!(labels.get("b"), None);
    assert_eq!(labels.get(""), None);
    assert_eq!(labels.get("zz"), None);
    assert!(labels.contains_key("n"));
    assert!(!labels.contains_key("o"));

    assert_eq!(labels.entry_at(0), Some((&"a".to_string(), &"3".to_string())));
    assert_eq!(labels.entry_at(3), Some((&"z".to_string(), &"2".to_string())));
    assert_eq!(labels.entry_at(4), None);
    assert_eq!(labels.entry_at(usize::MAX), None);
}

#[test]
fn a_map_agrees_with_the_standard_ordered_map() {
    let keys = ["delta", "alpha", "", "é", "alpha", "Alpha", "beta", "alphabet", "z", "é", "b"];
    let mut mine: StringMap<String> = StringMap::new();
    let mut theirs = std::collections::BTreeMap::new();
    for (i, key) in keys.iter().enumerate() {
        let before = mine.insert(key.to_string(), i.to_string());
        assert_eq!(before, theirs.insert(key.to_string(), i.to_string()));
        assert_eq!(mine.len(), theirs.len());
    }
    assert_eq!(mine.keys(), theirs.keys().cloned().collect::<Vec<String>>());
    for (i, (key, value)) in theirs.iter().enumerate() {
        assert_eq!(mine.entry_at(i), Some((key, value)));
        assert_eq!(mine.get(key), Some(value));
    }
}

#[test]
fn a_cloned_map_holds_the_same() {
    let mut labels = Labels::default();
    labels.insert("k".to_string(), "v".to_string());
    let copy = labels.clone();
    labels.insert("k".to_string(), "w".to_string());
    assert_eq!(copy.len(), 1);
    assert_eq!(copy.get("k"), Some(&"v".to_string()));
    assert_eq!(labels.get("k"), Some(&"w".to_string()));
}

#[test]
fn instants_come_from_epoch_seconds() {
    assert_eq!(Timestamp::from_epoch_seconds(0), Timestamp { secs: 0, nanos: 0 });
    assert_eq!(Timestamp::from_epoch_seconds(1700000000), Timestamp { secs: 1700000000, nanos: 0 });
    assert_eq!(Timestamp::from_epoch_seconds(-86400), Timestamp { secs: -86400, nanos: 0 });
    assert_eq!(Timestamp::from_epoch_seconds(i64::MAX), Timestamp { secs: 0, nanos: 0 });
    assert_eq!(Timestamp::from_epoch_seconds(i64::MIN), Timestamp { secs: 0, nanos: 0 });
    assert_eq!(Timestamp::default(), Timestamp { secs: 0, nanos: 0 });
    assert_eq!(Timestamp::or_epoch(None), Timestamp { secs: 0, nanos: 0 });
    let given = Timestamp { secs: 5, nanos: 6 };
    assert_eq!(Timestamp::or_epoch(Some(given)), given);
}

#[test]
fn instants_agree_with_the_calendar() {
    let at = chrono::DateTime::from_timestamp(1431648000, 0).unwrap();
    assert_eq!(at.to_rfc3339(), "2015-05-15T00:00:00+00:00");
    assert_eq!(
        Timestamp::from_rfc3339("2015-05-15T00:00:00+00:00"),
        Timestamp::from_epoch_seconds(1431648000)
    );
}

#[test]
fn instants_come_from_text() {
    assert_eq!(
        Timestamp::from_rfc3339("2024-01-01T00:00:00.000000000Z"),
        Timestamp { secs: 1704067200, nanos: 0 }
    );
    assert_eq!(
        Timestamp::from_rfc3339("2024-01-01T00:00:00.123456789Z"),
        Timestamp { secs: 1704067200, nanos: 123456789 }
    );
    assert_eq!(
        Timestamp::from_rfc3339("2023-12-31T19:00:00-05:00"),
        Timestamp { secs: 1704067200, nanos: 0 }
    );
    assert_eq!(
        Timestamp::from_rfc3339("1969-12-31T23:59:59Z"),
        Timestamp { secs: -1, nanos: 0 }
    );
    for text in ["", "2024-01-01", "2024-01-01T00:00:00", "not a date", "2024-13-01T00:00:00Z"] {
        assert_eq!(Timestamp::from_rfc3339(text), Timestamp { secs: 0, nanos: 0 }, "{:?}", text);
    }
}

#[test]
fn instants_end_where_the_calendar_ends() {
    let last = chrono::DateTime::<chrono::Utc>::MAX_UTC.timestamp();
    let first = chrono::DateTime::<chrono::Utc>::MIN_UTC.timestamp();
    assert_eq!(Timestamp::from_epoch_seconds(last), Timestamp { secs: last, nanos: 0 });
    assert_eq!(Timestamp::from_epoch_seconds(first), Timestamp { secs: first, nanos: 0 });
    assert_eq!(Timestamp::from_epoch_seconds(last + 1), Timestamp { secs: 0, nanos: 0 });
    assert_eq!(Timestamp::from_epoch_seconds(first - 1), Timestamp { secs: 0, nanos: 0 });
}

#[test]
fn every_second_of_the_four_digit_years_has_its_instant() {
    let last = tenor::time::END_OF_YEAR_9999;
    assert_eq!(last, 253_402_300_799);
    let at = chrono::DateTime::from_timestamp(last, 0).unwrap();
    assert_eq!(at.to_rfc3339(), "9999-12-31T23:59:59+00:00");
    assert_eq!(
        chrono::DateTime::from_timestamp(last + 1, 0).unwrap().to_rfc3339(),
        "+10000-01-01T00:00:00+00:00"
    );
    for secs in [0, 1, 59, 86_399, 86_400, 1_700_000_000, 4_102_444_800, last - 1, last] {
        assert_eq!(Timestamp::from_epoch_seconds(secs), Timestamp { secs, nanos: 0 });
    }
}

#[test]
fn a_thousand_milliseconds_make_a_whole_second() {
    for millis in [0u64, 1, 999, 1000, 1001, 5000, 5999, 250, u64::MAX] {
        assert_eq!(std::time::Duration::from_millis(millis).as_secs(), millis / 1000);
    }
}
