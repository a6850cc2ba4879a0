use pocket_research::decode::decode_url_field;
use pocket_research::decode::encode_tags_field;
use pocket_research::decode::join_comma;
use pocket_research::decode::map_entry_values;
use pocket_research::decode::optional_map_entry_values;
use pocket_research::decode::parse_bool_str;
use pocket_research::decode::parse_opt_timestamp;
use pocket_research::decode::parse_u64;

#[test]
fn bool_zero_and_one_decode() {
    assert_eq!(parse_bool_str("0"), Some(false));
    assert_eq!(parse_bool_str("1"), Some(true));
}

#[test]
fn bool_other_strings_fail() {
    assert_eq!(parse_bool_str(""), None);
    assert_eq!(parse_bool_str("2"), None);
    assert_eq!(parse_bool_str("true"), None);
    assert_eq!(parse_bool_str("01"), None);
}

#[test]
fn numeric_identifier_decodes() {
    assert_eq!(parse_u64("137"), Some(137));
    assert_eq!(parse_u64("0"), Some(0));
    assert_eq!(parse_u64("18446744073709551615"), Some(u64::MAX));
}

#[test]
fn numeric_identifier_round_trips() {
    for n in [0u64, 1, 42, 137, 1_000_000, u64::MAX] {
        let encoded = format!("{}", n);
        assert_eq!(parse_u64(&encoded), Some(n));
    }
}

#[test]
fn non_numeric_identifier_fails() {
    assert_eq!(parse_u64(""), None);
    assert_eq!(parse_u64("abc"), None);
    assert_eq!(parse_u64("12x"), None);
    assert_eq!(parse_u64("-5"), None);
    assert_eq!(parse_u64("18446744073709551616"), None);
}

#[test]
fn zero_epoch_string_means_absent() {
    assert_eq!(parse_opt_timestamp("0"), None);
}

#[test]
fn nonzero_epoch_string_decodes_and_round_trips() {
    assert_eq!(parse_opt_timestamp("1700000000"), Some(1_700_000_000));
    let instant = parse_opt_timestamp("1700000000").unwrap();
    assert_eq!(format!("{}", instant), "1700000000");
}

#[test]
fn malformed_epoch_string_degrades_to_absent() {
    assert_eq!(parse_opt_timestamp("soon"), None);
    assert_eq!(parse_opt_timestamp(""), None);
}

#[test]
fn missing_url_is_absent() {
    assert_eq!(decode_url_field(None), None);
}

#[test]
fn empty_url_is_absent() {
    assert_eq!(decode_url_field(Some(String::new())), None);
}

#[test]
fn malformed_url_is_absent() {
    assert_eq!(decode_url_field(Some("not a url".to_string())), None);
    assert_eq!(decode_url_field(Some("::::".to_string())), None);
}

#[test]
fn valid_url_is_kept() {
    let url = "https://example.com/a?b=c".to_string();
    assert_eq!(decode_url_field(Some(url.clone())), Some(url));
}

#[test]
fn map_values_drop_keys() {
    let entries = vec![("9".to_string(), 1u32), ("4".to_string(), 2u32)];
    assert_eq!(map_entry_values(entries), vec![1, 2]);
    assert_eq!(map_entry_values::<u32>(Vec::new()), Vec::<u32>::new());
}

#[test]
fn absent_and_empty_maps_decode_to_absent() {
    assert_eq!(optional_map_entry_values::<u32>(None), None);
    assert_eq!(optional_map_entry_values::<u32>(Some(Vec::new())), None);
}

#[test]
fn populated_map_decodes_to_its_values() {
    let entries = vec![
        ("zebra".to_string(), 7u32),
        ("apple".to_string(), 8u32),
        ("7".to_string(), 9u32),
    ];
    assert_eq!(optional_map_entry_values(Some(entries)), Some(vec![7, 8, 9]));
}

#[test]
fn comma_join_two_tags() {
    let tags = vec!["rust".to_string(), "sql".to_string()];
    assert_eq!(join_comma(&tags), "rust,sql");
}

#[test]
fn comma_join_edge_shapes() {
    assert_eq!(join_comma(&Vec::new()), "");
    assert_eq!(join_comma(&vec!["solo".to_string()]), "solo");
    assert_eq!(
        join_comma(&vec!["a".to_string(), "b".to_string(), "c".to_string()]),
        "a,b,c"
    );
}

#[test]
fn absent_tag_list_omits_the_field() {
    assert_eq!(encode_tags_field(&None), None);
    let tags = Some(vec!["go".to_string(), "infra".to_string()]);
    assert_eq!(encode_tags_field(&tags), Some("go,infra".to_string()));
}
