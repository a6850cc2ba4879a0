use pocket_research::error::AddFault;
use pocket_research::error::ApiError;
use pocket_research::error::DecodeField;
use pocket_research::model::Insertable;
use pocket_research::model::ItemStatus;
use pocket_research::model::Secrets;
use pocket_research::pocket::check_http_status;
use pocket_research::pocket::decode_add_response;
use pocket_research::pocket::decode_get_response;
use pocket_research::pocket::decode_item;
use pocket_research::pocket::decode_tags;
use pocket_research::pocket::get_request;
use pocket_research::pocket::parse_status;
use pocket_research::pocket::PocketAddRequest;
use pocket_research::pocket::PocketGetDetail;
use pocket_research::pocket::PocketGetSort;
use pocket_research::pocket::PocketGetState;
use pocket_research::pocket::PocketItemStatus;
use pocket_research::pocket::RawAddItem;
use pocket_research::pocket::RawAddResponse;
use pocket_research::pocket::RawGetResponse;
use pocket_research::pocket::RawItemTag;
use pocket_research::pocket::RawPocketItem;

fn valid_raw_item() -> RawPocketItem {
    RawPocketItem {
        item_id: "1".to_string(),
        given_url: Some("https://example.com/read".to_string()),
        given_title: "A fine article".to_string(),
        time_added: "1700000000".to_string(),
        time_read: "0".to_string(),
        time_updated: "1700000500".to_string(),
        time_favorited: "0".to_string(),
        favorite: "0".to_string(),
        resolved_id: "1".to_string(),
        resolved_title: Some("A fine article".to_string()),
        resolved_url: Some("https://example.com/read".to_string()),
        sort_id: 0,
        status: "0".to_string(),
        tags: None,
        excerpt: Some("An excerpt".to_string()),
        lang: Some("en".to_string()),
        time_to_read: Some(4),
        listen_duration_estimate: Some(240),
        amp_url: None,
        top_image_url: Some("".to_string()),
    }
}

#[test]
fn status_strings_decode() {
    assert_eq!(parse_status("0"), Some(PocketItemStatus::Normal));
    assert_eq!(parse_status("1"), Some(PocketItemStatus::Archived));
    assert_eq!(parse_status("2"), Some(PocketItemStatus::Deleted));
    assert_eq!(parse_status("3"), None);
    assert_eq!(parse_status(""), None);
}

#[test]
fn valid_record_decodes_field_by_field() {
    let item = decode_item(&valid_raw_item()).unwrap();
    assert_eq!(item.item_id, 1);
    assert_eq!(item.given_url, Some("https://example.com/read".to_string()));
    assert_eq!(item.given_title, "A fine article");
    assert_eq!(item.time_added, 1_700_000_000);
    assert_eq!(item.time_read, None);
    assert_eq!(item.time_updated, 1_700_000_500);
    assert_eq!(item.time_favorited, None);
    assert!(!item.favorite);
    assert_eq!(item.status, PocketItemStatus::Normal);
    assert!(item.tags.is_none());
    // The empty top image URL degrades to absent without failing the record.
    assert_eq!(item.top_image_url, None);
}

#[test]
fn malformed_required_field_aborts_the_record() {
    let mut raw = valid_raw_item();
    raw.item_id = "abc".to_string();
    match decode_item(&raw) {
        Err(ApiError::Decode { field, value }) => {
            assert_eq!(field, DecodeField::ItemId);
            assert_eq!(value, "abc");
        }
        other => panic!("expected a decode error, got {:?}", other),
    }
}

#[test]
fn malformed_favorite_reports_its_raw_value() {
    let mut raw = valid_raw_item();
    raw.favorite = "yes".to_string();
    match decode_item(&raw) {
        Err(ApiError::Decode { field, value }) => {
            assert_eq!(field, DecodeField::Favorite);
            assert_eq!(value, "yes");
        }
        other => panic!("expected a decode error, got {:?}", other),
    }
}

#[test]
fn malformed_optional_fields_degrade_to_absent() {
    let mut raw = valid_raw_item();
    raw.given_url = Some("not a url".to_string());
    raw.time_favorited = "later".to_string();
    let item = decode_item(&raw).unwrap();
    assert_eq!(item.given_url, None);
    assert_eq!(item.time_favorited, None);
}

#[test]
fn tag_map_decodes_values_whatever_the_keys() {
    let tags = Some(vec![
        (
            "zzz".to_string(),
            RawItemTag { item_id: "7".to_string(), tag: "rust".to_string() },
        ),
        (
            "1".to_string(),
            RawItemTag { item_id: "7".to_string(), tag: "sql".to_string() },
        ),
    ]);
    let decoded = decode_tags(&tags).unwrap();
    assert_eq!(decoded.len(), 2);
    assert_eq!(decoded[0].item_id, 7);
    assert_eq!(decoded[0].tag, "rust");
    assert_eq!(decoded[1].tag, "sql");
}

#[test]
fn empty_or_malformed_tag_map_is_absent() {
    assert!(decode_tags(&None).is_none());
    assert!(decode_tags(&Some(Vec::new())).is_none());
    let bad = Some(vec![(
        "k".to_string(),
        RawItemTag { item_id: "x".to_string(), tag: "rust".to_string() },
    )]);
    assert!(decode_tags(&bad).is_none());
}

#[test]
fn fetch_request_asks_for_everything_oldest_first() {
    let secrets = Secrets {
        consumer_key: "ck".to_string(),
        access_token: "tok".to_string(),
    };
    let req = get_request(&secrets);
    assert_eq!(req.consumer_key, "ck");
    assert_eq!(req.access_token, "tok");
    assert_eq!(req.request.state, Some(PocketGetState::All));
    assert_eq!(req.request.sort, Some(PocketGetSort::Oldest));
    assert_eq!(req.request.detail_type, Some(PocketGetDetail::Complete));
}

#[test]
fn fetch_response_with_one_valid_record() {
    let resp = RawGetResponse {
        list: vec![("1".to_string(), valid_raw_item())],
        status: 1,
        error: None,
    };
    let items = decode_get_response(&resp).unwrap();
    assert_eq!(items.len(), 1);
    assert_eq!(items[0].item_id, 1);
    assert_eq!(items[0].given_title, "A fine article");
    assert_eq!(items[0].time_added, 1_700_000_000);
    assert_eq!(items[0].time_updated, 1_700_000_500);
}

#[test]
fn fetch_response_with_error_text_is_a_protocol_failure() {
    let resp = RawGetResponse {
        list: Vec::new(),
        status: 2,
        error: Some("rate limited".to_string()),
    };
    match decode_get_response(&resp) {
        Err(ApiError::Protocol { message }) => assert_eq!(message, "rate limited"),
        other => panic!("expected a protocol error, got {:?}", other),
    }
}

#[test]
fn fetch_response_with_a_bad_record_aborts_the_fetch() {
    let mut bad = valid_raw_item();
    bad.status = "9".to_string();
    let resp = RawGetResponse {
        list: vec![("1".to_string(), valid_raw_item()), ("2".to_string(), bad)],
        status: 1,
        error: None,
    };
    match decode_get_response(&resp) {
        Err(ApiError::Decode { field, value }) => {
            assert_eq!(field, DecodeField::Status);
            assert_eq!(value, "9");
        }
        other => panic!("expected a decode error, got {:?}", other),
    }
}

#[test]
fn add_response_yields_the_new_identifier() {
    let resp = RawAddResponse {
        item: Some(RawAddItem { item_id: Some("42".to_string()) }),
    };
    assert_eq!(decode_add_response(&resp).unwrap(), 42);
}

#[test]
fn add_response_without_item_is_a_shape_error() {
    let resp = RawAddResponse { item: None };
    match decode_add_response(&resp) {
        Err(ApiError::AddShape { fault }) => assert_eq!(fault, AddFault::MissingItem),
        other => panic!("expected a shape error, got {:?}", other),
    }
}

#[test]
fn add_response_without_identifier_is_a_shape_error() {
    let resp = RawAddResponse { item: Some(RawAddItem { item_id: None }) };
    match decode_add_response(&resp) {
        Err(ApiError::AddShape { fault }) => assert_eq!(fault, AddFault::MissingItemId),
        other => panic!("expected a shape error, got {:?}", other),
    }
    let resp = RawAddResponse {
        item: Some(RawAddItem { item_id: Some("4x2".to_string()) }),
    };
    match decode_add_response(&resp) {
        Err(ApiError::AddShape { fault }) => assert_eq!(fault, AddFault::BadItemId),
        other => panic!("expected a shape error, got {:?}", other),
    }
}

#[test]
fn add_request_joins_tags_or_omits_them() {
    let req = PocketAddRequest {
        url: "https://example.com".to_string(),
        title: None,
        tags: Some(vec!["rust".to_string(), "sql".to_string()]),
    };
    assert_eq!(req.tags_field(), Some("rust,sql".to_string()));
    let req = PocketAddRequest {
        url: "https://example.com".to_string(),
        title: None,
        tags: None,
    };
    assert_eq!(req.tags_field(), None);
}

#[test]
fn http_status_classification() {
    assert!(check_http_status(200).is_ok());
    assert!(check_http_status(204).is_ok());
    match check_http_status(403) {
        Err(ApiError::Transport { status }) => assert_eq!(status, 403),
        other => panic!("expected a transport error, got {:?}", other),
    }
}

#[test]
fn decoded_record_converts_to_the_canonical_model() {
    let mut raw = valid_raw_item();
    raw.tags = Some(vec![
        (
            "a".to_string(),
            RawItemTag { item_id: "1".to_string(), tag: "go".to_string() },
        ),
        (
            "b".to_string(),
            RawItemTag { item_id: "1".to_string(), tag: "infra".to_string() },
        ),
    ]);
    let item = decode_item(&raw).unwrap();
    let canonical = item.to_research_item();
    assert_eq!(canonical.id, 1);
    assert_eq!(canonical.uri, Some("https://example.com/read".to_string()));
    assert_eq!(canonical.title, "A fine article");
    assert_eq!(canonical.status, ItemStatus::Normal);
    assert_eq!(canonical.time_added, 1_700_000_000);
    let rows = item.to_tags();
    assert_eq!(rows.len(), 2);
    assert_eq!(rows[0].item_id, 1);
    assert_eq!(rows[0].tag, "go");
    assert_eq!(rows[1].tag, "infra");
}

#[test]
fn canonical_uri_falls_back_to_the_resolved_one() {
    let mut raw = valid_raw_item();
    raw.given_url = None;
    let item = decode_item(&raw).unwrap();
    let canonical = item.to_research_item();
    assert_eq!(canonical.uri, Some("https://example.com/read".to_string()));
}
