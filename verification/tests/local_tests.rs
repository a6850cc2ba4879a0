use pocket_research::cli::AddArgs;
use pocket_research::error::ApiError;
use pocket_research::error::DecodeField;
use pocket_research::local::local_item;
use pocket_research::model::ItemStatus;

#[test]
fn local_add_wraps_input_into_one_record_and_its_tags() {
    let args = AddArgs {
        uri: "https://example.com".to_string(),
        title: None,
        excerpt: None,
        tag: Some(vec!["go".to_string(), "infra".to_string()]),
    };
    let (item, rows) = local_item(&args, 11, 1_700_000_000).unwrap();
    assert_eq!(item.id, 11);
    assert_eq!(item.uri, Some("https://example.com".to_string()));
    assert_eq!(item.title, "");
    assert_eq!(item.excerpt, None);
    assert_eq!(item.status, ItemStatus::Normal);
    assert!(!item.favorite);
    assert_eq!(item.time_added, 1_700_000_000);
    assert_eq!(item.time_read, None);
    assert_eq!(rows.len(), 2);
    assert_eq!(rows[0].item_id, 11);
    assert_eq!(rows[0].tag, "go");
    assert_eq!(rows[1].item_id, 11);
    assert_eq!(rows[1].tag, "infra");
}

#[test]
fn local_add_keeps_title_and_excerpt() {
    let args = AddArgs {
        uri: "https://example.com/page".to_string(),
        title: Some("A title".to_string()),
        excerpt: Some("Summary".to_string()),
        tag: None,
    };
    let (item, rows) = local_item(&args, 3, 10).unwrap();
    assert_eq!(item.title, "A title");
    assert_eq!(item.excerpt, Some("Summary".to_string()));
    assert_eq!(rows.len(), 0);
}

#[test]
fn local_add_rejects_an_empty_link() {
    let args = AddArgs {
        uri: String::new(),
        title: None,
        excerpt: None,
        tag: None,
    };
    match local_item(&args, 1, 1) {
        Err(ApiError::Decode { field, value }) => {
            assert_eq!(field, DecodeField::Uri);
            assert_eq!(value, "");
        }
        other => panic!("expected a decode error, got {:?}", other),
    }
}

#[test]
fn local_add_rejects_an_unparseable_link() {
    let args = AddArgs {
        uri: "not a link".to_string(),
        title: None,
        excerpt: None,
        tag: None,
    };
    match local_item(&args, 1, 1) {
        Err(ApiError::Decode { field, value }) => {
            assert_eq!(field, DecodeField::Uri);
            assert_eq!(value, "not a link");
        }
        other => panic!("expected a decode error, got {:?}", other),
    }
}
