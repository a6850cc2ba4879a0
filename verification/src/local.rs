//! The local provider adapter: wraps caller-supplied input directly into
//! the canonical model, with no network and no decoding layer.

use vstd::prelude::*;

use crate::cli::AddArgs;
use crate::error::ApiError;
use crate::error::DecodeField;
use crate::model::ItemStatus;
use crate::model::Provider;
use crate::model::ResearchItem;
use crate::model::Tags;
use crate::web::is_valid_url;
use crate::web::url_ok;

verus! {

/// The shape a local add yields: one canonical record at normal status with
/// the caller's link, title and excerpt, and one tag row per given tag, all
/// under the freshly assigned identifier.
pub open spec fn local_item_shape(
    args: AddArgs,
    new_id: u64,
    now: u64,
    item: ResearchItem,
    rows: Seq<Tags>,
) -> bool {
    &&& item.id == new_id
    &&& item.uri == Some(args.uri)
    &&& match args.title {
        Some(t) => item.title == t,
        None => item.title@.len() == 0,
    }
    &&& item.excerpt == args.excerpt
    &&& item.time_added == now
    &&& item.time_updated == now
    &&& item.time_read is None
    &&& item.time_favorited is None
    &&& item.status is Normal
    &&& !item.favorite
    &&& match args.tag {
        None => rows.len() == 0,
        Some(ts) => rows.len() == ts@.len() && (forall|i: int|
            0 <= i < ts@.len() ==> (#[trigger] rows[i]).item_id == new_id && rows[i].tag
                == ts@[i]),
    }
}

/// Wrap locally entered input into one canonical record and its tag rows.
///
/// The identifier and the creation instant are assigned by the caller,
/// since the storage collaborator owns the assignment strategy. The record
/// starts at normal status, unread and unfavorited. The only failure is an
/// empty or unparseable link; no network is involved.
pub fn local_item(args: &AddArgs, new_id: u64, now: u64) -> (r: Result<
    (ResearchItem, Vec<Tags>),
    ApiError,
>)
    ensures
        r is Ok <==> args.uri@.len() > 0 && url_ok(args.uri@),
        r matches Ok(p) ==> local_item_shape(*args, new_id, now, p.0, p.1@),
        r matches Err(e) ==> (e matches ApiError::Decode { field, value } && field
            == DecodeField::Uri && value == args.uri),
{
    if args.uri.as_str().is_empty() {
        return Err(ApiError::Decode { field: DecodeField::Uri, value: args.uri.clone() });
    }
    if !is_valid_url(args.uri.as_str()) {
        return Err(ApiError::Decode { field: DecodeField::Uri, value: args.uri.clone() });
    }
    let title = match &args.title {
        Some(t) => t.clone(),
        None => String::new(),
    };
    let excerpt = match &args.excerpt {
        Some(e) => Some(e.clone()),
        None => None,
    };
    let item = ResearchItem {
        id: new_id,
        uri: Some(args.uri.clone()),
        title,
        excerpt,
        time_added: now,
        time_updated: now,
        time_read: None,
        time_favorited: None,
        status: ItemStatus::Normal,
        favorite: false,
    };
    let mut rows: Vec<Tags> = Vec::new();
    match &args.tag {
        None => {},
        Some(ts) => {
            let mut i: usize = 0;
            while i < ts.len()
                invariant
                    0 <= i <= ts@.len(),
                    rows@.len() == i,
                    forall|j: int|
                        0 <= j < i ==> (#[trigger] rows@[j]).item_id == new_id && rows@[j].tag
                            == ts@[j],
                decreases ts@.len() - i,
            {
                rows.push(Tags { item_id: new_id, tag: ts[i].clone() });
                i += 1;
            }
        },
    }
    Ok((item, rows))
}

/// The local provider: its raw item representation is the caller's input
/// itself.
#[derive(Debug, Clone)]
pub struct ProviderLocal {
}

impl Provider for ProviderLocal {
    type Item = AddArgs;
}

} // verus!
