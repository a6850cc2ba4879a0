//! The remote provider: wire-format records, their defensive decoding, and
//! the request builders and response decoders for the fetch and add calls.
//!
//! The surrounding program carries the built requests to the network and
//! hands the transmitted shapes back; everything that decides or converts
//! happens here.

use vstd::prelude::*;

use crate::decode::comma_joined;
use crate::decode::dec_value;
use crate::decode::decode_url_field;
use crate::decode::encode_tags_field;
use crate::decode::is_u64_string;
use crate::decode::parse_bool_str;
use crate::decode::parse_opt_timestamp;
use crate::decode::parse_u64;
use crate::decode::spec_opt_timestamp;
use crate::decode::spec_parse_bool;
use crate::error::AddFault;
use crate::error::ApiError;
use crate::error::DecodeField;
use crate::model::Insertable;
use crate::model::ItemStatus;
use crate::model::Provider;
use crate::model::ResearchItem;
use crate::model::Secrets;
use crate::model::Tags;
use crate::web::url_ok;

verus! {

// ---------------------------------------------------------------------------
// Wire-format records and their decoded forms
// ---------------------------------------------------------------------------

/// The archive status a remote record reports. Once deleted it never moves
/// backward; the decoder only reads whatever the source states.
#[derive(Debug, Clone, Copy, PartialEq, Eq, Structural)]
pub enum PocketItemStatus {
    Normal,
    Archived,
    Deleted,
}

/// What decoding the string-encoded status yields: `"0"` normal, `"1"`
/// archived, `"2"` deleted, anything else a decode failure.
pub open spec fn spec_parse_status(s: Seq<char>) -> Option<PocketItemStatus> {
    if s == seq!['0'] {
        Some(PocketItemStatus::Normal)
    } else if s == seq!['1'] {
        Some(PocketItemStatus::Archived)
    } else if s == seq!['2'] {
        Some(PocketItemStatus::Deleted)
    } else {
        None
    }
}

/// Decode the string-encoded status field.
pub fn parse_status(s: &str) -> (r: Option<PocketItemStatus>)
    ensures
        r == spec_parse_status(s@),
{
    let n = s.unicode_len();
    if n == 1 {
        let c = s.get_char(0);
        if c == '0' {
            proof {
                assert(s@ =~= seq!['0']);
            }
            Some(PocketItemStatus::Normal)
        } else if c == '1' {
            proof {
                assert(s@ =~= seq!['1']);
            }
            Some(PocketItemStatus::Archived)
        } else if c == '2' {
            proof {
                assert(s@ =~= seq!['2']);
            }
            Some(PocketItemStatus::Deleted)
        } else {
            proof {
                assert(s@[0] != seq!['0'][0] && s@[0] != seq!['1'][0] && s@[0] != seq!['2'][0]);
            }
            None
        }
    } else {
        proof {
            assert(seq!['0'].len() == 1 && seq!['1'].len() == 1 && seq!['2'].len() == 1);
        }
        None
    }
}

/// A tag association as the remote source transmits it: the item identifier
/// is a decimal string.
#[derive(Debug, Clone)]
pub struct RawItemTag {
    pub item_id: String,
    pub tag: String,
}

/// A tag association with its identifier decoded.
#[derive(Debug, Clone)]
pub struct ItemTag {
    pub item_id: u64,
    pub tag: String,
}

/// A remote record as transmitted: integers, booleans and timestamps are
/// decimal strings, URLs may be absent or malformed, and the tag list is a
/// keyed map that may be absent or empty.
#[derive(Debug, Clone)]
pub struct RawPocketItem {
    pub item_id: String,
    pub given_url: Option<String>,
    pub given_title: String,
    pub time_added: String,
    pub time_read: String,
    pub time_updated: String,
    pub time_favorited: String,
    pub favorite: String,
    pub resolved_id: String,
    pub resolved_title: Option<String>,
    pub resolved_url: Option<String>,
    pub sort_id: u64,
    pub status: String,
    pub tags: Option<Vec<(String, RawItemTag)>>,
    pub excerpt: Option<String>,
    pub lang: Option<String>,
    pub time_to_read: Option<u64>,
    pub listen_duration_estimate: Option<u64>,
    pub amp_url: Option<String>,
    pub top_image_url: Option<String>,
}

/// A fully decoded remote record.
#[derive(Debug, Clone)]
pub struct PocketItem {
    pub item_id: u64,
    pub given_url: Option<String>,
    pub given_title: String,
    pub time_added: u64,
    pub time_read: Option<u64>,
    pub time_updated: u64,
    pub time_favorited: Option<u64>,
    pub favorite: bool,
    pub resolved_id: u64,
    pub resolved_title: Option<String>,
    pub resolved_url: Option<String>,
    pub sort_id: u64,
    pub status: PocketItemStatus,
    pub tags: Option<Vec<ItemTag>>,
    pub excerpt: Option<String>,
    pub lang: Option<String>,
    pub time_to_read: Option<u64>,
    pub listen_duration_estimate: Option<u64>,
    pub amp_url: Option<String>,
    pub top_image_url: Option<String>,
}

// ---------------------------------------------------------------------------
// The record decode relation
// ---------------------------------------------------------------------------

/// All required string-encoded fields of a raw record decode.
pub open spec fn item_ok(raw: RawPocketItem) -> bool {
    &&& is_u64_string(raw.item_id@)
    &&& is_u64_string(raw.time_added@)
    &&& is_u64_string(raw.time_updated@)
    &&& spec_parse_bool(raw.favorite@) is Some
    &&& is_u64_string(raw.resolved_id@)
    &&& spec_parse_status(raw.status@) is Some
}

/// A best-effort URL field decoded: a missing, empty or malformed value
/// becomes absent.
pub open spec fn url_field_decoded(raw: Option<String>, out: Option<String>) -> bool {
    match raw {
        None => out is None,
        Some(u) => if u@.len() > 0 && url_ok(u@) {
            out == Some(u)
        } else {
            out is None
        },
    }
}

/// One raw tag decodes: its item identifier is a decimal string.
pub open spec fn tag_ok(t: RawItemTag) -> bool {
    is_u64_string(t.item_id@)
}

/// One raw tag decoded.
pub open spec fn tag_decoded(t: RawItemTag, out: ItemTag) -> bool {
    out.item_id == dec_value(t.item_id@) && out.tag == t.tag
}

/// The optional tag map decoded: an absent or empty map, or one holding a
/// malformed entry, degrades to absent; otherwise the map's values are
/// decoded in order, whatever its keys were.
pub open spec fn tags_decoded(raw: Option<Vec<(String, RawItemTag)>>, out: Option<Vec<ItemTag>>) -> bool {
    match raw {
        None => out is None,
        Some(entries) => if entries@.len() == 0 || (exists|i: int|
            0 <= i < entries@.len() && !tag_ok(#[trigger] entries@[i].1)) {
            out is None
        } else {
            out matches Some(v) && v@.len() == entries@.len() && (forall|i: int|
                0 <= i < entries@.len() ==> tag_decoded(entries@[i].1, #[trigger] v@[i]))
        },
    }
}

/// The full decode relation between a raw record and its decoded form.
pub open spec fn item_decoded(raw: RawPocketItem, it: PocketItem) -> bool {
    &&& it.item_id == dec_value(raw.item_id@)
    &&& url_field_decoded(raw.given_url, it.given_url)
    &&& it.given_title == raw.given_title
    &&& it.time_added == dec_value(raw.time_added@)
    &&& it.time_read == spec_opt_timestamp(raw.time_read@)
    &&& it.time_updated == dec_value(raw.time_updated@)
    &&& it.time_favorited == spec_opt_timestamp(raw.time_favorited@)
    &&& Some(it.favorite) == spec_parse_bool(raw.favorite@)
    &&& it.resolved_id == dec_value(raw.resolved_id@)
    &&& it.resolved_title == raw.resolved_title
    &&& url_field_decoded(raw.resolved_url, it.resolved_url)
    &&& it.sort_id == raw.sort_id
    &&& Some(it.status) == spec_parse_status(raw.status@)
    &&& tags_decoded(raw.tags, it.tags)
    &&& it.excerpt == raw.excerpt
    &&& it.lang == raw.lang
    &&& it.time_to_read == raw.time_to_read
    &&& it.listen_duration_estimate == raw.listen_duration_estimate
    &&& url_field_decoded(raw.amp_url, it.amp_url)
    &&& url_field_decoded(raw.top_image_url, it.top_image_url)
}

/// A reported decode fault names a required field that indeed failed, and
/// carries that field's raw text.
pub open spec fn item_fault(raw: RawPocketItem, field: DecodeField, value: String) -> bool {
    match field {
        DecodeField::ItemId => !is_u64_string(raw.item_id@) && value == raw.item_id,
        DecodeField::TimeAdded => !is_u64_string(raw.time_added@) && value == raw.time_added,
        DecodeField::TimeUpdated => !is_u64_string(raw.time_updated@) && value == raw.time_updated,
        DecodeField::Favorite => spec_parse_bool(raw.favorite@) is None && value == raw.favorite,
        DecodeField::ResolvedId => !is_u64_string(raw.resolved_id@) && value == raw.resolved_id,
        DecodeField::Status => spec_parse_status(raw.status@) is None && value == raw.status,
        DecodeField::Uri => false,
    }
}

// ---------------------------------------------------------------------------
// Decoding one record
// ---------------------------------------------------------------------------

/// Clone an optional text.
fn clone_opt_string(o: &Option<String>) -> (r: Option<String>)
    ensures
        r == *o,
{
    match o {
        None => None,
        Some(s) => Some(s.clone()),
    }
}

/// Decode the optional tag map of one record; any malformed entry degrades
/// the whole field to absent rather than failing the record.
#[verifier::loop_isolation(false)]
pub fn decode_tags(raw: &Option<Vec<(String, RawItemTag)>>) -> (r: Option<Vec<ItemTag>>)
    ensures
        tags_decoded(*raw, r),
{
    match raw {
        None => None,
        Some(entries) => {
            if entries.len() == 0 {
                return None;
            }
            let mut out: Vec<ItemTag> = Vec::new();
            let mut i: usize = 0;
            while i < entries.len()
                invariant
                    0 <= i <= entries@.len(),
                    out@.len() == i,
                    forall|j: int| 0 <= j < i ==> tag_ok(#[trigger] entries@[j].1),
                    forall|j: int| 0 <= j < i ==> tag_decoded(entries@[j].1, #[trigger] out@[j]),
                decreases entries@.len() - i,
            {
                let t = &entries[i].1;
                match parse_u64(t.item_id.as_str()) {
                    Some(n) => {
                        out.push(ItemTag { item_id: n, tag: t.tag.clone() });
                    },
                    None => {
                        proof {
                            assert(i < entries@.len() && !tag_ok(entries@[i as int].1));
                            assert(exists|j: int|
                                0 <= j < entries@.len() && !tag_ok(#[trigger] entries@[j].1));
                        }
                        return None;
                    },
                }
                i += 1;
            }
            Some(out)
        },
    }
}

/// Decode one raw remote record into its typed form.
///
/// Fails exactly when a required string-encoded field (identifier, the two
/// record timestamps, the favorite flag, the resolved identifier, the
/// status) is malformed; optional fields degrade to absent instead of
/// failing the record.
pub fn decode_item(raw: &RawPocketItem) -> (r: Result<PocketItem, ApiError>)
    ensures
        r is Ok <==> item_ok(*raw),
        r matches Ok(it) ==> item_decoded(*raw, it),
        r matches Err(e) ==> (e matches ApiError::Decode { field, value } && item_fault(
            *raw,
            field,
            value,
        )),
{
    let item_id = match parse_u64(raw.item_id.as_str()) {
        Some(n) => n,
        None => {
            return Err(ApiError::Decode { field: DecodeField::ItemId, value: raw.item_id.clone() });
        },
    };
    let time_added = match parse_u64(raw.time_added.as_str()) {
        Some(n) => n,
        None => {
            return Err(
                ApiError::Decode { field: DecodeField::TimeAdded, value: raw.time_added.clone() },
            );
        },
    };
    let time_updated = match parse_u64(raw.time_updated.as_str()) {
        Some(n) => n,
        None => {
            return Err(
                ApiError::Decode {
                    field: DecodeField::TimeUpdated,
                    value: raw.time_updated.clone(),
                },
            );
        },
    };
    let favorite = match parse_bool_str(raw.favorite.as_str()) {
        Some(b) => b,
        None => {
            return Err(
                ApiError::Decode { field: DecodeField::Favorite, value: raw.favorite.clone() },
            );
        },
    };
    let resolved_id = match parse_u64(raw.resolved_id.as_str()) {
        Some(n) => n,
        None => {
            return Err(
                ApiError::Decode { field: DecodeField::ResolvedId, value: raw.resolved_id.clone() },
            );
        },
    };
    let status = match parse_status(raw.status.as_str()) {
        Some(st) => st,
        None => {
            return Err(ApiError::Decode { field: DecodeField::Status, value: raw.status.clone() });
        },
    };
    let given_url = decode_url_field(clone_opt_string(&raw.given_url));
    let resolved_url = decode_url_field(clone_opt_string(&raw.resolved_url));
    let amp_url = decode_url_field(clone_opt_string(&raw.amp_url));
    let top_image_url = decode_url_field(clone_opt_string(&raw.top_image_url));
    let time_read = parse_opt_timestamp(raw.time_read.as_str());
    let time_favorited = parse_opt_timestamp(raw.time_favorited.as_str());
    let tags = decode_tags(&raw.tags);
    Ok(
        PocketItem {
            item_id,
            given_url,
            given_title: raw.given_title.clone(),
            time_added,
            time_read,
            time_updated,
            time_favorited,
            favorite,
            resolved_id,
            resolved_title: clone_opt_string(&raw.resolved_title),
            resolved_url,
            sort_id: raw.sort_id,
            status,
            tags,
            excerpt: clone_opt_string(&raw.excerpt),
            lang: clone_opt_string(&raw.lang),
            time_to_read: raw.time_to_read,
            listen_duration_estimate: raw.listen_duration_estimate,
            amp_url,
            top_image_url,
        },
    )
}

// ---------------------------------------------------------------------------
// The fetch call
// ---------------------------------------------------------------------------

/// The endpoint of the fetch call.
pub const POCKET_GET_URL: &'static str = "https://getpocket.com/v3/get";

/// The endpoint of the add call.
pub const POCKET_ADD_URL: &'static str = "https://getpocket.com/v3/add";

/// Which archive states a fetch asks for.
#[derive(Debug, Clone, Copy, PartialEq, Eq, Structural)]
pub enum PocketGetState {
    Unread,
    Archive,
    All,
}

/// The order a fetch asks for.
#[derive(Debug, Clone, Copy, PartialEq, Eq, Structural)]
pub enum PocketGetSort {
    Newest,
    Oldest,
    Title,
    Site,
}

/// The detail level a fetch asks for.
#[derive(Debug, Clone, Copy, PartialEq, Eq, Structural)]
pub enum PocketGetDetail {
    Simple,
    Complete,
}

/// The parameters of one fetch call.
#[derive(Debug, Clone)]
pub struct PocketGetParams {
    pub state: Option<PocketGetState>,
    pub sort: Option<PocketGetSort>,
    pub detail_type: Option<PocketGetDetail>,
}

/// An authenticated request envelope: the credential pair beside the call's
/// own parameters.
#[derive(Debug, Clone)]
pub struct PocketRequest<T> {
    pub consumer_key: String,
    pub access_token: String,
    pub request: T,
}

impl<T> PocketRequest<T> {
    /// Wrap a call's parameters with the credential.
    pub fn new(secrets: &Secrets, request: T) -> (r: PocketRequest<T>)
        ensures
            r.consumer_key == secrets.consumer_key,
            r.access_token == secrets.access_token,
            r.request == request,
    {
        PocketRequest {
            consumer_key: secrets.consumer_key.clone(),
            access_token: secrets.access_token.clone(),
            request,
        }
    }
}

/// Build the fetch request: every item regardless of archive state, sorted
/// oldest first, with full detail.
pub fn get_request(secrets: &Secrets) -> (r: PocketRequest<PocketGetParams>)
    ensures
        r.consumer_key == secrets.consumer_key,
        r.access_token == secrets.access_token,
        r.request.state == Some(PocketGetState::All),
        r.request.sort == Some(PocketGetSort::Oldest),
        r.request.detail_type == Some(PocketGetDetail::Complete),
{
    PocketRequest::new(
        secrets,
        PocketGetParams {
            state: Some(PocketGetState::All),
            sort: Some(PocketGetSort::Oldest),
            detail_type: Some(PocketGetDetail::Complete),
        },
    )
}

/// A fetch response as transmitted: the item collection as a keyed map, a
/// numeric status, and an error text that is null on success.
#[derive(Debug, Clone)]
pub struct RawGetResponse {
    pub list: Vec<(String, RawPocketItem)>,
    pub status: u16,
    pub error: Option<String>,
}

/// What decoding a fetch response yields.
///
/// A non-null error text is a protocol failure even on HTTP success and
/// yields no items. Otherwise every record must decode: one malformed
/// required field aborts the whole fetch rather than silently dropping
/// records, since it usually signals a source API change.
pub open spec fn get_response_decoded(
    raw: RawGetResponse,
    r: Result<Vec<PocketItem>, ApiError>,
) -> bool {
    match r {
        Ok(v) => {
            &&& raw.error is None
            &&& forall|i: int| 0 <= i < raw.list@.len() ==> item_ok(#[trigger] raw.list@[i].1)
            &&& v@.len() == raw.list@.len()
            &&& forall|i: int|
                0 <= i < raw.list@.len() ==> item_decoded(raw.list@[i].1, #[trigger] v@[i])
        },
        Err(e) => match raw.error {
            Some(m) => e matches ApiError::Protocol { message } && message == m,
            None => e matches ApiError::Decode { field, value } && (exists|i: int|
                0 <= i < raw.list@.len() && item_fault(#[trigger] raw.list@[i].1, field, value)),
        },
    }
}

/// Decode a fetch response into the typed records it carries.
pub fn decode_get_response(raw: &RawGetResponse) -> (r: Result<Vec<PocketItem>, ApiError>)
    ensures
        get_response_decoded(*raw, r),
{
    match &raw.error {
        Some(m) => Err(ApiError::Protocol { message: m.clone() }),
        None => {
            let mut out: Vec<PocketItem> = Vec::new();
            let mut i: usize = 0;
            while i < raw.list.len()
                invariant
                    0 <= i <= raw.list@.len(),
                    out@.len() == i,
                    raw.error is None,
                    forall|j: int| 0 <= j < i ==> item_ok(#[trigger] raw.list@[j].1),
                    forall|j: int|
                        0 <= j < i ==> item_decoded(raw.list@[j].1, #[trigger] out@[j]),
                decreases raw.list@.len() - i,
            {
                match decode_item(&raw.list[i].1) {
                    Ok(it) => {
                        out.push(it);
                    },
                    Err(e) => {
                        return Err(e);
                    },
                }
                i += 1;
            }
            Ok(out)
        },
    }
}

// ---------------------------------------------------------------------------
// The add call
// ---------------------------------------------------------------------------

/// One new item to submit: the link is required, title and tag list
/// optional.
#[derive(Debug, Clone)]
pub struct PocketAddRequest {
    pub url: String,
    pub title: Option<String>,
    pub tags: Option<Vec<String>>,
}

impl PocketAddRequest {
    /// The tag list as the wire asks for it: comma-joined, or omitted
    /// entirely when absent.
    pub fn tags_field(&self) -> (r: Option<String>)
        ensures
            self.tags is None ==> r is None,
            self.tags matches Some(ts) ==> (r matches Some(j) && j@ == comma_joined(
                ts@.map_values(|t: String| t@),
            )),
    {
        encode_tags_field(&self.tags)
    }
}

/// The nested object of an add response.
#[derive(Debug, Clone)]
pub struct RawAddItem {
    pub item_id: Option<String>,
}

/// An add response as transmitted: the source may omit the nested object,
/// its identifier, or send one that is not numeric.
#[derive(Debug, Clone)]
pub struct RawAddResponse {
    pub item: Option<RawAddItem>,
}

/// What decoding an add response yields: the newly assigned identifier sits
/// nested as a decimal string; a missing level or a non-numeric value is an
/// add failure even though the HTTP call itself succeeded.
pub open spec fn add_response_decoded(raw: RawAddResponse, r: Result<u64, ApiError>) -> bool {
    match raw.item {
        None => r matches Err(ApiError::AddShape { fault }) && fault == AddFault::MissingItem,
        Some(item) => match item.item_id {
            None => r matches Err(ApiError::AddShape { fault }) && fault
                == AddFault::MissingItemId,
            Some(s) => if is_u64_string(s@) {
                r matches Ok(n) && n == dec_value(s@)
            } else {
                r matches Err(ApiError::AddShape { fault }) && fault == AddFault::BadItemId
            },
        },
    }
}

/// Decode the add response's nested identifier.
pub fn decode_add_response(raw: &RawAddResponse) -> (r: Result<u64, ApiError>)
    ensures
        add_response_decoded(*raw, r),
{
    match &raw.item {
        None => Err(ApiError::AddShape { fault: AddFault::MissingItem }),
        Some(item) => match &item.item_id {
            None => Err(ApiError::AddShape { fault: AddFault::MissingItemId }),
            Some(s) => match parse_u64(s.as_str()) {
                Some(n) => Ok(n),
                None => Err(ApiError::AddShape { fault: AddFault::BadItemId }),
            },
        },
    }
}

/// Classify the transport-level status of a response: 2xx is success,
/// anything else a transport failure.
pub fn check_http_status(status: u16) -> (r: Result<(), ApiError>)
    ensures
        r is Ok <==> 200 <= status < 300,
        r matches Err(e) ==> (e matches ApiError::Transport { status: st } && st == status),
{
    if 200 <= status && status < 300 {
        Ok(())
    } else {
        Err(ApiError::Transport { status })
    }
}

// ---------------------------------------------------------------------------
// Conversion to the canonical model
// ---------------------------------------------------------------------------

/// The canonical link of a decoded record: the given one, or the resolved
/// one when the given is absent.
pub open spec fn spec_canonical_uri(it: PocketItem) -> Option<String> {
    if it.given_url is Some {
        it.given_url
    } else {
        it.resolved_url
    }
}

/// The provider status mapped onto the canonical one.
pub open spec fn spec_canonical_status(s: PocketItemStatus) -> ItemStatus {
    match s {
        PocketItemStatus::Normal => ItemStatus::Normal,
        PocketItemStatus::Archived => ItemStatus::Archived,
        PocketItemStatus::Deleted => ItemStatus::Deleted,
    }
}

/// Convert a decoded remote record into the canonical model.
pub fn pocket_to_research_item(it: &PocketItem) -> (r: ResearchItem)
    ensures
        r.id == it.item_id,
        r.uri == spec_canonical_uri(*it),
        r.title == it.given_title,
        r.excerpt == it.excerpt,
        r.time_added == it.time_added,
        r.time_updated == it.time_updated,
        r.time_read == it.time_read,
        r.time_favorited == it.time_favorited,
        r.favorite == it.favorite,
        r.status == spec_canonical_status(it.status),
{
    let uri = match &it.given_url {
        Some(u) => Some(u.clone()),
        None => clone_opt_string(&it.resolved_url),
    };
    ResearchItem {
        id: it.item_id,
        uri,
        title: it.given_title.clone(),
        excerpt: clone_opt_string(&it.excerpt),
        time_added: it.time_added,
        time_updated: it.time_updated,
        time_read: it.time_read,
        time_favorited: it.time_favorited,
        status: match it.status {
            PocketItemStatus::Normal => ItemStatus::Normal,
            PocketItemStatus::Archived => ItemStatus::Archived,
            PocketItemStatus::Deleted => ItemStatus::Deleted,
        },
        favorite: it.favorite,
    }
}

/// The tag associations of a decoded remote record, one row per tag.
pub fn pocket_to_tags(it: &PocketItem) -> (r: Vec<Tags>)
    ensures
        it.tags is None ==> r@.len() == 0,
        it.tags matches Some(ts) ==> (r@.len() == ts@.len() && (forall|i: int|
            0 <= i < ts@.len() ==> (#[trigger] r@[i]).item_id == ts@[i].item_id && r@[i].tag
                == ts@[i].tag)),
{
    match &it.tags {
        None => Vec::new(),
        Some(ts) => {
            let mut rows: Vec<Tags> = Vec::new();
            let mut i: usize = 0;
            while i < ts.len()
                invariant
                    0 <= i <= ts@.len(),
                    rows@.len() == i,
                    forall|j: int|
                        0 <= j < i ==> (#[trigger] rows@[j]).item_id == ts@[j].item_id
                            && rows@[j].tag == ts@[j].tag,
                decreases ts@.len() - i,
            {
                rows.push(Tags { item_id: ts[i].item_id, tag: ts[i].tag.clone() });
                i += 1;
            }
            rows
        },
    }
}

impl Insertable for PocketItem {
    /// The canonical record of this item; the exact shape is stated on
    /// `pocket_to_research_item`.
    fn to_research_item(&self) -> ResearchItem {
        pocket_to_research_item(self)
    }

    /// The tag rows of this item; the exact shape is stated on
    /// `pocket_to_tags`.
    fn to_tags(&self) -> Vec<Tags> {
        pocket_to_tags(self)
    }
}

/// The remote provider: a consumer identifier, and an access token once the
/// handshake has run.
#[derive(Debug, Clone)]
pub struct ProviderPocket {
    pub consumer_key: String,
    pub access_token: Option<String>,
}

impl Provider for ProviderPocket {
    type Item = PocketItem;
}

} // verus!
