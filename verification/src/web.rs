//! Trusted boundary to the `url` crate.
//!
//! URL validity and form-urlencoding are decided by the outside crate; the
//! two results are deterministic functions of their text input, so the
//! contracts here give them names that the verified decoders speak of.

use vstd::prelude::*;

verus! {

/// Whether a text parses as an absolute URL, as `url::Url::parse` decides it.
pub uninterp spec fn url_ok(s: Seq<char>) -> bool;

/// Relies on `url::Url::parse`: whether a string parses as an absolute URL
/// depends on the string alone, and the call returns an error rather than
/// panicking on malformed input.
#[verifier::external_body]
pub(crate) fn is_valid_url(s: &str) -> (r: bool)
    ensures
        r == url_ok(s@),
{
    url::Url::parse(s).is_ok()
}

/// The `application/x-www-form-urlencoded` serialization of key/value pairs.
pub uninterp spec fn form_encoded(pairs: Seq<(Seq<char>, Seq<char>)>) -> Seq<char>;

/// Relies on `url::form_urlencoded::Serializer`: percent-encodes each key and
/// value and joins them as `k1=v1&k2=v2`; the result depends on the pairs
/// alone.
#[verifier::external_body]
pub(crate) fn form_urlencode(pairs: &Vec<(String, String)>) -> (r: String)
    ensures
        r@ == form_encoded(pairs@.map_values(|p: (String, String)| (p.0@, p.1@))),
{
    let mut ser = url::form_urlencoded::Serializer::new(String::new());
    for (k, v) in pairs.iter() {
        ser.append_pair(k, v);
    }
    ser.finish()
}

} // verus!
