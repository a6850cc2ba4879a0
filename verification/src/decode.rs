//! Defensive field decoders for the remote wire format.
//!
//! The remote source transmits integers, booleans and timestamps as decimal
//! strings, optional record lists as keyed maps, and URLs that may be missing
//! or malformed. Each decoder here is a pure function from such a raw value
//! to its typed form, with an exact specification of when it succeeds.

use vstd::prelude::*;

use crate::web::is_valid_url;
use crate::web::url_ok;

verus! {

// ---------------------------------------------------------------------------
// Decimal strings
// ---------------------------------------------------------------------------

/// A decimal digit.
pub open spec fn is_digit(c: char) -> bool {
    '0' <= c && c <= '9'
}

/// The numeric value of a decimal digit.
pub open spec fn digit_value(c: char) -> nat {
    (c as int - '0' as int) as nat
}

/// A non-empty string of decimal digits.
pub open spec fn is_dec_string(s: Seq<char>) -> bool {
    s.len() > 0 && forall|i: int| 0 <= i < s.len() ==> is_digit(#[trigger] s[i])
}

/// The integer denoted by a string of decimal digits.
pub open spec fn dec_value(s: Seq<char>) -> nat
    decreases s.len(),
{
    if s.len() == 0 {
        0
    } else {
        dec_value(s.drop_last()) * 10 + digit_value(s.last())
    }
}

/// A decimal string whose value fits in a `u64`.
pub open spec fn is_u64_string(s: Seq<char>) -> bool {
    is_dec_string(s) && dec_value(s) <= u64::MAX
}

/// What decoding a string-encoded identifier yields.
pub open spec fn spec_parse_u64(s: Seq<char>) -> Option<u64> {
    if is_u64_string(s) {
        Some(dec_value(s) as u64)
    } else {
        None
    }
}

/// On a string of digits, every prefix denotes no more than the whole.
proof fn lemma_dec_value_prefix(s: Seq<char>, k: int)
    requires
        forall|i: int| 0 <= i < s.len() ==> is_digit(#[trigger] s[i]),
        0 <= k <= s.len(),
    ensures
        dec_value(s.take(k)) <= dec_value(s),
    decreases s.len(),
{
    if k == s.len() {
        assert(s.take(k) =~= s);
    } else {
        let head = s.drop_last();
        lemma_dec_value_prefix(head, k);
        assert(head.take(k) =~= s.take(k));
    }
}

/// Decode a decimal string to the integer it denotes.
///
/// Succeeds exactly on non-empty all-digit strings whose value fits in a
/// `u64`; anything else is a decode failure.
pub fn parse_u64(s: &str) -> (r: Option<u64>)
    ensures
        r == spec_parse_u64(s@),
{
    let n = s.unicode_len();
    if n == 0 {
        return None;
    }
    let mut acc: u64 = 0;
    let mut i: usize = 0;
    while i < n
        invariant
            0 <= i <= n,
            n == s@.len(),
            forall|j: int| 0 <= j < i ==> is_digit(#[trigger] s@[j]),
            acc == dec_value(s@.take(i as int)),
        decreases n - i,
    {
        let c = s.get_char(i);
        if c < '0' || c > '9' {
            return None;
        }
        let d: u64 = (c as u32 - 48) as u64;
        assert(d == digit_value(c) && d <= 9);
        if acc > (u64::MAX - d) / 10 {
            proof {
                assert(acc * 10 + d > u64::MAX) by (nonlinear_arith)
                    requires
                        acc > (u64::MAX - d) / 10,
                        d <= 9,
                ;
                assert(s@.take(i + 1).drop_last() =~= s@.take(i as int));
                assert(dec_value(s@.take(i + 1)) == acc * 10 + d);
                if is_dec_string(s@) {
                    lemma_dec_value_prefix(s@, i + 1);
                }
            }
            return None;
        }
        let next: u64 = acc * 10 + d;
        proof {
            assert(s@.take(i + 1).drop_last() =~= s@.take(i as int));
            assert(dec_value(s@.take(i + 1)) == acc * 10 + d);
        }
        acc = next;
        i += 1;
    }
    proof {
        assert(s@.take(n as int) =~= s@);
    }
    Some(acc)
}

// ---------------------------------------------------------------------------
// Re-encoding integers as decimal strings
// ---------------------------------------------------------------------------

/// The digit character for a value below ten.
pub open spec fn digit_char(d: nat) -> char {
    if d == 0 {
        '0'
    } else if d == 1 {
        '1'
    } else if d == 2 {
        '2'
    } else if d == 3 {
        '3'
    } else if d == 4 {
        '4'
    } else if d == 5 {
        '5'
    } else if d == 6 {
        '6'
    } else if d == 7 {
        '7'
    } else if d == 8 {
        '8'
    } else {
        '9'
    }
}

/// The canonical decimal encoding of an integer.
pub open spec fn dec_string_of(n: nat) -> Seq<char>
    decreases n,
{
    if n < 10 {
        seq![digit_char(n)]
    } else {
        dec_string_of(n / 10).push(digit_char(n % 10))
    }
}

/// Law: decoding the decimal encoding of an integer gives that integer back.
///
/// Together with the exact contract of `parse_u64`, this says that decoding a
/// numeric identifier and re-encoding it round-trips: the encoding is a
/// decimal string, and its decoded value is the original integer.
pub proof fn lemma_dec_round_trip(n: nat)
    ensures
        is_dec_string(dec_string_of(n)),
        dec_value(dec_string_of(n)) == n,
    decreases n,
{
    if n < 10 {
        let s = dec_string_of(n);
        assert(s.len() == 1 && s.last() == digit_char(n));
        assert(s.drop_last() =~= Seq::<char>::empty());
        assert(dec_value(Seq::<char>::empty()) == 0);
        assert(dec_value(s) == dec_value(s.drop_last()) * 10 + digit_value(s.last()));
    } else {
        lemma_dec_round_trip(n / 10);
        let head = dec_string_of(n / 10);
        let s = dec_string_of(n);
        assert(s.drop_last() =~= head);
        assert(dec_value(s) == (n / 10) * 10 + digit_value(digit_char(n % 10)));
        assert((n / 10) * 10 + n % 10 == n);
    }
}

// ---------------------------------------------------------------------------
// String-encoded booleans
// ---------------------------------------------------------------------------

/// What decoding a string-encoded boolean yields: `"0"` and `"1"` are the
/// two values, anything else is a decode failure.
pub open spec fn spec_parse_bool(s: Seq<char>) -> Option<bool> {
    if s == seq!['1'] {
        Some(true)
    } else if s == seq!['0'] {
        Some(false)
    } else {
        None
    }
}

/// Decode a string-encoded boolean.
pub fn parse_bool_str(s: &str) -> (r: Option<bool>)
    ensures
        r == spec_parse_bool(s@),
{
    let n = s.unicode_len();
    if n == 1 {
        let c = s.get_char(0);
        if c == '1' {
            proof {
                assert(s@ =~= seq!['1']);
            }
            Some(true)
        } else if c == '0' {
            proof {
                assert(s@ =~= seq!['0']);
            }
            Some(false)
        } else {
            proof {
                assert(s@[0] != seq!['1'][0] && s@[0] != seq!['0'][0]);
            }
            None
        }
    } else {
        proof {
            assert(seq!['1'].len() == 1 && seq!['0'].len() == 1);
        }
        None
    }
}

// ---------------------------------------------------------------------------
// Optional epoch-second timestamps
// ---------------------------------------------------------------------------

/// What decoding an optional epoch-seconds field yields: `"0"` means the
/// field is absent, any other decimal string is the instant itself, and a
/// malformed value degrades to absent rather than failing the record.
pub open spec fn spec_opt_timestamp(s: Seq<char>) -> Option<u64> {
    match spec_parse_u64(s) {
        Some(n) => if n == 0 {
            None
        } else {
            Some(n)
        },
        None => None,
    }
}

/// Decode an optional epoch-seconds field.
pub fn parse_opt_timestamp(s: &str) -> (r: Option<u64>)
    ensures
        r == spec_opt_timestamp(s@),
{
    match parse_u64(s) {
        Some(n) => if n == 0 {
            None
        } else {
            Some(n)
        },
        None => None,
    }
}

/// Law: an optional-timestamp string that decodes to an instant re-encodes
/// to the original integer of epoch seconds.
pub proof fn lemma_timestamp_round_trip(s: Seq<char>)
    requires
        is_u64_string(s),
        dec_value(s) != 0,
    ensures
        spec_opt_timestamp(s) == Some((dec_value(s) as u64)),
        dec_value(dec_string_of(dec_value(s))) == dec_value(s),
{
    lemma_dec_round_trip(dec_value(s));
}

// ---------------------------------------------------------------------------
// Best-effort URLs
// ---------------------------------------------------------------------------

/// Decode a best-effort URL field: a missing, empty or malformed value
/// becomes absent; the record never fails on it.
pub fn decode_url_field(raw: Option<String>) -> (r: Option<String>)
    ensures
        r matches Some(v) ==> (raw matches Some(u) && v == u && u@.len() > 0
            && url_ok(u@)),
        raw matches Some(u) && u@.len() > 0 && url_ok(u@) ==> r is Some,
        raw is None ==> r is None,
{
    match raw {
        None => None,
        Some(u) => {
            if u.as_str().is_empty() {
                None
            } else if is_valid_url(u.as_str()) {
                Some(u)
            } else {
                None
            }
        },
    }
}

// ---------------------------------------------------------------------------
// Map-encoded collections
// ---------------------------------------------------------------------------

/// Collect the values of a map-encoded collection, dropping the keys: a map
/// with N entries becomes a sequence of N records whatever its keys were.
#[verifier::loop_isolation(false)]
pub fn map_entry_values<R>(entries: Vec<(String, R)>) -> (r: Vec<R>)
    ensures
        r@ == entries@.map_values(|e: (String, R)| e.1),
{
    let ghost f: spec_fn((String, R)) -> R = |e: (String, R)| e.1;
    let mut src = entries;
    let mut out: Vec<R> = Vec::new();
    while src.len() > 0
        invariant
            out@.len() <= entries@.len(),
            src@ == entries@.skip(out@.len() as int),
            out@ == entries@.take(out@.len() as int).map_values(f),
        decreases src.len(),
    {
        let ghost i = out@.len() as int;
        proof {
            assert(src@[0] == entries@[i]);
        }
        let (_key, value) = src.remove(0);
        out.push(value);
        proof {
            assert(src@ =~= entries@.skip(i + 1));
            assert(f(entries@[i]) == entries@[i].1);
            assert(entries@.take(i + 1).map_values(f) =~= entries@.take(i).map_values(
                f,
            ).push(f(entries@[i])));
            assert(out@ =~= entries@.take(i + 1).map_values(f));
        }
    }
    proof {
        assert(entries@.take(entries@.len() as int) =~= entries@);
    }
    out
}

/// Decode a map-encoded optional collection: an absent field and an empty
/// map both mean nothing was there and decode to absent; a non-empty map
/// decodes to the sequence of its values.
pub fn optional_map_entry_values<R>(entries: Option<Vec<(String, R)>>) -> (r: Option<
    Vec<R>,
>)
    ensures
        entries is None ==> r is None,
        entries matches Some(es) && es@.len() == 0 ==> r is None,
        entries matches Some(es) && es@.len() > 0 ==> r is Some,
        r matches Some(v) ==> (entries matches Some(es) && es@.len() > 0
            && v@ == es@.map_values(|e: (String, R)| e.1)),
{
    match entries {
        None => None,
        Some(es) => {
            if es.len() == 0 {
                None
            } else {
                Some(map_entry_values(es))
            }
        },
    }
}

// ---------------------------------------------------------------------------
// Comma-joined lists (encode direction)
// ---------------------------------------------------------------------------

/// The comma-joined serialization of a sequence of texts.
pub open spec fn comma_joined(tags: Seq<Seq<char>>) -> Seq<char>
    decreases tags.len(),
{
    if tags.len() == 0 {
        Seq::empty()
    } else if tags.len() == 1 {
        tags[0]
    } else {
        comma_joined(tags.drop_last()) + seq![','] + tags.last()
    }
}

/// Join a tag list with commas, as the add request's wire form asks.
pub fn join_comma(tags: &Vec<String>) -> (r: String)
    ensures
        r@ == comma_joined(tags@.map_values(|t: String| t@)),
{
    let ghost jv = tags@.map_values(|t: String| t@);
    let mut out = String::new();
    let mut i: usize = 0;
    while i < tags.len()
        invariant
            0 <= i <= tags@.len(),
            jv == tags@.map_values(|t: String| t@),
            out@ == comma_joined(jv.take(i as int)),
        decreases tags@.len() - i,
    {
        if i > 0 {
            out.append(",");
        }
        out.append(tags[i].as_str());
        proof {
            reveal_strlit(",");
            assert(jv.take(i + 1).drop_last() =~= jv.take(i as int));
            assert(jv.take(i + 1).last() == jv[i as int]);
            if i == 0 {
                assert(out@ =~= comma_joined(jv.take(i + 1)));
            } else {
                assert(","@ =~= seq![',']);
                assert(out@ =~= comma_joined(jv.take(i as int)) + seq![','] + jv[i as int]);
            }
        }
        i += 1;
    }
    proof {
        assert(jv.take(tags@.len() as int) =~= jv);
    }
    out
}

/// Encode the optional tag list of an add request: an absent list omits the
/// field entirely; a present list is joined with commas.
pub fn encode_tags_field(tags: &Option<Vec<String>>) -> (r: Option<String>)
    ensures
        tags is None ==> r is None,
        tags matches Some(ts) ==> (r matches Some(j) && j@ == comma_joined(
            ts@.map_values(|t: String| t@),
        )),
{
    match tags {
        None => None,
        Some(ts) => Some(join_comma(ts)),
    }
}

} // verus!
