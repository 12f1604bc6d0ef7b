//! The delayed additions: when their callback fires, and the text that the
//! callback carries from scheduling back to the template.
//!
//! A delayed addition is scheduled with a payload `"<model key>:<amount>"`;
//! when the callback fires, the payload is split at its first `:` and the
//! amount is parsed back, to be added to the template.

use vstd::prelude::*;
use vstd::string::*;
use crate::decimal::{decimal, parse_outcome, parse_usize, ParseError};
use chrono::{DateTime, Utc};
use crate::web::{model_key_outcome, parse_model_key, KeyParts};

verus! {

/// A delayed addition as recorded for the scheduler: which delay it is,
/// the Unix time in seconds at which it falls due, and the amount to add.
#[derive(Clone, Copy, Debug, PartialEq, Eq, Structural)]
pub struct Delayed {
    pub id: usize,
    pub timestamp: u64,
    pub to_add: usize,
}

/// The separator between model key and amount in a callback payload.
pub open spec fn separator() -> char {
    ':'
}

/// The text a callback carries for a delayed addition.
pub open spec fn payload_text(model_key: Seq<char>, to_add: usize) -> Seq<char> {
    model_key.push(separator()) + decimal(to_add as nat)
}

/// Where `c` first stands in `text`, when it does.
pub open spec fn first_index(text: Seq<char>, c: char) -> int {
    choose|i: int| 0 <= i < text.len() && text[i] == c && !text.take(i).contains(c)
}

/// The two halves of a text split at its first `c`, if it has one.
pub open spec fn split_at_first(text: Seq<char>, c: char) -> Option<(Seq<char>, Seq<char>)> {
    if text.contains(c) {
        let i = first_index(text, c);
        Some((text.take(i), text.skip(i + 1)))
    } else {
        None
    }
}

/// The two halves of a text split at its first separator, if it has one.
pub open spec fn split_at_first_separator(text: Seq<char>) -> Option<(Seq<char>, Seq<char>)> {
    split_at_first(text, separator())
}

/// The seconds since the Unix epoch that a `u64` time stands for once read as
/// an `i64`: values past `i64::MAX` wrap around to negative ones.
pub open spec fn as_signed_seconds(t: u64) -> int {
    if t <= i64::MAX {
        t as int
    } else {
        t as int - 0x1_0000_0000_0000_0000
    }
}

/// The first second that a UTC date-time can stand for
/// (January 1 of the year -262143).
pub const MIN_UTC_SECONDS: i64 = -8334601228800;

/// The last second that a UTC date-time can stand for
/// (December 31 of the year 262142, 23:59:59).
pub const MAX_UTC_SECONDS: i64 = 8210266876799;

/// Reads a `u64` time as signed seconds, wrapping as an `as i64` cast does.
pub fn signed_seconds(t: u64) -> (s: i64)
    ensures
        s == as_signed_seconds(t),
{
    if t <= 0x7fff_ffff_ffff_ffff {
        t as i64
    } else {
        (t - 0x8000_0000_0000_0000) as i64 - 0x7fff_ffff_ffff_ffff - 1
    }
}

/// The payload of the callback for a delayed addition on `model_key`.
pub fn callback_payload(model_key: &str, to_add: usize) -> (p: String)
    ensures
        p@ == payload_text(model_key@, to_add),
{
    proof {
        reveal_strlit(":");
    }
    let text = String::from_str(model_key).concat(":");
    assert(text@ == model_key@.push(separator()));
    text.concat(crate::decimal::to_decimal(to_add).as_str())
}

/// Splits a text at its first `c`.
pub fn split_at_char(data: &str, c: char) -> (r: Option<(String, String)>)
    ensures
        match r {
            None => split_at_first(data@, c) is None,
            Some((before, after)) => split_at_first(data@, c) == Some((before@, after@)),
        },
{
    let len = data.unicode_len();
    let mut i: usize = 0;
    while i < len
        invariant
            i <= len,
            len == data@.len(),
            !data@.take(i as int).contains(c),
        decreases len - i,
    {
        if data.get_char(i) == c {
            let before = data.substring_char(0, i);
            let after = data.substring_char(i + 1, len);
            proof {
                let t = data@;
                assert(t.contains(c));
                assert(t[i as int] == c && !t.take(i as int).contains(c));
                let j = first_index(t, c);
                if j < i {
                    assert(t.take(i as int)[j] == c);
                } else if j > i {
                    assert(t.take(j)[i as int] == c);
                }
                assert(j == i);
                assert(before@ =~= t.take(i as int));
                assert(after@ =~= t.skip(i + 1));
                assert(split_at_first(t, c) == Some((t.take(j), t.skip(j + 1))));
            }
            return Some((String::from_str(before), String::from_str(after)));
        }
        assert(data@.take(i + 1) =~= data@.take(i as int).push(data@[i as int]));
        i = i + 1;
    }
    assert(data@.take(len as int) =~= data@);
    None
}

/// Splits a callback payload at its first `:` into model key and amount text.
pub fn split_payload(data: &str) -> (r: Option<(String, String)>)
    ensures
        match r {
            None => split_at_first_separator(data@) is None,
            Some((key, value)) => split_at_first_separator(data@) == Some((key@, value@)),
        },
{
    split_at_char(data, ':')
}

/// Splitting the payload of a delayed addition gives back its model key and
/// the decimal text of its amount, provided the model key holds no `:`; and
/// parsing that text gives back the amount.
pub proof fn law_payload_round_trip(model_key: Seq<char>, to_add: usize)
    requires
        !model_key.contains(separator()),
    ensures
        split_at_first_separator(payload_text(model_key, to_add)) == Some(
            (model_key, decimal(to_add as nat)),
        ),
        parse_outcome(decimal(to_add as nat)) == Ok::<nat, ParseError>(to_add as nat),
{
    let t = payload_text(model_key, to_add);
    let n = model_key.len() as int;
    assert(t[n] == separator());
    assert(t.contains(separator()));
    assert(t.take(n) =~= model_key);
    assert(!t.take(n).contains(separator()));
    let j = first_index(t, separator());
    if j < n {
        assert(model_key[j] == separator());
    } else if j > n {
        assert(t.take(j)[n] == separator());
    }
    assert(j == n);
    assert(t.skip(n + 1) =~= decimal(to_add as nat));
    assert(split_at_first(t, separator()) == Some((t.take(j), t.skip(j + 1))));
    crate::decimal::law_parse_decimal(to_add);
}

/// `chrono::DateTime::<Utc>::from_timestamp(secs, 0)`, handed back as the
/// `timestamp()` of the date-time it builds. Per chrono's source it builds
/// one exactly when the date falls between January 1 of -262143 and
/// December 31 of 262142, that is when `secs` lies in
/// `MIN_UTC_SECONDS..=MAX_UTC_SECONDS`; chrono documents that the timestamp
/// of the result is `secs` again.
#[verifier::external_body]
fn utc_timestamp(secs: i64) -> (r: Option<i64>)
    ensures
        r is Some <==> MIN_UTC_SECONDS <= secs <= MAX_UTC_SECONDS,
        r matches Some(t) ==> t == secs,
{
    DateTime::<Utc>::from_timestamp(secs, 0).map(|d| d.timestamp())
}

/// The text of the error `String::from_utf8` gives for bytes that are not
/// valid UTF-8 (its `to_string()`, which names where decoding stopped).
pub uninterp spec fn utf8_error_text(bytes: Seq<u8>) -> Seq<char>;

/// `String::from_utf8`: the text the bytes encode, when they are valid
/// UTF-8; on failure, the `to_string()` of its error, named `utf8_error_text`.
#[verifier::external_body]
fn string_from_utf8(bytes: Vec<u8>) -> (r: Result<String, String>)
    ensures
        r is Ok <==> vstd::utf8::valid_utf8(bytes@),
        r matches Ok(s) ==> s@ == vstd::utf8::decode_utf8(bytes@),
        r matches Err(m) ==> m@ == utf8_error_text(bytes@),
{
    String::from_utf8(bytes).map_err(|e| e.to_string())
}

/// When the callback of a delayed addition fires, in seconds since the Unix
/// epoch: its due time read as signed seconds, when a UTC date-time can
/// stand for it.
pub fn callback_time(delayed: &Delayed) -> (r: Option<i64>)
    ensures
        r is Some <==> MIN_UTC_SECONDS <= as_signed_seconds(delayed.timestamp)
            <= MAX_UTC_SECONDS,
        r matches Some(t) ==> t == as_signed_seconds(delayed.timestamp),
{
    utc_timestamp(signed_seconds(delayed.timestamp))
}

/// The text of the error when a payload has no separator.
pub open spec fn cannot_split_text(data: Seq<char>) -> Seq<char> {
    "cannot split: "@ + data
}

/// Reads the payload of a fired callback: its text, split at the first `:`
/// into model key and amount text.
pub fn read_payload(payload: Vec<u8>) -> (r: Result<(String, String), String>)
    ensures
        !vstd::utf8::valid_utf8(payload@) ==> (r matches Err(m) && m@ == utf8_error_text(
            payload@,
        )),
        vstd::utf8::valid_utf8(payload@) ==> {
            let data = vstd::utf8::decode_utf8(payload@);
            match r {
                Ok((key, value)) => split_at_first_separator(data) == Some((key@, value@)),
                Err(message) => split_at_first_separator(data) is None && message@
                    == cannot_split_text(data),
            }
        },
{
    let data = match string_from_utf8(payload) {
        Ok(data) => data,
        Err(message) => return Err(message),
    };
    match split_payload(data.as_str()) {
        Some(parts) => Ok(parts),
        None => Err(String::from_str("cannot split: ").concat(data.as_str())),
    }
}

/// The text of the error when the amount of a payload does not parse.
pub open spec fn bad_value_text(e: ParseError) -> Seq<char> {
    "bad to add value "@ + e.message()
}

/// Parses the amount text of a payload.
pub fn parse_to_add(value: &str) -> (r: Result<usize, String>)
    ensures
        match r {
            Ok(n) => parse_outcome(value@) == Ok::<nat, ParseError>(n as nat),
            Err(message) => parse_outcome(value@) matches Err(e) && message@ == bad_value_text(e),
        },
{
    match parse_usize(value) {
        Ok(n) => Ok(n),
        Err(e) => {
            let message = String::from_str("bad to add value ").concat(e.to_string().as_str());
            assert(parse_outcome(value@) == Err::<nat, ParseError>(e) && message@ == bad_value_text(e));
            Err(message)
        },
    }
}

/// How many seconds to sleep before completing a delayed addition due at
/// `timestamp` when the clock reads `now`: the signed difference of the two
/// read as `i64`, kept to its low 32 bits when positive, and zero otherwise.
pub open spec fn wait_seconds(timestamp: u64, now: u64) -> int {
    let d = as_signed_seconds(timestamp) - as_signed_seconds(now);
    if d > 0 {
        d % 0x1_0000_0000
    } else {
        0
    }
}

/// The number of seconds to wait before a delayed addition falls due.
pub fn seconds_to_wait(timestamp: u64, now: u64) -> (s: u32)
    requires
        i64::MIN <= as_signed_seconds(timestamp) - as_signed_seconds(now) <= i64::MAX,
    ensures
        s == wait_seconds(timestamp, now),
{
    let d = signed_seconds(timestamp) - signed_seconds(now);
    if d > 0 {
        ((d as u64) % 0x1_0000_0000) as u32
    } else {
        0
    }
}

/// The text of the error when the model key of a payload is refused.
pub open spec fn bad_model_key_text(e: Seq<char>) -> Seq<char> {
    "bad model_key: "@ + e
}

/// Everything the text of a fired callback's payload can give, in the order
/// it is checked: the stream name and id of the template, with the amount to
/// add to it, or the first error.
pub open spec fn text_outcome(data: Seq<char>) -> Result<(Seq<char>, u128, nat), Seq<char>> {
    match split_at_first_separator(data) {
        None => Err(cannot_split_text(data)),
        Some((key, value)) => match model_key_outcome(key) {
            Err(e) => Err(bad_model_key_text(e)),
            Ok((name, id)) => match parse_outcome(value) {
                Ok(n) => Ok((name, id, n)),
                Err(e) => Err(bad_value_text(e)),
            },
        },
    }
}

/// Everything a fired callback's payload can give: its text's outcome, or
/// the error when it is not UTF-8.
pub open spec fn payload_outcome(payload: Seq<u8>) -> Result<(Seq<char>, u128, nat), Seq<char>> {
    if !vstd::utf8::valid_utf8(payload) {
        Err(utf8_error_text(payload))
    } else {
        text_outcome(vstd::utf8::decode_utf8(payload))
    }
}

/// Resolves the payload of a fired callback into the key of the template
/// and the amount to add to it.
pub fn resolve_payload(payload: Vec<u8>) -> (r: Result<(KeyParts, usize), String>)
    ensures
        match r {
            Ok((k, n)) => payload_outcome(payload@) == Ok::<
                (Seq<char>, u128, nat),
                Seq<char>,
            >((k.stream_name@, k.stream_id, n as nat)),
            Err(m) => payload_outcome(payload@) == Err::<(Seq<char>, u128, nat), Seq<char>>(m@),
        },
{
    let ghost bytes = payload@;
    let (key, value) = read_payload(payload)?;
    let parts = match parse_model_key(key.as_str()) {
        Ok(k) => k,
        Err(e) => {
            return Err(String::from_str("bad model_key: ").concat(e.as_str()));
        },
    };
    let to_add = parse_to_add(value.as_str())?;
    Ok((parts, to_add))
}

/// The payload of a delayed addition resolves back to the template it was
/// scheduled for and to its amount: written as UTF-8 from a model key that
/// holds no `:`, it gives the stream name and id the key text names, and the
/// amount; a key text that does not name a template gives its error.
pub proof fn law_payload_resolves_to_key(model_key: Seq<char>, to_add: usize)
    requires
        !model_key.contains(separator()),
    ensures
        payload_outcome(vstd::utf8::encode_utf8(payload_text(model_key, to_add))) == match model_key_outcome(model_key) {
            Ok((name, id)) => Ok::<(Seq<char>, u128, nat), Seq<char>>((name, id, to_add as nat)),
            Err(e) => Err(bad_model_key_text(e)),
        },
{
    let text = payload_text(model_key, to_add);
    vstd::utf8::encode_utf8_valid_utf8(text);
    vstd::utf8::encode_utf8_decode_utf8(text);
    law_payload_round_trip(model_key, to_add);
}


/// For a due time later than now by `d` seconds, with both times within
/// `i64` and `d` below 2^32, the wait is exactly `d`: now plus the wait is
/// the due time. A due time not later than now means no wait.
pub proof fn law_wait_until_due(timestamp: u64, now: u64)
    ensures
        timestamp <= i64::MAX && now <= i64::MAX && now < timestamp && timestamp - now
            < 0x1_0000_0000 ==> now + wait_seconds(timestamp, now) == timestamp,
        timestamp <= i64::MAX && now <= i64::MAX && timestamp <= now ==> wait_seconds(
            timestamp,
            now,
        ) == 0,
{
}

} // verus!
