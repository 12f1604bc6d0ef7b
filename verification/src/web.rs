//! What the web front of the service reads from its requests: the visitor's
//! id from the `uuid` cookie or from the path, and the versioned path of the
//! client script.

use vstd::prelude::*;
use vstd::string::*;
use crate::delay::{first_index, split_at_char, split_at_first};

verus! {

/// The part of `text` after its last `c`, or all of `text` if it holds no `c`.
pub open spec fn after_last(text: Seq<char>, c: char) -> Seq<char>
    decreases text.len(),
{
    if text.len() == 0 {
        text
    } else if text.last() == c {
        Seq::empty()
    } else {
        after_last(text.drop_last(), c).push(text.last())
    }
}

/// The id held by the `uuid` cookie, given the cookie's text `uuid=<id>`:
/// what follows the last `=`.
pub fn uuid_from_cookie(text: &str) -> (id: String)
    ensures
        id@ == after_last(text@, '='),
{
    let len = text.unicode_len();
    let mut i: usize = len;
    assert(text@.take(len as int) =~= text@);
    assert(text@.skip(len as int) =~= Seq::<char>::empty());
    assert(after_last(text@, '=') =~= after_last(text@, '=') + Seq::<char>::empty());
    while i > 0
        invariant
            i <= len,
            len == text@.len(),
            after_last(text@, '=') == after_last(text@.take(i as int), '=') + text@.skip(
                i as int,
            ),
            forall|j: int| i <= j < len ==> text@[j] != '=',
        decreases i,
    {
        if text.get_char(i - 1) == '=' {
            let id = text.substring_char(i, len);
            assert(text@.take(i as int).last() == '=');
            assert(after_last(text@.take(i as int), '=') =~= Seq::<char>::empty());
            assert(id@ =~= text@.skip(i as int));
            return String::from_str(id);
        }
        assert(text@.take(i as int).drop_last() =~= text@.take(i - 1));
        assert(text@.skip(i - 1) =~= seq![text@[i - 1]] + text@.skip(i as int));
        assert(after_last(text@.take(i as int), '=') == after_last(text@.take(i - 1), '=').push(
            text@[i - 1],
        ));
        assert(after_last(text@.take(i - 1), '=').push(text@[i - 1]) + text@.skip(i as int)
            =~= after_last(text@.take(i - 1), '=') + text@.skip(i - 1));
        i = i - 1;
    }
    assert(text@.take(0) =~= Seq::<char>::empty());
    assert(text@.skip(0) =~= text@);
    String::from_str(text)
}

/// The text of the error when the request has no `uuid` cookie.
pub open spec fn no_cookie_text() -> Seq<char> {
    "no cookies"@
}

/// The visitor's id from the text of the `uuid` cookie, if the request has one.
pub fn uuid_from_cookies(cookie: Option<&str>) -> (r: Result<String, String>)
    ensures
        match cookie {
            None => r matches Err(message) && message@ == no_cookie_text(),
            Some(text) => r matches Ok(id) && id@ == after_last(text@, '='),
        },
{
    match cookie {
        None => Err(String::from_str("no cookies")),
        Some(text) => Ok(uuid_from_cookie(text)),
    }
}

/// The id held by a cookie written as `uuid=<id>` is read back, provided the
/// id holds no `=`.
pub proof fn law_cookie_round_trip(id: Seq<char>)
    requires
        !id.contains('='),
    ensures
        after_last("uuid="@ + id, '=') == id,
    decreases id.len(),
{
    reveal_strlit("uuid=");
    if id.len() == 0 {
        let t = "uuid="@ + id;
        assert(t.last() == '=');
    } else {
        let t = "uuid="@ + id;
        assert(!id.drop_last().contains('=')) by {
            if id.drop_last().contains('=') {
                let k = choose|k: int| 0 <= k < id.drop_last().len() && id.drop_last()[k] == '=';
                assert(id[k] == '=');
            }
        }
        law_cookie_round_trip(id.drop_last());
        assert(t.drop_last() =~= "uuid="@ + id.drop_last());
        assert(t.last() == id.last());
        assert(id.drop_last().push(id.last()) =~= id);
    }
}

/// What the `uuid` crate reads from a text: the 128-bit value of the UUID it
/// writes (32 hex digits, hyphenated, braced or as a URN), or the
/// `to_string()` of the error it gives.
pub uninterp spec fn uuid_parse(text: Seq<char>) -> Result<u128, Seq<char>>;

/// The view of a parsed UUID or of its error.
pub open spec fn uuid_result_view(r: Result<u128, String>) -> Result<u128, Seq<char>> {
    match r {
        Ok(v) => Ok(v),
        Err(m) => Err(m@),
    }
}

/// `uuid::Uuid::parse_str`, handed back as the UUID's 128-bit value, or as
/// the text of its error; both are `uuid_parse` of the text.
#[verifier::external_body]
fn parse_uuid(text: &str) -> (r: Result<u128, String>)
    ensures
        uuid_result_view(r) == uuid_parse(text@),
{
    uuid::Uuid::parse_str(text).map(|u| u.as_u128()).map_err(|e| e.to_string())
}

/// The visitor's id given in a request path, as the value of the UUID it
/// writes, or the text of the error when it writes none.
pub fn parse_model_id(id: &str) -> (r: Result<u128, String>)
    ensures
        uuid_result_view(r) == uuid_parse(id@),
{
    parse_uuid(id)
}

/// The stream name and id text of a model key written as `<name>-<id>`:
/// the text is cut at its first `-`; with no `-`, all of it is the name and
/// the id text is empty.
pub open spec fn key_halves(text: Seq<char>) -> (Seq<char>, Seq<char>) {
    match split_at_first(text, '-') {
        Some(halves) => halves,
        None => (text, Seq::empty()),
    }
}

/// What `horfimbor_eventsource`'s `ModelKey::try_from` reads from a text:
/// the stream name before the first `-` and the UUID written after it, or
/// the text of its error, `uuid error` then the UUID's error in backquotes.
pub open spec fn model_key_outcome(text: Seq<char>) -> Result<(Seq<char>, u128), Seq<char>> {
    let (name, id_text) = key_halves(text);
    match uuid_parse(id_text) {
        Ok(id) => Ok((name, id)),
        Err(e) => Err("uuid error`"@ + e + "`"@),
    }
}

/// The key of an entity, as plain values: its stream name and the 128-bit
/// value of its UUID.
#[derive(Clone, Debug, PartialEq, Eq)]
pub struct KeyParts {
    pub stream_name: String,
    pub stream_id: u128,
}

/// The key of the entity an event stream id or a callback payload names,
/// read as `ModelKey::try_from` reads it.
pub fn parse_model_key(text: &str) -> (r: Result<KeyParts, String>)
    ensures
        match r {
            Ok(k) => model_key_outcome(text@) == Ok::<(Seq<char>, u128), Seq<char>>(
                (k.stream_name@, k.stream_id),
            ),
            Err(m) => model_key_outcome(text@) == Err::<(Seq<char>, u128), Seq<char>>(m@),
        },
{
    let (name, id_text) = match split_at_char(text, '-') {
        Some(halves) => halves,
        None => (String::from_str(text), String::new()),
    };
    match parse_model_id(id_text.as_str()) {
        Ok(id) => Ok(KeyParts { stream_name: name, stream_id: id }),
        Err(e) => Err(String::from_str("uuid error`").concat(e.as_str()).concat("`")),
    }
}

/// The text with every `.` turned into `-`.
pub open spec fn dots_to_dashes(text: Seq<char>) -> Seq<char> {
    text.map_values(|c: char| if c == '.' { '-' } else { c })
}

/// The path of the client script built for a package version:
/// `/template/index-v<version with dashes for dots>.js`.
pub open spec fn script_path_text(version: Seq<char>) -> Seq<char> {
    "/template/index-v"@ + dots_to_dashes(version) + ".js"@
}

/// The path of the client script built for `version`.
pub fn script_path(version: &str) -> (path: String)
    ensures
        path@ == script_path_text(version@),
{
    let len = version.unicode_len();
    let mut out = String::from_str("/template/index-v");
    let ghost prefix = out@;
    let mut i: usize = 0;
    while i < len
        invariant
            i <= len,
            len == version@.len(),
            prefix == "/template/index-v"@,
            out@ == prefix + dots_to_dashes(version@.take(i as int)),
        decreases len - i,
    {
        let c = version.get_char(i);
        let ghost before = out@;
        let ghost shown = if c == '.' { '-' } else { c };
        if c == '.' {
            proof {
                reveal_strlit("-");
            }
            assert("-"@ =~= seq!['-']);
            out.append("-");
        } else {
            let piece = version.substring_char(i, i + 1);
            assert(piece@ =~= seq![c]);
            out.append(piece);
        }
        assert(out@ =~= before.push(shown));
        assert(dots_to_dashes(version@.take(i + 1)) =~= dots_to_dashes(version@.take(i as int)).push(
            if c == '.' { '-' } else { c },
        ));
        assert(prefix + dots_to_dashes(version@.take(i as int)).push(shown) =~= (prefix
            + dots_to_dashes(version@.take(i as int))).push(shown));
        i = i + 1;
    }
    assert(version@.take(len as int) =~= version@);
    out.concat(".js")
}


/// A key written as `<name>-<id text>`, with no `-` in the name, names the
/// stream `name` and the UUID the id text parses to; when the id text is no
/// UUID, the key is refused with the UUID's error.
pub proof fn law_model_key_names_its_uuid(name: Seq<char>, id_text: Seq<char>)
    requires
        !name.contains('-'),
    ensures
        uuid_parse(id_text) matches Ok(v) ==> model_key_outcome(name.push('-') + id_text) == Ok::<
            (Seq<char>, u128),
            Seq<char>,
        >((name, v)),
        uuid_parse(id_text) matches Err(e) ==> model_key_outcome(name.push('-') + id_text)
            == Err::<(Seq<char>, u128), Seq<char>>("uuid error`"@ + e + "`"@),
{
    let t = name.push('-') + id_text;
    let n = name.len() as int;
    assert(t[n] == '-');
    assert(t.contains('-'));
    assert(t.take(n) =~= name);
    assert(!t.take(n).contains('-'));
    let j = first_index(t, '-');
    if j < n {
        assert(name[j] == '-');
    } else if j > n {
        assert(t.take(j)[n] == '-');
    }
    assert(j == n);
    assert(t.skip(n + 1) =~= id_text);
    assert(key_halves(t) == (name, id_text));
}


/// The id read from a cookie is the end of its text after the last `=`: it
/// holds no `=`, it is a suffix of the text, and when the text holds an `=`
/// the character before that suffix is the `=`.
pub proof fn law_cookie_id_is_last_part(text: Seq<char>)
    ensures
        !after_last(text, '=').contains('='),
        after_last(text, '=').len() <= text.len(),
        after_last(text, '=') == text.skip(text.len() - after_last(text, '=').len()),
        text.contains('=') ==> text[text.len() - after_last(text, '=').len() - 1] == '=',
        !text.contains('=') ==> after_last(text, '=') == text,
    decreases text.len(),
{
    if text.len() == 0 {
        assert(text.skip(0) =~= text);
    } else if text.last() == '=' {
        assert(text.skip(text.len() as int) =~= Seq::<char>::empty());
    } else {
        let rest = text.drop_last();
        law_cookie_id_is_last_part(rest);
        let a = after_last(rest, '=');
        assert(after_last(text, '=') == a.push(text.last()));
        assert(!a.push(text.last()).contains('=')) by {
            if a.push(text.last()).contains('=') {
                let k = choose|k: int| 0 <= k < a.push(text.last()).len() && a.push(text.last())[k] == '=';
                if k < a.len() {
                    assert(a[k] == '=');
                }
            }
        }
        assert(a.push(text.last()) =~= text.skip(text.len() - a.len() - 1));
        if text.contains('=') {
            let k = choose|k: int| 0 <= k < text.len() && text[k] == '=';
            assert(k < text.len() - 1);
            assert(rest[k] == '=');
        } else {
            assert forall|k: int| 0 <= k < rest.len() implies rest[k] != '=' by {
                assert(text[k] == rest[k]);
            }
            assert(!rest.contains('='));
            assert(text =~= rest.push(text.last()));
        }
    }
}

/// The script path keeps the version's length and every character but `.`,
/// which becomes `-`, between `/template/index-v` and `.js`.
pub proof fn law_script_path_shape(version: Seq<char>)
    ensures
        dots_to_dashes(version).len() == version.len(),
        forall|i: int|
            0 <= i < version.len() ==> #[trigger] dots_to_dashes(version)[i] == (if version[i]
                == '.' {
                '-'
            } else {
                version[i]
            }),
        !dots_to_dashes(version).contains('.'),
        script_path_text(version) == "/template/index-v"@ + dots_to_dashes(version) + ".js"@,
{
    let d = dots_to_dashes(version);
    assert(!d.contains('.')) by {
        if d.contains('.') {
            let k = choose|k: int| 0 <= k < d.len() && d[k] == '.';
            assert(d[k] == (if version[k] == '.' { '-' } else { version[k] }));
        }
    }
}

} // verus!
