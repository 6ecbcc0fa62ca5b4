//! The OAuth callback page: reading `code` and `state` from the URL the
//! authorization server sent the user back to, and what the page shows as
//! the login completes.

use vstd::prelude::*;
use vstd::string::*;
use vstd::utf8::{
    decode_utf8, encode_utf8, encode_utf8_decode_utf8, encode_utf8_valid_utf8, is_ascii_chars,
    is_ascii_chars_encode_utf8, valid_utf8,
};

use crate::encoding::{
    ascii_bytes, form_decode_bytes, form_encode, form_output_char, form_safe_char,
    law_form_encode_charset, lemma_form_decode_keeps_safe_bytes, lemma_form_decode_undoes_encode,
};
use crate::jose::pairs_view;
use crate::oauth::SessionData;
use crate::session::{apply_session_data, SessionState};
use crate::text::{copy_str, join2, str_eq};

verus! {

/// `s` without its leading `'?'` characters.
pub open spec fn strip_leading_question_marks(s: Seq<char>) -> Seq<char>
    decreases s.len(),
{
    if s.len() > 0 && s[0] == '?' {
        strip_leading_question_marks(s.drop_first())
    } else {
        s
    }
}

/// Removes the leading `'?'` characters of a URL's search part.
pub fn trim_question_marks(search: &str) -> (query: String)
    ensures
        query@ == strip_leading_question_marks(search@),
{
    let n = search.unicode_len();
    let mut i: usize = 0;
    assert(search@.skip(0) =~= search@);
    while i < n && search.get_char(i) == '?'
        invariant
            n == search@.len(),
            i <= n,
            strip_leading_question_marks(search@) == strip_leading_question_marks(search@.skip(i as int)),
        decreases n - i,
    {
        assert(search@.skip(i as int).drop_first() =~= search@.skip(i + 1));
        i = i + 1;
    }
    let rest = search.substring_char(i, n);
    assert(rest@ =~= search@.skip(i as int));
    copy_str(rest)
}

/// The index of the first `sep` in `bytes`, or its length when there is
/// none.
pub open spec fn first_sep(bytes: Seq<u8>, sep: u8) -> nat
    decreases bytes.len(),
{
    if bytes.len() == 0 || bytes[0] == sep {
        0
    } else {
        1 + first_sep(bytes.drop_first(), sep)
    }
}

/// `bytes` before its first `sep` (all of it when there is none).
pub open spec fn before_sep(bytes: Seq<u8>, sep: u8) -> Seq<u8> {
    bytes.take(first_sep(bytes, sep) as int)
}

/// `bytes` after its first `sep` (nothing when there is none).
pub open spec fn after_sep(bytes: Seq<u8>, sep: u8) -> Seq<u8> {
    if first_sep(bytes, sep) < bytes.len() {
        bytes.skip(first_sep(bytes, sep) as int + 1)
    } else {
        Seq::<u8>::empty()
    }
}

/// The decoded name/value pairs of a form-urlencoded byte string, as bytes:
/// the `&`-separated pieces that are not empty, each split at its first
/// `=` (a piece without one is a name with an empty value), both sides
/// form-decoded.
pub open spec fn form_raw_pairs(input: Seq<u8>) -> Seq<(Seq<u8>, Seq<u8>)>
    decreases input.len(),
{
    if input.len() == 0 {
        Seq::<(Seq<u8>, Seq<u8>)>::empty()
    } else {
        let piece = before_sep(input, 38);
        let rest = after_sep(input, 38);
        if piece.len() == 0 {
            form_raw_pairs(rest)
        } else {
            seq![(form_decode_bytes(before_sep(piece, 61)), form_decode_bytes(after_sep(piece, 61)))]
                + form_raw_pairs(rest)
        }
    }
}

/// A query whose decoded names and values are all well-formed UTF-8.
pub open spec fn form_query_is_utf8(query: Seq<char>) -> bool {
    forall|i: int|
        0 <= i < form_raw_pairs(encode_utf8(query)).len() ==> valid_utf8(
            #[trigger] form_raw_pairs(encode_utf8(query))[i].0,
        ) && valid_utf8(form_raw_pairs(encode_utf8(query))[i].1)
}

/// The pairs of a query whose decoded names and values are well-formed
/// UTF-8: its decoded pairs, as text.
pub open spec fn form_text_pairs(query: Seq<char>) -> Seq<(Seq<char>, Seq<char>)> {
    form_raw_pairs(encode_utf8(query)).map_values(
        |p: (Seq<u8>, Seq<u8>)| (decode_utf8(p.0), decode_utf8(p.1)),
    )
}

/// The name/value pairs that `form_urlencoded::parse` finds in a query
/// string, in order.
pub uninterp spec fn form_pairs(query: Seq<char>) -> Seq<(Seq<char>, Seq<char>)>;

/// Parses a query string with `url::form_urlencoded::parse`, owning the
/// pairs. Trusted. The pairs are named [`form_pairs`] of the query. As
/// that crate's source shows, the parser splits the query's bytes into
/// `&`-separated pieces, skips the empty ones, splits each at its first
/// `=`, replaces `+` by a space, percent-decodes, and turns the bytes into
/// text with `String::from_utf8_lossy`; where every decoded name and value
/// is well-formed UTF-8 that text is their decoding ([`form_text_pairs`]).
/// What the lossy decoding makes of ill-formed bytes is not stated.
#[verifier::external_body]
pub(crate) fn parse_query(query: &str) -> (pairs: Vec<(String, String)>)
    ensures
        pairs_view(pairs@) == form_pairs(query@),
        form_query_is_utf8(query@) ==> pairs_view(pairs@) == form_text_pairs(query@),
{
    url::form_urlencoded::parse(query.as_bytes()).into_owned().collect()
}

proof fn lemma_first_sep_at(bytes: Seq<u8>, sep: u8, j: int)
    requires
        0 <= j <= bytes.len(),
        forall|i: int| 0 <= i < j ==> #[trigger] bytes[i] != sep,
        j == bytes.len() || bytes[j] == sep,
    ensures
        first_sep(bytes, sep) == j,
    decreases j,
{
    if j > 0 {
        let rest = bytes.drop_first();
        assert forall|i: int| 0 <= i < j - 1 implies #[trigger] rest[i] != sep by {
            assert(rest[i] == bytes[i + 1]);
        }
        assert(bytes[0] != sep);
        lemma_first_sep_at(rest, sep, j - 1);
    }
}

/// Parsing undoes form-urlencoding: the query made of a name of form-safe
/// characters, `=`, and the form-urlencoding of any text `s` parses to the
/// one pair of that name and `s`.
pub proof fn law_parse_undoes_form_encoding(name: Seq<char>, s: Seq<char>)
    requires
        forall|i: int| 0 <= i < name.len() ==> form_safe_char(#[trigger] name[i]),
    ensures
        form_query_is_utf8(name + seq!['='] + form_encode(s)),
        form_text_pairs(name + seq!['='] + form_encode(s)) == seq![(name, s)],
{
    let enc = form_encode(s);
    let q = name + seq!['='] + enc;
    let k = name.len() as int;
    law_form_encode_charset(s);
    assert forall|i: int| 0 <= i < q.len() implies (#[trigger] q[i] == '=' && i == k) || (q[i] != '&'
        && q[i] != '=' && '\0' <= q[i] <= '\u{7f}') by {
        if i < k {
            assert(q[i] == name[i]);
            assert(form_safe_char(name[i]));
        } else if i > k {
            assert(q[i] == enc[i - k - 1]);
            assert(form_output_char(enc[i - k - 1]));
        }
    }
    assert(is_ascii_chars(q));
    is_ascii_chars_encode_utf8(q);
    let bytes = encode_utf8(q);
    assert(bytes =~= ascii_bytes(q));
    assert forall|i: int| 0 <= i < bytes.len() implies #[trigger] bytes[i] != 38 by {
        assert(q[i] as u8 == bytes[i]);
    }
    lemma_first_sep_at(bytes, 38, bytes.len() as int);
    assert forall|i: int| 0 <= i < k implies #[trigger] bytes[i] != 61 by {
        assert(q[i] as u8 == bytes[i]);
    }
    assert(bytes[k] == 61) by {
        assert(q[k] as u8 == bytes[k]);
    }
    lemma_first_sep_at(bytes, 61, k);
    let piece = before_sep(bytes, 38);
    assert(piece =~= bytes);
    assert(after_sep(bytes, 38) =~= Seq::<u8>::empty());
    assert(before_sep(piece, 61) =~= ascii_bytes(name));
    assert(after_sep(piece, 61) =~= ascii_bytes(enc));
    lemma_form_decode_keeps_safe_bytes(name);
    lemma_form_decode_undoes_encode(encode_utf8(s));
    assert(is_ascii_chars(name)) by {
        assert forall|i: int| 0 <= i < name.len() implies '\0' <= #[trigger] name[i] <= '\u{7f}' by {
            assert(form_safe_char(name[i]));
        }
    }
    is_ascii_chars_encode_utf8(name);
    assert(ascii_bytes(name) =~= encode_utf8(name));
    encode_utf8_valid_utf8(name);
    encode_utf8_valid_utf8(s);
    encode_utf8_decode_utf8(name);
    encode_utf8_decode_utf8(s);
    assert(form_decode_bytes(before_sep(piece, 61)) == encode_utf8(name));
    assert(form_decode_bytes(after_sep(piece, 61)) == encode_utf8(s));
    assert(form_raw_pairs(after_sep(bytes, 38)) =~= Seq::<(Seq<u8>, Seq<u8>)>::empty());
    assert(bytes.len() > 0);
    assert(form_raw_pairs(bytes) =~= seq![(encode_utf8(name), encode_utf8(s))]);
    assert(form_text_pairs(q) =~= seq![(name, s)]);
}

/// The pairs of a URL's search part: none for an empty search part,
/// otherwise those of the query after its leading `'?'`.
pub open spec fn search_pairs(search: Seq<char>) -> Seq<(Seq<char>, Seq<char>)> {
    if search.len() == 0 {
        Seq::<(Seq<char>, Seq<char>)>::empty()
    } else {
        form_pairs(strip_leading_question_marks(search))
    }
}

/// Reads the query pairs of a URL's search part.
pub fn extract_query_params(search: &str) -> (pairs: Vec<(String, String)>)
    ensures
        pairs_view(pairs@) == search_pairs(search@),
{
    if search.unicode_len() == 0 {
        let pairs: Vec<(String, String)> = Vec::new();
        assert(pairs_view(pairs@) =~= Seq::<(Seq<char>, Seq<char>)>::empty());
        return pairs;
    }
    let query = trim_question_marks(search);
    parse_query(query.as_str())
}

/// The value of the last pair named `key`; a later pair of the same name
/// wins over an earlier one.
pub open spec fn last_value(pairs: Seq<(Seq<char>, Seq<char>)>, key: Seq<char>) -> Option<Seq<char>>
    decreases pairs.len(),
{
    if pairs.len() == 0 {
        None
    } else if pairs.last().0 == key {
        Some(pairs.last().1)
    } else {
        last_value(pairs.drop_last(), key)
    }
}

/// Looks `key` up among `pairs` (see [`last_value`]).
pub fn param(pairs: &Vec<(String, String)>, key: &str) -> (value: Option<String>)
    ensures
        match value {
            Some(v) => last_value(pairs_view(pairs@), key@) == Some(v@),
            None => last_value(pairs_view(pairs@), key@) is None,
        },
{
    let n = pairs.len();
    let mut found: Option<String> = None;
    let mut i: usize = 0;
    while i < n
        invariant
            n == pairs@.len(),
            i <= n,
            match found {
                Some(v) => last_value(pairs_view(pairs@.take(i as int)), key@) == Some(v@),
                None => last_value(pairs_view(pairs@.take(i as int)), key@) is None,
            },
        decreases n - i,
    {
        proof {
            let s1 = pairs_view(pairs@.take(i + 1));
            assert(s1.drop_last() =~= pairs_view(pairs@.take(i as int)));
            assert(s1.last() == (pairs@[i as int].0@, pairs@[i as int].1@));
        }
        if str_eq(pairs[i].0.as_str(), key) {
            found = Some(copy_str(pairs[i].1.as_str()));
        }
        i = i + 1;
    }
    assert(pairs@.take(n as int) =~= pairs@);
    found
}

/// What the callback page does on arrival.
pub enum CallbackAction {
    /// Exchange the authorization code for a session.
    Exchange { code: String, state: String },
    /// Show this error.
    Fail { message: String },
}

/// Decides, from the URL's search part, whether the callback can go on:
/// it needs both a `code` and a `state`.
pub fn callback_action(search: &str) -> (action: CallbackAction)
    ensures
        match (last_value(search_pairs(search@), "code"@), last_value(search_pairs(search@), "state"@)) {
            (Some(c), Some(s)) => action matches CallbackAction::Exchange { code, state } && code@ == c && state@ == s,
            _ => action matches CallbackAction::Fail { message } && message@ == "Missing code or state parameter in callback URL"@,
        },
{
    let params = extract_query_params(search);
    let code = param(&params, "code");
    let state = param(&params, "state");
    match (code, state) {
        (Some(code), Some(state)) => CallbackAction::Exchange { code, state },
        _ => CallbackAction::Fail { message: copy_str("Missing code or state parameter in callback URL") },
    }
}

/// What the callback page shows: a status line, whether the login is done,
/// and an error (empty when there is none).
pub struct CallbackUi {
    pub status: String,
    pub done: bool,
    pub error: String,
}

/// The page before anything happened.
pub fn callback_ui_initial() -> (ui: CallbackUi)
    ensures
        ui.status@ == "Processing login..."@,
        !ui.done,
        ui.error@.len() == 0,
{
    CallbackUi { status: copy_str("Processing login..."), done: false, error: String::new() }
}

/// The page when the callback URL lacks what it needs.
pub fn callback_fail(ui: &mut CallbackUi, message: String)
    ensures
        final(ui).error == message,
        final(ui).status == old(ui).status,
        final(ui).done == old(ui).done,
{
    ui.error = message;
}

/// Takes the outcome of the exchange: on success the session takes in the
/// session data and the page reports success; on failure the page shows
/// the error and the session is left as it was.
pub fn callback_complete(ui: &mut CallbackUi, session: &mut SessionState, outcome: Result<SessionData, String>)
    ensures
        match outcome {
            Ok(data) => {
                &&& final(session).is_authenticated
                &&& final(session).did@ == data.did@
                &&& final(session).handle@ == data.handle@
                &&& final(session).pds_endpoint@ == data.pds_endpoint@
                &&& final(session).access_token@ == data.access_token@
                &&& final(ui).status@ == "Login successful! Redirecting..."@
                &&& final(ui).done
                &&& final(ui).error == old(ui).error
            },
            Err(e) => {
                &&& *final(session) == *old(session)
                &&& final(ui).error@ == "Login failed: "@ + e@
                &&& final(ui).status == old(ui).status
                &&& final(ui).done == old(ui).done
            },
        },
{
    match outcome {
        Ok(data) => {
            apply_session_data(session, &data);
            ui.status = copy_str("Login successful! Redirecting...");
            ui.done = true;
        },
        Err(e) => {
            ui.error = join2("Login failed: ", e.as_str());
        },
    }
}

/// The page's heading while no error is shown.
pub fn callback_heading(ui: &CallbackUi) -> (heading: &'static str)
    ensures
        heading@ == (if ui.done { "Welcome!"@ } else { "Logging in..."@ }),
{
    if ui.done {
        "Welcome!"
    } else {
        "Logging in..."
    }
}

/// Whether the page shows its error instead of the progress.
pub fn callback_shows_error(ui: &CallbackUi) -> (shows: bool)
    ensures
        shows == (ui.error@.len() > 0),
{
    ui.error.as_str().unicode_len() > 0
}

} // verus!
