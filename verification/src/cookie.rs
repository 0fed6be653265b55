//! Extraction of the anti-forgery token and the session identifier from raw
//! `Set-Cookie` header values.
//!
//! Each value kind is matched independently, and the first header that
//! matches a kind resolves that kind; later matches are ignored. A kind with
//! no match leaves the previously known value in place, because the service
//! does not resend both values on every response.

use vstd::prelude::*;
use crate::text::CharClass;
use crate::text::capture;
use crate::text::capture_string;
use crate::text::chars_of;

verus! {

/// The capture of the token pattern in one header value: the longest run of
/// word characters between `XSRF-TOKEN=` and `;`, at the leftmost position
/// where such a run exists.
pub open spec fn token_capture_of(s: Seq<char>) -> Option<Seq<char>> {
    capture(s, "XSRF-TOKEN="@, CharClass::Word, Some(';'))
}

/// The capture of the session pattern in one header value, as
/// `token_capture_of` but for `osu_session=` values, which may be
/// percent-encoded.
pub open spec fn session_capture_of(s: Seq<char>) -> Option<Seq<char>> {
    capture(s, "osu_session="@, CharClass::WordPercent, Some(';'))
}

/// The token captured by the first header at or after `i` that matches the
/// token pattern.
pub open spec fn first_token_from(hs: Seq<Seq<char>>, i: int) -> Option<Seq<char>>
    decreases hs.len() - i when 0 <= i <= hs.len()
{
    if i >= hs.len() {
        None
    } else if token_capture_of(hs[i]) is Some {
        token_capture_of(hs[i])
    } else {
        first_token_from(hs, i + 1)
    }
}

/// The session value captured by the first header at or after `i` that
/// matches the session pattern.
pub open spec fn first_session_from(hs: Seq<Seq<char>>, i: int) -> Option<Seq<char>>
    decreases hs.len() - i when 0 <= i <= hs.len()
{
    if i >= hs.len() {
        None
    } else if session_capture_of(hs[i]) is Some {
        session_capture_of(hs[i])
    } else {
        first_session_from(hs, i + 1)
    }
}

/// The token value after a batch of headers is processed: the first capture,
/// or the previous value where no header supplies one.
pub open spec fn token_after(hs: Seq<Seq<char>>, prev: Seq<char>) -> Seq<char> {
    match first_token_from(hs, 0) {
        Some(t) => t,
        None => prev,
    }
}

/// The session value after a batch of headers is processed.
pub open spec fn session_after(hs: Seq<Seq<char>>, prev: Seq<char>) -> Seq<char> {
    match first_session_from(hs, 0) {
        Some(t) => t,
        None => prev,
    }
}

/// Extracts the anti-forgery token from one header value.
pub fn extract_token(h: &str) -> (r: Option<String>)
    ensures
        match r {
            Some(t) => token_capture_of(h@) == Some(t@),
            None => token_capture_of(h@) is None,
        },
{
    let lit = chars_of("XSRF-TOKEN=");
    proof {
        reveal_strlit("XSRF-TOKEN=");
    }
    capture_string(h, &lit, CharClass::Word, Some(';'))
}

/// Extracts the session identifier from one header value.
pub fn extract_session(h: &str) -> (r: Option<String>)
    ensures
        match r {
            Some(t) => session_capture_of(h@) == Some(t@),
            None => session_capture_of(h@) is None,
        },
{
    let lit = chars_of("osu_session=");
    proof {
        reveal_strlit("osu_session=");
    }
    capture_string(h, &lit, CharClass::WordPercent, Some(';'))
}

/// Whatever header resolves a kind supplies a non-empty value: the
/// patterns capture at least one character. A session whose token and
/// session values were both resolved from headers is therefore
/// presumptively authenticated.
pub proof fn lemma_captures_nonempty(hs: Seq<Seq<char>>, m: int)
    requires
        0 <= m <= hs.len(),
    ensures
        first_token_from(hs, m) matches Some(t) ==> t.len() > 0,
        first_session_from(hs, m) matches Some(t) ==> t.len() > 0,
    decreases hs.len() - m,
{
    if m < hs.len() {
        if token_capture_of(hs[m]) is Some {
            crate::text::lemma_find_match_bounds(
                hs[m],
                "XSRF-TOKEN="@,
                CharClass::Word,
                Some(';'),
                0,
            );
        }
        if session_capture_of(hs[m]) is Some {
            crate::text::lemma_find_match_bounds(
                hs[m],
                "osu_session="@,
                CharClass::WordPercent,
                Some(';'),
                0,
            );
        }
        lemma_captures_nonempty(hs, m + 1);
    }
}

/// An empty header batch leaves both values unchanged.
pub proof fn lemma_extractor_empty(prev_token: Seq<char>, prev_session: Seq<char>)
    ensures
        token_after(Seq::<Seq<char>>::empty(), prev_token) == prev_token,
        session_after(Seq::<Seq<char>>::empty(), prev_session) == prev_session,
{
}

proof fn lemma_first_token_at(hs: Seq<Seq<char>>, i: int, m: int)
    requires
        0 <= m <= i < hs.len(),
        token_capture_of(hs[i]) is Some,
        forall|k: int| m <= k < i ==> token_capture_of(hs[k]) is None,
    ensures
        first_token_from(hs, m) == token_capture_of(hs[i]),
    decreases i - m,
{
    if m < i {
        lemma_first_token_at(hs, i, m + 1);
    }
}

proof fn lemma_first_session_at(hs: Seq<Seq<char>>, j: int, m: int)
    requires
        0 <= m <= j < hs.len(),
        session_capture_of(hs[j]) is Some,
        forall|k: int| m <= k < j ==> session_capture_of(hs[k]) is None,
    ensures
        first_session_from(hs, m) == session_capture_of(hs[j]),
    decreases j - m,
{
    if m < j {
        lemma_first_session_at(hs, j, m + 1);
    }
}

/// First match wins, for each kind independently: when the token pattern
/// first matches at header `i` and the session pattern first matches at
/// header `j`, the batch resolves the token from header `i` and the session
/// value from header `j`, whatever the previous values were.
pub proof fn lemma_extractor_first_match_wins(
    hs: Seq<Seq<char>>,
    i: int,
    j: int,
    prev_token: Seq<char>,
    prev_session: Seq<char>,
)
    requires
        0 <= i < hs.len(),
        0 <= j < hs.len(),
        token_capture_of(hs[i]) is Some,
        forall|k: int| 0 <= k < i ==> token_capture_of(hs[k]) is None,
        session_capture_of(hs[j]) is Some,
        forall|k: int| 0 <= k < j ==> session_capture_of(hs[k]) is None,
    ensures
        token_after(hs, prev_token) == token_capture_of(hs[i])->Some_0,
        session_after(hs, prev_session) == session_capture_of(hs[j])->Some_0,
{
    lemma_first_token_at(hs, i, 0);
    lemma_first_session_at(hs, j, 0);
}

} // verus!
