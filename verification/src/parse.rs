//! Parsers for the service's pages and redirect URLs: the numeric set id
//! a short link redirects to, the user id at the end of a profile URL,
//! and the set id and checksum fields of a best-plays page.

use vstd::prelude::*;
use crate::num::all_digits;
use crate::num::dec_value;
use crate::num::parse_i64_digits;
use crate::num::parse_u32_digits;
use crate::text::CharClass;
use crate::text::capture;
use crate::text::capture_string;
use crate::text::char_find;
use crate::text::char_rfind;
use crate::text::chars_of;
use crate::text::find_char;
use crate::text::lemma_char_find;
use crate::text::rfind_char;

verus! {

/// The digits between the fixed prefix of a set's canonical URL and the
/// fragment of the redirect target: the canonical form is
/// `https://osu.ppy.sh/beatmapsets/<sid>#<mode>/<bid>`, whose prefix is
/// 31 characters long.
pub open spec fn redirect_sid_digits(url: Seq<char>) -> Option<Seq<char>> {
    let h = char_find(url, '#', 0);
    if h < url.len() && h >= 31 {
        Some(url.subrange(31, h))
    } else {
        None
    }
}

/// The numeric set id a redirect URL names, when its text between the
/// 31-character prefix and the fragment is a well-formed `u32`.
pub fn sid_from_redirect_url(url: &str) -> (r: Option<u32>)
    ensures
        match redirect_sid_digits(url@) {
            Some(d) => match r {
                Some(v) => d.len() > 0 && all_digits(d) && dec_value(d) <= u32::MAX && v
                    == dec_value(d),
                None => d.len() == 0 || !all_digits(d) || dec_value(d) > u32::MAX,
            },
            None => r is None,
        },
{
    let chars = chars_of(url);
    let n = chars.len();
    proof {
        lemma_char_find(url@, '#', 0);
    }
    let h = find_char(&chars, '#', 0);
    if h == n || h < 31 {
        return None;
    }
    let mut digits: Vec<char> = Vec::new();
    let mut k: usize = 31;
    while k < h
        invariant
            31 <= k <= h,
            h <= chars@.len(),
            chars@ == url@,
            digits@ == url@.subrange(31, k as int),
        decreases h - k,
    {
        digits.push(chars[k]);
        proof {
            assert(digits@ =~= url@.subrange(31, k + 1));
        }
        k += 1;
    }
    parse_u32_digits(&digits)
}

/// The text after the last slash of a URL, where there is a slash.
pub open spec fn trailing_segment(url: Seq<char>) -> Option<Seq<char>> {
    let p = char_rfind(url, '/', url.len() as int);
    if p >= 0 {
        Some(url.subrange(p + 1, url.len() as int))
    } else {
        None
    }
}

/// The numeric user id at the end of a profile URL, when the text after
/// the last slash is a well-formed non-negative `i64`.
pub fn user_id_from_url(url: &str) -> (r: Option<i64>)
    ensures
        match trailing_segment(url@) {
            Some(d) => match r {
                Some(v) => d.len() > 0 && all_digits(d) && dec_value(d) <= i64::MAX && v
                    == dec_value(d),
                None => d.len() == 0 || !all_digits(d) || dec_value(d) > i64::MAX,
            },
            None => r is None,
        },
{
    let chars = chars_of(url);
    let n = chars.len();
    let p = match rfind_char(&chars, '/') {
        Some(p) => p,
        None => {
            return None;
        },
    };
    let mut digits: Vec<char> = Vec::new();
    let mut k = p + 1;
    while k < n
        invariant
            p + 1 <= k <= n,
            n == chars@.len(),
            chars@ == url@,
            digits@ == url@.subrange(p + 1, k as int),
        decreases n - k,
    {
        digits.push(chars[k]);
        proof {
            assert(digits@ =~= url@.subrange(p + 1, k + 1));
        }
        k += 1;
    }
    parse_i64_digits(&digits)
}

/// The capture of the set-id field of a best-plays page: the digits after
/// `"beatmapset_id":`.
pub open spec fn beatmapset_id_capture(body: Seq<char>) -> Option<Seq<char>> {
    capture(body, "\"beatmapset_id\":"@, CharClass::Digit, None)
}

/// Extracts the set-id field of a best-plays page.
pub fn beatmapset_id_from_body(body: &str) -> (r: Option<String>)
    ensures
        match r {
            Some(t) => beatmapset_id_capture(body@) == Some(t@),
            None => beatmapset_id_capture(body@) is None,
        },
{
    let lit = chars_of("\"beatmapset_id\":");
    proof {
        reveal_strlit("\"beatmapset_id\":");
    }
    capture_string(body, &lit, CharClass::Digit, None)
}

/// The capture of the checksum field of a best-plays page: the word
/// characters between `"checksum":"` and the closing quote.
pub open spec fn checksum_capture(body: Seq<char>) -> Option<Seq<char>> {
    capture(body, "\"checksum\":\""@, CharClass::Word, Some('"'))
}

/// Extracts the checksum field of a best-plays page.
pub fn checksum_from_body(body: &str) -> (r: Option<String>)
    ensures
        match r {
            Some(t) => checksum_capture(body@) == Some(t@),
            None => checksum_capture(body@) is None,
        },
{
    let lit = chars_of("\"checksum\":\"");
    proof {
        reveal_strlit("\"checksum\":\"");
    }
    capture_string(body, &lit, CharClass::Word, Some('"'))
}

} // verus!
