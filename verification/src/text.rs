//! Character classes and leftmost scanning for the fixed patterns the
//! service's cookie and page formats use.

use vstd::prelude::*;

verus! {

/// The character classes that the fixed patterns capture.
#[derive(Clone, Copy, Debug, PartialEq, Eq)]
pub enum CharClass {
    /// An ASCII word character: letter, digit or underscore.
    Word,
    /// A word character or a percent sign, for percent-encoded cookie values.
    WordPercent,
    /// An ASCII decimal digit.
    Digit,
    /// A character allowed in an account name: word character, space,
    /// hyphen or square bracket.
    Name,
}

pub open spec fn spec_is_digit(c: char) -> bool {
    '0' <= c && c <= '9'
}

pub open spec fn spec_is_word_char(c: char) -> bool {
    ('a' <= c && c <= 'z') || ('A' <= c && c <= 'Z') || spec_is_digit(c) || c == '_'
}

pub open spec fn class_has(cc: CharClass, c: char) -> bool {
    match cc {
        CharClass::Word => spec_is_word_char(c),
        CharClass::WordPercent => spec_is_word_char(c) || c == '%',
        CharClass::Digit => spec_is_digit(c),
        CharClass::Name => spec_is_word_char(c) || c == ' ' || c == '-' || c == '[' || c == ']',
    }
}

pub fn class_contains(cc: CharClass, c: char) -> (b: bool)
    ensures
        b == class_has(cc, c),
{
    match cc {
        CharClass::Word => {
            ('a' <= c && c <= 'z') || ('A' <= c && c <= 'Z') || ('0' <= c && c <= '9') || c == '_'
        },
        CharClass::WordPercent => {
            ('a' <= c && c <= 'z') || ('A' <= c && c <= 'Z') || ('0' <= c && c <= '9') || c == '_'
                || c == '%'
        },
        CharClass::Digit => '0' <= c && c <= '9',
        CharClass::Name => {
            ('a' <= c && c <= 'z') || ('A' <= c && c <= 'Z') || ('0' <= c && c <= '9') || c == '_'
                || c == ' ' || c == '-' || c == '[' || c == ']'
        },
    }
}

/// Every character of `s` lies in the class.
pub open spec fn seq_all_in_class(s: Seq<char>, cc: CharClass) -> bool {
    forall|k: int| 0 <= k < s.len() ==> class_has(cc, s[k])
}

pub fn str_all_in_class(s: &str, cc: CharClass) -> (b: bool)
    ensures
        b == seq_all_in_class(s@, cc),
{
    let n = s.unicode_len();
    let mut i: usize = 0;
    while i < n
        invariant
            i <= n,
            n == s@.len(),
            forall|k: int| 0 <= k < i ==> class_has(cc, s@[k]),
        decreases n - i,
    {
        if !class_contains(cc, s.get_char(i)) {
            assert(!class_has(cc, s@[i as int]));
            return false;
        }
        i += 1;
    }
    true
}

/// The characters of `s`, in order, as a vector.
pub fn chars_of(s: &str) -> (v: Vec<char>)
    ensures
        v@ == s@,
{
    let n = s.unicode_len();
    let mut v: Vec<char> = Vec::new();
    let mut i: usize = 0;
    while i < n
        invariant
            i <= n,
            n == s@.len(),
            v@ == s@.subrange(0, i as int),
        decreases n - i,
    {
        v.push(s.get_char(i));
        proof {
            assert(v@ =~= s@.subrange(0, i + 1));
        }
        i += 1;
    }
    proof {
        assert(s@.subrange(0, n as int) =~= s@);
    }
    v
}

/// The literal `lit` occurs in `s` at position `i`.
pub open spec fn lit_at(s: Seq<char>, lit: Seq<char>, i: int) -> bool {
    &&& 0 <= i
    &&& i + lit.len() <= s.len()
    &&& forall|k: int| 0 <= k < lit.len() ==> s[i + k] == lit[k]
}

/// The end of the run of `cc` characters that starts at `j`: the first
/// position at or after `j` holding a character outside the class.
pub open spec fn run_end(s: Seq<char>, cc: CharClass, j: int) -> int
    decreases s.len() - j when 0 <= j <= s.len()
{
    if j < s.len() && class_has(cc, s[j]) {
        run_end(s, cc, j + 1)
    } else {
        j
    }
}

pub proof fn lemma_run_end(s: Seq<char>, cc: CharClass, j: int)
    requires
        0 <= j <= s.len(),
    ensures
        j <= run_end(s, cc, j) <= s.len(),
        forall|k: int| j <= k < run_end(s, cc, j) ==> class_has(cc, s[k]),
        run_end(s, cc, j) < s.len() ==> !class_has(cc, s[run_end(s, cc, j)]),
    decreases s.len() - j,
{
    if j < s.len() && class_has(cc, s[j]) {
        lemma_run_end(s, cc, j + 1);
    }
}

/// A match of the pattern `lit`, then one or more `cc` characters, then the
/// terminator (if one is asked for), starting at position `i`. The classes
/// never contain their terminators, so the captured run is maximal.
pub open spec fn match_at(
    s: Seq<char>,
    lit: Seq<char>,
    cc: CharClass,
    term: Option<char>,
    i: int,
) -> bool {
    let j = i + lit.len();
    let e = run_end(s, cc, j);
    &&& lit_at(s, lit, i)
    &&& e > j
    &&& match term {
        Some(t) => e < s.len() && s[e] == t,
        None => true,
    }
}

/// The capture bounds of the leftmost match at or after position `i`:
/// the run between the literal and the terminator.
pub open spec fn find_match_from(
    s: Seq<char>,
    lit: Seq<char>,
    cc: CharClass,
    term: Option<char>,
    i: int,
) -> Option<(int, int)>
    decreases s.len() - i when 0 <= i <= s.len()
{
    if i >= s.len() {
        None
    } else if match_at(s, lit, cc, term, i) {
        Some((i + lit.len(), run_end(s, cc, i + lit.len())))
    } else {
        find_match_from(s, lit, cc, term, i + 1)
    }
}

pub open spec fn find_match(s: Seq<char>, lit: Seq<char>, cc: CharClass, term: Option<char>) -> Option<
    (int, int),
> {
    find_match_from(s, lit, cc, term, 0)
}

/// The characters captured by the leftmost match of the pattern, if any.
pub open spec fn capture(s: Seq<char>, lit: Seq<char>, cc: CharClass, term: Option<char>) -> Option<
    Seq<char>,
> {
    match find_match(s, lit, cc, term) {
        Some(p) => Some(s.subrange(p.0, p.1)),
        None => None,
    }
}

pub proof fn lemma_find_match_bounds(
    s: Seq<char>,
    lit: Seq<char>,
    cc: CharClass,
    term: Option<char>,
    i: int,
)
    requires
        0 <= i <= s.len(),
        find_match_from(s, lit, cc, term, i) is Some,
    ensures
        ({
            let p = find_match_from(s, lit, cc, term, i)->Some_0;
            0 <= p.0 < p.1 <= s.len()
        }),
    decreases s.len() - i,
{
    if i >= s.len() {
    } else if match_at(s, lit, cc, term, i) {
        lemma_run_end(s, cc, i + lit.len());
    } else {
        lemma_find_match_bounds(s, lit, cc, term, i + 1);
    }
}

fn lit_matches_at(s: &Vec<char>, lit: &Vec<char>, i: usize) -> (b: bool)
    requires
        i + lit@.len() <= s@.len(),
    ensures
        b == lit_at(s@, lit@, i as int),
{
    let n = s.len();
    let mut k: usize = 0;
    while k < lit.len()
        invariant
            k <= lit@.len(),
            n == s@.len(),
            i + lit@.len() <= n,
            forall|m: int| 0 <= m < k ==> s@[i + m] == lit@[m],
        decreases lit@.len() - k,
    {
        if s[i + k] != lit[k] {
            assert(s@[i + k] != lit@[k as int]);
            return false;
        }
        k += 1;
    }
    true
}

fn class_run_end(s: &Vec<char>, cc: CharClass, j: usize) -> (e: usize)
    requires
        j <= s@.len(),
    ensures
        e == run_end(s@, cc, j as int),
{
    let mut e = j;
    while e < s.len()
        invariant
            j <= e <= s@.len(),
            run_end(s@, cc, j as int) == run_end(s@, cc, e as int),
        decreases s@.len() - e,
    {
        if !class_contains(cc, s[e]) {
            return e;
        }
        e += 1;
    }
    e
}

/// The leftmost match of the pattern in `s`, as capture bounds.
pub fn find_pattern(s: &Vec<char>, lit: &Vec<char>, cc: CharClass, term: Option<char>) -> (r: Option<
    (usize, usize),
>)
    requires
        lit@.len() >= 1,
    ensures
        match r {
            Some(p) => find_match(s@, lit@, cc, term) == Some((p.0 as int, p.1 as int)),
            None => find_match(s@, lit@, cc, term) is None,
        },
{
    let n = s.len();
    let mut i: usize = 0;
    while i < n
        invariant
            i <= n,
            n == s@.len(),
            lit@.len() >= 1,
            find_match(s@, lit@, cc, term) == find_match_from(s@, lit@, cc, term, i as int),
        decreases n - i,
    {
        if lit.len() <= n - i {
            if lit_matches_at(s, lit, i) {
                let j = i + lit.len();
                let e = class_run_end(s, cc, j);
                proof {
                    lemma_run_end(s@, cc, j as int);
                }
                let term_ok = match term {
                    Some(t) => e < n && s[e] == t,
                    None => true,
                };
                if e > j && term_ok {
                    assert(match_at(s@, lit@, cc, term, i as int));
                    return Some((j, e));
                }
                assert(!match_at(s@, lit@, cc, term, i as int));
            }
        }
        i += 1;
    }
    None
}

/// The string captured by the leftmost match of the pattern in `s`, if any.
pub fn capture_string(s: &str, lit: &Vec<char>, cc: CharClass, term: Option<char>) -> (r: Option<
    String,
>)
    requires
        lit@.len() >= 1,
    ensures
        match r {
            Some(c) => capture(s@, lit@, cc, term) == Some(c@),
            None => capture(s@, lit@, cc, term) is None,
        },
{
    let chars = chars_of(s);
    match find_pattern(&chars, lit, cc, term) {
        Some(p) => {
            proof {
                lemma_find_match_bounds(s@, lit@, cc, term, 0);
            }
            Some(s.substring_char(p.0, p.1).to_owned())
        },
        None => None,
    }
}

/// The first position at or after `i` that holds `c`, or the length of `s`
/// when there is none.
pub open spec fn char_find(s: Seq<char>, c: char, i: int) -> int
    decreases s.len() - i when 0 <= i <= s.len()
{
    if i >= s.len() {
        s.len() as int
    } else if s[i] == c {
        i
    } else {
        char_find(s, c, i + 1)
    }
}

pub proof fn lemma_char_find(s: Seq<char>, c: char, i: int)
    requires
        0 <= i <= s.len(),
    ensures
        i <= char_find(s, c, i) <= s.len(),
        char_find(s, c, i) < s.len() ==> s[char_find(s, c, i)] == c,
        forall|k: int| i <= k < char_find(s, c, i) ==> s[k] != c,
    decreases s.len() - i,
{
    if i < s.len() && s[i] != c {
        lemma_char_find(s, c, i + 1);
    }
}

pub fn find_char(s: &Vec<char>, c: char, from: usize) -> (r: usize)
    requires
        from <= s@.len(),
    ensures
        r == char_find(s@, c, from as int),
{
    let n = s.len();
    let mut i = from;
    while i < n
        invariant
            from <= i <= n,
            n == s@.len(),
            char_find(s@, c, from as int) == char_find(s@, c, i as int),
        decreases n - i,
    {
        if s[i] == c {
            return i;
        }
        i += 1;
    }
    i
}

/// The last position before `j` that holds `c`, or -1 when there is none.
pub open spec fn char_rfind(s: Seq<char>, c: char, j: int) -> int
    decreases j when 0 <= j <= s.len()
{
    if j <= 0 {
        -1
    } else if s[j - 1] == c {
        j - 1
    } else {
        char_rfind(s, c, j - 1)
    }
}

pub fn rfind_char(s: &Vec<char>, c: char) -> (r: Option<usize>)
    ensures
        match r {
            Some(p) => char_rfind(s@, c, s@.len() as int) == p as int && (p as int) < s@.len(),
            None => char_rfind(s@, c, s@.len() as int) == -1,
        },
{
    let mut j = s.len();
    while j > 0
        invariant
            j <= s@.len(),
            char_rfind(s@, c, s@.len() as int) == char_rfind(s@, c, j as int),
        decreases j,
    {
        if s[j - 1] == c {
            return Some(j - 1);
        }
        j -= 1;
    }
    None
}

/// An ASCII whitespace character.
pub open spec fn is_space_char(c: char) -> bool {
    c == ' ' || c == '\t' || c == '\n' || c == '\r'
}

/// The first position at or after `i` holding a non-space character, or
/// the length of `s`.
pub open spec fn first_non_space(s: Seq<char>, i: int) -> int
    decreases s.len() - i when 0 <= i <= s.len()
{
    if i < s.len() && is_space_char(s[i]) {
        first_non_space(s, i + 1)
    } else {
        i
    }
}

/// The position after the last non-space character before `j`, or 0.
pub open spec fn trim_end_idx(s: Seq<char>, j: int) -> int
    decreases j when 0 <= j <= s.len()
{
    if j > 0 && is_space_char(s[j - 1]) {
        trim_end_idx(s, j - 1)
    } else {
        j
    }
}

/// `s` with leading and trailing ASCII whitespace removed.
pub open spec fn spec_trim(s: Seq<char>) -> Seq<char> {
    let a = first_non_space(s, 0);
    let b = trim_end_idx(s, s.len() as int);
    if a < b {
        s.subrange(a, b)
    } else {
        Seq::empty()
    }
}

pub proof fn lemma_first_non_space_bounds(s: Seq<char>, i: int)
    requires
        0 <= i <= s.len(),
    ensures
        i <= first_non_space(s, i) <= s.len(),
    decreases s.len() - i,
{
    if i < s.len() && is_space_char(s[i]) {
        lemma_first_non_space_bounds(s, i + 1);
    }
}

pub proof fn lemma_trim_end_bounds(s: Seq<char>, j: int)
    requires
        0 <= j <= s.len(),
    ensures
        0 <= trim_end_idx(s, j) <= j,
    decreases j,
{
    if j > 0 && is_space_char(s[j - 1]) {
        lemma_trim_end_bounds(s, j - 1);
    }
}

fn is_space(c: char) -> (b: bool)
    ensures
        b == is_space_char(c),
{
    c == ' ' || c == '\t' || c == '\n' || c == '\r'
}

fn scan_first_non_space(s: &Vec<char>) -> (a: usize)
    ensures
        a == first_non_space(s@, 0),
{
    let n = s.len();
    let mut a: usize = 0;
    while a < n
        invariant
            a <= n,
            n == s@.len(),
            first_non_space(s@, 0) == first_non_space(s@, a as int),
        decreases n - a,
    {
        if !is_space(s[a]) {
            return a;
        }
        a += 1;
    }
    a
}

fn scan_trim_end(s: &Vec<char>) -> (b: usize)
    ensures
        b == trim_end_idx(s@, s@.len() as int),
{
    let n = s.len();
    let mut b: usize = n;
    while b > 0
        invariant
            b <= n,
            n == s@.len(),
            trim_end_idx(s@, s@.len() as int) == trim_end_idx(s@, b as int),
        decreases b,
    {
        if !is_space(s[b - 1]) {
            return b;
        }
        b -= 1;
    }
    b
}

/// The bounds of `s` without leading and trailing ASCII whitespace.
pub fn trim_bounds(s: &Vec<char>) -> (r: (usize, usize))
    ensures
        r.0 == first_non_space(s@, 0),
        r.1 == trim_end_idx(s@, s@.len() as int),
{
    (scan_first_non_space(s), scan_trim_end(s))
}

/// A match of the saved-pair pattern at position `i`: a non-empty run of
/// word characters, the separator, then a non-empty run of word or percent
/// characters.
pub open spec fn pair_match_at(s: Seq<char>, sep: char, i: int) -> bool {
    let e1 = run_end(s, CharClass::Word, i);
    &&& 0 <= i
    &&& e1 > i
    &&& e1 < s.len()
    &&& s[e1] == sep
    &&& run_end(s, CharClass::WordPercent, e1 + 1) > e1 + 1
}

/// The bounds of the leftmost saved-pair match at or after `i`: the first
/// run is `[r.0, r.1)`, the second `[r.1 + 1, r.2)`.
pub open spec fn find_pair_from(s: Seq<char>, sep: char, i: int) -> Option<(int, int, int)>
    decreases s.len() - i when 0 <= i <= s.len()
{
    if i >= s.len() {
        None
    } else if pair_match_at(s, sep, i) {
        let e1 = run_end(s, CharClass::Word, i);
        Some((i, e1, run_end(s, CharClass::WordPercent, e1 + 1)))
    } else {
        find_pair_from(s, sep, i + 1)
    }
}

pub open spec fn find_pair(s: Seq<char>, sep: char) -> Option<(int, int, int)> {
    find_pair_from(s, sep, 0)
}

pub proof fn lemma_find_pair_bounds(s: Seq<char>, sep: char, i: int)
    requires
        0 <= i <= s.len(),
        find_pair_from(s, sep, i) is Some,
    ensures
        ({
            let p = find_pair_from(s, sep, i)->Some_0;
            0 <= p.0 < p.1 && p.1 + 1 < p.2 <= s.len()
        }),
    decreases s.len() - i,
{
    if i >= s.len() {
    } else if pair_match_at(s, sep, i) {
        let e1 = run_end(s, CharClass::Word, i);
        lemma_run_end(s, CharClass::Word, i);
        lemma_run_end(s, CharClass::WordPercent, e1 + 1);
    } else {
        lemma_find_pair_bounds(s, sep, i + 1);
    }
}

/// The leftmost saved-pair match in `s`.
pub fn find_pair_bounds(s: &Vec<char>, sep: char) -> (r: Option<(usize, usize, usize)>)
    ensures
        match r {
            Some(p) => find_pair(s@, sep) == Some((p.0 as int, p.1 as int, p.2 as int)),
            None => find_pair(s@, sep) is None,
        },
{
    let n = s.len();
    let mut i: usize = 0;
    while i < n
        invariant
            i <= n,
            n == s@.len(),
            find_pair(s@, sep) == find_pair_from(s@, sep, i as int),
        decreases n - i,
    {
        let e1 = class_run_end(s, CharClass::Word, i);
        proof {
            lemma_run_end(s@, CharClass::Word, i as int);
        }
        if e1 > i && e1 < n && s[e1] == sep {
            let e2 = class_run_end(s, CharClass::WordPercent, e1 + 1);
            if e2 > e1 + 1 {
                assert(pair_match_at(s@, sep, i as int));
                return Some((i, e1, e2));
            }
            assert(!pair_match_at(s@, sep, i as int));
        } else {
            assert(!pair_match_at(s@, sep, i as int));
        }
        i += 1;
    }
    None
}

} // verus!
