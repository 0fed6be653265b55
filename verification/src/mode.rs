//! The play modes of the service, their URL names, and the reading of a
//! user's mode choice.

use vstd::prelude::*;
use crate::text::chars_of;
use crate::text::spec_trim;
use crate::text::trim_bounds;

verus! {

#[derive(Debug, Clone, Copy, PartialEq, Eq)]
pub enum Mode {
    Osu,
    Taiko,
    Catch,
    Mania,
}

/// The mode a trimmed choice string names: the digits zero to three, any
/// other input falling back to the default mode.
pub open spec fn spec_press(s: Seq<char>) -> Mode {
    let t = spec_trim(s);
    if t == seq!['0'] {
        Mode::Osu
    } else if t == seq!['1'] {
        Mode::Taiko
    } else if t == seq!['2'] {
        Mode::Catch
    } else if t == seq!['3'] {
        Mode::Mania
    } else {
        Mode::Osu
    }
}

impl Mode {
    /// The mode's name as the service's URLs spell it.
    pub fn to_str(&self) -> (r: &'static str)
        ensures
            match self {
                Mode::Osu => r@ == "osu"@,
                Mode::Taiko => r@ == "taiko"@,
                Mode::Catch => r@ == "fruits"@,
                Mode::Mania => r@ == "mania"@,
            },
    {
        match self {
            Mode::Osu => "osu",
            Mode::Taiko => "taiko",
            Mode::Catch => "fruits",
            Mode::Mania => "mania",
        }
    }

    /// Reads a mode choice: the input is trimmed of ASCII whitespace and
    /// matched against the digits zero to three, defaulting to the
    /// standard mode.
    pub fn press(i: &str) -> (m: Mode)
        ensures
            m == spec_press(i@),
    {
        let chars = chars_of(i);
        proof {
            crate::text::lemma_first_non_space_bounds(i@, 0);
            crate::text::lemma_trim_end_bounds(i@, i@.len() as int);
        }
        let b = trim_bounds(&chars);
        if b.1 > b.0 && b.1 - b.0 == 1 {
            let c = chars[b.0];
            proof {
                assert(spec_trim(i@) =~= seq![i@[b.0 as int]]);
                assert(spec_trim(i@)[0] == i@[b.0 as int]);
                assert(spec_trim(i@).len() == 1);
            }
            if c == '0' {
                Mode::Osu
            } else if c == '1' {
                Mode::Taiko
            } else if c == '2' {
                Mode::Catch
            } else if c == '3' {
                Mode::Mania
            } else {
                Mode::Osu
            }
        } else {
            proof {
                if b.0 < b.1 {
                    assert(spec_trim(i@).len() == b.1 - b.0);
                } else {
                    assert(spec_trim(i@).len() == 0);
                }
            }
            Mode::Osu
        }
    }
}

} // verus!
