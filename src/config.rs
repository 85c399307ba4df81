use vstd::prelude::*;
use vstd::string::*;

use crate::random::random_in;

verus! {

/// A length setting: a fixed value, or an inclusive range to draw from.
#[derive(Clone, Copy, Debug, PartialEq, Eq, Structural)]
pub enum LengthSpec {
    Fixed(usize),
    Range(usize, usize),
}

impl LengthSpec {
    /// A range never runs backwards.
    pub open spec fn wf(self) -> bool {
        match self {
            LengthSpec::Fixed(_) => true,
            LengthSpec::Range(lo, hi) => lo <= hi,
        }
    }

    /// Whether `v` is a value that this setting may resolve to.
    pub open spec fn admits(self, v: usize) -> bool {
        match self {
            LengthSpec::Fixed(n) => v == n,
            LengthSpec::Range(lo, hi) => lo <= v <= hi,
        }
    }

    /// Resolves the setting to one value: the fixed one, or one drawn
    /// uniformly from the range.
    pub fn resolve(&self) -> (r: usize)
        requires
            self.wf(),
        ensures
            self.admits(r),
    {
        match *self {
            LengthSpec::Fixed(n) => n,
            LengthSpec::Range(lo, hi) => random_in(lo, hi),
        }
    }
}

/// The simulator's settings, fixed for the life of the process.
#[derive(Clone, Copy, Debug, PartialEq, Eq, Structural)]
pub struct Config {
    pub response_length: Option<LengthSpec>,
    pub error_code: Option<u16>,
    pub error_rate: Option<u32>,
    pub rpm: u32,
    pub tpm: u32,
    pub slowdown: Option<LengthSpec>,
    pub request_window_ms: u64,
    pub token_window_ms: u64,
}

impl Config {
    pub open spec fn wf(&self) -> bool {
        &&& (self.response_length matches Some(l) ==> l.wf())
        &&& (self.slowdown matches Some(l) ==> l.wf())
    }
}

/// Whether an optional length setting may resolve to `v`.
pub open spec fn admits_optional(setting: Option<LengthSpec>, v: usize) -> bool {
    match setting {
        Some(s) => s.admits(v),
        None => v == 0,
    }
}

/// Resolves an optional length setting; an absent one is zero.
pub fn resolve_optional(setting: Option<LengthSpec>) -> (r: usize)
    requires
        setting matches Some(s) ==> s.wf(),
    ensures
        admits_optional(setting, r),
{
    match setting {
        Some(s) => s.resolve(),
        None => 0,
    }
}

pub open spec fn is_digit(c: char) -> bool {
    '0' <= c && c <= '9'
}

/// A non-empty run of decimal digits.
pub open spec fn is_decimal(s: Seq<char>) -> bool {
    s.len() > 0 && forall|i: int| 0 <= i < s.len() ==> is_digit(#[trigger] s[i])
}

/// The number that a run of decimal digits writes.
pub open spec fn decimal_value(s: Seq<char>) -> nat
    decreases s.len(),
{
    if s.len() == 0 {
        0
    } else {
        decimal_value(s.drop_last()) * 10 + ((s.last() as u32 - '0' as u32) as nat)
    }
}

/// The number that `s` writes, or `default` where it is no decimal number
/// that fits in a `usize`.
pub open spec fn number_or(s: Seq<char>, default: usize) -> usize {
    if is_decimal(s) && decimal_value(s) <= usize::MAX {
        decimal_value(s) as usize
    } else {
        default
    }
}

proof fn lemma_decimal_value_grows(s: Seq<char>, i: int, j: int)
    requires
        0 <= i <= j <= s.len(),
    ensures
        decimal_value(s.take(i)) <= decimal_value(s.take(j)),
    decreases j - i,
{
    if i < j {
        lemma_decimal_value_grows(s, i, j - 1);
        assert(s.take(j).drop_last() =~= s.take(j - 1));
    }
}

/// Reads a decimal number; `None` where `s` is not a run of digits or the
/// number does not fit in a `usize`.
pub fn parse_decimal(s: &str) -> (r: Option<usize>)
    ensures
        r == (if is_decimal(s@) && decimal_value(s@) <= usize::MAX {
            Some(decimal_value(s@) as usize)
        } else {
            None::<usize>
        }),
{
    let n = s.unicode_len();
    if n == 0 {
        return None;
    }
    let mut v: usize = 0;
    let mut i: usize = 0;
    while i < n
        invariant
            n == s@.len(),
            i <= n,
            forall|k: int| 0 <= k < i ==> is_digit(#[trigger] s@[k]),
            v == decimal_value(s@.take(i as int)),
        decreases n - i,
    {
        let c = s.get_char(i);
        if !('0' <= c && c <= '9') {
            return None;
        }
        let d = (c as u32 - '0' as u32) as usize;
        assert(s@.take(i + 1).drop_last() =~= s@.take(i as int));
        if v > (usize::MAX - d) / 10 {
            proof {
                lemma_decimal_value_grows(s@, i + 1, n as int);
                assert(s@.take(n as int) =~= s@);
            }
            return None;
        }
        v = v * 10 + d;
        i = i + 1;
    }
    assert(s@.take(n as int) =~= s@);
    Some(v)
}

/// `p` is the first place in `s` that holds `c`.
pub open spec fn first_at(s: Seq<char>, c: char, p: int) -> bool {
    0 <= p < s.len() && s[p] == c && forall|j: int| 0 <= j < p ==> s[j] != c
}

/// The index of the first `c` in `s`, if any.
pub fn find_char(s: &str, c: char) -> (r: Option<usize>)
    ensures
        match r {
            Some(p) => first_at(s@, c, p as int),
            None => !s@.contains(c),
        },
{
    let n = s.unicode_len();
    let mut i: usize = 0;
    while i < n
        invariant
            n == s@.len(),
            i <= n,
            forall|j: int| 0 <= j < i ==> s@[j] != c,
        decreases n - i,
    {
        if s.get_char(i) == c {
            return Some(i);
        }
        i = i + 1;
    }
    None
}

/// What a length setting written as `n` or `min:max` means: numbers that
/// do not read stand for 0, and for 100 as the upper end of a range.
pub open spec fn length_spec_of(s: Seq<char>) -> LengthSpec {
    if s.contains(':') {
        let p = choose|p: int| first_at(s, ':', p);
        LengthSpec::Range(number_or(s.take(p), 0), number_or(s.skip(p + 1), 100))
    } else {
        LengthSpec::Fixed(number_or(s, 0))
    }
}

/// Reads a length setting written as `n` or `min:max`; `None` where the
/// range runs backwards.
pub fn parse_length_spec(s: &str) -> (r: Option<LengthSpec>)
    ensures
        r == (if length_spec_of(s@).wf() {
            Some(length_spec_of(s@))
        } else {
            None::<LengthSpec>
        }),
        r matches Some(l) ==> l.wf(),
{
    match find_char(s, ':') {
        None => {
            let v = match parse_decimal(s) {
                Some(v) => v,
                None => 0,
            };
            Some(LengthSpec::Fixed(v))
        },
        Some(p) => {
            let n = s.unicode_len();
            let head = s.substring_char(0, p);
            let tail = s.substring_char(p + 1, n);
            proof {
                assert(s@[p as int] == ':');
                let q = choose|q: int| first_at(s@, ':', q);
                assert(q == p);
                assert(head@ =~= s@.take(p as int));
                assert(tail@ =~= s@.skip(p + 1));
            }
            let lo = match parse_decimal(head) {
                Some(v) => v,
                None => 0,
            };
            let hi = match parse_decimal(tail) {
                Some(v) => v,
                None => 100,
            };
            if lo <= hi {
                Some(LengthSpec::Range(lo, hi))
            } else {
                None
            }
        },
    }
}

/// The fault decision for one draw in `[0, 100)`: the configured code when
/// both a code and a rate are configured and the draw falls under the rate.
pub open spec fn fault_for(code: Option<u16>, rate: Option<u32>, draw: u32) -> Option<u16> {
    match (code, rate) {
        (Some(c), Some(p)) => if draw < p {
            Some(c)
        } else {
            None
        },
        _ => None,
    }
}

pub fn fault_decision(code: Option<u16>, rate: Option<u32>, draw: u32) -> (r: Option<u16>)
    ensures
        r == fault_for(code, rate, draw),
{
    match (code, rate) {
        (Some(c), Some(p)) => if draw < p {
            Some(c)
        } else {
            None
        },
        _ => None,
    }
}

} // verus!
