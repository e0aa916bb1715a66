//! Loosely typed numeric values: a raw field that holds either a string or
//! an integer, coerced to `u64` by a checked, non-panicking conversion.

use vstd::prelude::*;

verus! {

/// Why a string-or-integer value failed to coerce to `u64`.
#[derive(Clone, Copy, Debug, PartialEq, Eq, Structural)]
pub enum CoerceError {
    /// The string is empty or holds a character that is no decimal digit.
    NotDecimal,
    /// The integer is below zero.
    Negative,
    /// The value does not fit in a `u64`.
    TooLarge,
}

/// A raw field value that is either a string or an integer.
#[derive(Debug, PartialEq, Eq)]
pub enum StrOrInt {
    Str(String),
    Int(i64),
}

/// The mathematical value of a `StrOrInt`.
pub enum StrOrIntView {
    Str(Seq<char>),
    Int(int),
}

impl View for StrOrInt {
    type V = StrOrIntView;

    closed spec fn view(&self) -> StrOrIntView {
        match self {
            StrOrInt::Str(s) => StrOrIntView::Str(s@),
            StrOrInt::Int(i) => StrOrIntView::Int(*i as int),
        }
    }
}

impl DeepView for StrOrInt {
    type V = StrOrIntView;

    open spec fn deep_view(&self) -> StrOrIntView {
        self.view()
    }
}

pub open spec fn is_digit(c: char) -> bool {
    '0' <= c && c <= '9'
}

pub open spec fn digit_val(c: char) -> int {
    c as int - '0' as int
}

pub open spec fn all_digits(s: Seq<char>) -> bool {
    forall|i: int| 0 <= i < s.len() ==> is_digit(#[trigger] s[i])
}

/// The value of a sequence of decimal digits, most significant first.
pub open spec fn digits_val(s: Seq<char>) -> int
    decreases s.len(),
{
    if s.len() == 0 {
        0
    } else {
        digits_val(s.drop_last()) * 10 + digit_val(s.last())
    }
}

/// What a decimal string coerces to: its numeric value, if the string is a
/// nonempty run of decimal digits whose value fits in a `u64`.
pub open spec fn parse_u64_spec(s: Seq<char>) -> Result<u64, CoerceError> {
    if s.len() == 0 || !all_digits(s) {
        Err(CoerceError::NotDecimal)
    } else if digits_val(s) > u64::MAX {
        Err(CoerceError::TooLarge)
    } else {
        Ok(digits_val(s) as u64)
    }
}

/// What a string-or-integer value coerces to.
pub open spec fn coerce_u64_spec(v: StrOrIntView) -> Result<u64, CoerceError> {
    match v {
        StrOrIntView::Str(s) => parse_u64_spec(s),
        StrOrIntView::Int(i) => if i < 0 {
            Err(CoerceError::Negative)
        } else {
            Ok(i as u64)
        },
    }
}

/// The value of a run of digits is never below zero.
proof fn lemma_digits_val_nonneg(s: Seq<char>)
    requires
        all_digits(s),
    ensures
        digits_val(s) >= 0,
    decreases s.len(),
{
    if s.len() > 0 {
        assert(all_digits(s.drop_last()));
        lemma_digits_val_nonneg(s.drop_last());
        assert(is_digit(s.last()));
    }
}

/// The value of a run of digits never shrinks as the run grows.
proof fn lemma_digits_val_grows(s: Seq<char>, i: int, j: int)
    requires
        all_digits(s),
        0 <= i <= j <= s.len(),
    ensures
        0 <= digits_val(s.subrange(0, i)) <= digits_val(s.subrange(0, j)),
    decreases j - i,
{
    assert(all_digits(s.subrange(0, i)));
    lemma_digits_val_nonneg(s.subrange(0, i));
    if i < j {
        lemma_digits_val_grows(s, i, j - 1);
        let p = s.subrange(0, j);
        assert(p.drop_last() =~= s.subrange(0, j - 1));
        assert(is_digit(s[j - 1]));
        assert(digits_val(p) == digits_val(s.subrange(0, j - 1)) * 10 + digit_val(s[j - 1]));
    }
}

/// Coerces a decimal string to the `u64` it denotes. Fails on an empty
/// string, on any character that is no decimal digit, and on a value that
/// does not fit in a `u64`.
pub fn parse_u64(s: &str) -> (r: Result<u64, CoerceError>)
    ensures
        r == parse_u64_spec(s@),
{
    let n = s.unicode_len();
    if n == 0 {
        return Err(CoerceError::NotDecimal);
    }
    let mut i: usize = 0;
    while i < n
        invariant
            i <= n,
            n == s@.len(),
            all_digits(s@.subrange(0, i as int)),
        decreases n - i,
    {
        let c = s.get_char(i);
        if c < '0' || c > '9' {
            return Err(CoerceError::NotDecimal);
        }
        proof {
            assert(s@.subrange(0, i as int + 1) =~= s@.subrange(0, i as int).push(s@[i as int]));
        }
        i = i + 1;
    }
    proof {
        assert(s@.subrange(0, n as int) =~= s@);
    }
    let mut acc: u64 = 0;
    i = 0;
    while i < n
        invariant
            i <= n,
            n == s@.len(),
            all_digits(s@),
            acc == digits_val(s@.subrange(0, i as int)),
        decreases n - i,
    {
        let c = s.get_char(i);
        let d = (c as u32 - '0' as u32) as u64;
        proof {
            assert(is_digit(s@[i as int]));
            assert(d == digit_val(s@[i as int]));
        }
        let scaled = match acc.checked_mul(10) {
            Some(p) => p.checked_add(d),
            None => None,
        };
        proof {
            let post = s@.subrange(0, i as int + 1);
            assert(post.drop_last() =~= s@.subrange(0, i as int));
            assert(digits_val(post) == acc * 10 + d);
            if acc * 10 + d > u64::MAX {
                lemma_digits_val_grows(s@, i as int + 1, s@.len() as int);
                assert(digits_val(s@.subrange(0, s@.len() as int)) > u64::MAX);
                assert(s@.subrange(0, s@.len() as int) =~= s@);
            }
        }
        acc = match scaled {
            Some(v) => v,
            None => {
                return Err(CoerceError::TooLarge);
            },
        };
        i = i + 1;
    }
    proof {
        assert(s@.subrange(0, n as int) =~= s@);
    }
    Ok(acc)
}

impl StrOrInt {
    /// Coerces this value to a `u64`: a string is read as decimal digits, an
    /// integer must be at least zero.
    pub fn to_u64(&self) -> (r: Result<u64, CoerceError>)
        ensures
            r == coerce_u64_spec(self@),
    {
        match self {
            StrOrInt::Str(s) => parse_u64(s.as_str()),
            StrOrInt::Int(i) => {
                if *i < 0 {
                    Err(CoerceError::Negative)
                } else {
                    Ok(*i as u64)
                }
            },
        }
    }
}

} // verus!
