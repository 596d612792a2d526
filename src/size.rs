//! The `WIDTHxHEIGHT` form of a capture resolution.
use vstd::prelude::*;

verus! {

/// A capture resolution.
#[derive(Debug, Clone, Copy, PartialEq, Eq, Structural)]
pub struct Size {
    pub width: u32,
    pub height: u32,
}

/// Why a resolution was not understood.
#[derive(Debug, Clone, Copy, PartialEq, Eq, Structural)]
pub enum SizeError {
    /// There is no `x` between width and height.
    MissingSeparator,
    InvalidWidth,
    InvalidHeight,
}

impl SizeError {
    /// A description for the user.
    pub fn message(&self) -> (r: &'static str)
        ensures
            *self == SizeError::MissingSeparator ==> r@ == "size must be WIDTHxHEIGHT; missing 'x' char"@,
            *self == SizeError::InvalidWidth ==> r@ == "invalid width"@,
            *self == SizeError::InvalidHeight ==> r@ == "invalid height"@,
    {
        match self {
            SizeError::MissingSeparator => "size must be WIDTHxHEIGHT; missing 'x' char",
            SizeError::InvalidWidth => "invalid width",
            SizeError::InvalidHeight => "invalid height",
        }
    }
}

pub open spec fn is_digit(c: char) -> bool {
    '0' <= c && c <= '9'
}

pub open spec fn digit_value(c: char) -> nat {
    (c as u32 - '0' as u32) as nat
}

/// The number written by the decimal digits `s`.
pub open spec fn digits_value(s: Seq<char>) -> nat
    decreases s.len(),
{
    if s.len() == 0 {
        0
    } else {
        digits_value(s.drop_last()) * 10 + digit_value(s.last())
    }
}

/// `s` with one leading `+` taken off, if it has one.
pub open spec fn unsigned_digits(s: Seq<char>) -> Seq<char> {
    if s.len() > 0 && s[0] == '+' { s.drop_first() } else { s }
}

/// The `u32` that `s` writes in decimal: an optional `+`, then at least one
/// digit and nothing else, of a value that fits.
pub open spec fn u32_of(s: Seq<char>) -> Option<u32> {
    let d = unsigned_digits(s);
    if d.len() > 0 && (forall|i: int| 0 <= i < d.len() ==> is_digit(#[trigger] d[i]))
        && digits_value(d) <= u32::MAX {
        Some(digits_value(d) as u32)
    } else {
        None
    }
}

/// The index of the first `x` in `s`, if any.
pub open spec fn first_x(s: Seq<char>) -> Option<int> {
    if exists|i: int| 0 <= i < s.len() && s[i] == 'x' {
        Some(choose|i: int| 0 <= i < s.len() && s[i] == 'x' && forall|j: int| 0 <= j < i ==> s[j] != 'x')
    } else {
        None
    }
}

/// What `s` means as a resolution: width before the first `x`, height after it.
pub open spec fn size_of(s: Seq<char>) -> Result<Size, SizeError> {
    match first_x(s) {
        None => Err(SizeError::MissingSeparator),
        Some(k) => match (u32_of(s.take(k)), u32_of(s.skip(k + 1))) {
            (None, _) => Err(SizeError::InvalidWidth),
            (Some(_), None) => Err(SizeError::InvalidHeight),
            (Some(w), Some(h)) => Ok(Size { width: w, height: h }),
        },
    }
}

proof fn lemma_digits_value_push(s: Seq<char>, c: char)
    ensures
        digits_value(s.push(c)) == digits_value(s) * 10 + digit_value(c),
{
    assert(s.push(c).drop_last() =~= s);
}

/// Reads an unsigned decimal number the way `u32::from_str` does.
pub fn parse_u32(s: &str) -> (r: Option<u32>)
    ensures
        r == u32_of(s@),
{
    let n = s.unicode_len();
    let mut start: usize = 0;
    if n > 0 && s.get_char(0) == '+' {
        start = 1;
    }
    let ghost d = unsigned_digits(s@);
    assert(d =~= s@.skip(start as int));
    if start >= n {
        return None;
    }
    let mut value: u64 = 0;
    let mut i: usize = start;
    while i < n
        invariant
            start <= i <= n,
            n == s@.len(),
            d == s@.skip(start as int),
            d == unsigned_digits(s@),
            value as nat == digits_value(d.take(i - start)),
            value <= u32::MAX,
            forall|k: int| 0 <= k < i - start ==> is_digit(#[trigger] d[k]),
        decreases n - i,
    {
        let c = s.get_char(i);
        assert(d[i - start] == c);
        if !('0' <= c && c <= '9') {
            assert(!is_digit(d[i - start]));
            return None;
        }
        proof {
            assert(d.take(i - start + 1) =~= d.take(i - start).push(c));
            lemma_digits_value_push(d.take(i - start), c);
        }
        value = value * 10 + (c as u64 - '0' as u64);
        assert(value as nat == digits_value(d.take(i - start + 1)));
        if value > u32::MAX as u64 {
            proof {
                assert forall|m: int| i - start + 1 <= m <= d.len() implies digits_value(d.take(m)) > u32::MAX by {
                    lemma_digits_value_monotone(d, i - start + 1, m);
                }
                assert(d.take(d.len() as int) =~= d);
            }
            return None;
        }
        i = i + 1;
    }
    assert(d.take(n - start) =~= d);
    Some(value as u32)
}

proof fn lemma_digits_value_monotone(d: Seq<char>, a: int, b: int)
    requires
        0 <= a <= b <= d.len(),
    ensures
        digits_value(d.take(a)) <= digits_value(d.take(b)),
    decreases b - a,
{
    if a < b {
        lemma_digits_value_monotone(d, a, b - 1);
        assert(d.take(b).drop_last() =~= d.take(b - 1));
    }
}

impl Size {
    /// Reads `WIDTHxHEIGHT`: the width before the first `x`, the height after it.
    pub fn parse(s: &str) -> (r: Result<Size, SizeError>)
        ensures
            r == size_of(s@),
    {
        let n = s.unicode_len();
        let mut k: usize = 0;
        while k < n && s.get_char(k) != 'x'
            invariant
                k <= n,
                n == s@.len(),
                forall|j: int| 0 <= j < k ==> s@[j] != 'x',
            decreases n - k,
        {
            k = k + 1;
        }
        if k == n {
            assert(!exists|i: int| 0 <= i < s@.len() && s@[i] == 'x');
            return Err(SizeError::MissingSeparator);
        }
        proof {
            let c = choose|i: int| 0 <= i < s@.len() && s@[i] == 'x' && forall|j: int| 0 <= j < i ==> s@[j] != 'x';
            assert(0 <= k < s@.len() && s@[k as int] == 'x' && forall|j: int| 0 <= j < k ==> s@[j] != 'x');
            if c < k {
            } else if c > k {
                assert(s@[k as int] != 'x');
            }
            assert(first_x(s@) == Some(k as int));
        }
        let ws = s.substring_char(0, k);
        let hs = s.substring_char(k + 1, n);
        assert(ws@ =~= s@.take(k as int));
        assert(hs@ =~= s@.skip(k + 1));
        match parse_u32(ws) {
            None => Err(SizeError::InvalidWidth),
            Some(width) => match parse_u32(hs) {
                None => Err(SizeError::InvalidHeight),
                Some(height) => Ok(Size { width, height }),
            },
        }
    }
}

} // verus!
