//! Character-level helpers shared by the command-line grammar and the text
//! the dashboard prints: splitting strings into characters, rebuilding them,
//! and reading decimal numbers.
use vstd::prelude::*;
use vstd::string::StrSliceExecFns;

verus! {

/// Appends one character to a string (`String::push`).
///
/// Trusted: the contract claims that `push` leaves the old contents in place
/// and adds `c` at the end, as std's documentation says.
#[verifier::external_body]
pub fn push_char(s: &mut String, c: char)
    ensures
        final(s)@ == old(s)@.push(c),
{
    s.push(c);
}

/// The characters of a string, in order.
pub fn chars_of(s: &str) -> (v: Vec<char>)
    ensures
        v@ == s@,
{
    let n = s.unicode_len();
    let mut v: Vec<char> = Vec::new();
    let mut i: usize = 0;
    while i < n
        invariant
            n == s@.len(),
            i <= n,
            v@ == s@.subrange(0, i as int),
        decreases n - i,
    {
        v.push(s.get_char(i));
        i += 1;
    }
    v
}

/// The string made of the characters `v[lo..hi]`.
pub fn string_of(v: &Vec<char>, lo: usize, hi: usize) -> (s: String)
    requires
        lo <= hi <= v@.len(),
    ensures
        s@ == v@.subrange(lo as int, hi as int),
{
    let mut s = String::new();
    let mut i = lo;
    while i < hi
        invariant
            lo <= i <= hi <= v@.len(),
            s@ == v@.subrange(lo as int, i as int),
        decreases hi - i,
    {
        push_char(&mut s, v[i]);
        assert(v@.subrange(lo as int, i + 1) == v@.subrange(lo as int, i as int).push(v@[i as int]));
        i += 1;
    }
    s
}

/// A copy of the characters `v[lo..hi]`.
pub fn sub_chars(v: &Vec<char>, lo: usize, hi: usize) -> (w: Vec<char>)
    requires
        lo <= hi <= v@.len(),
    ensures
        w@ == v@.subrange(lo as int, hi as int),
{
    let mut w: Vec<char> = Vec::new();
    let mut i = lo;
    while i < hi
        invariant
            lo <= i <= hi <= v@.len(),
            w@ == v@.subrange(lo as int, i as int),
        decreases hi - i,
    {
        w.push(v[i]);
        assert(v@.subrange(lo as int, i + 1) == v@.subrange(lo as int, i as int).push(v@[i as int]));
        i += 1;
    }
    w
}

/// Whether `v[lo..hi]` spells exactly `w`.
pub fn same_chars(v: &Vec<char>, lo: usize, hi: usize, w: &Vec<char>) -> (b: bool)
    requires
        lo <= hi <= v@.len(),
    ensures
        b == (v@.subrange(lo as int, hi as int) == w@),
{
    if hi - lo != w.len() {
        return false;
    }
    let mut i: usize = 0;
    while i < w.len()
        invariant
            lo <= hi <= v@.len(),
            hi - lo == w@.len(),
            i <= w@.len(),
            forall|j: int| 0 <= j < i ==> v@[lo + j] == w@[j],
        decreases w@.len() - i,
    {
        if v[lo + i] != w[i] {
            assert(v@.subrange(lo as int, hi as int)[i as int] != w@[i as int]);
            return false;
        }
        i += 1;
    }
    assert(v@.subrange(lo as int, hi as int) =~= w@);
    true
}

/// The value of a decimal digit character, for `'0'..='9'`.
pub open spec fn digit_value(c: char) -> nat {
    (c as u32 - '0' as u32) as nat
}

/// Whether `c` is one of `'0'..='9'`.
pub open spec fn is_digit(c: char) -> bool {
    '0' <= c && c <= '9'
}

/// Why a string is not a `usize`, as `usize::from_str` tells it.
#[derive(Debug, Clone, Copy, PartialEq, Eq, Structural)]
pub enum NumberError {
    /// "cannot parse integer from empty string"
    Empty,
    /// "invalid digit found in string"
    InvalidDigit,
    /// "number too large to fit in target type"
    TooLarge,
}

/// The digits `usize::from_str` reads: a leading `+` is dropped when
/// something follows it.
pub open spec fn number_digits(s: Seq<char>) -> Seq<char> {
    if s.len() > 1 && s[0] == '+' {
        s.drop_first()
    } else {
        s
    }
}

/// Reads `d[i..]` left to right onto `acc`: each character must be a digit,
/// and the number read so far must stay within `usize`.
pub open spec fn scan_digits(d: Seq<char>, i: int, acc: nat) -> Result<nat, NumberError>
    decreases d.len() - i,
{
    if i >= d.len() {
        Ok(acc)
    } else if !is_digit(d[i]) {
        Err(NumberError::InvalidDigit)
    } else if acc * 10 + digit_value(d[i]) > usize::MAX {
        Err(NumberError::TooLarge)
    } else {
        scan_digits(d, i + 1, acc * 10 + digit_value(d[i]))
    }
}

/// What `usize::from_str` gives for `s`.
pub open spec fn spec_read_usize(s: Seq<char>) -> Result<usize, NumberError> {
    if s.len() == 0 {
        Err(NumberError::Empty)
    } else {
        match scan_digits(number_digits(s), 0, 0) {
            Ok(n) => Ok(n as usize),
            Err(e) => Err(e),
        }
    }
}

/// Reads `v[lo..hi]` as `usize::from_str` does.
pub fn read_usize(v: &Vec<char>, lo: usize, hi: usize) -> (r: Result<usize, NumberError>)
    requires
        lo <= hi <= v@.len(),
    ensures
        r == spec_read_usize(v@.subrange(lo as int, hi as int)),
{
    let ghost s = v@.subrange(lo as int, hi as int);
    if lo == hi {
        return Err(NumberError::Empty);
    }
    let mut start = lo;
    if hi - lo > 1 && v[lo] == '+' {
        start = lo + 1;
    }
    let ghost d = v@.subrange(start as int, hi as int);
    assert(d =~= number_digits(s));
    let mut acc: usize = 0;
    let mut i = start;
    while i < hi
        invariant
            lo <= start <= i <= hi <= v@.len(),
            d == v@.subrange(start as int, hi as int),
            s == v@.subrange(lo as int, hi as int),
            s.len() > 0,
            d == number_digits(s),
            scan_digits(d, 0, 0) == scan_digits(d, i - start, acc as nat),
        decreases hi - i,
    {
        let c = v[i];
        assert(d[i - start] == c);
        if !('0' <= c && c <= '9') {
            return Err(NumberError::InvalidDigit);
        }
        let dv = (c as u32 - '0' as u32) as usize;
        if acc > (usize::MAX - dv) / 10 {
            assert(acc * 10 + dv > usize::MAX) by (nonlinear_arith)
                requires
                    acc > (usize::MAX - dv) / 10,
                    dv <= 9,
            ;
            return Err(NumberError::TooLarge);
        }
        assert(acc * 10 + dv <= usize::MAX) by (nonlinear_arith)
            requires
                acc <= (usize::MAX - dv) / 10,
                dv <= 9,
        ;
        acc = acc * 10 + dv;
        i += 1;
    }
    Ok(acc)
}

} // verus!
