//! Decimal numbers as they appear in the control files and on the command line.
use vstd::prelude::*;
use vstd::string::{StrSliceExecFns, StringExecFns};

verus! {

pub open spec fn is_digit(c: char) -> bool {
    '0' <= c && c <= '9'
}

/// Unicode whitespace (the `White_Space` property): tab, line feed, vertical
/// tab, form feed, carriage return, space, next line, no-break space, Ogham
/// space mark, the spaces from en quad to hair space, line and paragraph
/// separators, narrow no-break space, medium mathematical space and
/// ideographic space.
pub open spec fn is_whitespace(c: char) -> bool {
    let u = c as u32;
    (0x09 <= u && u <= 0x0d) || u == 0x20 || u == 0x85 || u == 0xa0 || u == 0x1680 || (0x2000 <= u
        && u <= 0x200a) || u == 0x2028 || u == 0x2029 || u == 0x202f || u == 0x205f || u == 0x3000
}

pub open spec fn all_digits(s: Seq<char>) -> bool {
    forall|i: int| 0 <= i < s.len() ==> is_digit(#[trigger] s[i])
}

/// The value of a string of decimal digits, most significant first.
pub open spec fn digits_value(s: Seq<char>) -> nat
    decreases s.len(),
{
    if s.len() == 0 {
        0
    } else {
        digits_value(s.drop_last()) * 10 + (s.last() as u32 - 48) as nat
    }
}

pub open spec fn trim_start(s: Seq<char>) -> Seq<char>
    decreases s.len(),
{
    if s.len() > 0 && is_whitespace(s[0]) {
        trim_start(s.drop_first())
    } else {
        s
    }
}

pub open spec fn trim_end(s: Seq<char>) -> Seq<char>
    decreases s.len(),
{
    if s.len() > 0 && is_whitespace(s.last()) {
        trim_end(s.drop_last())
    } else {
        s
    }
}

/// `s` without the whitespace at either end.
pub open spec fn trim(s: Seq<char>) -> Seq<char> {
    trim_end(trim_start(s))
}

/// A non-empty run of digits whose value is at most `limit`.
pub open spec fn bounded_digits(d: Seq<char>, limit: nat) -> Option<nat> {
    if d.len() > 0 && all_digits(d) && digits_value(d) <= limit {
        Some(digits_value(d))
    } else {
        None
    }
}

/// An unsigned 32-bit number: an optional `+`, then at least one digit.
pub open spec fn parse_u32(s: Seq<char>) -> Option<u32> {
    let d = if s.len() > 0 && s[0] == '+' {
        s.drop_first()
    } else {
        s
    };
    match bounded_digits(d, u32::MAX as nat) {
        Some(v) => Some(v as u32),
        None => None,
    }
}

/// A signed 32-bit number: an optional `+` or `-`, then at least one digit.
pub open spec fn parse_i32(s: Seq<char>) -> Option<i32> {
    if s.len() > 0 && s[0] == '-' {
        match bounded_digits(s.drop_first(), 0x8000_0000nat) {
            Some(v) => Some((-v) as i32),
            None => None,
        }
    } else {
        let d = if s.len() > 0 && s[0] == '+' {
            s.drop_first()
        } else {
            s
        };
        match bounded_digits(d, i32::MAX as nat) {
            Some(v) => Some(v as i32),
            None => None,
        }
    }
}

/// The contents of a control file: an unsigned number with whitespace around it.
pub open spec fn control_value(s: Seq<char>) -> Option<u32> {
    parse_u32(trim(s))
}

/// The digit for `d < 10`.
pub open spec fn digit_char(d: nat) -> char {
    if d == 0 {
        '0'
    } else if d == 1 {
        '1'
    } else if d == 2 {
        '2'
    } else if d == 3 {
        '3'
    } else if d == 4 {
        '4'
    } else if d == 5 {
        '5'
    } else if d == 6 {
        '6'
    } else if d == 7 {
        '7'
    } else if d == 8 {
        '8'
    } else {
        '9'
    }
}

/// The shortest decimal representation of `n`.
pub open spec fn decimal(n: nat) -> Seq<char>
    decreases n,
{
    if n < 10 {
        seq![digit_char(n)]
    } else {
        decimal(n / 10).push(digit_char(n % 10))
    }
}

/// Whether `c` is Unicode whitespace.
pub fn is_whitespace_char(c: char) -> (r: bool)
    ensures
        r == is_whitespace(c),
{
    let u = c as u32;
    (0x09 <= u && u <= 0x0d) || u == 0x20 || u == 0x85 || u == 0xa0 || u == 0x1680 || (0x2000 <= u
        && u <= 0x200a) || u == 0x2028 || u == 0x2029 || u == 0x202f || u == 0x205f || u == 0x3000
}

proof fn lemma_digits_prefix_monotone(t: Seq<char>, j: int, k: int)
    requires
        0 <= j <= k <= t.len(),
        all_digits(t),
    ensures
        digits_value(t.subrange(0, j)) <= digits_value(t.subrange(0, k)),
    decreases k - j,
{
    if j < k {
        lemma_digits_prefix_monotone(t, j, k - 1);
        assert(t.subrange(0, k).drop_last() =~= t.subrange(0, k - 1));
        assert(is_digit(t[k - 1]));
    }
}

/// Parses the digits `s[lo..hi]`, accepting the run only when it is non-empty,
/// all digits, and its value is at most `limit`.
fn parse_digits(s: &str, lo: usize, hi: usize, limit: u64) -> (r: Option<u64>)
    requires
        lo <= hi <= s@.len(),
        limit <= 0x1_0000_0000u64,
    ensures
        r == (match bounded_digits(s@.subrange(lo as int, hi as int), limit as nat) {
            Some(v) => Some(v as u64),
            None => None::<u64>,
        }),
{
    let ghost t = s@.subrange(lo as int, hi as int);
    if lo == hi {
        return None;
    }
    let mut acc: u64 = 0;
    let mut i: usize = lo;
    while i < hi
        invariant
            lo <= i <= hi <= s@.len(),
            t == s@.subrange(lo as int, hi as int),
            all_digits(s@.subrange(lo as int, i as int)),
            acc as nat == digits_value(s@.subrange(lo as int, i as int)),
            acc <= limit,
            limit <= 0x1_0000_0000u64,
        decreases hi - i,
    {
        let c = s.get_char(i);
        if c < '0' || c > '9' {
            assert(t[i - lo] == c);
            return None;
        }
        let next: u64 = acc * 10 + (c as u32 - 48) as u64;
        let ghost p = s@.subrange(lo as int, i as int + 1);
        assert(p.drop_last() =~= s@.subrange(lo as int, i as int));
        assert(all_digits(p)) by {
            assert forall|k: int| 0 <= k < p.len() implies is_digit(#[trigger] p[k]) by {
                if k < p.len() - 1 {
                    assert(p[k] == s@.subrange(lo as int, i as int)[k]);
                }
            }
        }
        if next > limit {
            proof {
                if all_digits(t) {
                    assert(t.subrange(0, i - lo + 1) =~= p);
                    assert(t.subrange(0, t.len() as int) =~= t);
                    lemma_digits_prefix_monotone(t, i - lo + 1, t.len() as int);
                }
            }
            return None;
        }
        acc = next;
        i = i + 1;
    }
    Some(acc)
}

/// Reads a control file's contents: an unsigned number, with whitespace allowed
/// around it.
pub fn parse_control_value(s: &str) -> (r: Option<u32>)
    ensures
        r == control_value(s@),
{
    let n = s.unicode_len();
    let mut lo: usize = 0;
    assert(s@.subrange(0, n as int) =~= s@);
    while lo < n && is_whitespace_char(s.get_char(lo))
        invariant
            lo <= n == s@.len(),
            trim_start(s@) == trim_start(s@.subrange(lo as int, n as int)),
        decreases n - lo,
    {
        assert(s@.subrange(lo as int, n as int).drop_first() =~= s@.subrange(lo as int + 1, n as int));
        lo = lo + 1;
    }
    let mut hi: usize = n;
    while hi > lo && is_whitespace_char(s.get_char(hi - 1))
        invariant
            lo <= hi <= n == s@.len(),
            trim_start(s@) == s@.subrange(lo as int, n as int),
            trim(s@) == trim_end(s@.subrange(lo as int, hi as int)),
        decreases hi - lo,
    {
        assert(s@.subrange(lo as int, hi as int).drop_last() =~= s@.subrange(lo as int, hi as int - 1));
        hi = hi - 1;
    }
    let ghost t = s@.subrange(lo as int, hi as int);
    assert(trim(s@) == t);
    let mut start: usize = lo;
    if lo < hi && s.get_char(lo) == '+' {
        start = lo + 1;
        assert(t.drop_first() =~= s@.subrange(start as int, hi as int));
    }
    match parse_digits(s, start, hi, 0xffff_ffffu64) {
        Some(v) => Some(v as u32),
        None => None,
    }
}

/// Reads an unsigned 32-bit number from the first `end` characters of `s`.
pub(crate) fn unsigned_prefix(s: &str, end: usize) -> (r: Option<u32>)
    requires
        end <= s@.len(),
    ensures
        r == parse_u32(s@.subrange(0, end as int)),
{
    let ghost t = s@.subrange(0, end as int);
    let mut start: usize = 0;
    if end > 0 && s.get_char(0) == '+' {
        start = 1;
        assert(t.drop_first() =~= s@.subrange(1, end as int));
    }
    match parse_digits(s, start, end, 0xffff_ffffu64) {
        Some(v) => Some(v as u32),
        None => None,
    }
}

/// Reads a signed 32-bit number from the first `end` characters of `s`.
pub(crate) fn signed_prefix(s: &str, end: usize) -> (r: Option<i32>)
    requires
        end <= s@.len(),
    ensures
        r == parse_i32(s@.subrange(0, end as int)),
{
    let ghost t = s@.subrange(0, end as int);
    if end > 0 && s.get_char(0) == '-' {
        assert(t.drop_first() =~= s@.subrange(1, end as int));
        match parse_digits(s, 1, end, 0x8000_0000u64) {
            Some(v) => {
                let w: i64 = -(v as i64);
                Some(w as i32)
            },
            None => None,
        }
    } else {
        let mut start: usize = 0;
        if end > 0 && s.get_char(0) == '+' {
            start = 1;
            assert(t.drop_first() =~= s@.subrange(1, end as int));
        }
        match parse_digits(s, start, end, 0x7fff_ffffu64) {
            Some(v) => Some(v as i32),
            None => None,
        }
    }
}

/// Reads an unsigned 32-bit number: an optional `+`, then at least one digit.
pub fn parse_unsigned(s: &str) -> (r: Option<u32>)
    ensures
        r == parse_u32(s@),
{
    assert(s@.subrange(0, s@.len() as int) =~= s@);
    unsigned_prefix(s, s.unicode_len())
}

/// Reads a signed 32-bit number: an optional `+` or `-`, then at least one digit.
pub fn parse_signed(s: &str) -> (r: Option<i32>)
    ensures
        r == parse_i32(s@),
{
    assert(s@.subrange(0, s@.len() as int) =~= s@);
    signed_prefix(s, s.unicode_len())
}

fn append_digit(out: &mut String, d: u32)
    requires
        d < 10,
    ensures
        final(out)@ == old(out)@.push(digit_char(d as nat)),
{
    let t: &str = if d == 0 {
        "0"
    } else if d == 1 {
        "1"
    } else if d == 2 {
        "2"
    } else if d == 3 {
        "3"
    } else if d == 4 {
        "4"
    } else if d == 5 {
        "5"
    } else if d == 6 {
        "6"
    } else if d == 7 {
        "7"
    } else if d == 8 {
        "8"
    } else {
        "9"
    };
    proof {
        reveal_strlit("0");
        reveal_strlit("1");
        reveal_strlit("2");
        reveal_strlit("3");
        reveal_strlit("4");
        reveal_strlit("5");
        reveal_strlit("6");
        reveal_strlit("7");
        reveal_strlit("8");
        reveal_strlit("9");
    }
    assert(t@ =~= seq![digit_char(d as nat)]);
    out.append(t);
}

fn append_decimal(n: u32, out: &mut String)
    ensures
        final(out)@ == old(out)@ + decimal(n as nat),
    decreases n,
{
    if n >= 10 {
        append_decimal(n / 10, out);
    }
    append_digit(out, n % 10);
    assert(final(out)@ =~= old(out)@ + decimal(n as nat));
}

/// The decimal representation of `n`, with no sign, padding or line end.
pub fn encode_decimal(n: u32) -> (r: String)
    ensures
        r@ == decimal(n as nat),
{
    let mut out = String::new();
    append_decimal(n, &mut out);
    assert(out@ =~= decimal(n as nat));
    out
}

proof fn lemma_decimal_digits(n: nat)
    ensures
        decimal(n).len() > 0,
        all_digits(decimal(n)),
        digits_value(decimal(n)) == n,
    decreases n,
{
    let d = decimal(n);
    if n >= 10 {
        lemma_decimal_digits(n / 10);
        assert(d.drop_last() =~= decimal(n / 10));
        assert forall|i: int| 0 <= i < d.len() implies is_digit(#[trigger] d[i]) by {
            if i < d.len() - 1 {
                assert(d[i] == decimal(n / 10)[i]);
            }
        }
        assert(d.last() == digit_char(n % 10));
        assert(digits_value(d) == digits_value(decimal(n / 10)) * 10 + n % 10);
        assert((n / 10) * 10 + n % 10 == n) by (nonlinear_arith);
    } else {
        assert(d.drop_last() =~= Seq::<char>::empty());
        assert(digits_value(d.drop_last()) == 0);
    }
}

/// Writing a number in decimal and reading it back as a control file's
/// contents gives the number again.
pub proof fn lemma_decimal_round_trip(n: u32)
    ensures
        control_value(decimal(n as nat)) == Some(n),
{
    let d = decimal(n as nat);
    lemma_decimal_digits(n as nat);
    assert(is_digit(d[0]));
    assert(is_digit(d.last()));
    assert(trim_start(d) == d);
    assert(trim_end(d) == d);
}

} // verus!
