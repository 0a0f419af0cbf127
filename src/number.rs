//! Decimal integers, and the sentinel convention for optional unsigned values.
use vstd::prelude::*;

use crate::error::DecodeError;

verus! {

pub open spec fn is_digit(c: char) -> bool {
    '0' <= c && c <= '9'
}

pub open spec fn all_digits(s: Seq<char>) -> bool {
    forall|i: int| 0 <= i < s.len() ==> is_digit(#[trigger] s[i])
}

pub open spec fn digit_value(c: char) -> nat {
    (c as u32 - '0' as u32) as nat
}

/// The number that a run of decimal digits writes.
pub open spec fn digits_value(s: Seq<char>) -> nat
    decreases s.len(),
{
    if s.len() == 0 {
        0
    } else {
        digits_value(s.drop_last()) * 10 + digit_value(s.last())
    }
}

/// The integer that `s` writes: an optional `+` or `-`, then at least one digit.
pub open spec fn decimal_value(s: Seq<char>) -> Option<int> {
    if s.len() > 0 && (s[0] == '-' || s[0] == '+') {
        let d = s.drop_first();
        if d.len() > 0 && all_digits(d) {
            if s[0] == '-' {
                Some(-(digits_value(d) as int))
            } else {
                Some(digits_value(d) as int)
            }
        } else {
            None
        }
    } else if s.len() > 0 && all_digits(s) {
        Some(digits_value(s) as int)
    } else {
        None
    }
}

pub open spec fn digit_char(d: nat) -> char {
    if d == 0 {
        '0'
    } else if d == 1 {
        '1'
    } else if d == 2 {
        '2'
    } else if d == 3 {
        '3'
    } else if d == 4 {
        '4'
    } else if d == 5 {
        '5'
    } else if d == 6 {
        '6'
    } else if d == 7 {
        '7'
    } else if d == 8 {
        '8'
    } else {
        '9'
    }
}

/// The shortest decimal text of `n`.
pub open spec fn decimal_text(n: nat) -> Seq<char>
    decreases n,
{
    if n < 10 {
        seq![digit_char(n)]
    } else {
        decimal_text(n / 10).push(digit_char(n % 10))
    }
}

/// An unsigned field of at most `max`: the text must write an integer in `0..=max`.
pub open spec fn unsigned_field(s: Seq<char>, max: u64) -> Result<u64, DecodeError> {
    match decimal_value(s) {
        None => Err(DecodeError::InvalidNumber),
        Some(v) => if v < 0 {
            Err(DecodeError::InvalidNumber)
        } else if v > max {
            Err(DecodeError::NumericOverflow)
        } else {
            Ok(v as u64)
        },
    }
}

/// The sentinel convention: any negative integer stands for "absent".
pub open spec fn sentinel_field(s: Seq<char>, max: u64) -> Result<Option<u64>, DecodeError> {
    match decimal_value(s) {
        None => Err(DecodeError::InvalidNumber),
        Some(v) => if v < 0 {
            Ok(None)
        } else if v > max {
            Err(DecodeError::NumericOverflow)
        } else {
            Ok(Some(v as u64))
        },
    }
}

/// The text that the sentinel convention writes for an optional value.
pub open spec fn sentinel_text(v: Option<u64>) -> Seq<char> {
    match v {
        Some(n) => decimal_text(n as nat),
        None => seq!['-', '1'],
    }
}

/// What a scan of a decimal text finds.
#[derive(Debug, Clone, Copy, PartialEq, Eq, Structural)]
pub enum Scanned {
    Malformed,
    Negative,
    Value(u64),
    TooLarge,
}

pub open spec fn scanned_of(s: Seq<char>) -> Scanned {
    match decimal_value(s) {
        None => Scanned::Malformed,
        Some(v) => if v < 0 {
            Scanned::Negative
        } else if v <= u64::MAX {
            Scanned::Value(v as u64)
        } else {
            Scanned::TooLarge
        },
    }
}

proof fn lemma_digits_value_push(s: Seq<char>, c: char)
    ensures
        digits_value(s.push(c)) == digits_value(s) * 10 + digit_value(c),
{
    assert(s.push(c).drop_last() =~= s);
}

/// Reads the decimal integer that `s` writes.
pub fn scan_decimal(s: &str) -> (r: Scanned)
    ensures
        r == scanned_of(s@),
{
    let n = s.unicode_len();
    if n == 0 {
        return Scanned::Malformed;
    }
    let first = s.get_char(0);
    let negative = first == '-';
    let start: usize = if first == '-' || first == '+' { 1 } else { 0 };
    if start == n {
        return Scanned::Malformed;
    }
    let ghost d = s@.subrange(start as int, n as int);
    let mut acc: u64 = 0;
    let mut too_large = false;
    let mut i: usize = start;
    while i < n
        invariant
            start <= i <= n,
            n == s@.len(),
            n > 0,
            first == s@[0],
            negative == (first == '-'),
            start == 1 <==> (first == '-' || first == '+'),
            start == 0 || start == 1,
            d == s@.subrange(start as int, n as int),
            all_digits(s@.subrange(start as int, i as int)),
            !too_large ==> acc == digits_value(s@.subrange(start as int, i as int)),
            too_large ==> digits_value(s@.subrange(start as int, i as int)) > u64::MAX,
        decreases n - i,
    {
        let c = s.get_char(i);
        if c < '0' || c > '9' {
            assert(!all_digits(d)) by {
                assert(d[i - start] == c);
            }
            if start == 1 {
                assert(d =~= s@.drop_first());
            } else {
                assert(d =~= s@);
            }
            return Scanned::Malformed;
        }
        let digit = (c as u32 - '0' as u32) as u64;
        proof {
            let p = s@.subrange(start as int, i as int);
            assert(s@.subrange(start as int, i + 1) =~= p.push(c));
            lemma_digits_value_push(p, c);
        }
        if !too_large {
            if acc > (u64::MAX - digit) / 10 {
                too_large = true;
            } else {
                acc = acc * 10 + digit;
            }
        }
        i = i + 1;
    }
    assert(s@.subrange(start as int, n as int) =~= d);
    if start == 1 {
        assert(d =~= s@.drop_first());
    } else {
        assert(d =~= s@);
    }
    if negative {
        if too_large || acc > 0 {
            Scanned::Negative
        } else {
            Scanned::Value(0)
        }
    } else if too_large {
        Scanned::TooLarge
    } else {
        Scanned::Value(acc)
    }
}


proof fn lemma_digit_char(d: nat)
    requires
        d < 10,
    ensures
        is_digit(digit_char(d)),
        digit_value(digit_char(d)) == d,
{
}

/// The decimal text of `n` holds digits only, and reads back as `n`.
pub proof fn lemma_decimal_text_reads_back(n: nat)
    ensures
        decimal_text(n).len() > 0,
        all_digits(decimal_text(n)),
        digits_value(decimal_text(n)) == n,
        decimal_value(decimal_text(n)) == Some(n as int),
    decreases n,
{
    lemma_digit_char(n % 10);
    if n < 10 {
        assert(seq![digit_char(n)].drop_last() =~= Seq::<char>::empty());
        assert(digits_value(decimal_text(n)) == digits_value(Seq::<char>::empty()) * 10
            + digit_value(digit_char(n)));
    } else {
        lemma_decimal_text_reads_back(n / 10);
        let p = decimal_text(n / 10);
        lemma_digits_value_push(p, digit_char(n % 10));
        assert forall|i: int| 0 <= i < decimal_text(n).len() implies is_digit(
            #[trigger] decimal_text(n)[i],
        ) by {
            if i < p.len() {
                assert(decimal_text(n)[i] == p[i]);
            }
        }
    }
    assert(is_digit(decimal_text(n)[0]));
}

fn digit_str(d: u64) -> (r: &'static str)
    requires
        d < 10,
    ensures
        r@ == seq![digit_char(d as nat)],
{
    if d == 0 {
        proof { reveal_strlit("0"); }
        "0"
    } else if d == 1 {
        proof { reveal_strlit("1"); }
        "1"
    } else if d == 2 {
        proof { reveal_strlit("2"); }
        "2"
    } else if d == 3 {
        proof { reveal_strlit("3"); }
        "3"
    } else if d == 4 {
        proof { reveal_strlit("4"); }
        "4"
    } else if d == 5 {
        proof { reveal_strlit("5"); }
        "5"
    } else if d == 6 {
        proof { reveal_strlit("6"); }
        "6"
    } else if d == 7 {
        proof { reveal_strlit("7"); }
        "7"
    } else if d == 8 {
        proof { reveal_strlit("8"); }
        "8"
    } else {
        proof { reveal_strlit("9"); }
        "9"
    }
}

/// Appends the decimal text of `v` to `out`.
pub fn push_decimal(out: &mut String, v: u64)
    ensures
        final(out)@ == old(out)@ + decimal_text(v as nat),
    decreases v,
{
    if v >= 10 {
        push_decimal(out, v / 10);
    }
    out.append(digit_str(v % 10));
    proof {
        if v < 10 {
            assert(decimal_text(v as nat) == seq![digit_char(v as nat)]);
        }
    }
    assert(final(out)@ =~= old(out)@ + decimal_text(v as nat));
}

/// The decimal text of `v`.
pub fn decimal_string(v: u64) -> (r: String)
    ensures
        r@ == decimal_text(v as nat),
{
    let mut out = String::new();
    push_decimal(&mut out, v);
    assert(out@ =~= decimal_text(v as nat));
    out
}

/// Reads an unsigned integer of at most `max`.
pub fn decode_unsigned(s: &str, max: u64) -> (r: Result<u64, DecodeError>)
    ensures
        r == unsigned_field(s@, max),
{
    match scan_decimal(s) {
        Scanned::Malformed => Err(DecodeError::InvalidNumber),
        Scanned::Negative => Err(DecodeError::InvalidNumber),
        Scanned::TooLarge => Err(DecodeError::NumericOverflow),
        Scanned::Value(v) => if v > max {
            Err(DecodeError::NumericOverflow)
        } else {
            Ok(v)
        },
    }
}

/// Reads a value written with the sentinel convention: a negative integer
/// stands for "absent", a non-negative one of at most `max` for itself.
pub fn decode_sentinel(s: &str, max: u64) -> (r: Result<Option<u64>, DecodeError>)
    ensures
        r == sentinel_field(s@, max),
{
    match scan_decimal(s) {
        Scanned::Malformed => Err(DecodeError::InvalidNumber),
        Scanned::Negative => Ok(None),
        Scanned::TooLarge => Err(DecodeError::NumericOverflow),
        Scanned::Value(v) => if v > max {
            Err(DecodeError::NumericOverflow)
        } else {
            Ok(Some(v))
        },
    }
}

/// Writes a value with the sentinel convention: the decimal text of a
/// present value, `-1` for an absent one.
pub fn encode_sentinel(v: Option<u64>) -> (r: String)
    ensures
        r@ == sentinel_text(v),
{
    match v {
        Some(n) => decimal_string(n),
        None => {
            proof { reveal_strlit("-1"); }
            String::from_str("-1")
        },
    }
}

/// Every value of the sentinel convention's domain survives a write and a
/// read: reading `sentinel_text(Some(u))` gives `Some(u)` back.
pub proof fn lemma_sentinel_round_trip(u: u64, max: u64)
    requires
        u <= max,
    ensures
        sentinel_field(sentinel_text(Some(u)), max) == Ok::<Option<u64>, DecodeError>(Some(u)),
{
    lemma_decimal_text_reads_back(u as nat);
}

/// `-1` reads as absent.
pub proof fn lemma_minus_one_is_absent(max: u64)
    ensures
        sentinel_field(sentinel_text(None), max) == Ok::<Option<u64>, DecodeError>(None),
{
    let s = seq!['-', '1'];
    lemma_decimal_text_reads_back(1);
    assert(decimal_text(1) =~= seq!['1']);
    assert(s.drop_first() =~= seq!['1']);
}

/// The absent value is written `-1`, and every negative integer, not only
/// `-1`, is read back as absent.
pub proof fn lemma_sentinel_absent(s: Seq<char>, max: u64)
    requires
        decimal_value(s) matches Some(v) && v < 0,
    ensures
        sentinel_text(None) == seq!['-', '1'],
        sentinel_field(s, max) == Ok::<Option<u64>, DecodeError>(None),
{
}


/// The decimal text of `n`, with a leading zero below ten (at least two digits).
pub open spec fn pad2_text(n: nat) -> Seq<char> {
    if n < 10 {
        seq!['0'] + decimal_text(n)
    } else {
        decimal_text(n)
    }
}

/// The decimal text of `n`, with leading zeros to at least four digits.
pub open spec fn pad4_text(n: nat) -> Seq<char> {
    if n < 10 {
        seq!['0', '0', '0'] + decimal_text(n)
    } else if n < 100 {
        seq!['0', '0'] + decimal_text(n)
    } else if n < 1000 {
        seq!['0'] + decimal_text(n)
    } else {
        decimal_text(n)
    }
}

/// Appends `pad2_text(v)` to `out`.
pub fn push_pad2(out: &mut String, v: u64)
    ensures
        final(out)@ == old(out)@ + pad2_text(v as nat),
{
    if v < 10 {
        proof { reveal_strlit("0"); }
        out.append("0");
    }
    push_decimal(out, v);
    assert(final(out)@ =~= old(out)@ + pad2_text(v as nat));
}

/// Appends `pad4_text(v)` to `out`.
pub fn push_pad4(out: &mut String, v: u64)
    ensures
        final(out)@ == old(out)@ + pad4_text(v as nat),
{
    proof {
        reveal_strlit("000");
        reveal_strlit("00");
        reveal_strlit("0");
    }
    if v < 10 {
        out.append("000");
    } else if v < 100 {
        out.append("00");
    } else if v < 1000 {
        out.append("0");
    }
    push_decimal(out, v);
    assert(final(out)@ =~= old(out)@ + pad4_text(v as nat));
}


/// The largest whole part of a version number.
pub const VERSION_WHOLE_MAX: u64 = 400_000_000;

/// A version number in tenths: digits, then optionally a `.` and at least
/// one digit, of which the first gives the tenths (later ones are dropped).
pub open spec fn version_field(s: Seq<char>) -> Result<u64, DecodeError> {
    let i = crate::time::index_of(s, '.') as int;
    let whole = s.subrange(0, i);
    let frac = if i < s.len() { s.subrange(i + 1, s.len() as int) } else { Seq::empty() };
    if !(whole.len() > 0 && all_digits(whole)) || (i < s.len() && !(frac.len() > 0 && all_digits(
        frac,
    ))) {
        Err(DecodeError::InvalidNumber)
    } else if digits_value(whole) > VERSION_WHOLE_MAX {
        Err(DecodeError::NumericOverflow)
    } else {
        Ok((digits_value(whole) * 10 + if frac.len() > 0 { digit_value(frac[0]) } else { 0 }) as u64)
    }
}

/// The text of a version number in tenths: always one fractional digit.
pub open spec fn version_text(tenths: nat) -> Seq<char> {
    decimal_text(tenths / 10) + seq!['.'] + decimal_text(tenths % 10)
}

fn digits_only(s: &str, from: usize, to: usize) -> (r: bool)
    requires
        from <= to <= s@.len(),
    ensures
        r == all_digits(s@.subrange(from as int, to as int)),
{
    let mut i = from;
    while i < to
        invariant
            from <= i <= to <= s@.len(),
            all_digits(s@.subrange(from as int, i as int)),
        decreases to - i,
    {
        let c = s.get_char(i);
        if c < '0' || c > '9' {
            assert(s@.subrange(from as int, to as int)[i - from] == c);
            return false;
        }
        assert(forall|k: int|
            0 <= k < i + 1 - from ==> #[trigger] s@.subrange(from as int, i + 1)[k] == s@[from + k]);
        i = i + 1;
    }
    true
}

/// Reads a version number, in tenths.
pub fn decode_version(s: &str) -> (r: Result<u64, DecodeError>)
    ensures
        r == version_field(s@),
{
    let n = s.unicode_len();
    let i = crate::time::find_char(s, 0, '.');
    assert(s@.subrange(0, n as int) =~= s@);
    let whole = s.substring_char(0, i);
    if i == 0 || !digits_only(s, 0, i) || (i < n && (i + 1 == n || !digits_only(s, i + 1, n))) {
        return Err(DecodeError::InvalidNumber);
    }
    assert(whole@.len() > 0);
    match scan_decimal(whole) {
        Scanned::Value(w) => {
            if w > VERSION_WHOLE_MAX {
                return Err(DecodeError::NumericOverflow);
            }
            let tenth: u64 = if i < n {
                let c = s.get_char(i + 1);
                assert(c == s@.subrange(i + 1, n as int)[0]);
                (c as u32 - '0' as u32) as u64
            } else {
                0
            };
            Ok(w * 10 + tenth)
        },
        _ => Err(DecodeError::NumericOverflow),
    }
}

/// A version number of at most `VERSION_WHOLE_MAX` whole units reads back
/// from its text.
pub proof fn lemma_version_reads_back(t: nat)
    requires
        t / 10 <= VERSION_WHOLE_MAX,
    ensures
        version_field(version_text(t)) == Ok::<u64, DecodeError>(t as u64),
{
    let w = decimal_text(t / 10);
    let f = decimal_text(t % 10);
    let s = version_text(t);
    lemma_decimal_text_reads_back(t / 10);
    lemma_decimal_text_reads_back(t % 10);
    assert(f == seq![digit_char(t % 10)]);
    assert(f.drop_last() =~= Seq::<char>::empty());
    assert forall|k: int| 0 <= k < w.len() implies s[k] != '.' by {
        assert(s[k] == w[k]);
        assert(is_digit(w[k]));
    }
    assert(s[w.len() as int] == '.');
    crate::time::lemma_index_of(s, '.', w.len() as int);
    assert(s.subrange(0, w.len() as int) =~= w);
    assert(s.subrange(w.len() as int + 1, s.len() as int) =~= f);
}

/// Writes a version number in tenths, with one fractional digit.
pub fn version_string(tenths: u64) -> (r: String)
    ensures
        r@ == version_text(tenths as nat),
{
    let mut out = String::new();
    push_decimal(&mut out, tenths / 10);
    proof { reveal_strlit("."); }
    out.append(".");
    push_decimal(&mut out, tenths % 10);
    assert(out@ =~= version_text(tenths as nat));
    out
}

} // verus!
