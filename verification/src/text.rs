use vstd::prelude::*;
use vstd::utf8::{decode_utf8, valid_utf8};

verus! {

#[verifier::external_type_specification]
#[verifier::external_body]
pub struct ExFromUtf8Error(std::string::FromUtf8Error);

/// `String::from_utf8`: text exactly when the bytes are valid UTF-8, and then
/// the characters they encode (std's documentation).
#[verifier::external_body]
pub(crate) fn string_from_utf8(bytes: Vec<u8>) -> (r: Result<String, std::string::FromUtf8Error>)
    ensures
        r is Ok <==> valid_utf8(bytes@),
        r matches Ok(s) ==> s@ == decode_utf8(bytes@),
{
    String::from_utf8(bytes)
}

// ---------------------------------------------------------------------------
// Decimal digits
// ---------------------------------------------------------------------------

pub open spec fn is_digit(c: char) -> bool {
    '0' <= c && c <= '9'
}

pub open spec fn digit_value(c: char) -> int {
    (c as int) - ('0' as int)
}

pub open spec fn digit_char(d: int) -> char {
    ((d + ('0' as int)) as u32) as char
}

/// The decimal digits of `n`, most significant first, without leading zeros.
pub open spec fn nat_digits(n: nat) -> Seq<char>
    decreases n,
{
    if n < 10 {
        seq![digit_char(n as int)]
    } else {
        nat_digits(n / 10).push(digit_char((n % 10) as int))
    }
}

pub open spec fn zeros(k: nat) -> Seq<char> {
    Seq::new(k, |i: int| '0')
}

/// `n` in decimal, padded with zeros on the left to at least `width` digits.
pub open spec fn padded_nat(n: nat, width: nat) -> Seq<char> {
    let d = nat_digits(n);
    if d.len() < width {
        zeros((width - d.len()) as nat) + d
    } else {
        d
    }
}

pub open spec fn abs(v: int) -> nat {
    if v < 0 { (-v) as nat } else { v as nat }
}

/// A signed integer in decimal, as Rust's `{:0w$}` writes it: a minus sign for
/// negative values, then zeros, then the digits, `width` characters at least.
pub open spec fn padded_int(v: int, width: nat) -> Seq<char> {
    if v < 0 {
        let w: nat = if width > 0 { (width - 1) as nat } else { 0 };
        seq!['-'] + padded_nat(abs(v), w)
    } else {
        padded_nat(v as nat, width)
    }
}

pub proof fn lemma_digit_char(d: int)
    requires
        0 <= d < 10,
    ensures
        is_digit(digit_char(d)),
        digit_value(digit_char(d)) == d,
        digit_char(d) != '-',
        digit_char(d) != '+',
{
}

pub proof fn lemma_nat_digits(n: nat)
    ensures
        nat_digits(n).len() >= 1,
        forall|i: int| 0 <= i < nat_digits(n).len() ==> is_digit(#[trigger] nat_digits(n)[i]),
    decreases n,
{
    if n < 10 {
        lemma_digit_char(n as int);
    } else {
        lemma_nat_digits(n / 10);
        lemma_digit_char((n % 10) as int);
        assert forall|i: int| 0 <= i < nat_digits(n).len() implies is_digit(
            #[trigger] nat_digits(n)[i],
        ) by {
            if i < nat_digits(n / 10).len() {
                assert(nat_digits(n)[i] == nat_digits(n / 10)[i]);
            }
        }
    }
}

fn digit_str(d: u64) -> (r: &'static str)
    requires
        d < 10,
    ensures
        r@ == seq![digit_char(d as int)],
{
    if d == 0 {
        proof { reveal_strlit("0"); }
        "0"
    } else if d == 1 {
        proof { reveal_strlit("1"); }
        "1"
    } else if d == 2 {
        proof { reveal_strlit("2"); }
        "2"
    } else if d == 3 {
        proof { reveal_strlit("3"); }
        "3"
    } else if d == 4 {
        proof { reveal_strlit("4"); }
        "4"
    } else if d == 5 {
        proof { reveal_strlit("5"); }
        "5"
    } else if d == 6 {
        proof { reveal_strlit("6"); }
        "6"
    } else if d == 7 {
        proof { reveal_strlit("7"); }
        "7"
    } else if d == 8 {
        proof { reveal_strlit("8"); }
        "8"
    } else {
        proof { reveal_strlit("9"); }
        "9"
    }
}

/// `n` written in decimal.
pub fn nat_to_string(n: u64) -> (r: String)
    ensures
        r@ == nat_digits(n as nat),
    decreases n,
{
    if n < 10 {
        String::from_str(digit_str(n))
    } else {
        let mut s = nat_to_string(n / 10);
        s.append(digit_str(n % 10));
        s
    }
}

/// `k` zeros.
pub fn zero_string(k: usize) -> (r: String)
    ensures
        r@ == zeros(k as nat),
{
    let mut s = String::new();
    let mut i: usize = 0;
    while i < k
        invariant
            i <= k,
            s@ == zeros(i as nat),
        decreases k - i,
    {
        proof { reveal_strlit("0"); }
        s.append("0");
        i = i + 1;
        assert(s@ =~= zeros(i as nat));
    }
    s
}

/// `n` in decimal, zero-padded to `width` digits (Rust's `{:0width$}`).
pub fn padded_nat_string(n: u64, width: usize) -> (r: String)
    ensures
        r@ == padded_nat(n as nat, width as nat),
{
    let d = nat_to_string(n);
    let len = d.as_str().unicode_len();
    if len < width {
        let z = zero_string(width - len);
        z.concat(d.as_str())
    } else {
        d
    }
}

/// `v` in decimal, zero-padded to `width` characters (Rust's `{:0width$}`).
pub fn padded_int_string(v: i64, width: usize) -> (r: String)
    ensures
        r@ == padded_int(v as int, width as nat),
{
    if v < 0 {
        let w: usize = if width > 0 { width - 1 } else { 0 };
        let a: u64 = if v == i64::MIN {
            9223372036854775808u64
        } else {
            (-v) as u64
        };
        let body = padded_nat_string(a, w);
        proof { reveal_strlit("-"); }
        let s = String::from_str("-");
        s.concat(body.as_str())
    } else {
        padded_nat_string(v as u64, width)
    }
}

// ---------------------------------------------------------------------------
// Parsing integers as Rust's `FromStr` for integer types does
// ---------------------------------------------------------------------------

/// Why text is not an integer (the kinds of `core::num::ParseIntError`).
#[derive(Debug, Clone, Copy, PartialEq, Eq, Structural)]
pub enum IntErrorKind {
    Empty,
    InvalidDigit,
    PosOverflow,
    NegOverflow,
}

/// Scans digits left to right from the value `acc`; the first character that is
/// not a digit, or the first step that leaves `[lo, hi]`, decides the error.
pub open spec fn scan_digits(d: Seq<char>, neg: bool, lo: int, hi: int, acc: int) -> Result<
    int,
    IntErrorKind,
>
    decreases d.len(),
{
    if d.len() == 0 {
        Ok(acc)
    } else if !is_digit(d[0]) {
        Err(IntErrorKind::InvalidDigit)
    } else {
        let next = if neg {
            acc * 10 - digit_value(d[0])
        } else {
            acc * 10 + digit_value(d[0])
        };
        if next > hi {
            Err(IntErrorKind::PosOverflow)
        } else if next < lo {
            Err(IntErrorKind::NegOverflow)
        } else {
            scan_digits(d.drop_first(), neg, lo, hi, next)
        }
    }
}

/// What `str::parse` gives for an integer type with range `[lo, hi]`; `signed`
/// says whether a leading minus sign is accepted.
pub open spec fn parse_int_spec(s: Seq<char>, signed: bool, lo: int, hi: int) -> Result<
    int,
    IntErrorKind,
> {
    if s.len() == 0 {
        Err(IntErrorKind::Empty)
    } else if s.len() == 1 && (s[0] == '+' || s[0] == '-') {
        Err(IntErrorKind::InvalidDigit)
    } else if s[0] == '+' {
        scan_digits(s.drop_first(), false, lo, hi, 0)
    } else if s[0] == '-' && signed {
        scan_digits(s.drop_first(), true, lo, hi, 0)
    } else {
        scan_digits(s, false, lo, hi, 0)
    }
}

pub const BOUND: i64 = 1_000_000_000_000;

fn scan_digits_exec(s: &str, start: usize, neg: bool, lo: i64, hi: i64) -> (r: Result<
    i64,
    IntErrorKind,
>)
    requires
        start <= s@.len(),
        -BOUND <= lo <= 0 <= hi <= BOUND,
    ensures
        match r {
            Ok(v) => lo <= v <= hi && scan_digits(s@.skip(start as int), neg, lo as int, hi as int, 0) == Ok::<
                int,
                IntErrorKind,
            >(v as int),
            Err(k) => scan_digits(s@.skip(start as int), neg, lo as int, hi as int, 0) == Err::<
                int,
                IntErrorKind,
            >(k),
        },
{
    let n = s.unicode_len();
    let mut i = start;
    let mut acc: i64 = 0;
    while i < n
        invariant
            n == s@.len(),
            start <= i <= n,
            lo <= acc <= hi,
            -BOUND <= lo <= 0 <= hi <= BOUND,
            scan_digits(s@.skip(start as int), neg, lo as int, hi as int, 0) == scan_digits(
                s@.skip(i as int),
                neg,
                lo as int,
                hi as int,
                acc as int,
            ),
        decreases n - i,
    {
        let c = s.get_char(i);
        assert(s@.skip(i as int)[0] == c);
        assert(s@.skip(i as int).drop_first() =~= s@.skip(i + 1));
        if !('0' <= c && c <= '9') {
            return Err(IntErrorKind::InvalidDigit);
        }
        let dv = (c as u32 - '0' as u32) as i64;
        let next = if neg {
            acc * 10 - dv
        } else {
            acc * 10 + dv
        };
        if next > hi {
            return Err(IntErrorKind::PosOverflow);
        }
        if next < lo {
            return Err(IntErrorKind::NegOverflow);
        }
        acc = next;
        i = i + 1;
    }
    assert(s@.skip(i as int) =~= Seq::<char>::empty());
    Ok(acc)
}

/// Parses `s` as Rust's `str::parse` does for an integer type with range
/// `[lo, hi]` (`signed` for the types that accept a minus sign).
pub fn parse_int(s: &str, signed: bool, lo: i64, hi: i64) -> (r: Result<i64, IntErrorKind>)
    requires
        -BOUND <= lo <= 0 <= hi <= BOUND,
    ensures
        match r {
            Ok(v) => lo <= v <= hi && parse_int_spec(s@, signed, lo as int, hi as int) == Ok::<int, IntErrorKind>(
                v as int,
            ),
            Err(k) => parse_int_spec(s@, signed, lo as int, hi as int) == Err::<int, IntErrorKind>(
                k,
            ),
        },
{
    let n = s.unicode_len();
    if n == 0 {
        return Err(IntErrorKind::Empty);
    }
    let c0 = s.get_char(0);
    if n == 1 && (c0 == '+' || c0 == '-') {
        return Err(IntErrorKind::InvalidDigit);
    }
    if c0 == '+' {
        assert(s@.skip(1) =~= s@.drop_first());
        scan_digits_exec(s, 1, false, lo, hi)
    } else if c0 == '-' && signed {
        assert(s@.skip(1) =~= s@.drop_first());
        scan_digits_exec(s, 1, true, lo, hi)
    } else {
        assert(s@.skip(0) =~= s@);
        scan_digits_exec(s, 0, false, lo, hi)
    }
}

/// The message of `core::num::ParseIntError` for each kind.
pub open spec fn int_error_message(k: IntErrorKind) -> Seq<char> {
    match k {
        IntErrorKind::Empty => "cannot parse integer from empty string"@,
        IntErrorKind::InvalidDigit => "invalid digit found in string"@,
        IntErrorKind::PosOverflow => "number too large to fit in target type"@,
        IntErrorKind::NegOverflow => "number too small to fit in target type"@,
    }
}

pub fn int_error_text(k: IntErrorKind) -> (r: &'static str)
    ensures
        r@ == int_error_message(k),
{
    match k {
        IntErrorKind::Empty => {
            proof { reveal_strlit("cannot parse integer from empty string"); }
            "cannot parse integer from empty string"
        },
        IntErrorKind::InvalidDigit => {
            proof { reveal_strlit("invalid digit found in string"); }
            "invalid digit found in string"
        },
        IntErrorKind::PosOverflow => {
            proof { reveal_strlit("number too large to fit in target type"); }
            "number too large to fit in target type"
        },
        IntErrorKind::NegOverflow => {
            proof { reveal_strlit("number too small to fit in target type"); }
            "number too small to fit in target type"
        },
    }
}

} // verus!

verus! {

// ---------------------------------------------------------------------------
// Splitting on a character, as `str::split(char)` does
// ---------------------------------------------------------------------------

/// The pieces of `s` between occurrences of `c` (there is always one more piece
/// than there are occurrences).
pub open spec fn split_on(s: Seq<char>, c: char) -> Seq<Seq<char>>
    decreases s.len(),
{
    if s.len() == 0 {
        seq![Seq::<char>::empty()]
    } else {
        let rest = split_on(s.drop_first(), c);
        if s[0] == c {
            seq![Seq::<char>::empty()] + rest
        } else {
            rest.update(0, seq![s[0]] + rest[0])
        }
    }
}

/// How many times `c` occurs in `s`.
pub open spec fn count_char(s: Seq<char>, c: char) -> nat
    decreases s.len(),
{
    if s.len() == 0 {
        0
    } else {
        (if s[0] == c { 1nat } else { 0nat }) + count_char(s.drop_first(), c)
    }
}

pub open spec fn free_of(s: Seq<char>, c: char) -> bool {
    forall|i: int| 0 <= i < s.len() ==> s[i] != c
}

pub proof fn lemma_split_len(s: Seq<char>, c: char)
    ensures
        split_on(s, c).len() == 1 + count_char(s, c),
    decreases s.len(),
{
    if s.len() > 0 {
        lemma_split_len(s.drop_first(), c);
    }
}

pub proof fn lemma_count_concat(a: Seq<char>, b: Seq<char>, c: char)
    ensures
        count_char(a + b, c) == count_char(a, c) + count_char(b, c),
    decreases a.len(),
{
    if a.len() == 0 {
        assert(a + b =~= b);
    } else {
        assert((a + b).drop_first() =~= a.drop_first() + b);
        lemma_count_concat(a.drop_first(), b, c);
    }
}

pub proof fn lemma_count_zero(s: Seq<char>, c: char)
    ensures
        count_char(s, c) == 0 <==> free_of(s, c),
    decreases s.len(),
{
    if s.len() > 0 {
        lemma_count_zero(s.drop_first(), c);
        if free_of(s, c) {
            assert(free_of(s.drop_first(), c)) by {
                assert forall|i: int| 0 <= i < s.drop_first().len() implies s.drop_first()[i]
                    != c by {
                    assert(s.drop_first()[i] == s[i + 1]);
                }
            }
        }
        if count_char(s, c) == 0 {
            assert forall|i: int| 0 <= i < s.len() implies s[i] != c by {
                if i > 0 {
                    assert(s[i] == s.drop_first()[i - 1]);
                }
            }
        }
    }
}

pub proof fn lemma_split_free(s: Seq<char>, c: char)
    requires
        free_of(s, c),
    ensures
        split_on(s, c) == seq![s],
    decreases s.len(),
{
    if s.len() > 0 {
        assert(free_of(s.drop_first(), c)) by {
            assert forall|i: int| 0 <= i < s.drop_first().len() implies s.drop_first()[i] != c by {
                assert(s.drop_first()[i] == s[i + 1]);
            }
        }
        lemma_split_free(s.drop_first(), c);
        assert(seq![s[0]] + s.drop_first() =~= s);
        assert(split_on(s, c) =~= seq![s]);
    } else {
        assert(s =~= Seq::<char>::empty());
    }
}

/// Text with exactly one `c` splits into what stands before it and after it.
pub proof fn lemma_split_once(a: Seq<char>, b: Seq<char>, c: char)
    requires
        free_of(a, c),
        free_of(b, c),
    ensures
        split_on(a + seq![c] + b, c) == seq![a, b],
    decreases a.len(),
{
    let s = a + seq![c] + b;
    if a.len() == 0 {
        assert(s.drop_first() =~= b);
        lemma_split_free(b, c);
        assert(a =~= Seq::<char>::empty());
        assert(split_on(s, c) =~= seq![a, b]);
    } else {
        let a2 = a.drop_first();
        assert(free_of(a2, c)) by {
            assert forall|i: int| 0 <= i < a2.len() implies a2[i] != c by {
                assert(a2[i] == a[i + 1]);
            }
        }
        assert(s.drop_first() =~= a2 + seq![c] + b);
        lemma_split_once(a2, b, c);
        assert(s[0] == a[0]);
        assert(seq![a[0]] + a2 =~= a);
        assert(split_on(s, c) =~= seq![a, b]);
    }
}

/// Splits `s` at its only occurrence of `c`; `None` when `c` does not occur
/// exactly once, that is when `s.split(c)` does not give two pieces.
pub fn split_once_exact(s: &str, c: char) -> (r: Option<(&str, &str)>)
    ensures
        match r {
            Some((x, y)) => split_on(s@, c) == seq![x@, y@],
            None => split_on(s@, c).len() != 2,
        },
{
    let n = s.unicode_len();
    let mut i: usize = 0;
    let mut count: usize = 0;
    let mut first: usize = 0;
    while i < n
        invariant
            n == s@.len(),
            i <= n,
            count == count_char(s@.take(i as int), c),
            count <= i,
            count >= 1 ==> first < i && s@[first as int] == c && count_char(
                s@.take(first as int),
                c,
            ) == 0,
        decreases n - i,
    {
        let ch = s.get_char(i);
        proof {
            assert(s@.take(i + 1) =~= s@.take(i as int) + seq![ch]);
            lemma_count_concat(s@.take(i as int), seq![ch], c);
            assert(seq![ch].drop_first() =~= Seq::<char>::empty());
            assert(count_char(Seq::<char>::empty(), c) == 0);
            assert(count_char(seq![ch], c) == (if ch == c { 1nat } else { 0nat }));
        }
        if ch == c {
            if count == 0 {
                first = i;
            }
            count = count + 1;
        }
        i = i + 1;
    }
    proof {
        assert(s@.take(n as int) =~= s@);
        lemma_split_len(s@, c);
    }
    if count != 1 {
        return None;
    }
    let x = s.substring_char(0, first);
    let y = s.substring_char(first + 1, n);
    proof {
        let a = s@.take(first as int);
        let b = s@.skip(first + 1);
        assert(s@ =~= a + seq![c] + b);
        lemma_count_concat(a + seq![c], b, c);
        lemma_count_concat(a, seq![c], c);
        assert(seq![c].drop_first() =~= Seq::<char>::empty());
        lemma_count_zero(a, c);
        lemma_count_zero(b, c);
        lemma_split_once(a, b, c);
        assert(x@ =~= a);
        assert(y@ =~= b);
    }
    Some((x, y))
}

/// `s` without `prefix` in front, when it starts with it.
pub fn strip_prefix<'a>(s: &'a str, prefix: &str) -> (r: Option<&'a str>)
    ensures
        match r {
            Some(t) => prefix@.len() <= s@.len() && s@.take(prefix@.len() as int) == prefix@
                && t@ == s@.skip(prefix@.len() as int),
            None => !(prefix@.len() <= s@.len() && s@.take(prefix@.len() as int) == prefix@),
        },
{
    let n = s.unicode_len();
    let m = prefix.unicode_len();
    if m > n {
        return None;
    }
    let mut i: usize = 0;
    while i < m
        invariant
            n == s@.len(),
            m == prefix@.len(),
            m <= n,
            i <= m,
            forall|j: int| 0 <= j < i ==> s@[j] == prefix@[j],
        decreases m - i,
    {
        if s.get_char(i) != prefix.get_char(i) {
            assert(s@.take(m as int)[i as int] != prefix@[i as int]);
            return None;
        }
        i = i + 1;
    }
    assert(s@.take(m as int) =~= prefix@);
    let t = s.substring_char(m, n);
    assert(t@ =~= s@.skip(m as int));
    Some(t)
}

} // verus!

verus! {

// ---------------------------------------------------------------------------
// Reading back what was written in decimal
// ---------------------------------------------------------------------------

pub proof fn lemma_scan_concat(a: Seq<char>, b: Seq<char>, neg: bool, lo: int, hi: int, acc: int)
    ensures
        scan_digits(a + b, neg, lo, hi, acc) == (match scan_digits(a, neg, lo, hi, acc) {
            Ok(v) => scan_digits(b, neg, lo, hi, v),
            Err(e) => Err(e),
        }),
    decreases a.len(),
{
    if a.len() == 0 {
        assert(a + b =~= b);
    } else {
        assert((a + b)[0] == a[0]);
        assert((a + b).drop_first() =~= a.drop_first() + b);
        let next = if neg {
            acc * 10 - digit_value(a[0])
        } else {
            acc * 10 + digit_value(a[0])
        };
        lemma_scan_concat(a.drop_first(), b, neg, lo, hi, next);
    }
}

pub proof fn lemma_scan_zeros(k: nat, lo: int, hi: int)
    requires
        lo <= 0 <= hi,
    ensures
        scan_digits(zeros(k), false, lo, hi, 0) == Ok::<int, IntErrorKind>(0),
    decreases k,
{
    if k > 0 {
        assert(zeros(k).drop_first() =~= zeros((k - 1) as nat));
        assert(digit_value(zeros(k)[0]) == 0);
        lemma_scan_zeros((k - 1) as nat, lo, hi);
    } else {
        assert(zeros(k) =~= Seq::<char>::empty());
    }
}

pub proof fn lemma_scan_single(c: char, neg: bool, lo: int, hi: int, acc: int)
    requires
        is_digit(c),
        lo <= (if neg { acc * 10 - digit_value(c) } else { acc * 10 + digit_value(c) }) <= hi,
    ensures
        scan_digits(seq![c], neg, lo, hi, acc) == Ok::<int, IntErrorKind>(
            if neg { acc * 10 - digit_value(c) } else { acc * 10 + digit_value(c) },
        ),
{
    let next = if neg { acc * 10 - digit_value(c) } else { acc * 10 + digit_value(c) };
    assert(seq![c].drop_first() =~= Seq::<char>::empty());
    assert(scan_digits(Seq::<char>::empty(), neg, lo, hi, next) == Ok::<int, IntErrorKind>(next));
}

pub proof fn lemma_scan_nat_digits(n: nat, lo: int, hi: int)
    requires
        lo <= 0,
        n <= hi,
    ensures
        scan_digits(nat_digits(n), false, lo, hi, 0) == Ok::<int, IntErrorKind>(n as int),
    decreases n,
{
    if n < 10 {
        lemma_digit_char(n as int);
        lemma_scan_single(digit_char(n as int), false, lo, hi, 0);
    } else {
        let q = n / 10;
        let r = n % 10;
        lemma_scan_nat_digits(q, lo, hi);
        lemma_digit_char(r as int);
        assert(nat_digits(n) == nat_digits(q) + seq![digit_char(r as int)]);
        lemma_scan_concat(nat_digits(q), seq![digit_char(r as int)], false, lo, hi, 0);
        assert(q * 10 + r == n);
        lemma_scan_single(digit_char(r as int), false, lo, hi, q as int);
    }
}

pub proof fn lemma_padded_nat_digits(n: nat, width: nat)
    ensures
        padded_nat(n, width).len() >= 1,
        padded_nat(n, width).len() >= width,
        forall|i: int| 0 <= i < padded_nat(n, width).len() ==> is_digit(
            #[trigger] padded_nat(n, width)[i],
        ),
{
    lemma_nat_digits(n);
    let d = nat_digits(n);
    if d.len() < width {
        let z = zeros((width - d.len()) as nat);
        assert forall|i: int| 0 <= i < padded_nat(n, width).len() implies is_digit(
            #[trigger] padded_nat(n, width)[i],
        ) by {
            if i < z.len() {
                assert(padded_nat(n, width)[i] == z[i]);
            } else {
                assert(padded_nat(n, width)[i] == d[i - z.len()]);
            }
        }
    }
}

pub proof fn lemma_digits_free_of(s: Seq<char>, c: char)
    requires
        forall|i: int| 0 <= i < s.len() ==> is_digit(#[trigger] s[i]),
        !is_digit(c),
    ensures
        free_of(s, c),
{
    assert forall|i: int| 0 <= i < s.len() implies s[i] != c by {
        assert(is_digit(s[i]));
    }
}

/// What `{:0width$}` writes for a natural number reads back as that number.
pub proof fn lemma_parse_padded_nat(n: nat, width: nat, signed: bool, lo: int, hi: int)
    requires
        lo <= 0,
        n <= hi,
    ensures
        parse_int_spec(padded_nat(n, width), signed, lo, hi) == Ok::<int, IntErrorKind>(n as int),
{
    lemma_padded_nat_digits(n, width);
    let p = padded_nat(n, width);
    assert(is_digit(p[0]));
    let d = nat_digits(n);
    lemma_scan_nat_digits(n, lo, hi);
    if d.len() < width {
        let k = (width - d.len()) as nat;
        lemma_scan_zeros(k, lo, hi);
        lemma_scan_concat(zeros(k), d, false, lo, hi, 0);
    }
}

} // verus!

verus! {

/// Whether two texts are the same.
pub fn str_equal(a: &str, b: &str) -> (r: bool)
    ensures
        r == (a@ == b@),
{
    let n = a.unicode_len();
    let m = b.unicode_len();
    if n != m {
        return false;
    }
    let mut i: usize = 0;
    while i < n
        invariant
            n == a@.len(),
            m == b@.len(),
            n == m,
            i <= n,
            forall|j: int| 0 <= j < i ==> a@[j] == b@[j],
        decreases n - i,
    {
        if a.get_char(i) != b.get_char(i) {
            return false;
        }
        i = i + 1;
    }
    assert(a@ =~= b@);
    true
}

} // verus!
