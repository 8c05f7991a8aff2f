//! Character-level text helpers: building strings, decimal numerals, prefix and
//! suffix tests, substitution and word-wise rewriting.
use vstd::prelude::*;

verus! {

/// Appends one character to a string.
///
/// Trusted: `String::push` from std appends the character at the end of the string.
#[verifier::external_body]
pub(crate) fn push_char(s: &mut String, c: char)
    ensures
        final(s)@ == old(s)@.push(c),
{
    s.push(c);
}

/// Appends a string slice to a string.
pub fn push_str(s: &mut String, t: &str)
    ensures
        final(s)@ == old(s)@ + t@,
{
    s.append(t);
}

/// The characters of a string slice, in order.
pub fn chars_of(s: &str) -> (v: Vec<char>)
    ensures
        v@ == s@,
{
    let n = s.unicode_len();
    let mut v: Vec<char> = Vec::new();
    let mut i: usize = 0;
    while i < n
        invariant
            n == s@.len(),
            i <= n,
            v@ == s@.subrange(0, i as int),
        decreases n - i,
    {
        v.push(s.get_char(i));
        i = i + 1;
    }
    assert(v@ =~= s@);
    v
}

/// A string made of the characters `v[from..to]`.
pub fn string_of_range(v: &Vec<char>, from: usize, to: usize) -> (s: String)
    requires
        from <= to <= v.len(),
    ensures
        s@ == v@.subrange(from as int, to as int),
{
    let mut s = String::new();
    let mut i: usize = from;
    while i < to
        invariant
            from <= i <= to <= v.len(),
            s@ == v@.subrange(from as int, i as int),
        decreases to - i,
    {
        push_char(&mut s, v[i]);
        i = i + 1;
        assert(s@ =~= v@.subrange(from as int, i as int));
    }
    s
}

/// A string made of all the characters of `v`.
pub fn string_of(v: &Vec<char>) -> (s: String)
    ensures
        s@ == v@,
{
    let s = string_of_range(v, 0, v.len());
    assert(v@.subrange(0, v@.len() as int) =~= v@);
    s
}

/// A string with the characters of a string slice.
pub fn owned(t: &str) -> (s: String)
    ensures
        s@ == t@,
{
    let mut s = String::new();
    push_str(&mut s, t);
    assert(s@ =~= t@);
    s
}

/// The concatenation of two string slices.
pub fn concat2(a: &str, b: &str) -> (s: String)
    ensures
        s@ == a@ + b@,
{
    let mut s = String::new();
    push_str(&mut s, a);
    push_str(&mut s, b);
    assert(s@ =~= a@ + b@);
    s
}

/// The concatenation of three string slices.
pub fn concat3(a: &str, b: &str, c: &str) -> (s: String)
    ensures
        s@ == a@ + b@ + c@,
{
    let mut s = concat2(a, b);
    push_str(&mut s, c);
    s
}

/// Whether two string slices hold the same characters.
pub fn str_eq(a: &str, b: &str) -> (r: bool)
    ensures
        r == (a@ == b@),
{
    let x = owned(a);
    let y = owned(b);
    x == y
}

// ---------------------------------------------------------------------------
// decimal numerals
// ---------------------------------------------------------------------------

/// The character of a decimal digit.
pub open spec fn digit_char(d: nat) -> char {
    (d + 48) as char
}

/// The decimal numeral of a natural number, without leading zeros.
pub open spec fn decimal(n: nat) -> Seq<char>
    decreases n,
{
    if n < 10 {
        seq![digit_char(n)]
    } else {
        decimal(n / 10).push(digit_char(n % 10))
    }
}

/// The decimal numeral of an integer, with a leading '-' when it is negative.
pub open spec fn signed_decimal(n: int) -> Seq<char> {
    if n < 0 {
        seq!['-'] + decimal((-n) as nat)
    } else {
        decimal(n as nat)
    }
}

fn digit_of(d: u64) -> (c: char)
    requires
        d < 10,
    ensures
        c == digit_char(d as nat),
{
    let b: u8 = 48u8 + (d as u8);
    b as char
}

/// Appends the decimal numeral of `n`.
pub fn push_decimal(s: &mut String, n: u64)
    ensures
        final(s)@ == old(s)@ + decimal(n as nat),
    decreases n,
{
    if n >= 10 {
        push_decimal(s, n / 10);
    }
    push_char(s, digit_of(n % 10));
    assert(final(s)@ =~= old(s)@ + decimal(n as nat)) by {
        if n >= 10 {
            assert(decimal(n as nat) == decimal((n / 10) as nat).push(digit_char((n % 10) as nat)));
        }
    }
}

/// The decimal numeral of an unsigned integer (what `u64::to_string` gives).
pub fn u64_to_decimal(n: u64) -> (s: String)
    ensures
        s@ == decimal(n as nat),
{
    let mut s = String::new();
    push_decimal(&mut s, n);
    assert(s@ =~= decimal(n as nat));
    s
}

/// The decimal numeral of a signed integer (what `i64::to_string` gives).
pub fn i64_to_decimal(n: i64) -> (s: String)
    ensures
        s@ == signed_decimal(n as int),
{
    let mut s = String::new();
    if n < 0 {
        push_char(&mut s, '-');
        let m: u64 = (0i128 - (n as i128)) as u64;
        push_decimal(&mut s, m);
    } else {
        push_decimal(&mut s, n as u64);
    }
    assert(s@ =~= signed_decimal(n as int));
    s
}

// ---------------------------------------------------------------------------
// parsing decimal identifiers
// ---------------------------------------------------------------------------

/// Why a text is not the decimal numeral of a `u64` (the kinds std's
/// `u64::from_str` reports).
#[derive(Debug, Clone, Copy, PartialEq, Eq)]
pub enum NumberError {
    Empty,
    InvalidDigit,
    PosOverflow,
}

/// Whether a character is an ASCII decimal digit.
pub open spec fn is_digit(c: char) -> bool {
    '0' <= c && c <= '9'
}

/// Reads digits `d[i..]` onto the value `acc` read so far, left to right: the
/// first character that is no digit gives `InvalidDigit`, the first step past
/// `u64::MAX` gives `PosOverflow`.
pub open spec fn parse_digits_from(d: Seq<char>, i: int, acc: nat) -> Result<u64, NumberError>
    decreases d.len() - i,
{
    if i >= d.len() || i < 0 {
        Ok(acc as u64)
    } else if !is_digit(d[i]) {
        Err(NumberError::InvalidDigit)
    } else if acc * 10 + (d[i] as int - 48) > u64::MAX {
        Err(NumberError::PosOverflow)
    } else {
        parse_digits_from(d, i + 1, (acc * 10 + (d[i] as int - 48)) as nat)
    }
}

/// What `str::parse::<u64>` gives for a text: an optional leading '+' and then
/// one or more decimal digits.
pub open spec fn parse_u64_spec(s: Seq<char>) -> Result<u64, NumberError> {
    if s.len() == 0 {
        Err(NumberError::Empty)
    } else if s.len() == 1 && (s[0] == '+' || s[0] == '-') {
        Err(NumberError::InvalidDigit)
    } else if s[0] == '+' {
        parse_digits_from(s, 1, 0)
    } else {
        parse_digits_from(s, 0, 0)
    }
}

proof fn lemma_push_digit(d: Seq<char>, c: char, i: int, acc: nat)
    requires
        is_digit(c),
        0 <= i <= d.len(),
        acc <= u64::MAX,
    ensures
        parse_digits_from(d.push(c), i, acc) == match parse_digits_from(d, i, acc) {
            Ok(v) => if v * 10 + (c as int - 48) <= u64::MAX {
                Ok((v * 10 + (c as int - 48)) as u64)
            } else {
                Err(NumberError::PosOverflow)
            },
            Err(e) => Err(e),
        },
    decreases d.len() - i,
{
    let e = d.push(c);
    if i < d.len() {
        assert(e[i] == d[i]);
        if is_digit(d[i]) && acc * 10 + (d[i] as int - 48) <= u64::MAX {
            lemma_push_digit(d, c, i + 1, (acc * 10 + (d[i] as int - 48)) as nat);
        }
    } else {
        assert(e[i] == c);
        if acc * 10 + (c as int - 48) <= u64::MAX {
            assert(parse_digits_from(e, i + 1, (acc * 10 + (c as int - 48)) as nat) == Ok::<u64, NumberError>(
                (acc * 10 + (c as int - 48)) as u64,
            ));
        }
    }
}

proof fn lemma_decimal_digits(n: nat)
    ensures
        decimal(n).len() >= 1,
        forall|k: int| 0 <= k < decimal(n).len() ==> is_digit(#[trigger] decimal(n)[k]),
    decreases n,
{
    if n >= 10 {
        lemma_decimal_digits(n / 10);
        assert forall|k: int| 0 <= k < decimal(n).len() implies is_digit(#[trigger] decimal(n)[k]) by {
            if k < decimal(n / 10).len() {
                assert(decimal(n)[k] == decimal(n / 10)[k]);
            }
        }
    }
}

proof fn lemma_parse_decimal_digits(n: nat)
    requires
        n <= u64::MAX,
    ensures
        parse_digits_from(decimal(n), 0, 0) == Ok::<u64, NumberError>(n as u64),
    decreases n,
{
    if n < 10 {
        assert(decimal(n)[0] as int - 48 == n);
        assert(parse_digits_from(decimal(n), 1, n) == Ok::<u64, NumberError>(n as u64));
    } else {
        lemma_parse_decimal_digits(n / 10);
        assert((n / 10) * 10 + n % 10 == n) by (nonlinear_arith);
        assert(digit_char(n % 10) as int - 48 == n % 10);
        lemma_push_digit(decimal(n / 10), digit_char(n % 10), 0, 0);
    }
}

/// Reading back the decimal numeral of a number gives the number:
/// `u64_to_decimal` and `parse_u64` undo each other.
pub proof fn law_parse_decimal(n: u64)
    ensures
        parse_u64_spec(decimal(n as nat)) == Ok::<u64, NumberError>(n),
{
    lemma_decimal_digits(n as nat);
    lemma_parse_decimal_digits(n as nat);
    let s = decimal(n as nat);
    assert(is_digit(s[0]));
}

/// Parses a decimal identifier as `str::parse::<u64>` does.
pub fn parse_u64(s: &str) -> (r: Result<u64, NumberError>)
    ensures
        r == parse_u64_spec(s@),
{
    let v = chars_of(s);
    let n = v.len();
    if n == 0 {
        return Err(NumberError::Empty);
    }
    if n == 1 && (v[0] == '+' || v[0] == '-') {
        return Err(NumberError::InvalidDigit);
    }
    let mut i: usize = if v[0] == '+' { 1 } else { 0 };
    let ghost start = i as int;
    let mut acc: u64 = 0;
    while i < n
        invariant
            n == v@.len(),
            v@ == s@,
            i <= n,
            parse_u64_spec(s@) == parse_digits_from(v@, i as int, acc as nat),
        decreases n - i,
    {
        let c = v[i];
        if !('0' <= c && c <= '9') {
            return Err(NumberError::InvalidDigit);
        }
        let d: u64 = (c as u32 - 48u32) as u64;
        if acc > 1844674407370955161u64 || (acc == 1844674407370955161u64 && d > 5) {
            return Err(NumberError::PosOverflow);
        }
        acc = acc * 10 + d;
        i = i + 1;
    }
    Ok(acc)
}

// ---------------------------------------------------------------------------
// prefixes, suffixes, substitution
// ---------------------------------------------------------------------------

/// Whether `p` occurs in `s` at position `i`.
pub open spec fn occurs_at(s: Seq<char>, p: Seq<char>, i: int) -> bool {
    0 <= i && i + p.len() <= s.len() && s.subrange(i, i + p.len()) == p
}

fn occurs_at_exec(s: &Vec<char>, p: &Vec<char>, i: usize) -> (r: bool)
    ensures
        r == occurs_at(s@, p@, i as int),
{
    if i > s.len() || p.len() > s.len() - i {
        return false;
    }
    let mut k: usize = 0;
    while k < p.len()
        invariant
            i + p.len() <= s.len(),
            k <= p.len(),
            forall|j: int| 0 <= j < k ==> s@[i + j] == p@[j],
        decreases p.len() - k,
    {
        if s[i + k] != p[k] {
            assert(s@.subrange(i as int, i + p.len())[k as int] != p@[k as int]);
            return false;
        }
        k = k + 1;
    }
    assert(s@.subrange(i as int, i + p.len()) =~= p@);
    true
}

/// Whether `s` begins with `p` (`str::starts_with`).
pub fn starts_with(s: &str, p: &str) -> (r: bool)
    ensures
        r == (p@.len() <= s@.len() && s@.subrange(0, p@.len() as int) == p@),
{
    let sv = chars_of(s);
    let pv = chars_of(p);
    occurs_at_exec(&sv, &pv, 0)
}

/// Whether `s` ends with `p` (`str::ends_with`).
pub fn ends_with(s: &str, p: &str) -> (r: bool)
    ensures
        r == (p@.len() <= s@.len() && s@.subrange(s@.len() - p@.len(), s@.len() as int) == p@),
{
    let sv = chars_of(s);
    let pv = chars_of(p);
    if pv.len() > sv.len() {
        return false;
    }
    occurs_at_exec(&sv, &pv, sv.len() - pv.len())
}

/// Every non-overlapping occurrence of `from` in `s`, read left to right,
/// replaced by `to` (what `str::replace` gives for a non-empty pattern).
pub open spec fn replace_all(s: Seq<char>, from: Seq<char>, to: Seq<char>) -> Seq<char>
    decreases s.len(),
{
    if from.len() == 0 || s.len() < from.len() {
        s
    } else if s.subrange(0, from.len() as int) == from {
        to + replace_all(s.subrange(from.len() as int, s.len() as int), from, to)
    } else {
        seq![s[0]] + replace_all(s.subrange(1, s.len() as int), from, to)
    }
}

/// `s.replace(from, to)` for a non-empty pattern `from`.
pub fn replace(s: &str, from: &str, to: &str) -> (r: String)
    requires
        from@.len() > 0,
    ensures
        r@ == replace_all(s@, from@, to@),
{
    let sv = chars_of(s);
    let fv = chars_of(from);
    let n = sv.len();
    let mut out = String::new();
    let mut i: usize = 0;
    assert(sv@.subrange(0, n as int) =~= s@);
    assert(out@ + replace_all(s@, from@, to@) =~= replace_all(s@, from@, to@));
    while i < n
        invariant
            n == sv@.len(),
            sv@ == s@,
            fv@ == from@,
            fv@.len() > 0,
            i <= n,
            out@ + replace_all(sv@.subrange(i as int, n as int), fv@, to@) == replace_all(s@, from@, to@),
        decreases n - i,
    {
        let ghost rest = sv@.subrange(i as int, n as int);
        if occurs_at_exec(&sv, &fv, i) {
            assert(rest.subrange(0, fv@.len() as int) =~= sv@.subrange(i as int, i + fv@.len()));
            assert(rest.subrange(fv@.len() as int, rest.len() as int) =~= sv@.subrange(i + fv@.len(), n as int));
            let ghost before = out@;
            push_str(&mut out, to);
            i = i + fv.len();
            assert(before + (to@ + replace_all(sv@.subrange(i as int, n as int), fv@, to@)) =~= out@ + replace_all(sv@.subrange(i as int, n as int), fv@, to@));
        } else {
            assert(rest.len() >= fv@.len() ==> rest.subrange(0, fv@.len() as int) =~= sv@.subrange(i as int, i + fv@.len()));
            assert(rest.subrange(1, rest.len() as int) =~= sv@.subrange(i + 1, n as int));
            let ghost before = out@;
            push_char(&mut out, sv[i]);
            i = i + 1;
            assert(before + (seq![rest[0]] + replace_all(sv@.subrange(i as int, n as int), fv@, to@)) =~= out@ + replace_all(sv@.subrange(i as int, n as int), fv@, to@));
        }
    }
    assert(sv@.subrange(n as int, n as int) =~= Seq::<char>::empty());
    assert(out@ + Seq::<char>::empty() =~= out@);
    out
}


/// The parts joined, with `sep` between each two neighbours (`[String]::join`).
pub open spec fn join_spec(parts: Seq<Seq<char>>, sep: Seq<char>) -> Seq<char>
    decreases parts.len(),
{
    if parts.len() == 0 {
        Seq::empty()
    } else if parts.len() == 1 {
        parts[0]
    } else {
        join_spec(parts.drop_last(), sep) + sep + parts.last()
    }
}

/// The views of strings.
pub open spec fn strings_view(v: Seq<String>) -> Seq<Seq<char>> {
    v.map_values(|p: String| p@)
}

/// `parts.join(sep)`.
pub fn join(parts: &Vec<String>, sep: &str) -> (s: String)
    ensures
        s@ == join_spec(strings_view(parts@), sep@),
{
    let mut s = String::new();
    let mut i: usize = 0;
    while i < parts.len()
        invariant
            i <= parts@.len(),
            s@ == join_spec(strings_view(parts@).subrange(0, i as int), sep@),
        decreases parts.len() - i,
    {
        if i > 0 {
            push_str(&mut s, sep);
        }
        push_str(&mut s, parts[i].as_str());
        i = i + 1;
        assert(strings_view(parts@).subrange(0, i as int).drop_last() =~= strings_view(parts@).subrange(0, i - 1));
        if i == 1 {
            assert(s@ =~= strings_view(parts@).subrange(0, 1)[0]);
        }
    }
    assert(strings_view(parts@).subrange(0, parts@.len() as int) =~= strings_view(parts@));
    s
}

/// What follows the rightmost occurrence of `p` in `s` at or before position `i`,
/// or all of `s` when there is none.
pub open spec fn after_last_from(s: Seq<char>, p: Seq<char>, i: int) -> Seq<char>
    decreases i + 1,
{
    if i < 0 {
        s
    } else if occurs_at(s, p, i) {
        s.skip(i + p.len())
    } else {
        after_last_from(s, p, i - 1)
    }
}

/// What follows the rightmost occurrence of `p` in `s`, or all of `s` when `p` does
/// not occur. For a pattern that cannot overlap itself, such as "://", this is the
/// last piece of `s.split(p)`.
pub open spec fn after_last(s: Seq<char>, p: Seq<char>) -> Seq<char> {
    after_last_from(s, p, s.len() - p.len())
}

/// What follows the rightmost occurrence of a non-empty pattern.
pub fn last_piece(s: &str, p: &str) -> (r: String)
    requires
        p@.len() > 0,
    ensures
        r@ == after_last(s@, p@),
{
    let sv = chars_of(s);
    let pv = chars_of(p);
    if pv.len() > sv.len() {
        proof {
            assert(after_last_from(s@, p@, s@.len() - p@.len()) == s@);
        }
        return owned(s);
    }
    let mut i: usize = sv.len() - pv.len();
    loop
        invariant
            sv@ == s@,
            pv@ == p@,
            pv@.len() <= sv@.len(),
            i <= sv@.len() - pv@.len(),
            after_last(s@, p@) == after_last_from(s@, p@, i as int),
        decreases i,
    {
        if occurs_at_exec(&sv, &pv, i) {
            let n = sv.len();
            assert(i + pv@.len() <= n);
            let r = string_of_range(&sv, i + pv.len(), n);
            assert(r@ =~= s@.skip(i + p@.len()));
            return r;
        }
        if i == 0 {
            assert(after_last_from(s@, p@, -1) == s@);
            return owned(s);
        }
        i = i - 1;
    }
}

} // verus!
