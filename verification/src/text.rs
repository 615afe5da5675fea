//! Character-level helpers shared by the parsers and command builders:
//! decimal formatting and parsing, whitespace trimming, ASCII case folding,
//! prefix tests and splitting on a separator.

use vstd::prelude::*;

verus! {

/// `String::push` appends one character.
pub assume_specification[ String::push ](s: &mut String, ch: char)
    ensures
        final(s)@ == old(s)@.push(ch),
;

/// The characters of `s`, in order.
pub fn chars_of(s: &str) -> (v: Vec<char>)
    ensures
        v@ == s@,
{
    let mut v: Vec<char> = Vec::new();
    for c in it: s.chars()
        invariant
            v@ == it.seq().take(it.index() as int),
    {
        v.push(c);
    }
    v
}

/// A `String` holding exactly the characters of `v`.
pub fn string_of(v: &Vec<char>) -> (s: String)
    ensures
        s@ == v@,
{
    let mut s = String::new();
    let mut i: usize = 0;
    while i < v.len()
        invariant
            i <= v.len(),
            s@ == v@.take(i as int),
        decreases v.len() - i,
    {
        s.push(v[i]);
        i = i + 1;
        assert(v@.take(i as int) =~= v@.take((i - 1) as int).push(v@[i - 1]));
    }
    assert(v@.take(v.len() as int) =~= v@);
    s
}

/// An owned copy of a string slice.
pub fn owned(s: &str) -> (r: String)
    ensures
        r@ == s@,
{
    String::from_str(s)
}

/// `a` followed by `b`.
pub fn joined(a: &str, b: &str) -> (r: String)
    ensures
        r@ == a@ + b@,
{
    let mut r = String::from_str(a);
    r.append(b);
    r
}

// ---- decimal digits -----------------------------------------------------------

/// The character of a decimal digit `d < 10`.
pub open spec fn digit_char(d: nat) -> char {
    (d + 48) as char
}

pub open spec fn is_digit(c: char) -> bool {
    '0' <= c && c <= '9'
}

/// The value of a decimal digit character.
pub open spec fn digit_value(c: char) -> nat {
    (c as int - 48) as nat
}

/// The shortest decimal spelling of `n` (`"0"` for zero).
pub open spec fn dec(n: nat) -> Seq<char>
    decreases n,
{
    if n < 10 {
        seq![digit_char(n)]
    } else {
        dec(n / 10).push(digit_char(n % 10))
    }
}

/// Every character of `s` is a decimal digit.
pub open spec fn all_digits(s: Seq<char>) -> bool {
    forall|i: int| 0 <= i < s.len() ==> is_digit(#[trigger] s[i])
}

/// The number spelled by the decimal digits `s` (0 when `s` is empty).
pub open spec fn digits_value(s: Seq<char>) -> nat
    decreases s.len(),
{
    if s.len() == 0 {
        0
    } else {
        digits_value(s.drop_last()) * 10 + digit_value(s.last())
    }
}

fn digit_of(d: u64) -> (c: char)
    requires
        d < 10,
    ensures
        c == digit_char(d as nat),
{
    match d {
        0 => '0',
        1 => '1',
        2 => '2',
        3 => '3',
        4 => '4',
        5 => '5',
        6 => '6',
        7 => '7',
        8 => '8',
        _ => '9',
    }
}

/// Appends the decimal spelling of `n` to `s`.
pub fn push_decimal(s: &mut String, n: u64)
    ensures
        final(s)@ == old(s)@ + dec(n as nat),
    decreases n,
{
    if n >= 10 {
        push_decimal(s, n / 10);
        s.push(digit_of(n % 10));
        assert(final(s)@ =~= old(s)@ + dec(n as nat));
    } else {
        s.push(digit_of(n));
        assert(final(s)@ =~= old(s)@ + dec(n as nat));
    }
}

/// The decimal spelling of `n`, as `format!("{n}")` writes it.
pub fn decimal(n: u64) -> (s: String)
    ensures
        s@ == dec(n as nat),
{
    let mut s = String::new();
    push_decimal(&mut s, n);
    assert(s@ =~= dec(n as nat));
    s
}

/// The decimal spelling of a signed `n`, with a leading `-` when negative.
pub open spec fn signed_dec(n: int) -> Seq<char> {
    if n < 0 {
        seq!['-'] + dec((-n) as nat)
    } else {
        dec(n as nat)
    }
}

/// The decimal spelling of `n`, as `format!("{n}")` writes it.
pub fn signed_decimal(n: i32) -> (s: String)
    ensures
        s@ == signed_dec(n as int),
{
    if n < 0 {
        let mut s = String::new();
        s.push('-');
        let m: i64 = -(n as i64);
        push_decimal(&mut s, m as u64);
        assert(s@ =~= signed_dec(n as int));
        s
    } else {
        decimal(n as u64)
    }
}


// ---- whitespace ---------------------------------------------------------------

/// Unicode `White_Space`, the set `char::is_whitespace` tests.
pub open spec fn is_ws(c: char) -> bool {
    ||| ('\u{9}' <= c && c <= '\u{d}')
    ||| c == ' '
    ||| c == '\u{85}'
    ||| c == '\u{a0}'
    ||| c == '\u{1680}'
    ||| ('\u{2000}' <= c && c <= '\u{200a}')
    ||| c == '\u{2028}'
    ||| c == '\u{2029}'
    ||| c == '\u{202f}'
    ||| c == '\u{205f}'
    ||| c == '\u{3000}'
}

pub fn is_whitespace(c: char) -> (b: bool)
    ensures
        b == is_ws(c),
{
    ('\u{9}' <= c && c <= '\u{d}') || c == ' ' || c == '\u{85}' || c == '\u{a0}' || c
        == '\u{1680}' || ('\u{2000}' <= c && c <= '\u{200a}') || c == '\u{2028}' || c
        == '\u{2029}' || c == '\u{202f}' || c == '\u{205f}' || c == '\u{3000}'
}

/// `s` without its leading whitespace.
pub open spec fn trim_start(s: Seq<char>) -> Seq<char>
    decreases s.len(),
{
    if s.len() > 0 && is_ws(s[0]) {
        trim_start(s.drop_first())
    } else {
        s
    }
}

/// `s` without its trailing whitespace.
pub open spec fn trim_end(s: Seq<char>) -> Seq<char>
    decreases s.len(),
{
    if s.len() > 0 && is_ws(s.last()) {
        trim_end(s.drop_last())
    } else {
        s
    }
}

/// `s` without leading and trailing whitespace, as `str::trim` gives it.
pub open spec fn trim(s: Seq<char>) -> Seq<char> {
    trim_end(trim_start(s))
}

/// The characters of `v` from `from` up to (not including) `to`.
pub fn slice_chars(v: &Vec<char>, from: usize, to: usize) -> (r: Vec<char>)
    requires
        from <= to <= v.len(),
    ensures
        r@ == v@.subrange(from as int, to as int),
{
    let mut r: Vec<char> = Vec::new();
    let mut i = from;
    while i < to
        invariant
            from <= i <= to <= v.len(),
            r@ == v@.subrange(from as int, i as int),
        decreases to - i,
    {
        r.push(v[i]);
        i = i + 1;
        assert(r@ =~= v@.subrange(from as int, i as int));
    }
    r
}

/// `v` with leading and trailing whitespace removed.
pub fn trim_chars(v: &Vec<char>) -> (r: Vec<char>)
    ensures
        r@ == trim(v@),
{
    let n = v.len();
    let mut i: usize = 0;
    assert(v@.subrange(0, n as int) =~= v@);
    while i < n && is_whitespace(v[i])
        invariant
            i <= n == v.len(),
            trim_start(v@) == trim_start(v@.subrange(i as int, n as int)),
        decreases n - i,
    {
        assert(v@.subrange(i as int, n as int).drop_first() =~= v@.subrange(i + 1, n as int));
        i = i + 1;
    }
    assert(trim_start(v@.subrange(i as int, n as int)) == v@.subrange(i as int, n as int));
    let mut j: usize = n;
    while j > i && is_whitespace(v[j - 1])
        invariant
            i <= j <= n == v.len(),
            trim(v@) == trim_end(v@.subrange(i as int, j as int)),
        decreases j - i,
    {
        assert(v@.subrange(i as int, j as int).drop_last() =~= v@.subrange(i as int, j - 1));
        j = j - 1;
    }
    slice_chars(v, i, j)
}

// ---- case, prefixes, equality -------------------------------------------------

/// ASCII lower case of one character, as `char::to_ascii_lowercase` gives it.
pub open spec fn lower(c: char) -> char {
    if 'A' <= c && c <= 'Z' {
        ((c as int) + 32) as char
    } else {
        c
    }
}

/// ASCII lower case of a string, as `str::to_ascii_lowercase` gives it.
pub open spec fn lower_seq(s: Seq<char>) -> Seq<char> {
    s.map_values(|c: char| lower(c))
}

pub fn lower_char(c: char) -> (r: char)
    ensures
        r == lower(c),
{
    if 'A' <= c && c <= 'Z' {
        match c {
            'A' => 'a',
            'B' => 'b',
            'C' => 'c',
            'D' => 'd',
            'E' => 'e',
            'F' => 'f',
            'G' => 'g',
            'H' => 'h',
            'I' => 'i',
            'J' => 'j',
            'K' => 'k',
            'L' => 'l',
            'M' => 'm',
            'N' => 'n',
            'O' => 'o',
            'P' => 'p',
            'Q' => 'q',
            'R' => 'r',
            'S' => 's',
            'T' => 't',
            'U' => 'u',
            'V' => 'v',
            'W' => 'w',
            'X' => 'x',
            'Y' => 'y',
            _ => 'z',
        }
    } else {
        c
    }
}

/// ASCII lower case of `s`.
pub fn to_lower(s: &str) -> (r: Vec<char>)
    ensures
        r@ == lower_seq(s@),
{
    let v = chars_of(s);
    let mut r: Vec<char> = Vec::new();
    let mut i: usize = 0;
    while i < v.len()
        invariant
            i <= v.len(),
            v@ == s@,
            r@ == lower_seq(v@.take(i as int)),
        decreases v.len() - i,
    {
        r.push(lower_char(v[i]));
        i = i + 1;
        assert(r@ =~= lower_seq(v@.take(i as int)));
    }
    assert(v@.take(v.len() as int) =~= v@);
    r
}

/// Whether `a` and `b` hold the same characters.
pub fn same_chars(a: &Vec<char>, b: &Vec<char>) -> (r: bool)
    ensures
        r == (a@ == b@),
{
    if a.len() != b.len() {
        return false;
    }
    let mut i: usize = 0;
    while i < a.len()
        invariant
            i <= a.len() == b.len(),
            forall|k: int| 0 <= k < i ==> a@[k] == b@[k],
        decreases a.len() - i,
    {
        if a[i] != b[i] {
            return false;
        }
        i = i + 1;
    }
    assert(a@ =~= b@);
    true
}

/// Whether `v` equals the text `s`.
pub fn chars_eq_str(v: &Vec<char>, s: &str) -> (r: bool)
    ensures
        r == (v@ == s@),
{
    let w = chars_of(s);
    same_chars(v, &w)
}


/// Whether two string slices hold the same text.
pub fn str_eq(a: &str, b: &str) -> (r: bool)
    ensures
        r == (a@ == b@),
{
    let x = chars_of(a);
    let y = chars_of(b);
    same_chars(&x, &y)
}

/// `s` starts with `p`.
pub open spec fn has_prefix(s: Seq<char>, p: Seq<char>) -> bool {
    p.len() <= s.len() && s.subrange(0, p.len() as int) == p
}

/// The rest of `v` after the prefix `p`, if `v` starts with `p`
/// (as `str::strip_prefix` gives it).
pub fn strip_prefix(v: &Vec<char>, p: &str) -> (r: Option<Vec<char>>)
    ensures
        match r {
            Some(rest) => has_prefix(v@, p@) && rest@ == v@.subrange(p@.len() as int, v@.len() as int),
            None => !has_prefix(v@, p@),
        },
{
    let w = chars_of(p);
    if w.len() > v.len() {
        return None;
    }
    let mut i: usize = 0;
    while i < w.len()
        invariant
            i <= w.len() <= v.len(),
            w@ == p@,
            forall|k: int| 0 <= k < i ==> v@[k] == w@[k],
        decreases w.len() - i,
    {
        if v[i] != w[i] {
            assert(v@.subrange(0, w@.len() as int)[i as int] != w@[i as int]);
            return None;
        }
        i = i + 1;
    }
    assert(v@.subrange(0, w@.len() as int) =~= w@);
    Some(slice_chars(v, w.len(), v.len()))
}

// ---- splitting ----------------------------------------------------------------

/// The pieces of `s` between occurrences of `c`, as `str::split(c)` yields them
/// (always at least one piece).
pub open spec fn split_on(s: Seq<char>, c: char) -> Seq<Seq<char>>
    decreases s.len(),
{
    if s.len() == 0 {
        seq![Seq::<char>::empty()]
    } else {
        let r = split_on(s.drop_last(), c);
        if s.last() == c {
            r.push(Seq::<char>::empty())
        } else {
            r.update(r.len() - 1, r.last().push(s.last()))
        }
    }
}

pub proof fn lemma_split_nonempty(s: Seq<char>, c: char)
    ensures
        split_on(s, c).len() >= 1,
    decreases s.len(),
{
    if s.len() > 0 {
        lemma_split_nonempty(s.drop_last(), c);
    }
}

/// The views of a vector of character vectors.
pub open spec fn pieces_view(v: Seq<Vec<char>>) -> Seq<Seq<char>> {
    v.map_values(|p: Vec<char>| p@)
}

/// Splits `v` at every `c`.
pub fn split_chars(v: &Vec<char>, c: char) -> (r: Vec<Vec<char>>)
    ensures
        pieces_view(r@) == split_on(v@, c),
{
    let mut done: Vec<Vec<char>> = Vec::new();
    let mut cur: Vec<char> = Vec::new();
    let mut i: usize = 0;
    while i < v.len()
        invariant
            i <= v.len(),
            split_on(v@.take(i as int), c) == pieces_view(done@).push(cur@),
        decreases v.len() - i,
    {
        let ghost prev = v@.take(i as int);
        assert(v@.take(i + 1).drop_last() =~= prev);
        assert(v@.take(i + 1).last() == v@[i as int]);
        if v[i] == c {
            let finished = cur;
            done.push(finished);
            cur = Vec::new();
            assert(pieces_view(done@).push(cur@) =~= split_on(v@.take(i + 1), c));
        } else {
            let ghost old_cur = cur@;
            cur.push(v[i]);
            assert(pieces_view(done@).push(cur@) =~= split_on(v@.take(i + 1), c));
        }
        i = i + 1;
    }
    assert(v@.take(v.len() as int) =~= v@);
    done.push(cur);
    assert(pieces_view(done@) =~= split_on(v@, c));
    done
}


// ---- decimal numbers ----------------------------------------------------------

pub fn is_digit_char(c: char) -> (b: bool)
    ensures
        b == is_digit(c),
{
    '0' <= c && c <= '9'
}

pub fn digit_of_char(c: char) -> (d: u64)
    requires
        is_digit(c),
    ensures
        d == digit_value(c),
        d < 10,
{
    ((c as u32) - 48) as u64
}

/// The number of decimal digits at the front of `s`.
pub open spec fn lead_digits(s: Seq<char>) -> nat
    decreases s.len(),
{
    if s.len() > 0 && is_digit(s[0]) {
        1 + lead_digits(s.drop_first())
    } else {
        0
    }
}

/// 1 when `s` starts with a `+` or `-` sign, else 0.
pub open spec fn sign_len(s: Seq<char>) -> int {
    if s.len() > 0 && (s[0] == '+' || s[0] == '-') {
        1
    } else {
        0
    }
}

/// `s` starts with a minus sign.
pub open spec fn is_negative(s: Seq<char>) -> bool {
    s.len() > 0 && s[0] == '-'
}

// The parts of a number `[+-] digits [. digits] [(e|E) [+-] digits]`, by
// position in the text.

/// Where the whole digits start (after the sign).
pub open spec fn whole_start(s: Seq<char>) -> int {
    sign_len(s)
}

/// Where the whole digits end.
pub open spec fn whole_end(s: Seq<char>) -> int {
    whole_start(s) + lead_digits(s.skip(whole_start(s)))
}

/// A decimal point follows the whole digits.
pub open spec fn has_dot(s: Seq<char>) -> bool {
    whole_end(s) < s.len() && s[whole_end(s)] == '.'
}

/// Where the fraction digits start.
pub open spec fn frac_start(s: Seq<char>) -> int {
    if has_dot(s) {
        whole_end(s) + 1
    } else {
        whole_end(s)
    }
}

/// Where the fraction digits end.
pub open spec fn frac_end(s: Seq<char>) -> int {
    if has_dot(s) {
        frac_start(s) + lead_digits(s.skip(frac_start(s)))
    } else {
        frac_start(s)
    }
}

/// An exponent marker follows the mantissa.
pub open spec fn has_exp(s: Seq<char>) -> bool {
    frac_end(s) < s.len() && (s[frac_end(s)] == 'e' || s[frac_end(s)] == 'E')
}

/// Where the exponent's sign (if any) stands.
pub open spec fn exp_sign_at(s: Seq<char>) -> int {
    frac_end(s) + 1
}

/// Where the exponent's digits start.
pub open spec fn exp_start(s: Seq<char>) -> int {
    exp_sign_at(s) + sign_len(s.skip(exp_sign_at(s)))
}

/// Where the exponent's digits end.
pub open spec fn exp_end(s: Seq<char>) -> int {
    exp_start(s) + lead_digits(s.skip(exp_start(s)))
}

/// `s` is a finite decimal number as Rust's float parser reads it: an optional
/// sign, digits with an optional `.` and fraction digits (at least one digit in
/// all), and an optional exponent `e`/`E`, optional sign, at least one digit.
pub open spec fn is_number(s: Seq<char>) -> bool {
    &&& (whole_end(s) - whole_start(s)) + (frac_end(s) - frac_start(s)) > 0
    &&& if has_exp(s) {
        exp_end(s) > exp_start(s) && exp_end(s) == s.len()
    } else {
        frac_end(s) == s.len()
    }
}

/// The digits of the whole part of `s`.
pub open spec fn whole_digits(s: Seq<char>) -> Seq<char> {
    s.subrange(whole_start(s), whole_end(s))
}

/// All mantissa digits of `s`: the whole part followed by the fraction.
pub open spec fn mantissa(s: Seq<char>) -> Seq<char> {
    whole_digits(s) + s.subrange(frac_start(s), frac_end(s))
}

/// The exponent of `s` (0 when it has none).
pub open spec fn exponent_value(s: Seq<char>) -> int {
    if has_exp(s) {
        let e = digits_value(s.subrange(exp_start(s), exp_end(s))) as int;
        if is_negative(s.skip(exp_sign_at(s))) {
            -e
        } else {
            e
        }
    } else {
        0
    }
}

/// The first `l` digits of `d`, padded with zeros when `d` is shorter (empty
/// when `l <= 0`).
pub open spec fn pad_take(d: Seq<char>, l: int) -> Seq<char> {
    if l <= 0 {
        Seq::<char>::empty()
    } else {
        Seq::new(l as nat, |i: int| if i < d.len() { d[i] } else { '0' })
    }
}

/// The number `t` times `10^shift`, truncated toward zero: the mantissa's
/// digits up to the decimal point moved by the exponent and the shift.
pub open spec fn scaled_value(t: Seq<char>, shift: nat) -> int {
    let l = whole_digits(t).len() + exponent_value(t) + shift;
    let mag = digits_value(pad_take(mantissa(t), l)) as int;
    if is_negative(t) {
        -mag
    } else {
        mag
    }
}

/// The largest magnitude a scaled number is computed to (beyond it the number
/// is reported as too large).
pub const NUM_BOUND: u128 = 1000000000000000000000000000000;

/// Exponents beyond this magnitude are not tracked exactly: any nonzero
/// mantissa is then too large or truncates to zero.
const EXP_CAP: u128 = 100000000000000000000;

/// 10 to the power `k`.
pub open spec fn pow10_of(k: nat) -> nat
    decreases k,
{
    if k == 0 {
        1
    } else {
        10 * pow10_of((k - 1) as nat)
    }
}

proof fn lemma_pow10_mono(a: nat, b: nat)
    requires
        a <= b,
    ensures
        pow10_of(a) <= pow10_of(b),
    decreases b,
{
    if a < b {
        lemma_pow10_mono(a, (b - 1) as nat);
    }
}

proof fn lemma_pow10_31()
    ensures
        pow10_of(31) > NUM_BOUND,
{
    reveal_with_fuel(pow10_of, 32);
}

pub proof fn lemma_digits_value_prefix(t: Seq<char>, j: int)
    requires
        0 <= j <= t.len(),
    ensures
        digits_value(t.take(j)) <= digits_value(t),
    decreases t.len(),
{
    if j < t.len() {
        lemma_digits_value_prefix(t.drop_last(), j);
        assert(t.drop_last().take(j) =~= t.take(j));
    } else {
        assert(t.take(j) =~= t);
    }
}

proof fn lemma_lead_digits_bound(s: Seq<char>)
    ensures
        lead_digits(s) <= s.len(),
        all_digits(s.take(lead_digits(s) as int)),
        lead_digits(s) < s.len() ==> !is_digit(s[lead_digits(s) as int]),
    decreases s.len(),
{
    if s.len() > 0 && is_digit(s[0]) {
        lemma_lead_digits_bound(s.drop_first());
        let n: int = lead_digits(s.drop_first()) as int;
        assert forall|k: int| 0 <= k < n + 1 implies is_digit(#[trigger] s.take(n + 1)[k]) by {
            if k > 0 {
                assert(s.take(n + 1)[k] == s.drop_first().take(n)[k - 1]);
            }
        }
        if n + 1 < s.len() {
            assert(s[n + 1] == s.drop_first()[n]);
        }
    }
}

/// A longer zero-padded prefix is worth at least as much.
proof fn lemma_pad_take_mono(d: Seq<char>, a: int, b: int)
    requires
        a <= b,
    ensures
        digits_value(pad_take(d, a)) <= digits_value(pad_take(d, b)),
{
    if a > 0 {
        assert(pad_take(d, b).take(a) =~= pad_take(d, a));
        lemma_digits_value_prefix(pad_take(d, b), a);
    }
}

/// One more position of a zero-padded prefix.
proof fn lemma_pad_take_step(d: Seq<char>, j: int)
    requires
        j >= 0,
    ensures
        pad_take(d, j + 1) =~= pad_take(d, j).push(if j < d.len() { d[j] } else { '0' }),
        digits_value(pad_take(d, j + 1)) == digits_value(pad_take(d, j)) * 10 + digit_value(
            if j < d.len() {
                d[j]
            } else {
                '0'
            },
        ),
{
    let c = if j < d.len() {
        d[j]
    } else {
        '0'
    };
    assert(pad_take(d, j + 1) =~= pad_take(d, j).push(c));
    assert(pad_take(d, j).push(c).drop_last() =~= pad_take(d, j));
}

/// Past the end of the digits, a zero prefix stays zero.
proof fn lemma_pad_take_zero_tail(d: Seq<char>, j: int, k: int)
    requires
        d.len() <= j <= k,
        digits_value(pad_take(d, j)) == 0,
    ensures
        digits_value(pad_take(d, k)) == 0,
    decreases k - j,
{
    if j < k {
        lemma_pad_take_step(d, j);
        lemma_pad_take_zero_tail(d, j + 1, k);
    }
}

/// The end of the run of digits starting at `start`.
fn scan_digits(v: &Vec<char>, start: usize) -> (end: usize)
    requires
        start <= v.len(),
    ensures
        start <= end <= v.len(),
        end - start == lead_digits(v@.skip(start as int)),
        forall|m: int| start <= m < end ==> is_digit(#[trigger] v@[m]),
{
    let mut i = start;
    proof {
        assert(v@.skip(start as int) =~= v@.skip(i as int));
    }
    while i < v.len() && is_digit_char(v[i])
        invariant
            start <= i <= v.len(),
            lead_digits(v@.skip(start as int)) == (i - start) + lead_digits(v@.skip(i as int)),
            forall|m: int| start <= m < i ==> is_digit(#[trigger] v@[m]),
        decreases v.len() - i,
    {
        assert(v@.skip(i as int)[0] == v@[i as int]);
        assert(v@.skip(i as int).drop_first() =~= v@.skip(i + 1));
        i = i + 1;
    }
    proof {
        if i < v.len() {
            assert(v@.skip(i as int)[0] == v@[i as int]);
        }
        assert(lead_digits(v@.skip(i as int)) == 0);
    }
    i
}

/// The value of the digits `v[a..b]`, or `EXP_CAP + 1` when it exceeds
/// `EXP_CAP`.
fn digits_capped(v: &Vec<char>, a: usize, b: usize) -> (r: u128)
    requires
        a <= b <= v.len(),
        forall|m: int| a <= m < b ==> is_digit(#[trigger] v@[m]),
    ensures
        (r <= EXP_CAP && r == digits_value(v@.subrange(a as int, b as int)))
            || (r == EXP_CAP + 1 && digits_value(v@.subrange(a as int, b as int)) > EXP_CAP),
{
    let mut acc: u128 = 0;
    let mut i = a;
    assert(v@.subrange(a as int, a as int) =~= Seq::<char>::empty());
    while i < b
        invariant
            a <= i <= b <= v.len(),
            forall|m: int| a <= m < b ==> is_digit(#[trigger] v@[m]),
            (acc <= EXP_CAP && acc == digits_value(v@.subrange(a as int, i as int))) || (acc
                == EXP_CAP + 1 && digits_value(v@.subrange(a as int, i as int)) > EXP_CAP),
        decreases b - i,
    {
        let d = digit_of_char(v[i]);
        let ghost pre = v@.subrange(a as int, i as int);
        let ghost cur = v@.subrange(a as int, i + 1);
        assert(cur.drop_last() =~= pre);
        assert(cur.last() == v@[i as int]);
        if acc <= EXP_CAP {
            let n = acc * 10 + (d as u128);
            if n > EXP_CAP {
                acc = EXP_CAP + 1;
            } else {
                acc = n;
            }
        }
        i = i + 1;
    }
    acc
}

/// The digit at position `j` of the mantissa `v[p0..p1] ++ v[p2..p3]`.
fn mantissa_digit(v: &Vec<char>, p0: usize, p1: usize, p2: usize, p3: usize, j: u128) -> (d: u64)
    requires
        p0 <= p1 <= p2 <= p3 <= v.len(),
        j < (p1 - p0) + (p3 - p2),
        forall|m: int| p0 <= m < p1 ==> is_digit(#[trigger] v@[m]),
        forall|m: int| p2 <= m < p3 ==> is_digit(#[trigger] v@[m]),
    ensures
        d < 10,
        d == digit_value(
            (v@.subrange(p0 as int, p1 as int) + v@.subrange(p2 as int, p3 as int))[j as int],
        ),
{
    let w = (p1 - p0) as u128;
    if j < w {
        let k = p0 + (j as usize);
        digit_of_char(v[k])
    } else {
        let k = p2 + ((j - w) as usize);
        digit_of_char(v[k])
    }
}

/// Where the parts of a number stand in its text, with its exponent (held
/// exactly up to `EXP_CAP` in magnitude, as `±(EXP_CAP + 1)` beyond).
struct NumberParts {
    negative: bool,
    p0: usize,
    p1: usize,
    p2: usize,
    p3: usize,
    exp: i128,
}

/// The parts of `v` when it is a number.
fn number_parts(v: &Vec<char>) -> (r: Option<NumberParts>)
    ensures
        match r {
            Some(q) => {
                &&& is_number(v@)
                &&& q.negative == is_negative(v@)
                &&& q.p0 == whole_start(v@) && q.p1 == whole_end(v@)
                &&& q.p2 == frac_start(v@) && q.p3 == frac_end(v@)
                &&& q.p0 <= q.p1 <= q.p2 <= q.p3 <= v.len()
                &&& forall|k: int| q.p0 <= k < q.p1 ==> is_digit(#[trigger] v@[k])
                &&& forall|k: int| q.p2 <= k < q.p3 ==> is_digit(#[trigger] v@[k])
                &&& ((-EXP_CAP <= q.exp <= EXP_CAP && q.exp == exponent_value(v@))
                    || (q.exp == EXP_CAP + 1 && exponent_value(v@) > EXP_CAP)
                    || (q.exp == -(EXP_CAP + 1) && exponent_value(v@) < -EXP_CAP))
            },
            None => !is_number(v@),
        },
{
    let ghost s = v@;
    let len = v.len();
    let signed = len > 0 && (v[0] == '+' || v[0] == '-');
    let negative = len > 0 && v[0] == '-';
    let p0: usize = if signed {
        1
    } else {
        0
    };
    assert(p0 == whole_start(s));
    let p1 = scan_digits(v, p0);
    let dot = p1 < len && v[p1] == '.';
    assert(dot == has_dot(s));
    let p2 = if dot {
        p1 + 1
    } else {
        p1
    };
    let p3 = if dot {
        scan_digits(v, p2)
    } else {
        p2
    };
    assert(p3 == frac_end(s));
    if (p1 - p0) + (p3 - p2) == 0 {
        return None;
    }
    let e_mark = p3 < len && (v[p3] == 'e' || v[p3] == 'E');
    assert(e_mark == has_exp(s));
    if !e_mark {
        if p3 != len {
            return None;
        }
        return Some(NumberParts { negative, p0, p1, p2, p3, exp: 0 });
    }
    let p4 = p3 + 1;
    let esigned = p4 < len && (v[p4] == '+' || v[p4] == '-');
    let eneg = p4 < len && v[p4] == '-';
    assert(p4 < len ==> s.skip(p4 as int)[0] == s[p4 as int]);
    assert(eneg == is_negative(s.skip(p4 as int)));
    let p5 = if esigned {
        p4 + 1
    } else {
        p4
    };
    assert(p5 == exp_start(s));
    let p6 = scan_digits(v, p5);
    if p6 == p5 || p6 != len {
        return None;
    }
    let mag = digits_capped(v, p5, p6);
    let exp = if eneg {
        -(mag as i128)
    } else {
        mag as i128
    };
    Some(NumberParts { negative, p0, p1, p2, p3, exp })
}

/// The zero-padded prefix of length `l_true` of the mantissa `v[p0..p1] ++
/// v[p2..p3]`, as a number of at most `NUM_BOUND` (`None` beyond). `l` is
/// `l_true` itself, or stands for it where `l_true` is too large (then `l` is
/// already past the mantissa by more than 31 places) or not positive.
fn scaled_mantissa(
    v: &Vec<char>,
    p0: usize,
    p1: usize,
    p2: usize,
    p3: usize,
    l: i128,
    Ghost(l_true): Ghost<int>,
) -> (r: Option<u128>)
    requires
        p0 <= p1 <= p2 <= p3 <= v.len(),
        forall|k: int| p0 <= k < p1 ==> is_digit(#[trigger] v@[k]),
        forall|k: int| p2 <= k < p3 ==> is_digit(#[trigger] v@[k]),
        l == l_true || (l <= 0 && l_true <= 0) || ((p1 - p0) + (p3 - p2) + 31 < l <= l_true),
    ensures
        ({
            let d = v@.subrange(p0 as int, p1 as int) + v@.subrange(p2 as int, p3 as int);
            match r {
                Some(m) => m == digits_value(pad_take(d, l_true)) && m <= NUM_BOUND,
                None => digits_value(pad_take(d, l_true)) > NUM_BOUND,
            }
        }),
{
    let ghost d = v@.subrange(p0 as int, p1 as int) + v@.subrange(p2 as int, p3 as int);
    let n = (p1 - p0) as u128 + (p3 - p2) as u128;
    assert(d.len() == n);
    if l <= 0 {
        assert(pad_take(d, l_true) =~= Seq::<char>::empty());
        return Some(0);
    }
    let lu = l as u128;
    let mut m: u128 = 0;
    let mut j: u128 = 0;
    assert(pad_take(d, 0) =~= Seq::<char>::empty());
    while j < lu
        invariant
            p0 <= p1 <= p2 <= p3 <= v.len(),
            forall|k: int| p0 <= k < p1 ==> is_digit(#[trigger] v@[k]),
            forall|k: int| p2 <= k < p3 ==> is_digit(#[trigger] v@[k]),
            d == v@.subrange(p0 as int, p1 as int) + v@.subrange(p2 as int, p3 as int),
            d.len() == n,
            n == (p1 - p0) + (p3 - p2),
            j <= lu,
            lu == l,
            l <= l_true,
            m == digits_value(pad_take(d, j as int)),
            m <= NUM_BOUND,
            n <= j ==> (m == 0 || m >= pow10_of((j - n) as nat)),
            n < j ==> m > 0,
        decreases lu - j,
    {
        if j >= n && m == 0 {
            proof {
                lemma_pad_take_zero_tail(d, j as int, l_true);
            }
            return Some(0);
        }
        let dj: u64 = if j < n {
            mantissa_digit(v, p0, p1, p2, p3, j)
        } else {
            0
        };
        proof {
            lemma_pad_take_step(d, j as int);
        }
        let m2 = m * 10 + (dj as u128);
        if m2 > NUM_BOUND {
            proof {
                lemma_pad_take_mono(d, j + 1, l_true);
            }
            return None;
        }
        m = m2;
        j = j + 1;
    }
    proof {
        if l != l_true {
            lemma_pow10_mono(31, (j - n) as nat);
            lemma_pow10_31();
        }
    }
    Some(m)
}

/// Reads the finite decimal number `v` (sign, digits, fraction, exponent) times
/// `10^shift`, truncated toward zero; `None` when `v` is not such a number or
/// the result's magnitude exceeds `NUM_BOUND`.
pub fn parse_scaled(v: &Vec<char>, shift: u32) -> (r: Option<i128>)
    requires
        shift <= 6,
    ensures
        match r {
            Some(x) => is_number(v@) && x == scaled_value(v@, shift as nat) && -NUM_BOUND <= x
                <= NUM_BOUND,
            None => !is_number(v@) || !(-NUM_BOUND <= scaled_value(v@, shift as nat)
                <= NUM_BOUND),
        },
{
    let q = match number_parts(v) {
        Some(q) => q,
        None => {
            return None;
        },
    };
    let ghost s = v@;
    let ghost l_true: int = whole_digits(s).len() + exponent_value(s) + shift;
    assert(whole_digits(s).len() == q.p1 - q.p0);
    assert(mantissa(s) =~= v@.subrange(q.p0 as int, q.p1 as int) + v@.subrange(
        q.p2 as int,
        q.p3 as int,
    ));
    let l: i128 = (q.p1 - q.p0) as i128 + q.exp + (shift as i128);
    match scaled_mantissa(v, q.p0, q.p1, q.p2, q.p3, l, Ghost(l_true)) {
        None => None,
        Some(m) => {
            let x = m as i128;
            if q.negative {
                Some(-x)
            } else {
                Some(x)
            }
        },
    }
}

// ---- what a number text reads as --------------------------------------------------

/// `s` without its sign, in lower case.
pub open spec fn special_body(s: Seq<char>) -> Seq<char> {
    lower_seq(s.skip(sign_len(s)))
}

/// `s` spells an infinity (`inf` or `infinity`, any case, optionally signed).
pub open spec fn is_inf_text(s: Seq<char>) -> bool {
    special_body(s) == "inf"@ || special_body(s) == "infinity"@
}

/// `s` spells not-a-number (`nan`, any case, optionally signed).
pub open spec fn is_nan_text(s: Seq<char>) -> bool {
    special_body(s) == "nan"@
}

/// What a text reads as when Rust's float parser is asked for it, scaled by
/// `10^shift`: not a number at all, a finite value held exactly (truncated
/// toward zero, magnitude at most `NUM_BOUND`), a finite value beyond that
/// (only its sign kept), an infinity, or not-a-number.
#[derive(Debug, Clone, Copy, PartialEq, Eq, Structural)]
pub enum Reading {
    NotNumber,
    Finite(i128),
    Huge(bool),
    Infinite(bool),
    NotANumber,
}

pub open spec fn reading(t: Seq<char>, shift: nat) -> Reading {
    if is_number(t) {
        let x = scaled_value(t, shift);
        if -NUM_BOUND <= x <= NUM_BOUND {
            Reading::Finite(x as i128)
        } else {
            Reading::Huge(x < 0)
        }
    } else if is_inf_text(t) {
        Reading::Infinite(is_negative(t))
    } else if is_nan_text(t) {
        Reading::NotANumber
    } else {
        Reading::NotNumber
    }
}

/// `x` clamped to the `i64` range.
pub open spec fn clamp_i64(x: int) -> int {
    if x < i64::MIN {
        i64::MIN as int
    } else if x > i64::MAX {
        i64::MAX as int
    } else {
        x
    }
}

/// A reading as an `i64`: finite values clamped to the range, values beyond it
/// and infinities at the end of their sign, not-a-number as 0; nothing for a
/// text that is no number.
pub open spec fn saturated(r: Reading) -> Option<int> {
    match r {
        Reading::NotNumber => None,
        Reading::Finite(x) => Some(clamp_i64(x as int)),
        Reading::Huge(neg) => Some(
            if neg {
                i64::MIN as int
            } else {
                i64::MAX as int
            },
        ),
        Reading::Infinite(neg) => Some(
            if neg {
                i64::MIN as int
            } else {
                i64::MAX as int
            },
        ),
        Reading::NotANumber => Some(0),
    }
}

/// ASCII lower case of `v`.
pub fn lower_chars(v: &Vec<char>) -> (r: Vec<char>)
    ensures
        r@ == lower_seq(v@),
{
    let mut r: Vec<char> = Vec::new();
    let mut i: usize = 0;
    while i < v.len()
        invariant
            i <= v.len(),
            r@ == lower_seq(v@.take(i as int)),
        decreases v.len() - i,
    {
        r.push(lower_char(v[i]));
        i = i + 1;
        assert(r@ =~= lower_seq(v@.take(i as int)));
    }
    assert(v@.take(v.len() as int) =~= v@);
    r
}

/// Reads the text `v` as Rust's float parser would, scaled by `10^shift`.
pub fn read_number(v: &Vec<char>, shift: u32) -> (r: Reading)
    requires
        shift <= 6,
    ensures
        r == reading(v@, shift as nat),
{
    match parse_scaled(v, shift) {
        Some(x) => {
            return Reading::Finite(x);
        },
        None => {},
    }
    let len = v.len();
    let negative = len > 0 && v[0] == '-';
    if number_parts(v).is_some() {
        return Reading::Huge(negative);
    }
    let st: usize = if len > 0 && (v[0] == '+' || v[0] == '-') {
        1
    } else {
        0
    };
    let body = slice_chars(v, st, len);
    let low = lower_chars(&body);
    assert(body@ =~= v@.skip(sign_len(v@)));
    if chars_eq_str(&low, "inf") || chars_eq_str(&low, "infinity") {
        Reading::Infinite(negative)
    } else if chars_eq_str(&low, "nan") {
        Reading::NotANumber
    } else {
        Reading::NotNumber
    }
}

/// A reading as an `i64` (see `saturated`).
pub fn saturate(r: Reading) -> (o: Option<i64>)
    ensures
        match o {
            Some(x) => saturated(r) == Some(x as int),
            None => saturated(r) is None,
        },
{
    match r {
        Reading::NotNumber => None,
        Reading::Finite(x) => {
            if x < (i64::MIN as i128) {
                Some(i64::MIN)
            } else if x > (i64::MAX as i128) {
                Some(i64::MAX)
            } else {
                Some(x as i64)
            }
        },
        Reading::Huge(neg) => Some(
            if neg {
                i64::MIN
            } else {
                i64::MAX
            },
        ),
        Reading::Infinite(neg) => Some(
            if neg {
                i64::MIN
            } else {
                i64::MAX
            },
        ),
        Reading::NotANumber => Some(0),
    }
}

} // verus!
