//! Characters and decimal numerals of the instruction syntax.
//!
//! The syntax of an instruction is written with the character classes `\w`,
//! `\d` and `\s` of the `regex` crate. On ASCII characters those classes are
//! `[0-9A-Za-z_]`, `[0-9]` and `[\t\n\v\f\r ]`; beyond ASCII the answer is the
//! `regex` crate's own (Unicode word characters, `\p{Nd}`, `\p{White_Space}`).
use vstd::prelude::*;

verus! {

/// The three character classes that the instruction syntax uses.
#[derive(Clone, Copy, Debug, PartialEq, Eq)]
pub enum CharClass {
    /// `\w`
    Word,
    /// `\d`
    Digit,
    /// `\s`
    Space,
}

pub open spec fn is_ascii_char(c: char) -> bool {
    (c as u32) < 128
}

pub open spec fn is_ascii_digit(c: char) -> bool {
    48 <= (c as u32) && (c as u32) <= 57
}

pub open spec fn is_ascii_word(c: char) -> bool {
    ||| is_ascii_digit(c)
    ||| (65 <= (c as u32) && (c as u32) <= 90)
    ||| (97 <= (c as u32) && (c as u32) <= 122)
    ||| (c as u32) == 95
}

pub open spec fn is_ascii_space(c: char) -> bool {
    (9 <= (c as u32) && (c as u32) <= 13) || (c as u32) == 32
}

/// Whether the `regex` crate's class `\w` holds the character `c`.
pub uninterp spec fn regex_word_class(c: char) -> bool;

/// Whether the `regex` crate's class `\d` holds the character `c`.
pub uninterp spec fn regex_digit_class(c: char) -> bool;

/// Whether the `regex` crate's class `\s` holds the character `c`.
pub uninterp spec fn regex_space_class(c: char) -> bool;

/// Membership in a class: the ASCII table on ASCII characters, the `regex`
/// crate's Unicode class on the others.
pub open spec fn class_contains(k: CharClass, c: char) -> bool {
    match k {
        CharClass::Word => if is_ascii_char(c) { is_ascii_word(c) } else { regex_word_class(c) },
        CharClass::Digit => if is_ascii_char(c) { is_ascii_digit(c) } else { regex_digit_class(c) },
        CharClass::Space => if is_ascii_char(c) { is_ascii_space(c) } else { regex_space_class(c) },
    }
}

/// Calls `regex::Regex::is_match` with the pattern `^\w$` on the one-character
/// string `c`. Claimed: the answer depends on `c` alone (named
/// `regex_word_class`). The pattern is a valid constant, so building it cannot fail.
#[verifier::external_body]
fn regex_word_class_contains(c: char) -> (b: bool)
    ensures
        b == regex_word_class(c),
{
    let mut buf = [0u8; 4];
    regex::Regex::new(r"^\w$").unwrap().is_match(c.encode_utf8(&mut buf))
}

/// Calls `regex::Regex::is_match` with the pattern `^\d$` on the one-character
/// string `c`. Claimed: the answer depends on `c` alone (named
/// `regex_digit_class`). The pattern is a valid constant, so building it cannot fail.
#[verifier::external_body]
fn regex_digit_class_contains(c: char) -> (b: bool)
    ensures
        b == regex_digit_class(c),
{
    let mut buf = [0u8; 4];
    regex::Regex::new(r"^\d$").unwrap().is_match(c.encode_utf8(&mut buf))
}

/// Calls `regex::Regex::is_match` with the pattern `^\s$` on the one-character
/// string `c`. Claimed: the answer depends on `c` alone (named
/// `regex_space_class`). The pattern is a valid constant, so building it cannot fail.
#[verifier::external_body]
fn regex_space_class_contains(c: char) -> (b: bool)
    ensures
        b == regex_space_class(c),
{
    let mut buf = [0u8; 4];
    regex::Regex::new(r"^\s$").unwrap().is_match(c.encode_utf8(&mut buf))
}

/// On ASCII characters the classes are `[0-9A-Za-z_]`, `[0-9]` and
/// `[\t\n\x0B\x0C\r ]`.
pub proof fn lemma_ascii_classes(c: char)
    requires
        (c as u32) < 128,
    ensures
        class_contains(CharClass::Word, c) <==> ('0' <= c <= '9' || 'A' <= c <= 'Z' || 'a' <= c
            <= 'z' || c == '_'),
        class_contains(CharClass::Digit, c) <==> '0' <= c <= '9',
        class_contains(CharClass::Space, c) <==> (c == '\t' || c == '\n' || c == '\x0B' || c
            == '\x0C' || c == '\r' || c == ' '),
{
}

/// Whether the class `k` holds `c`.
pub fn class_holds(k: CharClass, c: char) -> (b: bool)
    ensures
        b == class_contains(k, c),
{
    let u = c as u32;
    if u < 128 {
        match k {
            CharClass::Word => (48 <= u && u <= 57) || (65 <= u && u <= 90) || (97 <= u && u <= 122)
                || u == 95,
            CharClass::Digit => 48 <= u && u <= 57,
            CharClass::Space => (9 <= u && u <= 13) || u == 32,
        }
    } else {
        match k {
            CharClass::Word => regex_word_class_contains(c),
            CharClass::Digit => regex_digit_class_contains(c),
            CharClass::Space => regex_space_class_contains(c),
        }
    }
}

/// The end of the longest run of characters of class `k` that starts at `i`.
pub open spec fn run_end(s: Seq<char>, i: int, k: CharClass) -> int
    decreases s.len() - i,
{
    if i < 0 || i >= s.len() || !class_contains(k, s[i]) {
        i
    } else {
        run_end(s, i + 1, k)
    }
}

/// A run is determined by where it stops.
pub proof fn lemma_run_end_at(s: Seq<char>, i: int, e: int, k: CharClass)
    requires
        0 <= i <= e <= s.len(),
        forall|t: int| i <= t < e ==> class_contains(k, #[trigger] s[t]),
        e < s.len() ==> !class_contains(k, s[e]),
    ensures
        run_end(s, i, k) == e,
    decreases e - i,
{
    if i < e {
        lemma_run_end_at(s, i + 1, e, k);
    }
}

/// Copies the characters of `s` into a vector.
pub fn chars_of(s: &str) -> (v: Vec<char>)
    ensures
        v@ == s@,
{
    let mut v: Vec<char> = Vec::new();
    for c in it: s.chars()
        invariant
            v@ == it.seq().take(it.index() as int),
    {
        v.push(c);
    }
    proof {
        broadcast use vstd::string::group_string_axioms;

    }
    v
}

/// Where the run of class `k` that starts at `i` ends in `cs`.
pub fn class_run_end(cs: &Vec<char>, i: usize, k: CharClass) -> (e: usize)
    requires
        i <= cs.len(),
    ensures
        e == run_end(cs@, i as int, k),
        i <= e <= cs.len(),
{
    let mut e = i;
    while e < cs.len()
        invariant
            i <= e <= cs.len(),
            run_end(cs@, e as int, k) == run_end(cs@, i as int, k),
        decreases cs.len() - e,
    {
        if !class_holds(k, cs[e]) {
            return e;
        }
        e = e + 1;
    }
    e
}

// ---------------------------------------------------------------------------
// Decimal numerals

pub open spec fn digit_value(c: char) -> nat {
    ((c as u32) - 48) as nat
}

pub open spec fn digit_char(d: nat) -> char {
    (d + 48) as char
}

pub open spec fn all_ascii_digits(s: Seq<char>) -> bool {
    forall|i: int| 0 <= i < s.len() ==> is_ascii_digit(#[trigger] s[i])
}

/// The number that a string of decimal digits denotes.
pub open spec fn dec_value(s: Seq<char>) -> nat
    decreases s.len(),
{
    if s.len() == 0 {
        0
    } else {
        dec_value(s.drop_last()) * 10 + digit_value(s.last())
    }
}

/// Whether `s` is made of ASCII digits only and denotes a number below `bound`:
/// when Rust's `str::parse` for an unsigned type whose range ends at `bound`
/// accepts a nonempty string of digits.
pub open spec fn dec_fits(s: Seq<char>, bound: nat) -> bool {
    all_ascii_digits(s) && dec_value(s) < bound
}

/// The shortest decimal numeral of `n`.
pub open spec fn dec_digits(n: nat) -> Seq<char>
    decreases n,
{
    if n < 10 {
        seq![digit_char(n)]
    } else {
        dec_digits(n / 10).push(digit_char(n % 10))
    }
}

pub open spec fn u64_bound() -> nat {
    0x1_0000_0000_0000_0000
}

pub open spec fn u128_bound() -> nat {
    u64_bound() * u64_bound()
}

/// A decimal numeral reads back as the number it was written for.
pub proof fn lemma_dec_digits(n: nat)
    ensures
        dec_digits(n).len() >= 1,
        all_ascii_digits(dec_digits(n)),
        dec_value(dec_digits(n)) == n,
    decreases n,
{
    if n < 10 {
        let s = dec_digits(n);
        assert(s.drop_last() =~= Seq::<char>::empty());
        assert(digit_value(digit_char(n)) == n);
        assert(dec_value(s.drop_last()) == 0);
        assert(s.last() == digit_char(n));
    } else {
        lemma_dec_digits(n / 10);
        let s = dec_digits(n);
        assert(s.drop_last() =~= dec_digits(n / 10));
        assert(digit_value(digit_char(n % 10)) == n % 10);
        assert(n == (n / 10) * 10 + n % 10);
        assert(s.last() == digit_char(n % 10));
        assert(all_ascii_digits(s)) by {
            assert forall|i: int| 0 <= i < s.len() implies is_ascii_digit(#[trigger] s[i]) by {
                if i < s.len() - 1 {
                    assert(s[i] == dec_digits(n / 10)[i]);
                }
            }
        }
    }
}

/// Decimal notation, digit by digit: a number below ten is written as its
/// one digit, a larger one as the numeral of its tenth followed by its last
/// digit; only zero's numeral starts with the digit `0`.
pub proof fn lemma_dec_digits_spelled(n: nat)
    ensures
        n < 10 ==> dec_digits(n).len() == 1 && dec_digits(n)[0] as u32 == n + 48,
        n >= 10 ==> dec_digits(n).drop_last() == dec_digits(n / 10) && dec_digits(n).last() as u32
            == n % 10 + 48,
        dec_digits(n)[0] as u32 == 48 ==> n == 0,
    decreases n,
{
    if n >= 10 {
        lemma_dec_digits(n / 10);
        lemma_dec_digits_spelled(n / 10);
        assert(dec_digits(n)[0] == dec_digits(n / 10)[0]);
    }
}

/// A string of decimal digits denotes, digit by digit from the left, ten
/// times what comes before the last digit plus that digit; no digits denote
/// zero.
pub proof fn lemma_dec_value_digitwise(s: Seq<char>, c: char)
    requires
        is_ascii_digit(c),
    ensures
        dec_value(Seq::<char>::empty()) == 0,
        dec_value(s.push(c)) == dec_value(s) * 10 + (c as u32 - 48),
{
    assert(s.push(c).drop_last() =~= s);
}

/// A prefix of a string of digits denotes no more than the whole string.
pub proof fn lemma_dec_value_prefix(s: Seq<char>, k: int)
    requires
        0 <= k <= s.len(),
        all_ascii_digits(s),
    ensures
        dec_value(s.take(k)) <= dec_value(s),
    decreases s.len() - k,
{
    if k < s.len() {
        let t = s.take(k + 1);
        assert(t.drop_last() =~= s.take(k));
        lemma_dec_value_prefix(s, k + 1);
    } else {
        assert(s.take(k) =~= s);
    }
}

/// The value of the digits `cs[a..b)` when they are ASCII digits below 2^128,
/// as `str::parse::<u128>` gives it, and `None` otherwise.
pub fn parse_dec_u128(cs: &Vec<char>, a: usize, b: usize) -> (r: Option<u128>)
    requires
        a <= b <= cs.len(),
    ensures
        r matches Some(v) ==> dec_fits(cs@.subrange(a as int, b as int), u128_bound()) && v
            == dec_value(cs@.subrange(a as int, b as int)),
        r is None ==> !dec_fits(cs@.subrange(a as int, b as int), u128_bound()),
{
    let ghost sub = cs@.subrange(a as int, b as int);
    let mut v: u128 = 0;
    let mut i = a;
    while i < b
        invariant
            a <= i <= b <= cs.len(),
            sub == cs@.subrange(a as int, b as int),
            all_ascii_digits(cs@.subrange(a as int, i as int)),
            v == dec_value(cs@.subrange(a as int, i as int)),
        decreases b - i,
    {
        let c = cs[i];
        let u = c as u32;
        let ghost pre = cs@.subrange(a as int, i as int);
        let ghost next = cs@.subrange(a as int, i + 1);
        assert(next.drop_last() =~= pre);
        assert(sub.take(i + 1 - a) =~= next);
        if !(48 <= u && u <= 57) {
            assert(!is_ascii_digit(sub[i - a]));
            return None;
        }
        let d = (u - 48) as u128;
        match v.checked_mul(10) {
            None => {
                proof {
                    if all_ascii_digits(sub) {
                        lemma_dec_value_prefix(sub, i + 1 - a);
                    }
                }
                return None;
            },
            Some(w) => match w.checked_add(d) {
                None => {
                    proof {
                        if all_ascii_digits(sub) {
                            lemma_dec_value_prefix(sub, i + 1 - a);
                        }
                    }
                    return None;
                },
                Some(x) => {
                    v = x;
                },
            },
        }
        i = i + 1;
        assert(all_ascii_digits(cs@.subrange(a as int, i as int))) by {
            assert forall|t: int| 0 <= t < next.len() implies is_ascii_digit(#[trigger] next[t]) by {
                if t < pre.len() {
                    assert(next[t] == pre[t]);
                }
            }
        }
    }
    assert(sub =~= cs@.subrange(a as int, i as int));
    Some(v)
}

/// The one-digit string of `d`.
pub fn digit_str(d: u128) -> (s: &'static str)
    requires
        d < 10,
    ensures
        s@ == seq![digit_char(d as nat)],
{
    proof {
        reveal_strlit("0");
        reveal_strlit("1");
        reveal_strlit("2");
        reveal_strlit("3");
        reveal_strlit("4");
        reveal_strlit("5");
        reveal_strlit("6");
        reveal_strlit("7");
        reveal_strlit("8");
        reveal_strlit("9");
    }
    let s = match d {
        0 => "0",
        1 => "1",
        2 => "2",
        3 => "3",
        4 => "4",
        5 => "5",
        6 => "6",
        7 => "7",
        8 => "8",
        _ => "9",
    };
    assert(s@ =~= seq![digit_char(d as nat)]);
    s
}

/// Appends the decimal numeral of `v`.
pub fn push_dec(out: &mut String, v: u128)
    ensures
        final(out)@ == old(out)@ + dec_digits(v as nat),
    decreases v,
{
    if v < 10 {
        out.append(digit_str(v));
        assert(final(out)@ =~= old(out)@ + dec_digits(v as nat));
    } else {
        push_dec(out, v / 10);
        out.append(digit_str(v % 10));
        assert(dec_digits(v as nat) == dec_digits((v / 10) as nat).push(digit_char((v % 10) as nat)));
        assert(final(out)@ =~= old(out)@ + dec_digits(v as nat));
    }
}

} // verus!
