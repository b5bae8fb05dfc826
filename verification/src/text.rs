//! Verified text utilities for the fixed-format metric sources.
//!
//! Every metric source is a small line-oriented text format: fields are
//! separated by runs of spaces, numbers are plain decimal digits, and the
//! GPU report puts each value after a `": "` separator.  This module gives
//! those notions exact specifications and verified executable counterparts.

use vstd::prelude::*;
use vstd::string::*;

verus! {

use crate::ParseError;

/// A decimal digit character.
pub open spec fn is_digit(c: char) -> bool {
    48 <= c as u32 <= 57
}

/// The numeric value of a digit character.
pub open spec fn digit_val(c: char) -> nat {
    (c as u32 - 48) as nat
}

/// A non-empty run of decimal digits.
pub open spec fn is_number(s: Seq<char>) -> bool {
    s.len() > 0 && forall|k: int| 0 <= k < s.len() ==> is_digit(#[trigger] s[k])
}

/// The value of a digit sequence read in base ten.
pub open spec fn number_val(s: Seq<char>) -> nat
    decreases s.len(),
{
    if s.len() == 0 {
        0
    } else {
        number_val(s.drop_last()) * 10 + digit_val(s.last())
    }
}

/// The value of a prefix never exceeds the value of the whole digit run.
proof fn lemma_number_val_take_le(s: Seq<char>, i: int)
    requires
        0 <= i <= s.len(),
    ensures
        number_val(s.take(i)) <= number_val(s),
    decreases s.len() - i,
{
    if i == s.len() {
        assert(s.take(i) =~= s);
    } else {
        assert(s.take(i + 1).drop_last() =~= s.take(i));
        assert(s.take(i + 1).last() == s[i]);
        assert(number_val(s.take(i)) <= number_val(s.take(i + 1)));
        lemma_number_val_take_le(s, i + 1);
    }
}

/// Whether `tok` is a non-empty run of decimal digits.
pub fn token_is_number(tok: &str) -> (b: bool)
    ensures
        b == is_number(tok@),
{
    let n = tok.unicode_len();
    if n == 0 {
        return false;
    }
    let mut i: usize = 0;
    while i < n
        invariant
            n == tok@.len(),
            i <= n,
            forall|k: int| 0 <= k < i ==> is_digit(#[trigger] tok@[k]),
        decreases n - i,
    {
        let c = tok.get_char(i);
        let v = c as u32;
        if v < 48 || v > 57 {
            return false;
        }
        i += 1;
    }
    true
}

/// What reading a token as a decimal `u64` yields: its value if it is a
/// digit run that fits, and otherwise whether the shape or the size was
/// at fault.
pub open spec fn spec_parse_u64(t: Seq<char>) -> Result<u64, ParseError> {
    if !is_number(t) {
        Err(ParseError::NotNumeric)
    } else if number_val(t) > u64::MAX {
        Err(ParseError::Overflow)
    } else {
        Ok(number_val(t) as u64)
    }
}

/// Reads `tok` as a decimal `u64`.
pub fn parse_u64(tok: &str) -> (r: Result<u64, ParseError>)
    ensures
        r == spec_parse_u64(tok@),
{
    if !token_is_number(tok) {
        return Err(ParseError::NotNumeric);
    }
    let n = tok.unicode_len();
    let mut acc: u64 = 0;
    let mut i: usize = 0;
    while i < n
        invariant
            n == tok@.len(),
            i <= n,
            is_number(tok@),
            acc == number_val(tok@.take(i as int)),
        decreases n - i,
    {
        let c = tok.get_char(i);
        let d: u64 = (c as u32 - 48) as u64;
        proof {
            assert(is_digit(tok@[i as int]));
            assert(d == digit_val(tok@[i as int]));
        }
        if acc > (u64::MAX - d) / 10 {
            proof {
                assert(number_val(tok@.take(i + 1)) == acc * 10 + d) by {
                    assert(tok@.take(i + 1).drop_last() =~= tok@.take(i as int));
                    assert(tok@.take(i + 1).last() == tok@[i as int]);
                }
                assert(acc * 10 + d > u64::MAX) by {
                    assert(acc >= (u64::MAX - d) / 10 + 1);
                    assert(((u64::MAX - d) / 10 + 1) * 10 > u64::MAX - d) by (nonlinear_arith);
                    assert(acc * 10 >= ((u64::MAX - d) / 10 + 1) * 10) by (nonlinear_arith)
                        requires
                            acc >= (u64::MAX - d) / 10 + 1,
                    ;
                }
                lemma_number_val_take_le(tok@, i + 1);
            }
            return Err(ParseError::Overflow);
        }
        proof {
            assert(acc * 10 + d <= u64::MAX) by {
                assert(acc <= (u64::MAX - d) / 10);
                assert(acc * 10 <= ((u64::MAX - d) / 10) * 10) by (nonlinear_arith)
                    requires
                        acc <= (u64::MAX - d) / 10,
                ;
                assert(((u64::MAX - d) / 10) * 10 <= u64::MAX - d);
            }
            assert(tok@.take(i + 1).drop_last() =~= tok@.take(i as int));
            assert(tok@.take(i + 1).last() == tok@[i as int]);
        }
        acc = acc * 10 + d;
        i += 1;
    }
    proof {
        assert(tok@.take(n as int) =~= tok@);
    }
    Ok(acc)
}

/// The non-empty fields of `s`: maximal runs of non-space characters,
/// with any number of separating spaces dropped.
pub open spec fn split_fields(s: Seq<char>) -> Seq<Seq<char>>
    decreases s.len(),
{
    if s.len() == 0 {
        Seq::empty()
    } else if s[0] == ' ' {
        split_fields(s.drop_first())
    } else {
        let rest = split_fields(s.drop_first());
        if s.len() > 1 && s[1] != ' ' {
            seq![seq![s[0]] + rest[0]] + rest.drop_first()
        } else {
            seq![seq![s[0]]] + rest
        }
    }
}

/// Splitting off one whole field: if `s` starts with `j` non-space
/// characters followed by a space or the end, the split is that field
/// followed by the split of the remainder.
proof fn lemma_split_fields_field(s: Seq<char>, j: int)
    requires
        1 <= j <= s.len(),
        forall|k: int| 0 <= k < j ==> s[k] != ' ',
        j == s.len() || s[j] == ' ',
    ensures
        split_fields(s) == seq![s.take(j)] + split_fields(s.skip(j)),
    decreases j,
{
    let rest = split_fields(s.drop_first());
    if j == 1 {
        assert(s.take(1) =~= seq![s[0]]);
        assert(s.skip(1) =~= s.drop_first());
        assert(split_fields(s) == seq![seq![s[0]]] + rest);
    } else {
        let t = s.drop_first();
        lemma_split_fields_field(t, j - 1);
        assert(rest == seq![t.take(j - 1)] + split_fields(t.skip(j - 1)));
        assert(rest[0] == t.take(j - 1));
        assert(rest.drop_first() =~= split_fields(t.skip(j - 1)));
        assert(seq![s[0]] + t.take(j - 1) =~= s.take(j));
        assert(t.skip(j - 1) =~= s.skip(j));
        assert(split_fields(s) == seq![seq![s[0]] + rest[0]] + rest.drop_first());
        assert(seq![seq![s[0]] + rest[0]] + rest.drop_first() =~= seq![s.take(j)] + split_fields(
            s.skip(j),
        ));
    }
}

/// The non-empty space-separated fields of `line`, as owned strings.
pub fn split_whitespace_fields(line: &str) -> (fields: Vec<String>)
    ensures
        fields.deep_view() == split_fields(line@),
{
    let n = line.unicode_len();
    let mut fields: Vec<String> = Vec::new();
    let mut i: usize = 0;
    proof {
        assert(line@.skip(0) =~= line@);
        assert(fields.deep_view() + split_fields(line@.skip(0)) =~= split_fields(line@));
    }
    while i < n
        invariant
            n == line@.len(),
            i <= n,
            split_fields(line@) == fields.deep_view() + split_fields(
                line@.skip(i as int),
            ),
        decreases n - i,
    {
        if line.get_char(i) == ' ' {
            proof {
                assert(line@.skip(i as int).drop_first() =~= line@.skip(i + 1));
            }
            i += 1;
        } else {
            let start = i;
            let mut j: usize = i + 1;
            while j < n
                invariant
                    n == line@.len(),
                    i < j <= n,
                    forall|k: int| i <= k < j ==> line@[k] != ' ',
                ensures
                    i < j <= n,
                    forall|k: int| i <= k < j ==> line@[k] != ' ',
                    j == n || line@[j as int] == ' ',
                decreases n - j,
            {
                if line.get_char(j) == ' ' {
                    break ;
                }
                j += 1;
            }
            let tok = line.substring_char(start, j);
            let owned = String::from_str(tok);
            let ghost old_fields = fields.deep_view();
            fields.push(owned);
            proof {
                let suffix = line@.skip(i as int);
                assert forall|k: int| 0 <= k < j - i implies suffix[k] != ' ' by {
                    assert(suffix[k] == line@[k + i]);
                }
                lemma_split_fields_field(suffix, j - i);
                assert(suffix.take(j - i) =~= line@.subrange(i as int, j as int));
                assert(suffix.skip(j - i) =~= line@.skip(j as int));
                assert(fields.deep_view() =~= old_fields + seq![tok@]);
                assert(fields.deep_view() + split_fields(line@.skip(j as int)) =~= old_fields
                    + split_fields(line@.skip(i as int)));
            }
            i = j;
        }
    }
    proof {
        assert(line@.skip(n as int) =~= Seq::<char>::empty());
        assert(fields.deep_view() + split_fields(line@.skip(n as int)) =~= fields.deep_view());
    }
    fields
}

/// The character for one decimal digit.
pub open spec fn digit_char(d: nat) -> char {
    if d == 0 {
        '0'
    } else if d == 1 {
        '1'
    } else if d == 2 {
        '2'
    } else if d == 3 {
        '3'
    } else if d == 4 {
        '4'
    } else if d == 5 {
        '5'
    } else if d == 6 {
        '6'
    } else if d == 7 {
        '7'
    } else if d == 8 {
        '8'
    } else {
        '9'
    }
}

/// The decimal digits of `n`, most significant first.
pub open spec fn dec_str(n: nat) -> Seq<char>
    decreases n,
{
    if n < 10 {
        seq![digit_char(n)]
    } else {
        dec_str(n / 10).push(digit_char(n % 10))
    }
}

/// A value carried in thousandths, written with three digits after the
/// dot (`25310` becomes `25.310`).
pub open spec fn milli_str(v: u64) -> Seq<char> {
    let f = v as nat % 1000;
    dec_str(v as nat / 1000) + seq![
        '.',
        digit_char(f / 100),
        digit_char((f / 10) % 10),
        digit_char(f % 10),
    ]
}

/// The character for one decimal digit.
fn digit_token(d: u64) -> (r: &'static str)
    requires
        d < 10,
    ensures
        r@ == seq![digit_char(d as nat)],
{
    proof {
        reveal_strlit("0");
        reveal_strlit("1");
        reveal_strlit("2");
        reveal_strlit("3");
        reveal_strlit("4");
        reveal_strlit("5");
        reveal_strlit("6");
        reveal_strlit("7");
        reveal_strlit("8");
        reveal_strlit("9");
        assert("0"@ =~= seq!['0']);
        assert("1"@ =~= seq!['1']);
        assert("2"@ =~= seq!['2']);
        assert("3"@ =~= seq!['3']);
        assert("4"@ =~= seq!['4']);
        assert("5"@ =~= seq!['5']);
        assert("6"@ =~= seq!['6']);
        assert("7"@ =~= seq!['7']);
        assert("8"@ =~= seq!['8']);
        assert("9"@ =~= seq!['9']);
    }
    match d {
        0 => "0",
        1 => "1",
        2 => "2",
        3 => "3",
        4 => "4",
        5 => "5",
        6 => "6",
        7 => "7",
        8 => "8",
        _ => "9",
    }
}

/// Writes `n` in decimal.
pub fn u64_to_string(n: u64) -> (s: String)
    ensures
        s@ == dec_str(n as nat),
    decreases n,
{
    if n < 10 {
        String::from_str(digit_token(n))
    } else {
        let mut s = u64_to_string(n / 10);
        s.append(digit_token(n % 10));
        proof {
            assert(s@ =~= dec_str(n as nat / 10).push(digit_char(n as nat % 10)));
        }
        s
    }
}

/// Writes a value carried in thousandths with three digits after the
/// dot.
pub fn milli_to_string(v: u64) -> (s: String)
    ensures
        s@ == milli_str(v),
{
    let f = v % 1000;
    let mut s = u64_to_string(v / 1000);
    s.append(".");
    s.append(digit_token(f / 100));
    s.append(digit_token((f / 10) % 10));
    s.append(digit_token(f % 10));
    proof {
        reveal_strlit(".");
        assert("."@ =~= seq!['.']);
        assert(s@ =~= milli_str(v));
    }
    s
}

/// `needle` occurs in `hay` starting at position `i`.
pub open spec fn matches_at(hay: Seq<char>, needle: Seq<char>, i: int) -> bool {
    &&& 0 <= i
    &&& i + needle.len() <= hay.len()
    &&& hay.subrange(i, i + needle.len() as int) == needle
}

/// `needle` occurs somewhere in `hay`.
pub open spec fn contains_seq(hay: Seq<char>, needle: Seq<char>) -> bool {
    exists|i: int| matches_at(hay, needle, i)
}

/// `i` is the leftmost occurrence of `needle` in `hay`.
pub open spec fn is_first_match(hay: Seq<char>, needle: Seq<char>, i: int) -> bool {
    matches_at(hay, needle, i) && forall|j: int| 0 <= j < i ==> !matches_at(hay, needle, j)
}

/// The position of the leftmost occurrence of `needle` in `hay`.
pub open spec fn first_match(hay: Seq<char>, needle: Seq<char>) -> int {
    choose|i: int| is_first_match(hay, needle, i)
}

/// The leftmost occurrence is unique, so a found first match names it.
pub proof fn lemma_first_match_is(hay: Seq<char>, needle: Seq<char>, i: int)
    requires
        is_first_match(hay, needle, i),
    ensures
        first_match(hay, needle) == i,
{
    let i2 = first_match(hay, needle);
    assert(is_first_match(hay, needle, i2));
    if i < i2 {
        assert(!matches_at(hay, needle, i));
    } else if i2 < i {
        assert(!matches_at(hay, needle, i2));
    }
}

/// The position of the leftmost occurrence of `needle` in `hay`, if any.
pub fn find_first(hay: &str, needle: &str) -> (r: Option<usize>)
    ensures
        match r {
            Some(i) => is_first_match(hay@, needle@, i as int),
            None => !contains_seq(hay@, needle@),
        },
{
    let hn = hay.unicode_len();
    let nn = needle.unicode_len();
    if nn > hn {
        return None;
    }
    let mut i: usize = 0;
    while i <= hn - nn
        invariant
            hn == hay@.len(),
            nn == needle@.len(),
            nn <= hn,
            i <= hn - nn + 1,
            forall|j: int| 0 <= j < i ==> !matches_at(hay@, needle@, j),
        decreases hn - i,
    {
        let mut k: usize = 0;
        let mut still_eq = true;
        while k < nn
            invariant_except_break
                still_eq,
                k <= nn,
                forall|t: int| 0 <= t < k ==> hay@[i + t] == needle@[t],
            invariant
                hn == hay@.len(),
                nn == needle@.len(),
                i + nn <= hn,
            ensures
                still_eq ==> k == nn && forall|t: int| 0 <= t < nn ==> hay@[i + t] == needle@[t],
                !still_eq ==> !matches_at(hay@, needle@, i as int) && nn > 0,
            decreases nn - k,
        {
            if hay.get_char(i + k) != needle.get_char(k) {
                proof {
                    assert(!matches_at(hay@, needle@, i as int)) by {
                        if matches_at(hay@, needle@, i as int) {
                            assert(hay@.subrange(i as int, i + nn)[k as int] == needle@[k as int]);
                        }
                    }
                }
                still_eq = false;
                break ;
            }
            k += 1;
        }
        if still_eq {
            proof {
                assert(hay@.subrange(i as int, i + nn) =~= needle@);
            }
            return Some(i);
        }
        i += 1;
    }
    proof {
        assert forall|j: int| !matches_at(hay@, needle@, j) by {
            if 0 <= j < i {
            } else if 0 <= j && j + nn <= hn {
                assert(j >= i);
                assert(i > hn - nn);
            }
        }
    }
    None
}

/// Whether `needle` occurs anywhere in `hay`.
pub fn str_contains(hay: &str, needle: &str) -> (r: bool)
    ensures
        r == contains_seq(hay@, needle@),
{
    match find_first(hay, needle) {
        Some(i) => {
            proof {
                assert(matches_at(hay@, needle@, i as int));
            }
            true
        },
        None => false,
    }
}

/// The length of the leading run of characters other than `stop`.
pub open spec fn run_until(s: Seq<char>, stop: char) -> int
    decreases s.len(),
{
    if s.len() == 0 {
        0
    } else if s[0] == stop {
        0
    } else {
        1 + run_until(s.drop_first(), stop)
    }
}

/// The leading run ends exactly at the first `stop` character (or the end).
proof fn lemma_run_until_is(s: Seq<char>, stop: char, j: int)
    requires
        0 <= j <= s.len(),
        forall|k: int| 0 <= k < j ==> s[k] != stop,
        j == s.len() || s[j] == stop,
    ensures
        run_until(s, stop) == j,
    decreases j,
{
    if s.len() == 0 {
    } else if j == 0 {
    } else {
        let t = s.drop_first();
        assert forall|k: int| 0 <= k < j - 1 implies t[k] != stop by {
            assert(t[k] == s[k + 1]);
        }
        if j < s.len() {
            assert(t[j - 1] == s[j]);
        }
        lemma_run_until_is(t, stop, j - 1);
    }
}

/// The index of the first `stop` character in `s`, or its length.
pub fn find_char(s: &str, stop: char) -> (j: usize)
    ensures
        j == run_until(s@, stop),
        j <= s@.len(),
{
    let n = s.unicode_len();
    let mut j: usize = 0;
    while j < n
        invariant
            n == s@.len(),
            j <= n,
            forall|k: int| 0 <= k < j ==> s@[k] != stop,
        decreases n - j,
    {
        if s.get_char(j) == stop {
            proof {
                lemma_run_until_is(s@, stop, j as int);
            }
            return j;
        }
        j += 1;
    }
    proof {
        lemma_run_until_is(s@, stop, n as int);
    }
    n
}

/// A decimal number: a digit run, optionally followed by a dot and a
/// further digit run.
pub open spec fn is_decimal(s: Seq<char>) -> bool {
    let d = run_until(s, '.');
    &&& is_number(s.take(d))
    &&& (d == s.len() || is_number(s.skip(d + 1)))
}

/// The fractional digit run scaled to thousandths; digits past the third
/// carry less than a thousandth and are dropped.
pub open spec fn frac_milli(s: Seq<char>) -> nat {
    if s.len() == 0 {
        0
    } else if s.len() == 1 {
        number_val(s) * 100
    } else if s.len() == 2 {
        number_val(s) * 10
    } else {
        number_val(s.take(3))
    }
}

/// The value of a decimal number in thousandths of a unit, truncated
/// toward zero.
pub open spec fn decimal_milli_val(s: Seq<char>) -> nat {
    let d = run_until(s, '.');
    if d == s.len() {
        number_val(s) * 1000
    } else {
        number_val(s.take(d)) * 1000 + frac_milli(s.skip(d + 1))
    }
}

/// What reading a token as a decimal number in thousandths yields.
pub open spec fn spec_parse_milli_u64(t: Seq<char>) -> Result<u64, ParseError> {
    if !is_decimal(t) {
        Err(ParseError::NotNumeric)
    } else if decimal_milli_val(t) > u64::MAX {
        Err(ParseError::Overflow)
    } else {
        Ok(decimal_milli_val(t) as u64)
    }
}

/// Reads `tok` as a decimal number, returning its value in thousandths
/// of a unit (`"25.31"` becomes `25310`), truncated toward zero.
pub fn parse_milli_u64(tok: &str) -> (r: Result<u64, ParseError>)
    ensures
        r == spec_parse_milli_u64(tok@),
{
    let n = tok.unicode_len();
    let d = find_char(tok, '.');
    let int_part = tok.substring_char(0, d);
    proof {
        assert(int_part@ == tok@.take(d as int));
    }
    if d == n {
        proof {
            assert(tok@.take(d as int) =~= tok@);
        }
        match parse_u64(int_part) {
            Err(e) => Err(e),
            Ok(v) => {
                if v > u64::MAX / 1000 {
                    proof {
                        assert(v * 1000 > u64::MAX) by (nonlinear_arith)
                            requires
                                v > u64::MAX / 1000,
                        ;
                    }
                    Err(ParseError::Overflow)
                } else {
                    proof {
                        assert(v * 1000 <= (u64::MAX / 1000) * 1000) by (nonlinear_arith)
                            requires
                                v <= u64::MAX / 1000,
                        ;
                    }
                    Ok(v * 1000)
                }
            },
        }
    } else {
        let frac_part = tok.substring_char(d + 1, n);
        proof {
            assert(frac_part@ == tok@.skip(d + 1));
        }
        if !token_is_number(frac_part) {
            return Err(ParseError::NotNumeric);
        }
        let fl = frac_part.unicode_len();
        let c0 = frac_part.get_char(0);
        let d0: u64 = (c0 as u32 - 48) as u64;
        let f: u64;
        proof {
            assert(is_digit(frac_part@[0]));
        }
        if fl == 1 {
            f = d0 * 100;
            proof {
                reveal_with_fuel(number_val, 4);
                let fv = frac_part@;
                assert(fv.drop_last() =~= Seq::<char>::empty());
                assert(fv.last() == fv[0]);
                assert(number_val(fv) == digit_val(fv[0]));
            }
        } else if fl == 2 {
            proof {
                assert(is_digit(frac_part@[1]));
            }
            let c1 = frac_part.get_char(1);
            let d1: u64 = (c1 as u32 - 48) as u64;
            f = (d0 * 10 + d1) * 10;
            proof {
                reveal_with_fuel(number_val, 4);
                let fv = frac_part@;
                assert(fv.drop_last() =~= seq![fv[0]]);
                assert(fv.last() == fv[1]);
                assert(seq![fv[0]].drop_last() =~= Seq::<char>::empty());
                assert(seq![fv[0]].last() == fv[0]);
                assert(number_val(seq![fv[0]]) == digit_val(fv[0]));
                assert(number_val(fv) == digit_val(fv[0]) * 10 + digit_val(fv[1]));
            }
        } else {
            proof {
                assert(is_digit(frac_part@[1]));
                assert(is_digit(frac_part@[2]));
            }
            let c1 = frac_part.get_char(1);
            let d1: u64 = (c1 as u32 - 48) as u64;
            let c2 = frac_part.get_char(2);
            let d2: u64 = (c2 as u32 - 48) as u64;
            f = (d0 * 10 + d1) * 10 + d2;
            proof {
                reveal_with_fuel(number_val, 4);
                let fv = frac_part@;
                let fv3 = fv.take(3);
                assert(fv3.drop_last() =~= seq![fv[0], fv[1]]);
                assert(fv3.last() == fv[2]);
                assert(seq![fv[0], fv[1]].drop_last() =~= seq![fv[0]]);
                assert(seq![fv[0], fv[1]].last() == fv[1]);
                assert(seq![fv[0]].drop_last() =~= Seq::<char>::empty());
                assert(seq![fv[0]].last() == fv[0]);
                assert(number_val(seq![fv[0]]) == digit_val(fv[0]));
                assert(number_val(seq![fv[0], fv[1]]) == digit_val(fv[0]) * 10 + digit_val(fv[1]));
                assert(number_val(fv3) == (digit_val(fv[0]) * 10 + digit_val(fv[1])) * 10
                    + digit_val(fv[2]));
            }
        }
        proof {
            assert(f == frac_milli(tok@.skip(d + 1)));
            assert(f <= 999);
        }
        match parse_u64(int_part) {
            Err(e) => Err(e),
            Ok(v) => {
                if v > (u64::MAX - f) / 1000 {
                    proof {
                        assert(v * 1000 + f > u64::MAX) by (nonlinear_arith)
                            requires
                                v > (u64::MAX - f) / 1000,
                                f <= 999,
                        ;
                    }
                    Err(ParseError::Overflow)
                } else {
                    proof {
                        assert(v * 1000 + f <= u64::MAX) by (nonlinear_arith)
                            requires
                                v <= (u64::MAX - f) / 1000,
                                f <= 999,
                        ;
                    }
                    Ok(v * 1000 + f)
                }
            },
        }
    }
}

} // verus!
