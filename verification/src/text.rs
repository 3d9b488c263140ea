//! Text primitives shared by the request grammar: scanning, splitting and
//! decimal numbers over the characters of a string.
//!
//! Every function here states its result over `Seq<char>`, the view of the
//! string it works on.

use vstd::prelude::*;
use vstd::std_specs::iter::IteratorSpec;
use vstd::string::StringExecFns;

verus! {

/// Equality of string slices, as `str`'s `PartialEq` impl decides it: two
/// slices are equal exactly when they hold the same characters.
pub assume_specification[ <str as PartialEq>::eq ](a: &str, b: &str) -> (same: bool)
    ensures
        same == (a@ == b@),
;

/// Index of the first occurrence of `c` in `s`, or `s.len()` when `c` does not occur.
pub open spec fn first_position(s: Seq<char>, c: char) -> nat
    decreases s.len(),
{
    if s.len() == 0 {
        0
    } else if s[0] == c {
        0
    } else {
        1 + first_position(s.drop_first(), c)
    }
}

/// The two halves of `s` around its first `c`, which belongs to neither half.
pub open spec fn split_once_spec(s: Seq<char>, c: char) -> Option<(Seq<char>, Seq<char>)> {
    let i = first_position(s, c) as int;
    if i < s.len() {
        Some((s.take(i), s.skip(i + 1)))
    } else {
        None
    }
}

/// Number of leading characters of `s` that equal `c`.
pub open spec fn leading_run(s: Seq<char>, c: char) -> nat
    decreases s.len(),
{
    if s.len() == 0 || s[0] != c {
        0
    } else {
        1 + leading_run(s.drop_first(), c)
    }
}

/// `s` without its leading run of `c`.
pub open spec fn trim_start_spec(s: Seq<char>, c: char) -> Seq<char> {
    s.skip(leading_run(s, c) as int)
}

/// What remains of `s` behind `prefix`, when `s` starts with it.
pub open spec fn strip_prefix_spec(s: Seq<char>, prefix: Seq<char>) -> Option<Seq<char>> {
    if prefix.is_prefix_of(s) {
        Some(s.skip(prefix.len() as int))
    } else {
        None
    }
}

/// `first_position` is the least index that holds `c`, and the length where none does.
pub proof fn lemma_first_position(s: Seq<char>, c: char)
    ensures
        first_position(s, c) <= s.len(),
        first_position(s, c) < s.len() ==> s[first_position(s, c) as int] == c,
        forall|j: int| 0 <= j < first_position(s, c) ==> s[j] != c,
        first_position(s, c) < s.len() <==> s.contains(c),
    decreases s.len(),
{
    if s.len() == 0 {
    } else if s[0] == c {
        assert(s.contains(c));
    } else {
        let rest = s.drop_first();
        lemma_first_position(rest, c);
        let p = first_position(rest, c) as int;
        assert forall|j: int| 0 <= j < 1 + p implies s[j] != c by {
            if j > 0 {
                assert(s[j] == rest[j - 1]);
            }
        }
        if p < rest.len() {
            assert(s[1 + p] == rest[p]);
            assert(s.contains(c));
        } else {
            assert forall|j: int| 0 <= j < s.len() implies s[j] != c by {}
        }
    }
}

/// An index that holds `c` with no `c` before it is the first position.
pub proof fn lemma_first_position_is(s: Seq<char>, c: char, i: int)
    requires
        0 <= i <= s.len(),
        i < s.len() ==> s[i] == c,
        forall|j: int| 0 <= j < i ==> s[j] != c,
    ensures
        first_position(s, c) == i,
{
    lemma_first_position(s, c);
    let p = first_position(s, c) as int;
    if p < i {
        assert(s[p] != c);
    } else if i < p {
        assert(s[i] != c);
    }
}

/// `leading_run` counts exactly the characters before the first one that differs from `c`.
pub proof fn lemma_leading_run_is(s: Seq<char>, c: char, i: int)
    requires
        0 <= i <= s.len(),
        i < s.len() ==> s[i] != c,
        forall|j: int| 0 <= j < i ==> s[j] == c,
    ensures
        leading_run(s, c) == i,
    decreases s.len(),
{
    if s.len() == 0 || s[0] != c {
        if i > 0 {
            assert(s[0] == c);
        }
    } else {
        let rest = s.drop_first();
        assert(i > 0);
        assert forall|j: int| 0 <= j < i - 1 implies rest[j] == c by {
            assert(rest[j] == s[j + 1]);
        }
        if i - 1 < rest.len() {
            assert(rest[i - 1] == s[i]);
        }
        lemma_leading_run_is(rest, c, i - 1);
    }
}

/// Finds the first `c` in `s`.
pub fn find_char(s: &str, c: char) -> (found: Option<usize>)
    ensures
        found is Some <==> s@.contains(c),
        found matches Some(i) ==> i == first_position(s@, c),
{
    broadcast use vstd::string::group_string_axioms;

    let n: usize = s.unicode_len();
    let mut rest = s.chars();
    let mut i: usize = 0;
    while i < n
        invariant
            n == s@.len(),
            i <= n,
            rest.remaining() == s@.skip(i as int),
            forall|j: int| 0 <= j < i ==> s@[j] != c,
        decreases n - i,
    {
        let next = rest.next();
        if next == Some(c) {
            proof {
                lemma_first_position_is(s@, c, i as int);
                lemma_first_position(s@, c);
            }
            return Some(i);
        }
        i = i + 1;
    }
    proof {
        lemma_first_position_is(s@, c, n as int);
        lemma_first_position(s@, c);
    }
    None
}

/// Splits `s` around its first `c`; `None` when `c` does not occur.
pub fn split_once(s: &str, c: char) -> (halves: Option<(&str, &str)>)
    ensures
        match halves {
            Some((head, tail)) => split_once_spec(s@, c) == Some((head@, tail@)),
            None => split_once_spec(s@, c) is None,
        },
{
    proof {
        lemma_first_position(s@, c);
    }
    match find_char(s, c) {
        Some(i) => {
            let n: usize = s.unicode_len();
            let head = s.substring_char(0, i);
            let tail = s.substring_char(i + 1, n);
            assert(head@ =~= s@.take(i as int));
            assert(tail@ =~= s@.skip(i + 1));
            Some((head, tail))
        },
        None => None,
    }
}

/// Removes every leading `c` from `s`.
pub fn trim_start_matches(s: &str, c: char) -> (trimmed: &str)
    ensures
        trimmed@ == trim_start_spec(s@, c),
{
    broadcast use vstd::string::group_string_axioms;

    let n: usize = s.unicode_len();
    let mut rest = s.chars();
    let mut i: usize = 0;
    while i < n
        invariant_except_break
            rest.remaining() == s@.skip(i as int),
        invariant
            n == s@.len(),
            i <= n,
            forall|j: int| 0 <= j < i ==> s@[j] == c,
        ensures
            i < n ==> s@[i as int] != c,
        decreases n - i,
    {
        let next = rest.next();
        if next != Some(c) {
            break;
        }
        i = i + 1;
    }
    proof {
        lemma_leading_run_is(s@, c, i as int);
    }
    let trimmed = s.substring_char(i, n);
    assert(trimmed@ =~= s@.skip(i as int));
    trimmed
}

/// Removes `prefix` from the front of `s`; `None` when `s` does not start with it.
pub fn strip_prefix<'a>(s: &'a str, prefix: &str) -> (stripped: Option<&'a str>)
    ensures
        match stripped {
            Some(rest) => strip_prefix_spec(s@, prefix@) == Some(rest@),
            None => strip_prefix_spec(s@, prefix@) is None,
        },
{
    broadcast use vstd::string::group_string_axioms;

    let n: usize = s.unicode_len();
    let m: usize = prefix.unicode_len();
    if m > n {
        return None;
    }
    let mut ours = s.chars();
    let mut theirs = prefix.chars();
    let mut i: usize = 0;
    while i < m
        invariant
            n == s@.len(),
            m == prefix@.len(),
            m <= n,
            i <= m,
            ours.remaining() == s@.skip(i as int),
            theirs.remaining() == prefix@.skip(i as int),
            forall|j: int| 0 <= j < i ==> s@[j] == prefix@[j],
        decreases m - i,
    {
        let a = ours.next();
        let b = theirs.next();
        if a != b {
            assert(s@[i as int] != prefix@[i as int]);
            assert(!prefix@.is_prefix_of(s@)) by {
                if prefix@.is_prefix_of(s@) {
                    assert(s@.subrange(0, m as int)[i as int] == prefix@[i as int]);
                }
            }
            return None;
        }
        i = i + 1;
    }
    assert(prefix@ =~= s@.subrange(0, m as int));
    let rest = s.substring_char(m, n);
    assert(rest@ =~= s@.skip(m as int));
    Some(rest)
}

/// Whether `c` is one of the ten decimal digits.
pub open spec fn is_digit(c: char) -> bool {
    '0' <= c && c <= '9'
}

/// The number that the digit `c` stands for.
pub open spec fn digit_of(c: char) -> nat {
    (c as u32 - '0' as u32) as nat
}

/// Whether every character of `s` is a decimal digit.
pub open spec fn all_digits(s: Seq<char>) -> bool {
    forall|i: int| 0 <= i < s.len() ==> is_digit(#[trigger] s[i])
}

/// The number written by the digits `s`, most significant first.
pub open spec fn decimal_value(s: Seq<char>) -> nat
    decreases s.len(),
{
    if s.len() == 0 {
        0
    } else {
        10 * decimal_value(s.drop_last()) + digit_of(s.last())
    }
}

/// `s` without the `+` sign that may lead it.
pub open spec fn unsigned_part(s: Seq<char>) -> Seq<char> {
    if s.len() > 0 && s[0] == '+' {
        s.skip(1)
    } else {
        s
    }
}

/// The number that `s` writes as a `u32`: an optional `+`, then at least one
/// digit and nothing else, the whole no larger than `u32::MAX`.
pub open spec fn parse_u32_spec(s: Seq<char>) -> Option<u32> {
    let digits = unsigned_part(s);
    if digits.len() > 0 && all_digits(digits) && decimal_value(digits) <= u32::MAX {
        Some(decimal_value(digits) as u32)
    } else {
        None
    }
}

/// The character that writes the digit `d`.
pub open spec fn digit_char(d: nat) -> char {
    if d == 0 {
        '0'
    } else if d == 1 {
        '1'
    } else if d == 2 {
        '2'
    } else if d == 3 {
        '3'
    } else if d == 4 {
        '4'
    } else if d == 5 {
        '5'
    } else if d == 6 {
        '6'
    } else if d == 7 {
        '7'
    } else if d == 8 {
        '8'
    } else {
        '9'
    }
}

/// The decimal digits of `n`, most significant first, without leading zeros.
pub open spec fn decimal_text(n: nat) -> Seq<char>
    decreases n,
{
    if n < 10 {
        seq![digit_char(n)]
    } else {
        decimal_text(n / 10).push(digit_char(n % 10))
    }
}

/// The decimal digits of a `u32`.
pub open spec fn decimal_text_u32(n: u32) -> Seq<char> {
    decimal_text(n as nat)
}

/// A number written by digits does not shrink when more digits follow.
pub proof fn lemma_decimal_value_grows(s: Seq<char>, i: int)
    requires
        0 <= i <= s.len(),
    ensures
        decimal_value(s.take(i)) <= decimal_value(s),
    decreases s.len() - i,
{
    if i == s.len() {
        assert(s.take(i) =~= s);
    } else {
        lemma_decimal_value_grows(s, i + 1);
        assert(s.take(i + 1).drop_last() =~= s.take(i));
    }
}

/// What `decimal_text` writes reads back as the same number.
pub proof fn lemma_decimal_text_value(n: nat)
    ensures
        decimal_text(n).len() > 0,
        all_digits(decimal_text(n)),
        decimal_value(decimal_text(n)) == n,
        decimal_text(n)[0] != '+',
    decreases n,
{
    if n < 10 {
        let t = decimal_text(n);
        assert(t.drop_last() =~= Seq::<char>::empty());
        assert(decimal_value(t.drop_last()) == 0);
    } else {
        lemma_decimal_text_value(n / 10);
        let head = decimal_text(n / 10);
        let t = decimal_text(n);
        assert(t.drop_last() =~= head);
        assert(t[0] == head[0]);
    }
}

/// A `u32` written by `decimal_text` is parsed back to itself.
pub proof fn lemma_parse_of_decimal_text(n: u32)
    ensures
        parse_u32_spec(decimal_text(n as nat)) == Some(n),
{
    lemma_decimal_text_value(n as nat);
}

/// Reads a `u32` from its decimal text; `None` for anything else.
pub fn parse_u32(s: &str) -> (parsed: Option<u32>)
    ensures
        parsed == parse_u32_spec(s@),
{
    broadcast use vstd::string::group_string_axioms;

    let n: usize = s.unicode_len();
    if n == 0 {
        return None;
    }
    let mut rest = s.chars();
    let first = rest.next();
    let start: usize = if first == Some('+') {
        1
    } else {
        rest = s.chars();
        0
    };
    let ghost digits = s@.skip(start as int);
    assert(digits =~= unsigned_part(s@));
    if start == n {
        return None;
    }
    let mut value: u64 = 0;
    let mut i: usize = start;
    while i < n
        invariant
            n == s@.len(),
            start <= i <= n,
            digits == s@.skip(start as int),
            digits == unsigned_part(s@),
            rest.remaining() == s@.skip(i as int),
            all_digits(digits.take(i - start)),
            value == decimal_value(digits.take(i - start)),
            value <= u32::MAX,
        decreases n - i,
    {
        let next = rest.next();
        let c: char = match next {
            Some(c) => c,
            None => {
                return None;
            },
        };
        assert(c == digits[i - start]);
        if c < '0' || c > '9' {
            assert(!is_digit(digits[i - start]));
            return None;
        }
        let d: u64 = (c as u32 - '0' as u32) as u64;
        proof {
            assert(digits.take(i + 1 - start).drop_last() =~= digits.take(i - start));
            assert(digits.take(i + 1 - start).last() == c);
            assert forall|j: int| 0 <= j < i + 1 - start implies is_digit(
                #[trigger] digits.take(i + 1 - start)[j],
            ) by {
                if j < i - start {
                    assert(digits.take(i - start)[j] == digits[j]);
                }
            }
        }
        value = 10 * value + d;
        if value > 0xffff_ffff {
            proof {
                lemma_decimal_value_grows(digits, i + 1 - start);
                assert(value == decimal_value(digits.take(i + 1 - start)));
            }
            return None;
        }
        i = i + 1;
    }
    assert(digits.take(n - start) =~= digits);
    Some(value as u32)
}

/// The text of one decimal digit.
fn digit_text(d: u32) -> (text: &'static str)
    requires
        d < 10,
    ensures
        text@ == seq![digit_char(d as nat)],
{
    let text = match d {
        0 => "0",
        1 => "1",
        2 => "2",
        3 => "3",
        4 => "4",
        5 => "5",
        6 => "6",
        7 => "7",
        8 => "8",
        _ => "9",
    };
    proof {
        reveal_strlit("0");
        reveal_strlit("1");
        reveal_strlit("2");
        reveal_strlit("3");
        reveal_strlit("4");
        reveal_strlit("5");
        reveal_strlit("6");
        reveal_strlit("7");
        reveal_strlit("8");
        reveal_strlit("9");
        assert(text@ =~= seq![digit_char(d as nat)]);
    }
    text
}

/// Writes `n` in decimal.
pub fn decimal(n: u32) -> (text: String)
    ensures
        text@ == decimal_text(n as nat),
        text@ == decimal_text_u32(n),
    decreases n,
{
    if n < 10 {
        String::from_str(digit_text(n))
    } else {
        let mut text = decimal(n / 10);
        text.append(digit_text(n % 10));
        assert(text@ =~= decimal_text(n as nat));
        text
    }
}

/// Writes `n` in decimal.
pub fn decimal_usize(n: usize) -> (text: String)
    ensures
        text@ == decimal_text(n as nat),
    decreases n,
{
    if n < 10 {
        String::from_str(digit_text(n as u32))
    } else {
        let mut text = decimal_usize(n / 10);
        text.append(digit_text((n % 10) as u32));
        assert(text@ =~= decimal_text(n as nat));
        text
    }
}

/// The decimal digits of `n`, with a leading `-` where `n` is negative.
pub open spec fn decimal_text_int(n: int) -> Seq<char> {
    if n < 0 {
        seq!['-'] + decimal_text((-n) as nat)
    } else {
        decimal_text(n as nat)
    }
}

/// Writes `n` in decimal.
pub fn decimal_i32(n: i32) -> (text: String)
    ensures
        text@ == decimal_text_int(n as int),
{
    if n < 0 {
        let magnitude: u32 = (-(n as i64)) as u32;
        let mut text = String::from_str("-");
        text.append(decimal(magnitude).as_str());
        proof {
            reveal_strlit("-");
            assert("-"@ =~= seq!['-']);
        }
        text
    } else {
        decimal(n as u32)
    }
}

/// The pieces of `s` between the occurrences of `c`; they are one more than
/// the occurrences, and may be empty.
pub open spec fn split_spec(s: Seq<char>, c: char) -> Seq<Seq<char>>
    decreases s.len(),
{
    let i = first_position(s, c) as int;
    if i < s.len() {
        seq![s.take(i)] + split_spec(s.skip(i + 1), c)
    } else {
        seq![s]
    }
}

/// Splits `s` at every `c`.
pub fn split<'a>(s: &'a str, c: char) -> (pieces: Vec<&'a str>)
    ensures
        pieces.deep_view() == split_spec(s@, c),
{
    let mut pieces: Vec<&'a str> = Vec::new();
    let mut rest: &'a str = s;
    assert(pieces.deep_view() + split_spec(rest@, c) =~= split_spec(s@, c));
    loop
        invariant_except_break
            split_spec(s@, c) == pieces.deep_view() + split_spec(rest@, c),
        ensures
            pieces.deep_view() == split_spec(s@, c),
        decreases rest@.len(),
    {
        let ghost before = pieces.deep_view();
        match split_once(rest, c) {
            Some((head, tail)) => {
                proof {
                    lemma_first_position(rest@, c);
                }
                pieces.push(head);
                assert(pieces.deep_view() =~= before.push(head@));
                assert(split_spec(s@, c) =~= pieces.deep_view() + split_spec(tail@, c));
                rest = tail;
            },
            None => {
                pieces.push(rest);
                assert(pieces.deep_view() =~= before.push(rest@));
                assert(split_spec(rest@, c) =~= seq![rest@]);
                assert(split_spec(s@, c) =~= pieces.deep_view());
                break;
            },
        }
    }
    pieces
}

} // verus!
