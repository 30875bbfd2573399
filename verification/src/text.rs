use vstd::prelude::*;
use crate::errors::IntErrorKind;

verus! {

/// The characters of `s`, in order.
pub fn chars_of(s: &str) -> (v: Vec<char>)
    ensures
        v@ == s@,
{
    let mut v: Vec<char> = Vec::new();
    for c in it: s.chars()
        invariant
            it.seq() == s@,
            v@ == s@.take(it.index() as int),
    {
        v.push(c);
        proof {
            assert(s@.take(it.index() + 1) =~= s@.take(it.index() as int).push(c));
        }
    }
    proof {
        assert(s@.take(s@.len() as int) =~= s@);
    }
    v
}

/// Whether `c` is one of `0-9`.
pub open spec fn is_digit(c: char) -> bool {
    '0' <= c <= '9'
}

/// The number that the decimal digit `c` stands for.
pub open spec fn digit_value(c: char) -> nat {
    (c as int - '0' as int) as nat
}

/// Reads `digits` from the left onto `acc`, which holds what was read before.
///
/// The first character that is no digit, or the first digit that takes the
/// number over `limit`, ends the reading with its error.
pub open spec fn read_decimal(digits: Seq<char>, acc: nat, limit: nat) -> Result<nat, IntErrorKind>
    decreases digits.len(),
{
    if digits.len() == 0 {
        Ok(acc)
    } else if !is_digit(digits[0]) {
        Err(IntErrorKind::InvalidDigit)
    } else if acc * 10 + digit_value(digits[0]) > limit {
        Err(IntErrorKind::PosOverflow)
    } else {
        read_decimal(digits.drop_first(), acc * 10 + digit_value(digits[0]), limit)
    }
}

/// The number up to `limit` that `s` writes in decimal: digits after an
/// optional `+`, and nothing else.
pub open spec fn spec_parse_unsigned(s: Seq<char>, limit: nat) -> Result<nat, IntErrorKind> {
    if s.len() == 0 {
        Err(IntErrorKind::Empty)
    } else if s == seq!['+'] {
        Err(IntErrorKind::InvalidDigit)
    } else if s[0] == '+' {
        read_decimal(s.drop_first(), 0, limit)
    } else {
        read_decimal(s, 0, limit)
    }
}

/// The number that `s` writes in decimal.
pub fn parse_usize(s: &str) -> (r: Result<usize, IntErrorKind>)
    ensures
        match spec_parse_unsigned(s@, usize::MAX as nat) {
            Ok(n) => r matches Ok(v) && v == n,
            Err(kind) => r == Err::<usize, IntErrorKind>(kind),
        },
{
    let chars = chars_of(s);
    if chars.len() == 0 {
        return Err(IntErrorKind::Empty);
    }
    let start: usize = if chars[0] == '+' {
        1
    } else {
        0
    };
    if start == chars.len() {
        assert(s@ =~= seq!['+']);
        return Err(IntErrorKind::InvalidDigit);
    }
    let ghost digits = chars@.skip(start as int);
    assert(s@ != seq!['+']);
    assert(digits =~= if s@[0] == '+' { s@.drop_first() } else { s@ });
    let ghost limit = usize::MAX as nat;
    let mut acc: usize = 0;
    let mut i: usize = start;
    while i < chars.len()
        invariant
            start <= i <= chars.len(),
            digits == chars@.skip(start as int),
            limit == usize::MAX,
            spec_parse_unsigned(s@, limit) == read_decimal(digits, 0, limit),
            read_decimal(digits, 0, limit) == read_decimal(chars@.skip(i as int), acc as nat, limit),
        decreases chars.len() - i,
    {
        let c = chars[i];
        let ghost rest = chars@.skip(i as int);
        assert(rest[0] == c);
        assert(rest.drop_first() =~= chars@.skip(i + 1));
        if !(c >= '0' && c <= '9') {
            return Err(IntErrorKind::InvalidDigit);
        }
        let d: usize = (c as u8 - 48u8) as usize;
        if acc > (usize::MAX - d) / 10 {
            return Err(IntErrorKind::PosOverflow);
        }
        acc = acc * 10 + d;
        i += 1;
    }
    assert(chars@.skip(i as int).len() == 0);
    Ok(acc)
}

/// `c` in lower case where it is one of `A-Z`, and `c` itself otherwise.
pub open spec fn ascii_lowercase(c: char) -> char {
    if 'A' <= c <= 'Z' {
        ((c as u8) + 32) as char
    } else {
        c
    }
}

/// `s` with each of its letters `A-Z` in lower case.
pub open spec fn lowercase(s: Seq<char>) -> Seq<char> {
    Seq::new(s.len(), |i: int| ascii_lowercase(s[i]))
}

/// The characters of `s`, each letter `A-Z` in lower case.
pub fn lowercase_chars(s: &str) -> (v: Vec<char>)
    ensures
        v@ == lowercase(s@),
{
    let chars = chars_of(s);
    let mut v: Vec<char> = Vec::new();
    let mut i: usize = 0;
    while i < chars.len()
        invariant
            i <= chars.len(),
            chars@ == s@,
            v.len() == i,
            forall|k: int| 0 <= k < i ==> #[trigger] v[k] == ascii_lowercase(s@[k]),
        decreases chars.len() - i,
    {
        let c = chars[i];
        let lower = if c >= 'A' && c <= 'Z' {
            ((c as u8) + 32u8) as char
        } else {
            c
        };
        v.push(lower);
        i += 1;
    }
    assert(v@ =~= lowercase(s@));
    v
}

/// Whether `chars` spells `word`.
pub fn spells(chars: &Vec<char>, word: &str) -> (r: bool)
    ensures
        r == (chars@ == word@),
{
    let other = chars_of(word);
    if chars.len() != other.len() {
        return false;
    }
    let mut i: usize = 0;
    while i < chars.len()
        invariant
            i <= chars.len(),
            chars.len() == other.len(),
            other@ == word@,
            forall|k: int| 0 <= k < i ==> chars[k] == other[k],
        decreases chars.len() - i,
    {
        if chars[i] != other[i] {
            return false;
        }
        i += 1;
    }
    assert(chars@ =~= other@);
    true
}

} // verus!
