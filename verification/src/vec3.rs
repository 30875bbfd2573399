use vstd::prelude::*;
use crate::errors::{parse_error, Error};
use crate::text::chars_of;

verus! {

/// The coordinate system in which a vector is written.
#[derive(Clone, Copy, Debug, PartialEq, Eq, Structural)]
pub enum Coordinates {
    /// `x, y, z`
    Cartesian,
    /// `r` and then radius, angle in degrees, height
    Cylindrical,
    /// `s` and then radius, polar angle and azimuth in degrees
    Spherical,
}

/// A vector as it is written: its coordinate system and its three numerals,
/// each without surrounding white space and not yet read as a number.
#[derive(Debug, PartialEq, Eq)]
pub struct Vec3Text {
    pub coordinates: Coordinates,
    pub first: String,
    pub second: String,
    pub third: String,
}

/// Whether `c` is Unicode white space.
pub open spec fn is_whitespace(c: char) -> bool {
    ||| '\u{9}' <= c <= '\u{d}'
    ||| c == ' '
    ||| c == '\u{85}'
    ||| c == '\u{a0}'
    ||| c == '\u{1680}'
    ||| '\u{2000}' <= c <= '\u{200a}'
    ||| c == '\u{2028}'
    ||| c == '\u{2029}'
    ||| c == '\u{202f}'
    ||| c == '\u{205f}'
    ||| c == '\u{3000}'
}

/// `s` without the white space it begins with.
pub open spec fn trim_start(s: Seq<char>) -> Seq<char>
    decreases s.len(),
{
    if s.len() > 0 && is_whitespace(s[0]) {
        trim_start(s.drop_first())
    } else {
        s
    }
}

/// `s` without the white space it ends with.
pub open spec fn trim_end(s: Seq<char>) -> Seq<char>
    decreases s.len(),
{
    if s.len() > 0 && is_whitespace(s.last()) {
        trim_end(s.drop_last())
    } else {
        s
    }
}

/// `s` without the white space around it.
pub open spec fn trim(s: Seq<char>) -> Seq<char> {
    trim_end(trim_start(s))
}

/// The pieces into which the commas of `s` divide it: one more than it has
/// commas, in order, each possibly empty.
pub open spec fn pieces(s: Seq<char>) -> Seq<Seq<char>>
    decreases s.len(),
{
    if s.len() == 0 {
        seq![Seq::<char>::empty()]
    } else {
        let rest = pieces(s.drop_first());
        if s[0] == ',' {
            seq![Seq::<char>::empty()] + rest
        } else {
            seq![seq![s[0]] + rest[0]] + rest.drop_first()
        }
    }
}

/// The coordinate system that the first character after leading white space
/// selects.
pub open spec fn coordinates_of(s: Seq<char>) -> Coordinates {
    let t = trim(s);
    if t.len() > 0 && t[0] == 'r' {
        Coordinates::Cylindrical
    } else if t.len() > 0 && t[0] == 's' {
        Coordinates::Spherical
    } else {
        Coordinates::Cartesian
    }
}

/// The part of `s` that holds the three numerals: all of it for Cartesian
/// coordinates, and what follows its first character otherwise.
pub open spec fn numerals_of(s: Seq<char>) -> Seq<char> {
    if coordinates_of(s) == Coordinates::Cartesian {
        s
    } else {
        s.drop_first()
    }
}

/// A text without commas is one piece.
proof fn lemma_pieces_without_comma(s: Seq<char>)
    requires
        forall|k: int| 0 <= k < s.len() ==> s[k] != ',',
    ensures
        pieces(s) == seq![s],
    decreases s.len(),
{
    if s.len() == 0 {
        assert(s =~= Seq::<char>::empty());
    } else {
        let tail = s.drop_first();
        assert forall|k: int| 0 <= k < tail.len() implies tail[k] != ',' by {
            assert(tail[k] == s[k + 1]);
        }
        lemma_pieces_without_comma(tail);
        assert(seq![s[0]] + tail =~= s);
        assert(seq![tail].drop_first() =~= Seq::<Seq<char>>::empty());
        assert(seq![s] + Seq::<Seq<char>>::empty() =~= seq![s]);
    }
}

/// The first piece of a text ends at its first comma, and the other pieces are
/// those of what follows that comma.
proof fn lemma_pieces_at_first_comma(s: Seq<char>, i: int)
    requires
        0 <= i < s.len(),
        s[i] == ',',
        forall|k: int| 0 <= k < i ==> s[k] != ',',
    ensures
        pieces(s) == seq![s.take(i)] + pieces(s.skip(i + 1)),
    decreases i,
{
    let tail = s.drop_first();
    if i == 0 {
        assert(s.take(0) =~= Seq::<char>::empty());
        assert(s.skip(1) =~= tail);
    } else {
        assert forall|k: int| 0 <= k < i - 1 implies tail[k] != ',' by {
            assert(tail[k] == s[k + 1]);
        }
        lemma_pieces_at_first_comma(tail, i - 1);
        let rest = pieces(tail);
        assert(tail.skip(i) =~= s.skip(i + 1));
        assert(rest[0] == tail.take(i - 1));
        assert(seq![s[0]] + tail.take(i - 1) =~= s.take(i));
        assert(rest.drop_first() =~= pieces(s.skip(i + 1)));
    }
}

/// Every text has at least one piece.
proof fn lemma_pieces_nonempty(s: Seq<char>)
    ensures
        pieces(s).len() >= 1,
    decreases s.len(),
{
    if s.len() > 0 {
        lemma_pieces_nonempty(s.drop_first());
    }
}

fn is_space(c: char) -> (r: bool)
    ensures
        r == is_whitespace(c),
{
    (c >= '\u{9}' && c <= '\u{d}') || c == ' ' || c == '\u{85}' || c == '\u{a0}' || c
        == '\u{1680}' || (c >= '\u{2000}' && c <= '\u{200a}') || c == '\u{2028}' || c
        == '\u{2029}' || c == '\u{202f}' || c == '\u{205f}' || c == '\u{3000}'
}

/// The bounds of `chars[lo..hi]` without the white space around it.
fn trim_bounds(chars: &Vec<char>, lo: usize, hi: usize) -> (r: (usize, usize))
    requires
        lo <= hi <= chars.len(),
    ensures
        lo <= r.0 <= r.1 <= hi,
        chars@.subrange(r.0 as int, r.1 as int) == trim(chars@.subrange(lo as int, hi as int)),
{
    let mut a: usize = lo;
    while a < hi && is_space(chars[a])
        invariant
            lo <= a <= hi <= chars.len(),
            trim_start(chars@.subrange(lo as int, hi as int)) == trim_start(
                chars@.subrange(a as int, hi as int),
            ),
        decreases hi - a,
    {
        assert(chars@.subrange(a as int, hi as int).drop_first() =~= chars@.subrange(
            a + 1,
            hi as int,
        ));
        a += 1;
    }
    let mut b: usize = hi;
    while b > a && is_space(chars[b - 1])
        invariant
            a <= b <= hi <= chars.len(),
            trim_end(chars@.subrange(a as int, hi as int)) == trim_end(
                chars@.subrange(a as int, b as int),
            ),
        decreases b - a,
    {
        assert(chars@.subrange(a as int, b as int).drop_last() =~= chars@.subrange(
            a as int,
            b - 1,
        ));
        b -= 1;
    }
    (a, b)
}

/// The position of the first comma of `chars` at or after `from`, or the
/// length of `chars` where there is none.
fn find_comma(chars: &Vec<char>, from: usize) -> (r: usize)
    requires
        from <= chars.len(),
    ensures
        from <= r <= chars.len(),
        r < chars.len() ==> chars[r as int] == ',',
        forall|k: int| from <= k < r ==> chars[k] != ',',
{
    let mut i: usize = from;
    while i < chars.len() && chars[i] != ','
        invariant
            from <= i <= chars.len(),
            forall|k: int| from <= k < i ==> chars[k] != ',',
        decreases chars.len() - i,
    {
        i += 1;
    }
    i
}

/// `s[lo..hi]`, counted in characters, without the white space around it.
fn trimmed(s: &str, chars: &Vec<char>, lo: usize, hi: usize) -> (r: String)
    requires
        chars@ == s@,
        lo <= hi <= chars.len(),
    ensures
        r@ == trim(s@.subrange(lo as int, hi as int)),
{
    let (a, b) = trim_bounds(chars, lo, hi);
    s.substring_char(a, b).to_string()
}

/// Splits `s` at its commas into three numerals and takes the white space
/// from around each.
///
/// A text with more or fewer than two commas is refused.
pub fn split_three(s: &str) -> (r: Result<(String, String, String), Error>)
    ensures
        match r {
            Ok((first, second, third)) => {
                &&& pieces(s@).len() == 3
                &&& first@ == trim(pieces(s@)[0])
                &&& second@ == trim(pieces(s@)[1])
                &&& third@ == trim(pieces(s@)[2])
            },
            Err(e) => pieces(s@).len() != 3 && e.is_parse_error(s@, "Must have 3 components."@),
        },
{
    let chars = chars_of(s);
    let n = chars.len();
    let i = find_comma(&chars, 0);
    if i == n {
        proof {
            lemma_pieces_without_comma(s@);
        }
        return Err(parse_error(s, "Must have 3 components."));
    }
    let ghost after_first = s@.skip(i + 1);
    proof {
        lemma_pieces_at_first_comma(s@, i as int);
    }
    let j = find_comma(&chars, i + 1);
    if j == n {
        proof {
            lemma_pieces_without_comma(after_first);
        }
        return Err(parse_error(s, "Must have 3 components."));
    }
    let ghost after_second = s@.skip(j + 1);
    proof {
        lemma_pieces_at_first_comma(after_first, j - i - 1);
        assert(after_first.skip(j - i) =~= after_second);
        assert(after_first.take(j - i - 1) =~= s@.subrange(i + 1, j as int));
    }
    let k = find_comma(&chars, j + 1);
    if k != n {
        proof {
            lemma_pieces_at_first_comma(after_second, k - j - 1);
            lemma_pieces_nonempty(after_second.skip(k - j));
        }
        return Err(parse_error(s, "Must have 3 components."));
    }
    proof {
        lemma_pieces_without_comma(after_second);
        assert(s@.take(i as int) =~= s@.subrange(0, i as int));
        assert(after_second =~= s@.subrange(j + 1, n as int));
        assert(pieces(s@) =~= seq![
            s@.subrange(0, i as int),
            s@.subrange(i + 1, j as int),
            s@.subrange(j + 1, n as int),
        ]);
    }
    let first = trimmed(s, &chars, 0, i);
    let second = trimmed(s, &chars, i + 1, j);
    let third = trimmed(s, &chars, j + 1, n);
    Ok((first, second, third))
}

impl Vec3Text {
    /// Reads a vector's text: `x, y, z`, or `r` before cylindrical and `s`
    /// before spherical coordinates.
    ///
    /// The letter is looked for after leading white space; the numerals are
    /// then what follows the first character of `s`.
    pub fn from_str(s: &str) -> (r: Result<Vec3Text, Error>)
        ensures
            match r {
                Ok(v) => {
                    &&& v.coordinates == coordinates_of(s@)
                    &&& pieces(numerals_of(s@)).len() == 3
                    &&& v.first@ == trim(pieces(numerals_of(s@))[0])
                    &&& v.second@ == trim(pieces(numerals_of(s@))[1])
                    &&& v.third@ == trim(pieces(numerals_of(s@))[2])
                },
                Err(e) => pieces(numerals_of(s@)).len() != 3 && e.is_parse_error(
                    numerals_of(s@),
                    "Must have 3 components."@,
                ),
            },
    {
        let chars = chars_of(s);
        let n = chars.len();
        let (a, b) = trim_bounds(&chars, 0, n);
        assert(chars@.subrange(0, n as int) =~= s@);
        let coordinates = if a < b && chars[a] == 'r' {
            Coordinates::Cylindrical
        } else if a < b && chars[a] == 's' {
            Coordinates::Spherical
        } else {
            Coordinates::Cartesian
        };
        assert(coordinates == coordinates_of(s@)) by {
            let t = trim(s@);
            assert(t == chars@.subrange(a as int, b as int));
            if a < b {
                assert(t[0] == chars@[a as int]);
            }
        }
        let numerals = match coordinates {
            Coordinates::Cartesian => s,
            _ => {
                assert(s@.subrange(1, n as int) =~= s@.drop_first());
                s.substring_char(1, n)
            },
        };
        match split_three(numerals) {
            Ok((first, second, third)) => Ok(Vec3Text { coordinates, first, second, third }),
            Err(e) => Err(e),
        }
    }
}

} // verus!
