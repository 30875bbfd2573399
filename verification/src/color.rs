use vstd::prelude::*;
use crate::errors::{parse_error, Error};
use crate::text::chars_of;

verus! {

/// A colour with three 8-bit channels.
#[derive(Clone, Copy, Debug, PartialEq, Eq, Structural)]
pub struct Rgb {
    pub r: u8,
    pub g: u8,
    pub b: u8,
}

/// Whether `c` is one of `0-9`, `a-f`, `A-F`.
pub open spec fn is_hex_digit(c: char) -> bool {
    ('0' <= c <= '9') || ('a' <= c <= 'f') || ('A' <= c <= 'F')
}

/// The number that the hexadecimal digit `c` stands for.
pub open spec fn hex_value(c: char) -> int {
    if '0' <= c <= '9' {
        c as int - '0' as int
    } else if 'a' <= c <= 'f' {
        c as int - 'a' as int + 10
    } else {
        c as int - 'A' as int + 10
    }
}

/// The text without one leading `#`, where it has one.
pub open spec fn hex_digits(s: Seq<char>) -> Seq<char> {
    if s.len() > 0 && s[0] == '#' {
        s.drop_first()
    } else {
        s
    }
}

/// Whether every character of `d` is a hexadecimal digit.
pub open spec fn all_hex(d: Seq<char>) -> bool {
    forall|i: int| 0 <= i < d.len() ==> is_hex_digit(#[trigger] d[i])
}

/// The value of the two hexadecimal digits of `d` that start at `i`.
pub open spec fn hex_pair(d: Seq<char>, i: int) -> int {
    16 * hex_value(d[i]) + hex_value(d[i + 1])
}

/// The 24-bit pixel `0xRRGGBB`.
pub open spec fn spec_pack(r: u8, g: u8, b: u8) -> int {
    r as int * 0x1_0000 + g as int * 0x100 + b as int
}

/// The number that the hexadecimal digits `d` write.
pub open spec fn hex_number(d: Seq<char>) -> int
    decreases d.len(),
{
    if d.len() == 0 {
        0
    } else {
        hex_number(d.drop_last()) * 16 + hex_value(d.last())
    }
}

/// The pixel of a colour that is written with six hexadecimal digits is the
/// number that the digits write.
pub proof fn lemma_hex_is_pixel(d: Seq<char>)
    requires
        all_hex(d),
        d.len() == 6,
    ensures
        0 <= hex_pair(d, 0) <= 255,
        0 <= hex_pair(d, 2) <= 255,
        0 <= hex_pair(d, 4) <= 255,
        spec_pack(hex_pair(d, 0) as u8, hex_pair(d, 2) as u8, hex_pair(d, 4) as u8) == hex_number(d),
{
    assert(forall|i: int| 0 <= i < 6 ==> 0 <= hex_value(#[trigger] d[i]) < 16);
    let d5 = d.drop_last();
    let d4 = d5.drop_last();
    let d3 = d4.drop_last();
    let d2 = d3.drop_last();
    let d1 = d2.drop_last();
    let d0 = d1.drop_last();
    assert(hex_number(d0) == 0);
    assert(hex_number(d1) == hex_value(d[0]));
    assert(hex_number(d2) == hex_number(d1) * 16 + hex_value(d[1]));
    assert(hex_number(d3) == hex_number(d2) * 16 + hex_value(d[2]));
    assert(hex_number(d4) == hex_number(d3) * 16 + hex_value(d[3]));
    assert(hex_number(d5) == hex_number(d4) * 16 + hex_value(d[4]));
    assert(hex_number(d) == hex_number(d5) * 16 + hex_value(d[5]));
}

fn hex_digit(c: char) -> (v: Option<u8>)
    ensures
        v is Some <==> is_hex_digit(c),
        v is Some ==> v->0 == hex_value(c),
        is_hex_digit(c) ==> 0 <= hex_value(c) < 16,
{
    if c >= '0' && c <= '9' {
        Some(c as u8 - 48u8)
    } else if c >= 'a' && c <= 'f' {
        Some(c as u8 - 97u8 + 10u8)
    } else if c >= 'A' && c <= 'F' {
        Some(c as u8 - 65u8 + 10u8)
    } else {
        None
    }
}

impl Rgb {
    /// Reads `RRGGBB` or `#RRGGBB`.
    ///
    /// A character that is no hexadecimal digit is reported first, then a
    /// wrong number of digits; both name the whole text.
    pub fn from_hex(s: &str) -> (r: Result<Rgb, Error>)
        ensures
            match r {
                Ok(c) => {
                    &&& all_hex(hex_digits(s@))
                    &&& hex_digits(s@).len() == 6
                    &&& c.r == hex_pair(hex_digits(s@), 0)
                    &&& c.g == hex_pair(hex_digits(s@), 2)
                    &&& c.b == hex_pair(hex_digits(s@), 4)
                },
                Err(e) => if !all_hex(hex_digits(s@)) {
                    e.is_parse_error(s@, "Must contain only hex digits, 0-f"@)
                } else {
                    hex_digits(s@).len() != 6 && e.is_parse_error(s@, "Must have 6 digits."@)
                },
            },
    {
        let chars = chars_of(s);
        let start: usize = if chars.len() > 0 && chars[0] == '#' {
            1
        } else {
            0
        };
        let ghost d = hex_digits(s@);
        assert(d =~= chars@.skip(start as int));
        let mut values: Vec<u8> = Vec::new();
        let mut i: usize = start;
        while i < chars.len()
            invariant
                start <= i <= chars.len(),
                d == chars@.skip(start as int),
                d == hex_digits(s@),
                values.len() == i - start,
                forall|k: int| 0 <= k < i - start ==> is_hex_digit(#[trigger] d[k]),
                forall|k: int|
                    0 <= k < i - start ==> #[trigger] values[k] == hex_value(d[k]) && values[k] < 16,
            decreases chars.len() - i,
        {
            assert(d[i - start] == chars@[i as int]);
            match hex_digit(chars[i]) {
                Some(v) => {
                    values.push(v);
                },
                None => {
                    assert(!is_hex_digit(d[i - start]));
                    assert(!all_hex(d));
                    return Err(parse_error(s, "Must contain only hex digits, 0-f"));
                },
            }
            i += 1;
        }
        if values.len() != 6 {
            return Err(parse_error(s, "Must have 6 digits."));
        }
        assert(all_hex(d));
        assert(values[0] == hex_value(d[0]) && values[1] == hex_value(d[1]));
        assert(values[2] == hex_value(d[2]) && values[3] == hex_value(d[3]));
        assert(values[4] == hex_value(d[4]) && values[5] == hex_value(d[5]));
        Ok(Rgb {
            r: values[0] * 16 + values[1],
            g: values[2] * 16 + values[3],
            b: values[4] * 16 + values[5],
        })
    }

    /// The pixel `0xRRGGBB` of this colour.
    pub fn packed(&self) -> (p: u32)
        ensures
            p == spec_pack(self.r, self.g, self.b),
    {
        let r: u32 = self.r as u32;
        let g: u32 = self.g as u32;
        let b: u32 = self.b as u32;
        assert(r << 16 == r * 0x1_0000) by (bit_vector)
            requires
                r < 256,
        ;
        assert(g << 8 == g * 0x100) by (bit_vector)
            requires
                g < 256,
        ;
        (r << 16) + (g << 8) + b
    }
}

} // verus!
