//! A validated RGB color for the lighting config, written `"RRGGBB"`.

use vstd::prelude::*;

use crate::chars::all_hex;
use crate::text::{chars_of, hex2, hex_char, hex_value, is_hex_char, lemma_hex_char, push_hex2, push_str};

verus! {

/// An RGB color, parsed once at the boundary from the hex form `"RRGGBB"`
/// (exactly 6 hex digits, no leading `#`).
#[derive(Debug, Clone, Copy, PartialEq, Eq, Hash, Structural)]
pub struct Rgb {
    r: u8,
    g: u8,
    b: u8,
}

/// A color string that is not exactly 6 hex digits.
#[derive(Debug, Clone, PartialEq, Eq)]
pub struct RgbParseError {
    /// The rejected input.
    input: String,
}

impl RgbParseError {
    /// The rejected input, as text.
    pub closed spec fn rejected(self) -> Seq<char> {
        self.input@
    }

    /// The rejected input.
    pub fn input(&self) -> (s: &str)
        ensures
            s@ == self.rejected(),
    {
        self.input.as_str()
    }
}

/// The number a sequence of hexadecimal digits denotes.
pub open spec fn hex_number(s: Seq<char>) -> nat
    decreases s.len(),
{
    if s.len() == 0 {
        0
    } else {
        hex_number(s.drop_last()) * 16 + hex_value(s.last()) as nat
    }
}

/// The color `s` denotes, if any: exactly six hexadecimal digits (either
/// case), read as one number and split into its three bytes.
pub open spec fn parse_rgb(s: Seq<char>) -> Option<(u8, u8, u8)> {
    if s.len() == 6 && all_hex(s) {
        let v = hex_number(s);
        Some(((v / 65536 % 256) as u8, (v / 256 % 256) as u8, (v % 256) as u8))
    } else {
        None
    }
}

/// The lower-case `RRGGBB` text of a color.
pub open spec fn rgb_text(r: u8, g: u8, b: u8) -> Seq<char> {
    hex2(r) + hex2(g) + hex2(b)
}

impl Rgb {
    /// The red component.
    pub closed spec fn red(self) -> u8 {
        self.r
    }

    /// The green component.
    pub closed spec fn green(self) -> u8 {
        self.g
    }

    /// The blue component.
    pub closed spec fn blue(self) -> u8 {
        self.b
    }

    /// White, the lighting default.
    pub fn white() -> (c: Self)
        ensures
            c.red() == 0xff && c.green() == 0xff && c.blue() == 0xff,
    {
        Rgb { r: 0xff, g: 0xff, b: 0xff }
    }

    /// A color from its red/green/blue components.
    pub fn new(r: u8, g: u8, b: u8) -> (c: Self)
        ensures
            c.red() == r && c.green() == g && c.blue() == b,
    {
        Rgb { r, g, b }
    }

    /// The `(r, g, b)` components.
    pub fn components(self) -> (c: (u8, u8, u8))
        ensures
            c == (self.red(), self.green(), self.blue()),
    {
        (self.r, self.g, self.b)
    }

    /// The color packed as `0xRRGGBB`.
    pub fn packed(self) -> (p: u32)
        ensures
            p == self.red() as int * 65536 + self.green() as int * 256 + self.blue() as int,
    {
        let p: u32 = (self.r as u32) * 65536 + (self.g as u32) * 256 + self.b as u32;
        p
    }

    /// The lower-case `RRGGBB` text of this color.
    pub fn to_string(&self) -> (s: String)
        ensures
            s@ == rgb_text(self.red(), self.green(), self.blue()),
    {
        let mut s = String::new();
        push_hex2(&mut s, self.r);
        push_hex2(&mut s, self.g);
        push_hex2(&mut s, self.b);
        assert(s@ =~= rgb_text(self.r, self.g, self.b));
        s
    }

    /// Parse the `RRGGBB` form; upper-case digits are accepted.
    pub fn parse(s: &str) -> (r: Result<Rgb, RgbParseError>)
        ensures
            parse_rgb(s@) matches Some((red, green, blue)) ==> (r matches Ok(c) && c.red() == red
                && c.green() == green && c.blue() == blue),
            parse_rgb(s@) is None ==> (r matches Err(e) && e.rejected() == s@),
    {
        let chars = chars_of(s);
        let start: usize = 0;
        let ghost d = s@;
        assert(d =~= s@.subrange(start as int, s@.len() as int));
        if chars.len() != 6 {
            return Err(Self::parse_error(s));
        }
        let mut value: u32 = 0;
        let mut i: usize = start;
        while i < 6
            invariant
                chars@ == s@,
                chars@.len() == 6,
                start <= i <= 6,
                d == s@.subrange(start as int, 6),
                all_hex(s@.subrange(start as int, i as int)),
                value == hex_number(s@.subrange(start as int, i as int)),
                value < pow16((i - start) as nat),
            decreases 6 - i,
        {
            let c = chars[i];
            let digit: u32 = if '0' <= c && c <= '9' {
                (c as u32) - 48
            } else if 'a' <= c && c <= 'f' {
                (c as u32) - 87
            } else if 'A' <= c && c <= 'F' {
                (c as u32) - 55
            } else {
                assert(d[i - start] == c);
                assert(!is_hex_char(d[i - start]));
                return Err(Self::parse_error(s));
            };
            proof {
                let t = s@.subrange(start as int, i + 1);
                assert(t.drop_last() =~= s@.subrange(start as int, i as int));
                assert(t.last() == c);
                assert(hex_value(c) == digit);
                assert(pow16((i + 1 - start) as nat) == 16 * pow16((i - start) as nat));
                assert(pow16((i - start) as nat) <= pow16(5)) by {
                    lemma_pow16_monotone((i - start) as nat, 5);
                }
                assert(pow16(5) == 1048576) by {
                    reveal_with_fuel(pow16, 6);
                }
            }
            value = value * 16 + digit;
            i = i + 1;
        }
        assert(s@.subrange(start as int, 6) =~= d);
        Ok(Rgb { r: (value / 65536 % 256) as u8, g: (value / 256 % 256) as u8, b: (value % 256) as u8 })
    }

    fn parse_error(s: &str) -> (e: RgbParseError)
        ensures
            e.rejected() == s@,
    {
        let mut input = String::new();
        push_str(&mut input, s);
        assert(input@ =~= s@);
        RgbParseError { input }
    }
}

/// `16` to the power `n`.
pub open spec fn pow16(n: nat) -> nat
    decreases n,
{
    if n == 0 { 1 } else { 16 * pow16((n - 1) as nat) }
}

proof fn lemma_pow16_monotone(a: nat, b: nat)
    requires
        a <= b,
    ensures
        pow16(a) <= pow16(b),
    decreases b - a,
{
    if a < b {
        lemma_pow16_monotone(a, (b - 1) as nat);
    }
}

impl std::str::FromStr for Rgb {
    type Err = RgbParseError;

    fn from_str(s: &str) -> (r: Result<Self, Self::Err>)
        ensures
            parse_rgb(s@) matches Some((red, green, blue)) ==> (r matches Ok(c) && c.red() == red
                && c.green() == green && c.blue() == blue),
            parse_rgb(s@) is None ==> (r matches Err(e) && e.rejected() == s@),
    {
        Rgb::parse(s)
    }
}

proof fn lemma_hex2_number(prefix: Seq<char>, x: u8)
    ensures
        hex_number(prefix + hex2(x)) == hex_number(prefix) * 256 + x,
{
    let hi = x as int / 16;
    let lo = x as int % 16;
    lemma_hex_char(hi);
    lemma_hex_char(lo);
    assert(hex_value(hex_char(hi)) == hi);
    assert(hex_value(hex_char(lo)) == lo);
    let s = prefix + hex2(x);
    assert(s.drop_last() =~= prefix.push(hex_char(hi)));
    assert(prefix.push(hex_char(hi)).drop_last() =~= prefix);
    assert(hex_number(prefix.push(hex_char(hi))) == hex_number(prefix) * 16 + hi);
    assert(hex_number(s) == (hex_number(prefix) * 16 + hi) * 16 + lo);
}

proof fn lemma_rgb_text_digits(r: u8, g: u8, b: u8)
    ensures
        rgb_text(r, g, b).len() == 6,
        all_hex(rgb_text(r, g, b)),
        rgb_text(r, g, b)[0] != '+',
{
    let t = rgb_text(r, g, b);
    lemma_hex_char(r as int / 16);
    lemma_hex_char(r as int % 16);
    lemma_hex_char(g as int / 16);
    lemma_hex_char(g as int % 16);
    lemma_hex_char(b as int / 16);
    lemma_hex_char(b as int % 16);
    assert(t[0] == hex_char(r as int / 16));
    assert(t[1] == hex_char(r as int % 16));
    assert(t[2] == hex_char(g as int / 16));
    assert(t[3] == hex_char(g as int % 16));
    assert(t[4] == hex_char(b as int / 16));
    assert(t[5] == hex_char(b as int % 16));
}

proof fn lemma_rgb_text_number(r: u8, g: u8, b: u8)
    ensures
        hex_number(rgb_text(r, g, b)) == (r as int * 256 + g as int) * 256 + b as int,
{
    lemma_hex2_number(Seq::empty(), r);
    lemma_hex2_number(hex2(r), g);
    lemma_hex2_number(hex2(r) + hex2(g), b);
    assert(Seq::<char>::empty() + hex2(r) =~= hex2(r));
}

/// Printing a color and parsing the text back yields the same color.
pub proof fn lemma_rgb_text_round_trip(r: u8, g: u8, b: u8)
    ensures
        parse_rgb(rgb_text(r, g, b)) == Some((r, g, b)),
{
    let t = rgb_text(r, g, b);
    lemma_rgb_text_digits(r, g, b);
    lemma_rgb_text_number(r, g, b);
    let v = hex_number(t);
    lemma_byte_digits(v as int, r as int, g as int, b as int);
}

/// The three bytes of a 24-bit number are its base-256 digits.
proof fn lemma_byte_digits(v: int, r: int, g: int, b: int)
    requires
        0 <= r < 256,
        0 <= g < 256,
        0 <= b < 256,
        v == (r * 256 + g) * 256 + b,
    ensures
        v / 65536 % 256 == r,
        v / 256 % 256 == g,
        v % 256 == b,
{
    assert(v == r * 65536 + g * 256 + b) by (nonlinear_arith)
        requires v == (r * 256 + g) * 256 + b;
    assert(v / 256 == r * 256 + g && v % 256 == b) by (nonlinear_arith)
        requires v == r * 65536 + g * 256 + b, 0 <= b < 256, 0 <= g < 256, 0 <= r < 256;
    assert(v / 65536 == r) by (nonlinear_arith)
        requires v == r * 65536 + g * 256 + b, 0 <= b < 256, 0 <= g < 256, 0 <= r < 256;
    assert((r * 256 + g) % 256 == g) by (nonlinear_arith)
        requires 0 <= g < 256, 0 <= r < 256;
}

} // verus!
