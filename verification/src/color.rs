//! Colours written as `#RRGGBB` and their Scintilla encoding `0xBBGGRR`.

use vstd::prelude::*;

verus! {

/// A digit of base 16, in either case.
pub open spec fn is_hex_digit(c: char) -> bool {
    ||| ('0' <= c && c <= '9')
    ||| ('a' <= c && c <= 'f')
    ||| ('A' <= c && c <= 'F')
}

/// The value of a base-16 digit.
pub open spec fn hex_digit_value(c: char) -> nat {
    if '0' <= c && c <= '9' {
        (c as int - '0' as int) as nat
    } else if 'a' <= c && c <= 'f' {
        (c as int - 'a' as int + 10) as nat
    } else {
        (c as int - 'A' as int + 10) as nat
    }
}

/// Two characters that an unsigned base-16 number parser accepts: two digits,
/// or a `+` sign followed by one digit.
pub open spec fn is_hex_pair(a: char, b: char) -> bool {
    is_hex_digit(b) && (is_hex_digit(a) || a == '+')
}

/// The number that two accepted characters denote.
pub open spec fn hex_pair_value(a: char, b: char) -> nat {
    if a == '+' {
        hex_digit_value(b)
    } else {
        16 * hex_digit_value(a) + hex_digit_value(b)
    }
}

/// The text with every leading `#` removed.
pub open spec fn trim_leading_hashes(s: Seq<char>) -> Seq<char>
    decreases s.len(),
{
    if s.len() > 0 && s[0] == '#' {
        trim_leading_hashes(s.drop_first())
    } else {
        s
    }
}

/// A colour text that can be read: after its leading `#`s come exactly
/// three accepted pairs, for red, green and blue.
pub open spec fn is_rgb_hex(s: Seq<char>) -> bool {
    let t = trim_leading_hashes(s);
    &&& t.len() == 6
    &&& is_hex_pair(t[0], t[1])
    &&& is_hex_pair(t[2], t[3])
    &&& is_hex_pair(t[4], t[5])
}

/// The red, green and blue components of a colour text.
pub open spec fn rgb_components(s: Seq<char>) -> (nat, nat, nat) {
    let t = trim_leading_hashes(s);
    (hex_pair_value(t[0], t[1]), hex_pair_value(t[2], t[3]), hex_pair_value(t[4], t[5]))
}

/// Scintilla's colour encoding: blue in bits 16..24, green in 8..16, red in 0..8.
pub open spec fn bgr(r: nat, g: nat, b: nat) -> nat {
    b * 0x10000 + g * 0x100 + r
}

/// The Scintilla colour that a colour text denotes.
pub open spec fn rgb_hex_value(s: Seq<char>) -> nat {
    let (r, g, b) = rgb_components(s);
    bgr(r, g, b)
}


/// The upper-case base-16 digit for a value below sixteen.
pub open spec fn upper_hex_digit(d: nat) -> char {
    if d < 10 {
        ('0' as int + d) as char
    } else {
        ('A' as int + d - 10) as char
    }
}

/// A colour written `#RRGGBB` with upper-case digits.
pub open spec fn rgb_hex_text(r: nat, g: nat, b: nat) -> Seq<char> {
    seq![
        '#',
        upper_hex_digit(r / 16),
        upper_hex_digit(r % 16),
        upper_hex_digit(g / 16),
        upper_hex_digit(g % 16),
        upper_hex_digit(b / 16),
        upper_hex_digit(b % 16),
    ]
}

proof fn lemma_upper_hex_digit(d: nat)
    requires
        d < 16,
    ensures
        is_hex_digit(upper_hex_digit(d)),
        upper_hex_digit(d) != '#',
        upper_hex_digit(d) != '+',
        hex_digit_value(upper_hex_digit(d)) == d,
{
}

/// Any colour written `#RRGGBB` reads back as its components, in Scintilla's
/// blue-green-red order.
pub proof fn lemma_rgb_hex_round_trip(r: nat, g: nat, b: nat)
    requires
        r < 256,
        g < 256,
        b < 256,
    ensures
        is_rgb_hex(rgb_hex_text(r, g, b)),
        rgb_components(rgb_hex_text(r, g, b)) == (r, g, b),
        rgb_hex_value(rgb_hex_text(r, g, b)) == bgr(r, g, b),
{
    let s = rgb_hex_text(r, g, b);
    lemma_upper_hex_digit(r / 16);
    lemma_upper_hex_digit(r % 16);
    lemma_upper_hex_digit(g / 16);
    lemma_upper_hex_digit(g % 16);
    lemma_upper_hex_digit(b / 16);
    lemma_upper_hex_digit(b % 16);
    lemma_trim_single_hash(s);
    let t = s.drop_first();
    assert(t[0] == upper_hex_digit(r / 16));
    assert(t[5] == upper_hex_digit(b % 16));
}

/// Leading `#`s do not matter: one more reads as the same colour.
pub proof fn lemma_extra_hash(s: Seq<char>)
    ensures
        trim_leading_hashes(seq!['#'] + s) == trim_leading_hashes(s),
        is_rgb_hex(seq!['#'] + s) == is_rgb_hex(s),
        is_rgb_hex(s) ==> rgb_hex_value(seq!['#'] + s) == rgb_hex_value(s),
{
    assert((seq!['#'] + s).drop_first() =~= s);
}

/// Each component of a Scintilla colour sits in its own byte: red in the
/// lowest, green in the next, blue in the third, and nothing above.
pub proof fn lemma_bgr_channels(r: u32, g: u32, b: u32)
    requires
        r < 256,
        g < 256,
        b < 256,
    ensures
        (bgr(r as nat, g as nat, b as nat) as u32) & 0xFF == r,
        ((bgr(r as nat, g as nat, b as nat) as u32) >> 8u32) & 0xFF == g,
        (bgr(r as nat, g as nat, b as nat) as u32) >> 16u32 == b,
{
    let c: u32 = (b * 0x10000 + g * 0x100 + r) as u32;
    assert(bgr(r as nat, g as nat, b as nat) == b * 0x10000 + g * 0x100 + r);
    assert(c & 0xFF == r && (c >> 8u32) & 0xFF == g && c >> 16u32 == b) by (bit_vector)
        requires
            r < 256,
            g < 256,
            b < 256,
            c == (b * 0x10000 + g * 0x100 + r) as u32,
    ;
}

proof fn lemma_trim_step(s: Seq<char>, i: int)
    requires
        0 <= i < s.len(),
        s[i] == '#',
    ensures
        trim_leading_hashes(s.skip(i)) == trim_leading_hashes(s.skip(i + 1)),
{
    assert(s.skip(i).drop_first() =~= s.skip(i + 1));
}

proof fn lemma_trim_stop(s: Seq<char>, i: int)
    requires
        0 <= i <= s.len(),
        i == s.len() || s[i] != '#',
    ensures
        trim_leading_hashes(s.skip(i)) == s.skip(i),
{
}

/// A text of one `#` followed by a non-`#` loses exactly that `#` when trimmed.
pub proof fn lemma_trim_single_hash(s: Seq<char>)
    requires
        s.len() >= 2,
        s[0] == '#',
        s[1] != '#',
    ensures
        trim_leading_hashes(s) == s.drop_first(),
{
    assert(trim_leading_hashes(s.drop_first()) == s.drop_first());
}

fn hex_digit(c: char) -> (res: Option<u32>)
    ensures
        res is Some <==> is_hex_digit(c),
        res matches Some(v) ==> v == hex_digit_value(c) && v < 16,
{
    if '0' <= c && c <= '9' {
        Some(c as u32 - '0' as u32)
    } else if 'a' <= c && c <= 'f' {
        Some(c as u32 - 'a' as u32 + 10)
    } else if 'A' <= c && c <= 'F' {
        Some(c as u32 - 'A' as u32 + 10)
    } else {
        None
    }
}

fn hex_pair(a: char, b: char) -> (res: Option<u32>)
    ensures
        res is Some <==> is_hex_pair(a, b),
        res matches Some(v) ==> v == hex_pair_value(a, b) && v < 256,
{
    let low = match hex_digit(b) {
        Some(v) => v,
        None => return None,
    };
    if a == '+' {
        Some(low)
    } else {
        match hex_digit(a) {
            Some(high) => Some(high * 16 + low),
            None => None,
        }
    }
}

/// Reads a colour written as `#RRGGBB` (any number of leading `#`) and
/// returns it in Scintilla's encoding, blue in the high byte and red in the low.
pub fn scintilla_rgb_color(hex: &str) -> (color: u32)
    requires
        is_rgb_hex(hex@),
    ensures
        color == rgb_hex_value(hex@),
        color < 0x100_0000,
{
    let n = hex.unicode_len();
    let mut i: usize = 0;
    assert(hex@.skip(0) =~= hex@);
    while i < n && hex.get_char(i) == '#'
        invariant
            n == hex@.len(),
            i <= n,
            trim_leading_hashes(hex@) == trim_leading_hashes(hex@.skip(i as int)),
        decreases n - i,
    {
        proof {
            lemma_trim_step(hex@, i as int);
        }
        i = i + 1;
    }
    proof {
        lemma_trim_stop(hex@, i as int);
    }
    let ghost t = hex@.skip(i as int);
    assert(t.len() == 6);
    let r = hex_pair(hex.get_char(i), hex.get_char(i + 1));
    let g = hex_pair(hex.get_char(i + 2), hex.get_char(i + 3));
    let b = hex_pair(hex.get_char(i + 4), hex.get_char(i + 5));
    match (r, g, b) {
        (Some(r), Some(g), Some(b)) => {
            assert((b << 16u32) | (g << 8u32) | r == b * 0x10000 + g * 0x100 + r) by (bit_vector)
                requires
                    r < 256,
                    g < 256,
                    b < 256,
            ;
            (b << 16u32) | (g << 8u32) | r
        },
        _ => {
            assert(false);
            0
        },
    }
}

} // verus!
