//! Text handling shared by the editor: joining words, writing numbers in
//! decimal, and reading the NUL-terminated buffers that Scintilla fills.

use vstd::prelude::*;
use vstd::utf8::{
    valid_utf8, decode_utf8, encode_utf8, encode_scalar, encode_utf8_valid_utf8,
    encode_utf8_decode_utf8, char_is_scalar, has_width_1_encoding, has_width_2_encoding,
    has_width_3_encoding,
};

verus! {

/// No character of the text is NUL, so it can travel as a C string.
pub open spec fn has_no_nul(s: Seq<char>) -> bool {
    forall|i: int| 0 <= i < s.len() ==> s[i] != '\0'
}

/// The words joined with one space between neighbours.
pub open spec fn join_with_spaces(words: Seq<Seq<char>>) -> Seq<char>
    decreases words.len(),
{
    if words.len() == 0 {
        Seq::empty()
    } else if words.len() == 1 {
        words[0]
    } else {
        join_with_spaces(words.drop_last()) + seq![' '] + words.last()
    }
}

/// Joining words that hold no NUL gives a text that holds none.
pub proof fn lemma_join_no_nul(words: Seq<Seq<char>>)
    requires
        forall|i: int| 0 <= i < words.len() ==> has_no_nul(#[trigger] words[i]),
    ensures
        has_no_nul(join_with_spaces(words)),
    decreases words.len(),
{
    if words.len() > 1 {
        let init = words.drop_last();
        assert forall|i: int| 0 <= i < init.len() implies has_no_nul(#[trigger] init[i]) by {
            assert(init[i] == words[i]);
        }
        lemma_join_no_nul(init);
        assert(has_no_nul(words[words.len() - 1]));
        let j = join_with_spaces(init) + seq![' '] + words.last();
        assert forall|k: int| 0 <= k < j.len() implies j[k] != '\0' by {
            if k < join_with_spaces(init).len() {
            } else if k == join_with_spaces(init).len() {
            } else {
                assert(j[k] == words.last()[k - join_with_spaces(init).len() - 1]);
            }
        }
    } else if words.len() == 1 {
        assert(has_no_nul(words[0]));
    }
}

/// The views of a list of words.
pub open spec fn word_views(words: Seq<&str>) -> Seq<Seq<char>> {
    words.map_values(|w: &str| w@)
}

/// The decimal digit character for a value below ten.
pub open spec fn digit_char(d: nat) -> char {
    ('0' as int + d) as char
}

/// The decimal numeral of a natural number, without sign or leading zeros.
pub open spec fn decimal(n: nat) -> Seq<char>
    decreases n,
{
    if n < 10 {
        seq![digit_char(n)]
    } else {
        decimal(n / 10).push(digit_char(n % 10))
    }
}

/// The value a string of decimal digits denotes.
pub open spec fn decimal_value(s: Seq<char>) -> nat
    decreases s.len(),
{
    if s.len() == 0 {
        0
    } else {
        decimal_value(s.drop_last()) * 10 + (s.last() as int - '0' as int) as nat
    }
}

/// Every character is a decimal digit.
pub open spec fn all_digits(s: Seq<char>) -> bool {
    forall|i: int| 0 <= i < s.len() ==> '0' <= #[trigger] s[i] && s[i] <= '9'
}

/// The decimal numeral of `n` is made of digits, starts with a non-zero digit
/// unless `n` is zero, and reads back as `n`.
pub proof fn lemma_decimal_round_trip(n: nat)
    ensures
        all_digits(decimal(n)),
        decimal(n).len() >= 1,
        n != 0 ==> decimal(n)[0] != '0',
        decimal_value(decimal(n)) == n,
    decreases n,
{
    let c = digit_char(n % 10);
    assert(c as int == '0' as int + n % 10);
    if n < 10 {
        assert(decimal(n).drop_last() =~= Seq::<char>::empty());
        assert(decimal_value(Seq::<char>::empty()) == 0);
        assert(decimal_value(decimal(n)) == n);
    } else {
        lemma_decimal_round_trip(n / 10);
        let d = decimal(n / 10);
        assert(decimal(n).drop_last() =~= d);
        assert(decimal_value(decimal(n)) == decimal_value(d) * 10 + (c as int - '0' as int) as nat);
        assert(decimal_value(decimal(n)) == (n / 10) * 10 + n % 10);
        assert forall|i: int| 0 <= i < decimal(n).len() implies '0' <= #[trigger] decimal(n)[i]
            && decimal(n)[i] <= '9' by {
            if i < d.len() {
                assert(decimal(n)[i] == d[i]);
            }
        }
    }
}

/// Where the first NUL byte stands, if there is one.
pub open spec fn first_nul(b: Seq<u8>) -> Option<int> {
    if exists|i: int| 0 <= i < b.len() && b[i] == 0 {
        Some(choose|i: int| 0 <= i < b.len() && b[i] == 0 && forall|j: int| 0 <= j < i ==> b[j] != 0)
    } else {
        None
    }
}

/// Why a buffer does not hold a NUL-terminated UTF-8 text.
#[derive(Debug, Clone, Copy, PartialEq, Eq)]
pub enum TextBufferError {
    /// A NUL byte stands before the last byte, at this position.
    InteriorNul(usize),
    /// The buffer holds no NUL byte.
    NotNulTerminated,
    /// The bytes before the NUL are not UTF-8.
    InvalidUtf8,
}

/// What reading a buffer as a NUL-terminated UTF-8 text gives.
pub open spec fn nul_terminated_text(b: Seq<u8>) -> Result<Seq<char>, TextBufferError> {
    match first_nul(b) {
        None => Err(TextBufferError::NotNulTerminated),
        Some(p) => if p < b.len() - 1 {
            Err(TextBufferError::InteriorNul(p as usize))
        } else if valid_utf8(b.drop_last()) {
            Ok(decode_utf8(b.drop_last()))
        } else {
            Err(TextBufferError::InvalidUtf8)
        },
    }
}


proof fn lemma_encode_scalar_no_zero(c: char)
    requires
        c != '\0',
    ensures
        forall|i: int| 0 <= i < encode_scalar(c as u32).len() ==> #[trigger] encode_scalar(c as u32)[i] != 0,
{
    char_is_scalar(c);
    let v = c as u32;
    assert(v != 0);
    if has_width_1_encoding(v) {
        assert((v & 0x7F) as u8 != 0) by (bit_vector)
            requires
                v != 0,
                v <= 0x7F,
        ;
    } else {
        assert((0x80 | (v & 0x3F) as u8) != 0u8) by (bit_vector);
        assert((0x80 | ((v >> 6) & 0x3F) as u8) != 0u8) by (bit_vector);
        assert((0x80 | ((v >> 12) & 0x3F) as u8) != 0u8) by (bit_vector);
        assert((0xC0 | ((v >> 6) & 0x1F) as u8) != 0u8) by (bit_vector);
        assert((0xE0 | ((v >> 12) & 0x0F) as u8) != 0u8) by (bit_vector);
        assert((0xF0 | ((v >> 18) & 0x7) as u8) != 0u8) by (bit_vector);
    }
}

proof fn lemma_encode_no_zero(s: Seq<char>)
    requires
        has_no_nul(s),
    ensures
        forall|i: int| 0 <= i < encode_utf8(s).len() ==> #[trigger] encode_utf8(s)[i] != 0,
    decreases s.len(),
{
    if s.len() > 0 {
        lemma_encode_scalar_no_zero(s[0]);
        lemma_encode_no_zero(s.drop_first());
        let head = encode_scalar(s[0] as u32);
        let tail = encode_utf8(s.drop_first());
        assert(encode_utf8(s) == head + tail);
        assert forall|i: int| 0 <= i < encode_utf8(s).len() implies #[trigger] encode_utf8(s)[i] != 0 by {
            if i < head.len() {
                assert(encode_utf8(s)[i] == head[i]);
            } else {
                assert(encode_utf8(s)[i] == tail[i - head.len()]);
            }
        }
    }
}

/// A text without NUL, written out in UTF-8 and terminated by a NUL byte, as
/// Scintilla fills a buffer, reads back as the same text.
pub proof fn lemma_nul_terminated_round_trip(s: Seq<char>)
    requires
        has_no_nul(s),
    ensures
        nul_terminated_text(encode_utf8(s).push(0)) == Ok::<Seq<char>, TextBufferError>(s),
{
    let e = encode_utf8(s);
    let b = e.push(0);
    lemma_encode_no_zero(s);
    assert(b[e.len() as int] == 0);
    assert(forall|j: int| 0 <= j < e.len() ==> b[j] != 0 && b[j] == e[j]);
    let p = choose|i: int| 0 <= i < b.len() && b[i] == 0 && forall|j: int| 0 <= j < i ==> b[j] != 0;
    assert(0 <= e.len() as int && forall|j: int| 0 <= j < e.len() ==> b[j] != 0);
    assert(first_nul(b) is Some);
    if p < e.len() {
        assert(b[p] == e[p]);
    }
    assert(first_nul(b) == Some(e.len() as int));
    assert(b.drop_last() =~= e);
    encode_utf8_valid_utf8(s);
    encode_utf8_decode_utf8(s);
}

/// Appends one character; wraps `String::push`.
#[verifier::external_body]
fn push_char(s: &mut String, c: char)
    ensures
        final(s)@ == old(s)@.push(c),
{
    s.push(c);
}

/// Decodes UTF-8; wraps `String::from_utf8`, which accepts exactly the valid
/// UTF-8 byte strings and then holds the characters they encode.
#[verifier::external_body]
fn string_from_utf8(bytes: Vec<u8>) -> (res: Option<String>)
    ensures
        res is Some <==> valid_utf8(bytes@),
        res matches Some(s) ==> s@ == decode_utf8(bytes@),
{
    String::from_utf8(bytes).ok()
}

/// Joins the words with single spaces, as `[&str]::join(" ")` does.
pub fn join_with_space(words: &Vec<&str>) -> (res: String)
    ensures
        res@ == join_with_spaces(word_views(words@)),
{
    let mut res = String::new();
    let ghost views = word_views(words@);
    let mut i: usize = 0;
    while i < words.len()
        invariant
            i <= words.len(),
            views == word_views(words@),
            res@ == join_with_spaces(views.take(i as int)),
        decreases words.len() - i,
    {
        assert(views.take(i + 1).drop_last() =~= views.take(i as int));
        if i != 0 {
            res.append(" ");
            proof {
                reveal_strlit(" ");
            }
        } else {
            assert(views.take(1) =~= seq![views[0]]);
        }
        res.append(words[i]);
        i = i + 1;
        assert(res@ =~= join_with_spaces(views.take(i as int)));
    }
    assert(views.take(words.len() as int) =~= views);
    res
}

fn digit(d: usize) -> (c: char)
    requires
        d < 10,
    ensures
        c == digit_char(d as nat),
{
    match d {
        0 => '0',
        1 => '1',
        2 => '2',
        3 => '3',
        4 => '4',
        5 => '5',
        6 => '6',
        7 => '7',
        8 => '8',
        _ => '9',
    }
}

/// Appends the decimal numeral of `n`.
pub fn push_decimal(s: &mut String, n: usize)
    ensures
        final(s)@ == old(s)@ + decimal(n as nat),
    decreases n,
{
    if n >= 10 {
        push_decimal(s, n / 10);
    }
    push_char(s, digit(n % 10));
}

/// Reads a buffer as a NUL-terminated UTF-8 text, as `CStr::from_bytes_with_nul`
/// followed by `CStr::to_str` does.
pub fn text_from_nul_terminated(buffer: &[u8]) -> (res: Result<String, TextBufferError>)
    ensures
        match res {
            Ok(s) => nul_terminated_text(buffer@) == Ok::<Seq<char>, TextBufferError>(s@),
            Err(e) => nul_terminated_text(buffer@) == Err::<Seq<char>, TextBufferError>(e),
        },
{
    let n = buffer.len();
    let mut i: usize = 0;
    while i < n && buffer[i] != 0
        invariant
            n == buffer@.len(),
            i <= n,
            forall|j: int| 0 <= j < i ==> buffer@[j] != 0,
        decreases n - i,
    {
        i = i + 1;
    }
    if i == n {
        assert(first_nul(buffer@) is None);
        return Err(TextBufferError::NotNulTerminated);
    }
    proof {
        let p = choose|p: int| 0 <= p < buffer@.len() && buffer@[p] == 0 && forall|j: int| 0 <= j < p ==> buffer@[j] != 0;
        assert(buffer@[i as int] == 0);
        if p < i {
        } else if p > i {
            assert(buffer@[i as int] != 0);
        }
        assert(first_nul(buffer@) == Some(i as int));
    }
    if i < n - 1 {
        return Err(TextBufferError::InteriorNul(i));
    }
    let body = vstd::slice::slice_to_vec(vstd::slice::slice_subrange(buffer, 0, n - 1));
    assert(body@ =~= buffer@.drop_last());
    match string_from_utf8(body) {
        Some(s) => Ok(s),
        None => Err(TextBufferError::InvalidUtf8),
    }
}

} // verus!
