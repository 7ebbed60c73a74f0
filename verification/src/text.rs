//! Text primitives: decimal numerals, ASCII case mapping and comparison of
//! string slices, all over the `Seq<char>` view of a string.

use vstd::prelude::*;
use vstd::string::*;
use vstd::utf8::*;

verus! {

/// `String::push` appends one character to the end of the string.
pub assume_specification[ String::push ](s: &mut String, ch: char)
    ensures
        final(s)@ == old(s)@.push(ch),
;

/// The character for a single decimal digit.
pub open spec fn digit_char(d: nat) -> char
    recommends
        d < 10,
{
    (('0' as nat) + d) as char
}

/// The decimal numeral of `n`, most significant digit first, without
/// leading zeros (`0` is written "0").
pub open spec fn decimal(n: nat) -> Seq<char>
    decreases n,
{
    if n < 10 {
        seq![digit_char(n)]
    } else {
        decimal(n / 10).push(digit_char(n % 10))
    }
}

/// The number of digits in the decimal numeral of `n`.
pub proof fn lemma_decimal_len(n: nat)
    ensures
        decimal(n).len() >= 1,
        n < 10 <==> decimal(n).len() == 1,
        10 <= n < 100 <==> decimal(n).len() == 2,
    decreases n,
{
    if n >= 10 {
        lemma_decimal_len(n / 10);
    }
}

fn digit(d: u32) -> (c: char)
    requires
        d < 10,
    ensures
        c == digit_char(d as nat),
{
    (48u8 + d as u8) as char
}

/// Writes `n` in decimal.
pub fn decimal_string(n: u32) -> (s: String)
    ensures
        s@ == decimal(n as nat),
    decreases n,
{
    if n < 10 {
        let mut s = String::new();
        s.push(digit(n));
        s
    } else {
        let mut s = decimal_string(n / 10);
        s.push(digit(n % 10));
        s
    }
}

/// The UTF-8 form of two texts in a row is the UTF-8 form of the first
/// followed by that of the second.
pub proof fn lemma_encode_concat(a: Seq<char>, b: Seq<char>)
    ensures
        encode_utf8(a + b) == encode_utf8(a) + encode_utf8(b),
    decreases a.len(),
{
    if a.len() == 0 {
        assert(a + b =~= b);
    } else {
        lemma_encode_concat(a.drop_first(), b);
        assert((a + b).drop_first() =~= a.drop_first() + b);
    }
}

/// Whether two string slices hold the same text, decided on their bytes.
pub fn str_eq(a: &str, b: &str) -> (same: bool)
    ensures
        same == (a@ == b@),
{
    let x = a.as_bytes();
    let y = b.as_bytes();
    proof {
        encode_utf8_decode_utf8(a@);
        encode_utf8_decode_utf8(b@);
    }
    if x.len() != y.len() {
        return false;
    }
    let mut i: usize = 0;
    while i < x.len()
        invariant
            i <= x.len(),
            x.len() == y.len(),
            x@ == encode_utf8(a@),
            y@ == encode_utf8(b@),
            forall|j: int| 0 <= j < i ==> x@[j] == y@[j],
        decreases x.len() - i,
    {
        if x[i] != y[i] {
            return false;
        }
        i += 1;
    }
    assert(x@ =~= y@);
    true
}

/// Where a text starts with an ASCII character, that character is the first
/// byte of its UTF-8 form, and the rest of the text follows from the second
/// byte on.
pub proof fn lemma_ascii_initial(s: Seq<char>)
    requires
        s.len() > 0,
        '\0' <= s[0] <= '\u{7f}',
    ensures
        encode_utf8(s).len() >= 1,
        encode_utf8(s)[0] == s[0] as u8,
        encode_utf8(s).skip(1) == encode_utf8(s.drop_first()),
        is_char_boundary(encode_utf8(s), 1),
{
    let initial = seq![s[0]];
    let rest = s.drop_first();
    assert(s =~= initial + rest);
    lemma_encode_concat(initial, rest);
    assert(is_ascii_chars(initial));
    is_ascii_chars_encode_utf8(initial);
    assert(encode_utf8(s).skip(1) =~= encode_utf8(rest));
    encode_utf8_valid_utf8(s);
    encode_utf8_first_scalar(s);
    assert(is_char_boundary(encode_utf8(s), 1)) by {
        reveal_with_fuel(is_char_boundary, 2);
    }
}

/// A text starts with another exactly where its UTF-8 form starts with the
/// other's: no character's encoding is the beginning of another's.
pub proof fn lemma_prefix_by_bytes(prefix: Seq<char>, text: Seq<char>)
    ensures
        prefix.is_prefix_of(text) <==> encode_utf8(prefix).is_prefix_of(encode_utf8(text)),
    decreases prefix.len(),
{
    let p = encode_utf8(prefix);
    let t = encode_utf8(text);
    if prefix.is_prefix_of(text) {
        let rest = text.skip(prefix.len() as int);
        assert(text =~= prefix + rest);
        lemma_encode_concat(prefix, rest);
    }
    if p.is_prefix_of(t) && prefix.len() > 0 {
        // The first byte fixes how long the first character's encoding is, so
        // both texts start with the same character.
        encode_utf8_first_scalar(prefix);
        encode_utf8_first_scalar(text);
        assert(t[0] == p[0]);
        assert(decode_first_scalar(t) == decode_first_scalar(p));
        assert(text[0] == prefix[0]) by {
            char_u32_cast(text[0], decode_first_scalar(t));
            char_u32_cast(prefix[0], decode_first_scalar(p));
        }
        // What follows that character is again a prefix, byte for byte.
        let p_rest = encode_utf8(prefix.drop_first());
        let t_rest = encode_utf8(text.drop_first());
        assert(p_rest =~= p.skip(length_of_first_scalar(p)));
        assert(t_rest =~= t.skip(length_of_first_scalar(t)));
        lemma_prefix_by_bytes(prefix.drop_first(), text.drop_first());
        assert(prefix =~= text.subrange(0, prefix.len() as int)) by {
            assert forall|i: int| 0 <= i < prefix.len() implies prefix[i] == text[i] by {
                if i > 0 {
                    assert(prefix.drop_first()[i - 1] == text.drop_first().subrange(
                        0,
                        prefix.len() - 1,
                    )[i - 1]);
                }
            }
        }
    }
}

/// Whether a text starts with another, decided on their bytes.
pub fn starts_with(text: &str, prefix: &str) -> (yes: bool)
    ensures
        yes == prefix@.is_prefix_of(text@),
{
    let t = text.as_bytes();
    let p = prefix.as_bytes();
    proof {
        lemma_prefix_by_bytes(prefix@, text@);
    }
    if t.len() < p.len() {
        return false;
    }
    let mut i: usize = 0;
    while i < p.len()
        invariant
            i <= p.len(),
            p.len() <= t.len(),
            prefix@.is_prefix_of(text@) <==> p@.is_prefix_of(t@),
            forall|j: int| 0 <= j < i ==> t@[j] == p@[j],
        decreases p.len() - i,
    {
        if t[i] != p[i] {
            return false;
        }
        i += 1;
    }
    true
}

/// An ASCII lowercase letter as its capital; any other character as it is.
pub open spec fn ascii_upper(c: char) -> char {
    if 'a' <= c <= 'z' {
        ((c as nat) - 32) as char
    } else {
        c
    }
}

/// An ASCII capital as its lowercase letter; any other character as it is.
pub open spec fn ascii_lower(c: char) -> char {
    if 'A' <= c <= 'Z' {
        ((c as nat) + 32) as char
    } else {
        c
    }
}

/// What `str::to_lowercase` makes of a text: its lowercase form by the
/// Unicode tables of the standard library.
pub uninterp spec fn unicode_lowercase(s: Seq<char>) -> Seq<char>;

/// `str::to_lowercase` returns the lowercase equivalent of the slice as a new
/// string. Nothing is claimed here about what that equivalent is.
pub assume_specification[ str::to_lowercase ](s: &str) -> (lower: String)
    ensures
        lower@ == unicode_lowercase(s@),
;

/// The lowercase form of a text. ASCII text is lowered letter by letter;
/// text with any other character in it is lowered by the Unicode tables.
pub open spec fn lowercased(s: Seq<char>) -> Seq<char> {
    if is_ascii_chars(s) {
        s.map_values(|c: char| ascii_lower(c))
    } else {
        unicode_lowercase(s)
    }
}

/// The capital of an ASCII lowercase letter.
pub fn to_ascii_upper(c: char) -> (u: char)
    ensures
        u == ascii_upper(c),
{
    if c >= 'a' && c <= 'z' {
        ((c as u8) - 32) as char
    } else {
        c
    }
}

/// The lowercase letter of an ASCII capital.
pub fn to_ascii_lower(c: char) -> (l: char)
    ensures
        l == ascii_lower(c),
{
    if c >= 'A' && c <= 'Z' {
        ((c as u8) + 32) as char
    } else {
        c
    }
}

/// Lowers a text.
pub fn lowercase(s: &str) -> (lower: String)
    ensures
        lower@ == lowercased(s@),
{
    if !s.is_ascii() {
        return s.to_lowercase();
    }
    let bytes = s.as_bytes();
    proof {
        is_ascii_chars_encode_utf8(s@);
    }
    let mut lower = String::new();
    let mut i: usize = 0;
    while i < bytes.len()
        invariant
            i <= bytes.len(),
            is_ascii_chars(s@),
            bytes@ == encode_utf8(s@),
            bytes@.len() == s@.len(),
            forall|j: int| 0 <= j < s@.len() ==> s@[j] as u8 == #[trigger] bytes@[j],
            lower@ == s@.take(i as int).map_values(|c: char| ascii_lower(c)),
        decreases bytes.len() - i,
    {
        let c = bytes[i] as char;
        lower.push(to_ascii_lower(c));
        assert(s@.take(i + 1).map_values(|c: char| ascii_lower(c)) =~= s@.take(i as int).map_values(
            |c: char| ascii_lower(c),
        ).push(ascii_lower(c)));
        i += 1;
    }
    lower
}

} // verus!
