//! The canonical form of a creature's name: the first letter a capital, the
//! rest in lowercase.

use vstd::prelude::*;
use vstd::string::*;
use vstd::utf8::*;
use crate::text::{
    ascii_lower, ascii_upper, lemma_ascii_initial, lowercase, lowercased, to_ascii_upper,
};

verus! {

/// Whether a text can be normalised: it is not empty and starts with an
/// ASCII character.
pub open spec fn can_normalise(input: Seq<char>) -> bool {
    input.len() > 0 && '\0' <= input[0] <= '\u{7f}'
}

/// The canonical form of `input`: its first character as a capital, then the
/// rest of it lowered.
pub open spec fn normalised_name(input: Seq<char>) -> Seq<char>
    recommends
        can_normalise(input),
{
    seq![ascii_upper(input[0])] + lowercased(input.drop_first())
}

/// Brings a name typed in any case to its canonical form. The name must not
/// be empty and must start with an ASCII character: its first byte is taken
/// for its first character.
pub fn normalise_beastie_name(input: &str) -> (name: String)
    requires
        can_normalise(input@),
    ensures
        name@ == normalised_name(input@),
{
    proof {
        lemma_ascii_initial(input@);
    }
    let (initial, rest) = input.split_at(1);
    proof {
        encode_utf8_decode_utf8(rest@);
        encode_utf8_decode_utf8(input@.drop_first());
        assert(rest@ == input@.drop_first());
    }
    let first = initial.as_bytes()[0] as char;
    let lowered = lowercase(rest);
    let mut name = String::new();
    name.push(to_ascii_upper(first));
    name.append(lowered.as_str());
    name
}

/// Normalising is idempotent on ASCII text: the canonical form of a
/// canonical form is that form itself.
pub proof fn lemma_normalise_idempotent(x: Seq<char>)
    requires
        x.len() > 0,
        is_ascii_chars(x),
    ensures
        can_normalise(x),
        can_normalise(normalised_name(x)),
        is_ascii_chars(normalised_name(x)),
        normalised_name(normalised_name(x)) == normalised_name(x),
{
    let lowered = x.drop_first().map_values(|c: char| ascii_lower(c));
    let once = normalised_name(x);
    assert(once.drop_first() =~= lowered);
    assert(lowered.map_values(|c: char| ascii_lower(c)) =~= lowered);
}

} // verus!
