//! The `!beastie` command: from the text of a chat message to the text of
//! the reply.
//!
//! A command is the word `!beastie`, one separator, and the creature's name
//! in any case. Positions in a command are counted in bytes of its UTF-8
//! form: the name starts at byte nine.

use vstd::prelude::*;
use vstd::string::*;
use vstd::utf8::*;
use crate::dataset::{
    get_beastie, has_record, is_first_match, lemma_first_match_resolves, resolve, Dataset,
};
use crate::name::{can_normalise, normalise_beastie_name, normalised_name};
use crate::record::BeastieView;
use crate::render::{detail_card, to_detail_string};
use crate::text::{lemma_encode_concat, starts_with};

verus! {

/// The word that makes a message a command.
pub const COMMAND_WORD: &'static str = "!beastie";

/// The byte at which the creature's name starts: after the command word and
/// one separator.
pub const ARGUMENT_START: usize = 9;

/// The least length of a command, in bytes: up to the name's first byte.
pub const MIN_COMMAND_LEN: usize = 10;

/// The reply to a command that names no creature.
pub const NAME_MISSING: &'static str = "You must say the name of the beastie...";

/// The reply to a command whose creature is not in the dataset.
pub const NOT_FOUND: &'static str = "Sorry, I couldn't find that beastie";

/// Whether a command is too short to name a creature.
pub open spec fn is_too_short(msg: Seq<char>) -> bool {
    encode_utf8(msg).len() < MIN_COMMAND_LEN
}

/// Whether the name can be cut out of a command and normalised: in one of
/// full length, a character starts at byte nine and the next one at byte
/// ten, so the name's first character is one byte long. A shorter command
/// is always well formed.
pub open spec fn well_formed_command(msg: Seq<char>) -> bool {
    let bytes = encode_utf8(msg);
    !is_too_short(msg) ==> is_char_boundary(bytes, ARGUMENT_START as int) && is_char_boundary(
        bytes,
        MIN_COMMAND_LEN as int,
    )
}

/// The name as typed: the text from byte nine of the command on.
pub open spec fn command_argument(msg: Seq<char>) -> Seq<char> {
    decode_utf8(encode_utf8(msg).skip(ARGUMENT_START as int))
}

/// The reply to a command over a dataset.
pub open spec fn command_reply(msg: Seq<char>, records: Seq<BeastieView>) -> Seq<char> {
    if is_too_short(msg) {
        NAME_MISSING@
    } else {
        match resolve(records, normalised_name(command_argument(msg))) {
            Some(beastie) => detail_card(beastie),
            None => NOT_FOUND@,
        }
    }
}

/// The name in a well-formed command of full length is not empty and starts
/// with an ASCII character, so it can be normalised.
pub proof fn lemma_argument_can_normalise(msg: Seq<char>)
    requires
        well_formed_command(msg),
        !is_too_short(msg),
    ensures
        can_normalise(command_argument(msg)),
{
    let bytes = encode_utf8(msg);
    let tail = bytes.skip(ARGUMENT_START as int);
    encode_utf8_valid_utf8(msg);
    valid_utf8_split(bytes, ARGUMENT_START as int);
    assert(valid_utf8(tail));
    // The byte after the name's first is no continuation byte, so the first
    // character of the name is one byte long.
    if bytes.len() > MIN_COMMAND_LEN {
        is_char_boundary_iff_not_is_continuation_byte(bytes, MIN_COMMAND_LEN as int);
    }
    assert(is_leading_byte_width_1(tail[0]));
    let first = decode_first_scalar(tail);
    assert(first <= 0x7f) by {
        let b = tail[0];
        assert((b & 0x7f) <= 0x7f) by (bit_vector);
    }
}

/// A text whose first ten characters are ASCII is a well-formed command of
/// full length, and the name in it is the text from its tenth character on.
pub proof fn lemma_ascii_command(msg: Seq<char>)
    requires
        msg.len() >= MIN_COMMAND_LEN,
        is_ascii_chars(msg.take(MIN_COMMAND_LEN as int)),
    ensures
        !is_too_short(msg),
        well_formed_command(msg),
        command_argument(msg) == msg.skip(ARGUMENT_START as int),
{
    let bytes = encode_utf8(msg);
    let head = msg.take(ARGUMENT_START as int);
    let tail = msg.skip(ARGUMENT_START as int);
    assert(msg =~= head + tail);
    lemma_encode_concat(head, tail);
    assert(is_ascii_chars(head)) by {
        assert forall|i: int| 0 <= i < head.len() implies '\0' <= #[trigger] head[i] <= '\u{7f}' by {
            assert(head[i] == msg.take(MIN_COMMAND_LEN as int)[i]);
        }
    }
    is_ascii_chars_encode_utf8(head);
    assert(bytes.skip(ARGUMENT_START as int) =~= encode_utf8(tail));
    encode_utf8_decode_utf8(tail);

    let first = seq![msg[ARGUMENT_START as int]];
    let rest = msg.skip(MIN_COMMAND_LEN as int);
    assert(tail =~= first + rest);
    lemma_encode_concat(first, rest);
    assert(is_ascii_chars(first)) by {
        assert(first[0] == msg.take(MIN_COMMAND_LEN as int)[ARGUMENT_START as int]);
    }
    is_ascii_chars_encode_utf8(first);

    encode_utf8_valid_utf8(msg);
    encode_utf8_valid_utf8(rest);
    is_char_boundary_iff_not_is_continuation_byte(bytes, ARGUMENT_START as int);
    if bytes.len() == MIN_COMMAND_LEN {
        is_char_boundary_start_end_of_seq(bytes);
    } else {
        is_char_boundary_iff_not_is_continuation_byte(bytes, MIN_COMMAND_LEN as int);
    }
}

/// Whether a command is well formed.
pub fn is_well_formed_command(msg_content: &str) -> (ok: bool)
    ensures
        ok == well_formed_command(msg_content@),
{
    msg_content.as_bytes().len() < MIN_COMMAND_LEN || (msg_content.is_char_boundary(
        ARGUMENT_START,
    ) && msg_content.is_char_boundary(MIN_COMMAND_LEN))
}

/// Answers a command: with the card of the creature it names, or with one
/// of two fixed sentences where it names none or one that is not known.
pub fn handle_beastie_command(msg_content: &str, dataset: &Dataset) -> (reply: String)
    requires
        well_formed_command(msg_content@),
    ensures
        reply@ == command_reply(msg_content@, dataset@),
        is_too_short(msg_content@) ==> reply@ == NAME_MISSING@,
        !is_too_short(msg_content@) && !has_record(
            dataset@,
            normalised_name(command_argument(msg_content@)),
        ) ==> reply@ == NOT_FOUND@,
        forall|i: int|
            !is_too_short(msg_content@) && is_first_match(
                dataset@,
                normalised_name(command_argument(msg_content@)),
                i,
            ) ==> reply@ == detail_card(dataset@[i]),
{
    if msg_content.as_bytes().len() < MIN_COMMAND_LEN {
        return String::from_str(NAME_MISSING);
    }
    let (_, argument) = msg_content.split_at(ARGUMENT_START);
    proof {
        let bytes = encode_utf8(msg_content@);
        assert(bytes.skip(ARGUMENT_START as int) =~= bytes.subrange(
            ARGUMENT_START as int,
            bytes.len() as int,
        ));
        encode_utf8_decode_utf8(argument@);
        lemma_argument_can_normalise(msg_content@);
    }
    let beastie_name = normalise_beastie_name(argument);
    let reply = match get_beastie(dataset, beastie_name.as_str()) {
        Some(beastie) => to_detail_string(beastie),
        None => String::from_str(NOT_FOUND),
    };
    proof {
        assert forall|i: int|
            is_first_match(dataset@, normalised_name(command_argument(msg_content@)), i) implies reply@
            == detail_card(dataset@[i]) by {
            lemma_first_match_resolves(dataset@, beastie_name@, i);
        }
    }
    reply
}

/// Whether a message is a command: its text starts with the command word.
pub open spec fn is_command(content: Seq<char>) -> bool {
    COMMAND_WORD@.is_prefix_of(content)
}

/// What a message calls for.
#[derive(Debug)]
pub enum Reaction {
    /// The message is no command: nothing is sent.
    Nothing,
    /// The message is a command, and this is the reply to send.
    Reply(String),
    /// The message is a command that is not well formed: no name can be cut
    /// out of it, and there is no reply to it.
    Malformed,
}

/// Decides what a message calls for: nothing where it is no command, the
/// command's reply where it is a well-formed one.
pub fn react_to_message(content: &str, dataset: &Dataset) -> (reaction: Reaction)
    ensures
        !is_command(content@) ==> reaction is Nothing,
        is_command(content@) && !well_formed_command(content@) ==> reaction is Malformed,
        is_command(content@) && well_formed_command(content@) ==> (reaction matches Reaction::Reply(
            text,
        ) && text@ == command_reply(content@, dataset@)),
{
    if !starts_with(content, COMMAND_WORD) {
        Reaction::Nothing
    } else if !is_well_formed_command(content) {
        Reaction::Malformed
    } else {
        Reaction::Reply(handle_beastie_command(content, dataset))
    }
}

} // verus!
