//! The detail card: a header, a fenced block with one line per axis, and the
//! description as a quoted line. Stats below 100 are padded to three columns
//! with zeros in a muted colour.

use vstd::prelude::*;
use vstd::string::*;
use crate::record::{Beastie, BeastieView};
use crate::text::{decimal, decimal_string, digit_char, lemma_decimal_len};

verus! {

/// Colour of the `Body` label.
pub const BODY_COLOR: &'static str = "\x1b[2;33m";

/// Colour of the `Spirit` label.
pub const SPIRIT_COLOR: &'static str = "\x1b[2;31m";

/// Colour of the `Mind` label.
pub const MIND_COLOR: &'static str = "\x1b[2;34m";

/// Colour of the zeros that pad a stat.
pub const PAD_COLOR: &'static str = "\x1b[2;30m";

/// Back to the default colour.
pub const RESET: &'static str = "\x1b[0m";

/// `count` padding zeros in the muted colour, followed by a reset.
pub open spec fn pad_marker(count: nat) -> Seq<char> {
    PAD_COLOR@ + Seq::new(count, |i: int| '0') + RESET@
}

/// A stat as the card shows it: two padding zeros before one digit, one
/// before two digits, and the bare numeral from 100 on.
pub open spec fn padded_stat(stat: nat) -> Seq<char> {
    if stat < 10 {
        pad_marker(2) + decimal(stat)
    } else if stat < 100 {
        pad_marker(1) + decimal(stat)
    } else {
        decimal(stat)
    }
}

/// One line of the fenced block, without its line end: the coloured label,
/// the gap that aligns the columns, and the two stats as they are shown.
pub open spec fn axis_line(
    color: Seq<char>,
    label: Seq<char>,
    gap: Seq<char>,
    pow_field: Seq<char>,
    def_field: Seq<char>,
) -> Seq<char> {
    color + label + RESET@ + gap + "POW/DEF: "@ + pow_field + "/"@ + def_field
}

/// The six stats of a card as they are shown, a power and a defense for
/// each axis.
pub struct StatFields {
    pub body_pow: Seq<char>,
    pub body_def: Seq<char>,
    pub spirit_pow: Seq<char>,
    pub spirit_def: Seq<char>,
    pub mind_pow: Seq<char>,
    pub mind_def: Seq<char>,
}

/// The layout of a card: the name in bold and underlined with a colon, a
/// fenced block with the lines for Body, Spirit and Mind in this order, the
/// fence closing right behind the last of them, and the description as a
/// quoted line without a line end.
pub open spec fn card_layout(name: Seq<char>, fields: StatFields, description: Seq<char>) -> Seq<
    char,
> {
    "__**"@ + name + ":**__\n"@ + "```ansi\n"@ + axis_line(
        BODY_COLOR@,
        "Body"@,
        "    "@,
        fields.body_pow,
        fields.body_def,
    ) + "\n"@ + axis_line(SPIRIT_COLOR@, "Spirit"@, "  "@, fields.spirit_pow, fields.spirit_def)
        + "\n"@ + axis_line(MIND_COLOR@, "Mind"@, "    "@, fields.mind_pow, fields.mind_def)
        + "```\n"@ + "> "@ + description
}

/// The whole card of a record: the layout, with every stat padded.
pub open spec fn detail_card(b: BeastieView) -> Seq<char> {
    card_layout(
        b.name,
        StatFields {
            body_pow: padded_stat(b.body_pow),
            body_def: padded_stat(b.body_def),
            spirit_pow: padded_stat(b.spirit_pow),
            spirit_def: padded_stat(b.spirit_def),
            mind_pow: padded_stat(b.mind_pow),
            mind_def: padded_stat(b.mind_def),
        },
        b.description,
    )
}

/// A stat below 100 is shown three columns wide: its digits, and before
/// them as many padding zeros as are missing to three. From 100 on a stat
/// is shown as its bare numeral, however wide.
pub proof fn lemma_padded_stat_columns(stat: nat)
    ensures
        stat < 100 ==> decimal(stat).len() <= 2 && padded_stat(stat) == pad_marker(
            (3 - decimal(stat).len()) as nat,
        ) + decimal(stat),
        stat >= 100 ==> padded_stat(stat) == decimal(stat),
{
    lemma_decimal_len(stat);
}

/// A stat of one digit is shown as two padding zeros and that digit.
pub open spec fn double_padded(stat: nat) -> Seq<char>
    recommends
        stat < 10,
{
    pad_marker(2) + seq![digit_char(stat)]
}

/// On the card of a record whose stats all have one digit, every stat is
/// padded with two zeros.
pub proof fn lemma_single_digits_double_padded(b: BeastieView)
    requires
        b.body_pow < 10,
        b.body_def < 10,
        b.spirit_pow < 10,
        b.spirit_def < 10,
        b.mind_pow < 10,
        b.mind_def < 10,
    ensures
        detail_card(b) == card_layout(
            b.name,
            StatFields {
                body_pow: double_padded(b.body_pow),
                body_def: double_padded(b.body_def),
                spirit_pow: double_padded(b.spirit_pow),
                spirit_def: double_padded(b.spirit_def),
                mind_pow: double_padded(b.mind_pow),
                mind_def: double_padded(b.mind_def),
            },
            b.description,
        ),
{
}

/// Renders one stat with its padding.
pub fn pad_stat(stat: u32) -> (field: String)
    ensures
        field@ == padded_stat(stat as nat),
{
    let digits = decimal_string(stat);
    if stat >= 100 {
        return digits;
    }
    let mut field = String::from_str(PAD_COLOR);
    field.push('0');
    if stat < 10 {
        field.push('0');
    }
    field.append(RESET);
    field.append(digits.as_str());
    proof {
        let count: nat = if stat < 10 { 2 } else { 1 };
        assert(PAD_COLOR@ + Seq::new(count, |i: int| '0') =~= if stat < 10 {
            PAD_COLOR@.push('0').push('0')
        } else {
            PAD_COLOR@.push('0')
        });
    }
    field
}

fn push_axis_line(card: &mut String, color: &str, label: &str, gap: &str, pow: u32, def: u32)
    ensures
        final(card)@ == old(card)@ + axis_line(
            color@,
            label@,
            gap@,
            padded_stat(pow as nat),
            padded_stat(def as nat),
        ),
{
    let pow_field = pad_stat(pow);
    let def_field = pad_stat(def);
    card.append(color);
    card.append(label);
    card.append(RESET);
    card.append(gap);
    card.append("POW/DEF: ");
    card.append(pow_field.as_str());
    card.append("/");
    card.append(def_field.as_str());
    assert(card@ =~= old(card)@ + axis_line(
        color@,
        label@,
        gap@,
        padded_stat(pow as nat),
        padded_stat(def as nat),
    ));
}

/// Renders the card of a record.
pub fn to_detail_string(beastie: &Beastie) -> (card: String)
    ensures
        card@ == detail_card(beastie@),
{
    let mut card = String::from_str("__**");
    card.append(beastie.name.as_str());
    card.append(":**__\n");
    card.append("```ansi\n");
    push_axis_line(&mut card, BODY_COLOR, "Body", "    ", beastie.body_pow, beastie.body_def);
    card.append("\n");
    push_axis_line(&mut card, SPIRIT_COLOR, "Spirit", "  ", beastie.spirit_pow, beastie.spirit_def);
    card.append("\n");
    push_axis_line(&mut card, MIND_COLOR, "Mind", "    ", beastie.mind_pow, beastie.mind_def);
    card.append("```\n");
    card.append("> ");
    card.append(beastie.description.as_str());
    card
}

} // verus!
