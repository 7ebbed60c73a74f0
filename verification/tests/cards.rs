use beastie_cards::command::handle_beastie_command;
use beastie_cards::dataset::Dataset;
use beastie_cards::name::normalise_beastie_name;
use beastie_cards::record::Beastie;
use beastie_cards::render::{pad_stat, to_detail_string};

fn trat() -> Beastie {
    Beastie {
        name: String::from("Trat"),
        body_pow: 81,
        body_def: 49,
        spirit_pow: 23,
        spirit_def: 93,
        mind_pow: 64,
        mind_def: 84,
        description: String::from(
            "They are often found in dumpsters. When they outgrow their can, Trats will gather with many others to exchange for larger cans.",
        ),
    }
}

fn dataset() -> Dataset {
    Dataset::new(vec![trat()])
}

#[test]
fn handle_beastie_command_gets_details_for_beastie() {
    let input = "!beastie trat";
    let expected_output = "__**Trat:**__
```ansi
\x1b[2;33mBody\x1b[0m    POW/DEF: \x1b[2;30m0\x1b[0m81/\x1b[2;30m0\x1b[0m49
\x1b[2;31mSpirit\x1b[0m  POW/DEF: \x1b[2;30m0\x1b[0m23/\x1b[2;30m0\x1b[0m93
\x1b[2;34mMind\x1b[0m    POW/DEF: \x1b[2;30m0\x1b[0m64/\x1b[2;30m0\x1b[0m84```
> They are often found in dumpsters. When they outgrow their can, Trats will gather with many others to exchange for larger cans.";

    let actual_output = handle_beastie_command(input, &dataset());

    assert_eq!(actual_output, expected_output);
}

#[test]
fn handle_beastie_command_copes_when_no_beastie_is_provided() {
    let input = "!beastie ";
    let expected_output = "You must say the name of the beastie...";

    let actual_output = handle_beastie_command(&input, &dataset());

    assert_eq!(actual_output, expected_output);
}

#[test]
fn handle_beastie_command_copes_when_beastie_is_not_found() {
    let input = "!beastie sfjalf";
    let expected_output = "Sorry, I couldn't find that beastie";

    let actual_output = handle_beastie_command(&input, &dataset());

    assert_eq!(actual_output, expected_output);
}

#[test]
fn to_detail_string_formats_beastie_details() {
    let input: Beastie = Beastie {
        name: String::from("Test Beastie"),
        body_pow: 1,
        body_def: 2,
        spirit_pow: 3,
        spirit_def: 4,
        mind_pow: 5,
        mind_def: 6,
        description: String::from("Test Description"),
    };

    let expected_output = "__**Test Beastie:**__
```ansi
\x1b[2;33mBody\x1b[0m    POW/DEF: \x1b[2;30m00\x1b[0m1/\x1b[2;30m00\x1b[0m2
\x1b[2;31mSpirit\x1b[0m  POW/DEF: \x1b[2;30m00\x1b[0m3/\x1b[2;30m00\x1b[0m4
\x1b[2;34mMind\x1b[0m    POW/DEF: \x1b[2;30m00\x1b[0m5/\x1b[2;30m00\x1b[0m6```
> Test Description";

    let actual_output = to_detail_string(&input);

    assert_eq!(actual_output, expected_output);
}

#[test]
fn pad_stat_double_pads_stats_lower_than_10() {
    let input = 9;
    let expected_output = "\x1b[2;30m00\x1b[0m9";

    let actual_output = pad_stat(input);

    assert_eq!(actual_output, expected_output);
}

#[test]
fn pad_stat_pads_stats_lower_than_100() {
    let input = 99;
    let expected_output = "\x1b[2;30m0\x1b[0m99";

    let actual_output = pad_stat(input);

    assert_eq!(actual_output, expected_output);
}

#[test]
fn pad_stat_does_not_pad_stats_at_or_over_100() {
    let input = 100;
    let expected_output = "100";

    let actual_output = pad_stat(input);

    assert_eq!(actual_output, expected_output);
}

#[test]
fn normalize_beastie_name_handles_all_upper() {
    let input = "TRAT";
    let expected_output = "Trat";

    let actual_output = normalise_beastie_name(input);

    assert_eq!(actual_output, expected_output);
}

#[test]
fn normalize_beastie_name_handles_all_lower() {
    let input = "trat";
    let expected_output = "Trat";

    let actual_output = normalise_beastie_name(input);

    assert_eq!(actual_output, expected_output);
}

#[test]
fn normalize_beastie_name_handles_a_mixture_of_cases() {
    let input = "tRaT";
    let expected_output = "Trat";

    let actual_output = normalise_beastie_name(input);

    assert_eq!(actual_output, expected_output);
}
