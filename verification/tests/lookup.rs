use beastie_cards::command::{
    handle_beastie_command, is_well_formed_command, react_to_message, Reaction, NAME_MISSING,
    NOT_FOUND,
};
use beastie_cards::dataset::{get_beastie, Dataset};
use beastie_cards::record::Beastie;
use beastie_cards::render::to_detail_string;

fn beastie(name: &str, stats: [u32; 6], description: &str) -> Beastie {
    Beastie {
        name: String::from(name),
        body_pow: stats[0],
        body_def: stats[1],
        spirit_pow: stats[2],
        spirit_def: stats[3],
        mind_pow: stats[4],
        mind_def: stats[5],
        description: String::from(description),
    }
}

fn sample() -> Dataset {
    Dataset::new(vec![
        beastie("Sprecko", [5, 50, 500, 5000, 7, 70], "Small."),
        beastie("Trat", [81, 49, 23, 93, 64, 84], "Found in dumpsters."),
        beastie("Trat", [1, 1, 1, 1, 1, 1], "A second of the name."),
        beastie("Axolati", [100, 99, 10, 9, 0, 4294967295], ""),
    ])
}

#[test]
fn dataset_keeps_its_records() {
    let dataset = sample();
    assert_eq!(dataset.len(), 4);
    assert_eq!(dataset.records[3].name, "Axolati");
    assert_eq!(Dataset::new(Vec::new()).len(), 0);
}

#[test]
fn get_beastie_finds_by_exact_name() {
    let dataset = sample();
    let found = get_beastie(&dataset, "Sprecko").unwrap();
    assert_eq!(found.name, "Sprecko");
    assert_eq!(found.spirit_def, 5000);
}

#[test]
fn get_beastie_takes_the_first_of_two() {
    let dataset = sample();
    let found = get_beastie(&dataset, "Trat").unwrap();
    assert_eq!(found.body_pow, 81);
    assert_eq!(found.description, "Found in dumpsters.");
}

#[test]
fn get_beastie_does_not_fold_case() {
    let dataset = sample();
    assert!(get_beastie(&dataset, "trat").is_none());
    assert!(get_beastie(&dataset, "TRAT").is_none());
}

#[test]
fn get_beastie_does_not_trim() {
    let dataset = sample();
    assert!(get_beastie(&dataset, "Trat ").is_none());
    assert!(get_beastie(&dataset, " Trat").is_none());
    assert!(get_beastie(&dataset, "Trat\n").is_none());
    assert!(get_beastie(&dataset, "").is_none());
}

#[test]
fn get_beastie_finds_nothing_in_an_empty_dataset() {
    let dataset = Dataset::new(Vec::new());
    assert!(get_beastie(&dataset, "Trat").is_none());
}

#[test]
fn to_detail_string_mixes_widths() {
    let card = to_detail_string(&beastie("Axolati", [100, 99, 10, 9, 0, 4294967295], ""));
    let expected = "__**Axolati:**__\n```ansi\n\
\x1b[2;33mBody\x1b[0m    POW/DEF: 100/\x1b[2;30m0\x1b[0m99\n\
\x1b[2;31mSpirit\x1b[0m  POW/DEF: \x1b[2;30m0\x1b[0m10/\x1b[2;30m00\x1b[0m9\n\
\x1b[2;34mMind\x1b[0m    POW/DEF: \x1b[2;30m00\x1b[0m0/4294967295```\n> ";
    assert_eq!(card, expected);
}

#[test]
fn to_detail_string_keeps_name_and_description_verbatim() {
    let card = to_detail_string(&beastie(" two  Words ", [1, 2, 3, 4, 5, 6], "Line one.\nLine two. "));
    assert!(card.starts_with("__** two  Words :**__\n```ansi\n"));
    assert!(card.ends_with("```\n> Line one.\nLine two. "));
}

#[test]
fn handle_answers_every_short_command_with_the_same_sentence() {
    let dataset = sample();
    for input in ["", "!", "!beastie", "!beastie ", "123456789", "Trat", "éééé"] {
        assert_eq!(handle_beastie_command(input, &dataset), NAME_MISSING);
    }
    assert_eq!(NAME_MISSING, "You must say the name of the beastie...");
}

#[test]
fn handle_answers_an_unknown_name_with_the_same_sentence() {
    let dataset = sample();
    for input in ["!beastie x", "!beastie sfjalf", "!beastie tratt", "!beastie 42"] {
        assert_eq!(handle_beastie_command(input, &dataset), NOT_FOUND);
    }
    assert_eq!(NOT_FOUND, "Sorry, I couldn't find that beastie");
}

#[test]
fn handle_does_not_trim_the_name() {
    let dataset = sample();
    assert_eq!(handle_beastie_command("!beastie trat ", &dataset), NOT_FOUND);
    assert_eq!(handle_beastie_command("!beastie  trat", &dataset), NOT_FOUND);
}

#[test]
fn handle_takes_the_name_in_any_case() {
    let dataset = sample();
    let card = to_detail_string(&dataset.records[1]);
    for input in ["!beastie trat", "!beastie TRAT", "!beastie tRAt", "!beastie Trat"] {
        assert_eq!(handle_beastie_command(input, &dataset), card);
    }
}

#[test]
fn handle_counts_nine_bytes_whatever_they_are() {
    let dataset = sample();
    let card = to_detail_string(&dataset.records[0]);
    assert_eq!(handle_beastie_command("123456789sprecko", &dataset), card);
    assert_eq!(handle_beastie_command("!beastie-sprecko", &dataset), card);
    assert_eq!(handle_beastie_command("ééééxsprecko", &dataset), card);
}

#[test]
fn a_command_is_well_formed_where_its_name_can_be_cut_out() {
    assert!(is_well_formed_command(""));
    assert!(is_well_formed_command("!beastie "));
    assert!(is_well_formed_command("!beastie trat"));
    assert!(is_well_formed_command("!beastie tré"));
    assert!(is_well_formed_command("éééé"));
    assert!(is_well_formed_command("ééééxy"));
    assert!(!is_well_formed_command("!beastie été"));
    assert!(!is_well_formed_command("!beastieé t"));
    assert!(!is_well_formed_command("ééééé"));
    assert!(!is_well_formed_command("ééééés"));
}

#[test]
fn a_message_that_is_no_command_calls_for_nothing() {
    let dataset = sample();
    for content in ["hello there", "", " !beastie trat", "!Beastie trat", "!beast", "ééééé"] {
        assert!(matches!(react_to_message(content, &dataset), Reaction::Nothing));
    }
}

#[test]
fn a_command_calls_for_its_reply() {
    let dataset = sample();
    let card = to_detail_string(&dataset.records[0]);
    for (content, expected) in [
        ("!beastie", NAME_MISSING),
        ("!beastie ", NAME_MISSING),
        ("!beastie nobody", NOT_FOUND),
        ("!beasties sprecko", NOT_FOUND),
        ("!beastie sprecko", card.as_str()),
        ("!beastie SPRECKO", card.as_str()),
    ] {
        match react_to_message(content, &dataset) {
            Reaction::Reply(text) => assert_eq!(text, expected),
            other => panic!("{:?}", other),
        }
    }
}

#[test]
fn a_command_with_a_wide_character_at_the_cut_is_malformed() {
    let dataset = sample();
    for content in ["!beastie été", "!beastieé t", "!beastie éé"] {
        assert!(matches!(react_to_message(content, &dataset), Reaction::Malformed));
    }
}
