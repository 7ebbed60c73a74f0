//! Loading the dataset: a JSON object whose members are the entries, each an
//! object with a `name`, the six stats under two-letter keys, and a `desc`.
//! One entry that does not fit fails the whole load.

use vstd::prelude::*;
use vstd::string::*;
use crate::dataset::Dataset;
use crate::json::{json_document, parse_json, Json};
use crate::record::{Beastie, BeastieView};
use crate::text::str_eq;

verus! {

/// Why a dataset could not be loaded.
#[derive(Debug, Clone, Copy, PartialEq, Eq, Structural)]
pub enum DatasetError {
    /// The text is not well-formed JSON.
    Malformed,
    /// The document is not an object, so it has no entries.
    NotAMapping,
    /// An entry is not a creature record: it is no object, or one of its
    /// fields is missing or holds a value of the wrong type. `entry` is the
    /// position of the first such entry among the document's members.
    BadEntry { entry: usize },
}

/// The value of the first member with this key, if there is one.
pub open spec fn member(members: Seq<(String, Json)>, key: Seq<char>) -> Option<Json>
    decreases members.len(),
{
    if members.len() == 0 {
        None
    } else if members[0].0@ == key {
        Some(members[0].1)
    } else {
        member(members.drop_first(), key)
    }
}

/// A field read as a text: it is there, and it is a string.
pub open spec fn text_field(members: Seq<(String, Json)>, key: Seq<char>) -> Option<Seq<char>> {
    match member(members, key) {
        Some(Json::Text(text)) => Some(text@),
        _ => None,
    }
}

/// A field read as a stat: it is there, and it is an integer from 0 to
/// `u32::MAX`.
pub open spec fn stat_field(members: Seq<(String, Json)>, key: Seq<char>) -> Option<nat> {
    match member(members, key) {
        Some(Json::Number(Some(n))) => if n <= u32::MAX {
            Some(n as nat)
        } else {
            None
        },
        _ => None,
    }
}

/// Whether an object with these members is a creature record: all eight
/// fields can be read. Members with other keys do not matter.
pub open spec fn is_record(members: Seq<(String, Json)>) -> bool {
    &&& text_field(members, "name"@) is Some
    &&& stat_field(members, "ba"@) is Some
    &&& stat_field(members, "bd"@) is Some
    &&& stat_field(members, "ha"@) is Some
    &&& stat_field(members, "hd"@) is Some
    &&& stat_field(members, "ma"@) is Some
    &&& stat_field(members, "md"@) is Some
    &&& text_field(members, "desc"@) is Some
}

/// The creature record that an entry holds, if it is one.
pub open spec fn record_of(entry: Json) -> Option<BeastieView> {
    match entry {
        Json::Object(members) => if is_record(members@) {
            Some(
                BeastieView {
                    name: text_field(members@, "name"@)->0,
                    body_pow: stat_field(members@, "ba"@)->0,
                    body_def: stat_field(members@, "bd"@)->0,
                    spirit_pow: stat_field(members@, "ha"@)->0,
                    spirit_def: stat_field(members@, "hd"@)->0,
                    mind_pow: stat_field(members@, "ma"@)->0,
                    mind_def: stat_field(members@, "md"@)->0,
                    description: text_field(members@, "desc"@)->0,
                },
            )
        } else {
            None
        },
        _ => None,
    }
}

/// Whether `i` is the position of the first entry that is no record.
pub open spec fn is_first_bad_entry(entries: Seq<(String, Json)>, i: int) -> bool {
    &&& 0 <= i < entries.len()
    &&& record_of(entries[i].1) is None
    &&& forall|j: int| 0 <= j < i ==> record_of((#[trigger] entries[j]).1) is Some
}

/// Whether every entry is a record.
pub open spec fn all_records(entries: Seq<(String, Json)>) -> bool {
    forall|i: int| 0 <= i < entries.len() ==> record_of((#[trigger] entries[i]).1) is Some
}

/// The dataset that a document holds: the records of its entries, in the
/// document's order; or the reason why it holds none.
pub open spec fn dataset_of(doc: Json) -> Result<Seq<BeastieView>, DatasetError> {
    match doc {
        Json::Object(entries) => if all_records(entries@) {
            Ok(Seq::new(entries@.len(), |i: int| record_of(entries@[i].1)->0))
        } else {
            Err(
                DatasetError::BadEntry {
                    entry: (choose|i: int| is_first_bad_entry(entries@, i)) as usize,
                },
            )
        },
        _ => Err(DatasetError::NotAMapping),
    }
}

/// The dataset that a text holds.
pub open spec fn dataset_in(text: Seq<char>) -> Result<Seq<BeastieView>, DatasetError> {
    match json_document(text) {
        Some(doc) => dataset_of(doc),
        None => Err(DatasetError::Malformed),
    }
}

fn find_member<'a>(members: &'a Vec<(String, Json)>, key: &str) -> (found: Option<&'a Json>)
    ensures
        match found {
            Some(value) => member(members@, key@) == Some(*value),
            None => member(members@, key@) is None,
        },
{
    let mut i: usize = 0;
    assert(members@.skip(0) =~= members@);
    while i < members.len()
        invariant
            i <= members.len(),
            member(members@, key@) == member(members@.skip(i as int), key@),
        decreases members.len() - i,
    {
        if str_eq(members[i].0.as_str(), key) {
            return Some(&members[i].1);
        }
        assert(members@.skip(i as int).drop_first() =~= members@.skip(i + 1));
        i += 1;
    }
    None
}

fn read_text(members: &Vec<(String, Json)>, key: &str) -> (text: Option<String>)
    ensures
        match text {
            Some(text) => text_field(members@, key@) == Some(text@),
            None => text_field(members@, key@) is None,
        },
{
    match find_member(members, key) {
        Some(Json::Text(text)) => Some(text.clone()),
        _ => None,
    }
}

fn read_stat(members: &Vec<(String, Json)>, key: &str) -> (stat: Option<u32>)
    ensures
        match stat {
            Some(stat) => stat_field(members@, key@) == Some(stat as nat),
            None => stat_field(members@, key@) is None,
        },
{
    match find_member(members, key) {
        Some(Json::Number(Some(n))) => if *n <= u32::MAX as u64 {
            Some(*n as u32)
        } else {
            None
        },
        _ => None,
    }
}

/// Reads one entry as a creature record.
pub fn to_beastie(entry: &Json) -> (record: Option<Beastie>)
    ensures
        match record {
            Some(beastie) => record_of(*entry) == Some(beastie@),
            None => record_of(*entry) is None,
        },
{
    let members = match entry {
        Json::Object(members) => members,
        _ => return None,
    };
    let name = match read_text(members, "name") {
        Some(text) => text,
        None => return None,
    };
    let body_pow = match read_stat(members, "ba") {
        Some(stat) => stat,
        None => return None,
    };
    let body_def = match read_stat(members, "bd") {
        Some(stat) => stat,
        None => return None,
    };
    let spirit_pow = match read_stat(members, "ha") {
        Some(stat) => stat,
        None => return None,
    };
    let spirit_def = match read_stat(members, "hd") {
        Some(stat) => stat,
        None => return None,
    };
    let mind_pow = match read_stat(members, "ma") {
        Some(stat) => stat,
        None => return None,
    };
    let mind_def = match read_stat(members, "md") {
        Some(stat) => stat,
        None => return None,
    };
    let description = match read_text(members, "desc") {
        Some(text) => text,
        None => return None,
    };
    Some(
        Beastie {
            name,
            body_pow,
            body_def,
            spirit_pow,
            spirit_def,
            mind_pow,
            mind_def,
            description,
        },
    )
}

/// Reads a document as a dataset: every entry as a record, in the
/// document's order.
pub fn dataset_from_json(doc: &Json) -> (loaded: Result<Dataset, DatasetError>)
    ensures
        match loaded {
            Ok(dataset) => dataset_of(*doc) == Ok::<Seq<BeastieView>, DatasetError>(dataset@),
            Err(error) => dataset_of(*doc) == Err::<Seq<BeastieView>, DatasetError>(error),
        },
{
    let entries = match doc {
        Json::Object(entries) => entries,
        _ => return Err(DatasetError::NotAMapping),
    };
    let mut records: Vec<Beastie> = Vec::new();
    let mut i: usize = 0;
    while i < entries.len()
        invariant
            i <= entries.len(),
            *doc == Json::Object(*entries),
            records@.len() == i,
            forall|j: int| 0 <= j < i ==> record_of((#[trigger] entries@[j]).1) == Some(records@[j]@),
        decreases entries.len() - i,
    {
        match to_beastie(&entries[i].1) {
            Some(beastie) => records.push(beastie),
            None => {
                proof {
                    assert(is_first_bad_entry(entries@, i as int));
                    let k = choose|k: int| is_first_bad_entry(entries@, k);
                    assert(k == i);
                }
                return Err(DatasetError::BadEntry { entry: i });
            },
        }
        i += 1;
    }
    let dataset = Dataset::new(records);
    assert(dataset@ =~= Seq::new(entries@.len(), |i: int| record_of(entries@[i].1)->0));
    Ok(dataset)
}

/// Loads the dataset from the text of its resource.
pub fn load_dataset(text: &str) -> (loaded: Result<Dataset, DatasetError>)
    ensures
        match loaded {
            Ok(dataset) => dataset_in(text@) == Ok::<Seq<BeastieView>, DatasetError>(dataset@),
            Err(error) => dataset_in(text@) == Err::<Seq<BeastieView>, DatasetError>(error),
        },
{
    match parse_json(text) {
        Some(doc) => dataset_from_json(&doc),
        None => Err(DatasetError::Malformed),
    }
}

} // verus!
