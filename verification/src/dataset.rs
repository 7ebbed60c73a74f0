//! The dataset: creature records in a fixed order, searched by exact name.

use vstd::prelude::*;
use crate::record::{Beastie, BeastieView};
use crate::text::str_eq;

verus! {

/// The creature records, in the order in which their source gave them.
/// Nothing keeps two records from bearing the same name: a search finds the
/// one that comes first.
#[derive(Debug)]
pub struct Dataset {
    pub records: Vec<Beastie>,
}

impl View for Dataset {
    type V = Seq<BeastieView>;

    open spec fn view(&self) -> Seq<BeastieView> {
        self.records@.map_values(|b: Beastie| b@)
    }
}

/// Whether some record bears exactly this name.
pub open spec fn has_record(records: Seq<BeastieView>, name: Seq<char>) -> bool {
    exists|i: int| 0 <= i < records.len() && (#[trigger] records[i]).name == name
}

/// Whether `i` is the position of the first record that bears exactly this
/// name.
pub open spec fn is_first_match(records: Seq<BeastieView>, name: Seq<char>, i: int) -> bool {
    &&& 0 <= i < records.len()
    &&& records[i].name == name
    &&& forall|j: int| 0 <= j < i ==> (#[trigger] records[j]).name != name
}

/// The first record that bears exactly this name, if there is one.
pub open spec fn resolve(records: Seq<BeastieView>, name: Seq<char>) -> Option<BeastieView> {
    if has_record(records, name) {
        Some(records[choose|i: int| is_first_match(records, name, i)])
    } else {
        None
    }
}

/// A first match is the only first match, and it is what `resolve` gives.
pub proof fn lemma_first_match_resolves(records: Seq<BeastieView>, name: Seq<char>, i: int)
    requires
        is_first_match(records, name, i),
    ensures
        has_record(records, name),
        resolve(records, name) == Some(records[i]),
{
    let k = choose|k: int| is_first_match(records, name, k);
    assert(is_first_match(records, name, k));
    assert(k == i);
}

/// A search never answers with a record of another name: what it finds is
/// in the dataset and bears the name letter for letter, with nothing
/// trimmed or folded; and it finds nothing only where no record bears it.
pub proof fn lemma_resolve_exact(records: Seq<BeastieView>, name: Seq<char>)
    ensures
        match resolve(records, name) {
            Some(found) => found.name == name && records.contains(found),
            None => forall|i: int| 0 <= i < records.len() ==> (#[trigger] records[i]).name != name,
        },
{
    if has_record(records, name) {
        let w = choose|i: int| 0 <= i < records.len() && (#[trigger] records[i]).name == name;
        lemma_some_first_match(records, name, w);
    }
}

proof fn lemma_some_first_match(records: Seq<BeastieView>, name: Seq<char>, upto: int)
    requires
        0 <= upto < records.len(),
        records[upto].name == name,
    ensures
        exists|k: int| is_first_match(records, name, k),
    decreases upto,
{
    if exists|j: int| 0 <= j < upto && (#[trigger] records[j]).name == name {
        let j = choose|j: int| 0 <= j < upto && (#[trigger] records[j]).name == name;
        lemma_some_first_match(records, name, j);
    } else {
        assert(is_first_match(records, name, upto));
    }
}

impl Dataset {
    /// A dataset of these records, in this order.
    pub fn new(records: Vec<Beastie>) -> (dataset: Dataset)
        ensures
            dataset.records == records,
    {
        Dataset { records }
    }

    /// The number of records.
    pub fn len(&self) -> (n: usize)
        ensures
            n == self@.len(),
    {
        self.records.len()
    }
}

/// Looks a record up by its exact name: the first one in the dataset whose
/// name equals `beastie_name`, or nothing.
pub fn get_beastie<'a>(dataset: &'a Dataset, beastie_name: &str) -> (found: Option<&'a Beastie>)
    ensures
        match found {
            Some(beastie) => exists|i: int|
                is_first_match(dataset@, beastie_name@, i) && dataset.records@[i] == *beastie,
            None => !has_record(dataset@, beastie_name@),
        },
        match found {
            Some(beastie) => resolve(dataset@, beastie_name@) == Some(beastie@),
            None => resolve(dataset@, beastie_name@) is None,
        },
{
    let mut i: usize = 0;
    while i < dataset.records.len()
        invariant
            i <= dataset.records.len(),
            forall|j: int| 0 <= j < i ==> (#[trigger] dataset@[j]).name != beastie_name@,
        decreases dataset.records.len() - i,
    {
        let beastie = &dataset.records[i];
        if str_eq(beastie.name.as_str(), beastie_name) {
            proof {
                lemma_first_match_resolves(dataset@, beastie_name@, i as int);
            }
            return Some(beastie);
        }
        i += 1;
    }
    None
}

} // verus!
