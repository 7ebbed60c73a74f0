//! The creature record and its mathematical view.

use vstd::prelude::*;

verus! {

/// One creature's profile: a display name, a power and a defense value on
/// each of the three axes (body, spirit, mind), and a description.
#[derive(Debug)]
pub struct Beastie {
    pub name: String,
    pub body_pow: u32,
    pub body_def: u32,
    pub spirit_pow: u32,
    pub spirit_def: u32,
    pub mind_pow: u32,
    pub mind_def: u32,
    pub description: String,
}

/// What a [`Beastie`] is to the contracts: texts as character sequences,
/// stats as natural numbers.
pub struct BeastieView {
    pub name: Seq<char>,
    pub body_pow: nat,
    pub body_def: nat,
    pub spirit_pow: nat,
    pub spirit_def: nat,
    pub mind_pow: nat,
    pub mind_def: nat,
    pub description: Seq<char>,
}

impl View for Beastie {
    type V = BeastieView;

    open spec fn view(&self) -> BeastieView {
        BeastieView {
            name: self.name@,
            body_pow: self.body_pow as nat,
            body_def: self.body_def as nat,
            spirit_pow: self.spirit_pow as nat,
            spirit_def: self.spirit_def as nat,
            mind_pow: self.mind_pow as nat,
            mind_def: self.mind_def as nat,
            description: self.description@,
        }
    }
}

} // verus!
