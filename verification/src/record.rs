//! One character of the corpus, as it is indexed and as a query returns it.

use crate::text::scalar_char;
use vstd::prelude::*;

verus! {

/// A character of the corpus: its name, the block it belongs to and its code point.
#[derive(Clone, Debug, PartialEq, Eq)]
pub struct CharacterRecord {
    pub name: String,
    pub block: String,
    pub code_point: u64,
}

/// What a `CharacterRecord` stands for.
pub struct RecordModel {
    pub name: Seq<char>,
    pub block: Seq<char>,
    pub code_point: u64,
}

impl DeepView for CharacterRecord {
    type V = RecordModel;

    open spec fn deep_view(&self) -> RecordModel {
        RecordModel { name: self.name@, block: self.block@, code_point: self.code_point }
    }
}

/// The character that the code point `code_point` denotes: the one whose scalar
/// value is the low 32 bits of `code_point`, if these are a scalar value.
pub open spec fn decoded(code_point: u64) -> Option<char> {
    scalar_char((code_point % 0x1_0000_0000) as nat)
}

impl CharacterRecord {
    /// The record of the character with the code point `code_point`.
    pub fn new(name: String, block: String, code_point: u64) -> (r: CharacterRecord)
        ensures
            r.deep_view() == (RecordModel { name: name@, block: block@, code_point }),
    {
        CharacterRecord { name, block, code_point }
    }

    /// The character itself, where the code point denotes one.
    pub fn character(&self) -> (r: Option<char>)
        ensures
            r == decoded(self.code_point),
    {
        decode(self.code_point)
    }
}

/// The character that `code_point` denotes.
pub fn decode(code_point: u64) -> (r: Option<char>)
    ensures
        r == decoded(code_point),
{
    let low: u32 = (code_point % 0x1_0000_0000) as u32;
    char::from_u32(low)
}

} // verus!
