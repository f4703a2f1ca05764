//! The corpus loader: from the character database to character records.
//!
//! The database is a document in which `group` elements name a block in
//! their attribute `blk`, and `char` elements carry a code point in
//! hexadecimal in `cp` and a name in `na` or `na1`. A `char` belongs to the
//! block of the last `group` before it.

use crate::error::{ErrorKind, PickerError};
use crate::markup::{
    describe_markup_error, markup_of, next_markup, open_markup, pending, Attribute,
    AttributeModel, Markup, MarkupItem, MarkupStream,
};
use crate::record::{CharacterRecord, RecordModel};
use crate::text::{parse_number, parse_unsigned};
use vstd::prelude::*;

verus! {

/// Why a document yields no corpus.
pub enum CorpusFault {
    /// The document is not well formed.
    Markup,
    /// The text given as a code point is no hexadecimal number.
    CodePoint(Seq<char>),
}

/// The value of the first attribute in `attributes` whose name is `first` or `second`.
pub open spec fn first_value(
    attributes: Seq<AttributeModel>,
    first: Seq<char>,
    second: Seq<char>,
) -> Option<Seq<char>>
    decreases attributes.len(),
{
    if attributes.len() == 0 {
        None
    } else if attributes[0].name == first || attributes[0].name == second {
        Some(attributes[0].value)
    } else {
        first_value(attributes.drop_first(), first, second)
    }
}

/// What the loader has gathered so far: the current block and the records.
pub struct ScanModel {
    pub block: Seq<char>,
    pub records: Seq<RecordModel>,
}

/// The name or block of a record whose source gives none.
pub open spec fn missing_text() -> Seq<char> {
    "NONE"@
}

/// The code point, as text, of a character whose source gives none.
pub open spec fn missing_code_point() -> Seq<char> {
    "0"@
}

/// `text`, or the stand-in where it is missing or empty.
pub open spec fn or_missing(text: Seq<char>) -> Seq<char> {
    if text.len() == 0 {
        missing_text()
    } else {
        text
    }
}

/// The block that a `group` element with these attributes starts.
pub open spec fn group_block(attributes: Seq<AttributeModel>) -> Seq<char> {
    match first_value(attributes, "blk"@, "blk"@) {
        Some(block) => block,
        None => Seq::empty(),
    }
}

/// The code point of a `char` element with these attributes, as text.
pub open spec fn char_code_point(attributes: Seq<AttributeModel>) -> Seq<char> {
    match first_value(attributes, "cp"@, "cp"@) {
        Some(hex) => hex,
        None => missing_code_point(),
    }
}

/// The name of a `char` element with these attributes.
pub open spec fn char_name(attributes: Seq<AttributeModel>) -> Seq<char> {
    match first_value(attributes, "na"@, "na1"@) {
        Some(name) => name,
        None => missing_text(),
    }
}

/// The state after an element that starts with the name `name`.
pub open spec fn scan_element(state: ScanModel, name: Seq<char>, attributes: Seq<AttributeModel>)
    -> Result<ScanModel, CorpusFault> {
    if name == "group"@ {
        Ok(ScanModel { block: group_block(attributes), records: state.records })
    } else if name == "char"@ {
        let hex = char_code_point(attributes);
        match parse_number(hex, 16, u64::MAX as nat) {
            Some(code_point) => Ok(
                ScanModel {
                    block: state.block,
                    records: state.records.push(
                        RecordModel {
                            name: char_name(attributes),
                            block: or_missing(state.block),
                            code_point: code_point as u64,
                        },
                    ),
                },
            ),
            None => Err(CorpusFault::CodePoint(hex)),
        }
    } else {
        Ok(state)
    }
}

/// The state after one step of the document.
pub open spec fn scan_item(state: ScanModel, item: MarkupItem) -> Result<ScanModel, CorpusFault> {
    match item {
        MarkupItem::Open { name, attributes } => scan_element(state, name, attributes),
        MarkupItem::Other => Ok(state),
        MarkupItem::Broken => Err(CorpusFault::Markup),
    }
}

/// The state after the steps `items`, or the first fault among them.
pub open spec fn scan(items: Seq<MarkupItem>) -> Result<ScanModel, CorpusFault>
    decreases items.len(),
{
    if items.len() == 0 {
        Ok(ScanModel { block: Seq::empty(), records: Seq::empty() })
    } else {
        match scan(items.drop_last()) {
            Ok(state) => scan_item(state, items.last()),
            Err(fault) => Err(fault),
        }
    }
}

/// The records of a document that takes the steps `items`.
pub open spec fn corpus_records(items: Seq<MarkupItem>) -> Result<Seq<RecordModel>, CorpusFault> {
    match scan(items) {
        Ok(state) => Ok(state.records),
        Err(fault) => Err(fault),
    }
}

/// What the events `events` stand for.
pub open spec fn items_of(events: Seq<Markup>) -> Seq<MarkupItem> {
    Seq::new(events.len(), |i: int| events[i].deep_view())
}

/// Whether `r` is what loading yields where the document stands for `wanted`.
pub open spec fn load_result(
    r: Result<Vec<CharacterRecord>, PickerError>,
    wanted: Result<Seq<RecordModel>, CorpusFault>,
) -> bool {
    match wanted {
        Ok(records) => r matches Ok(found) && found.deep_view() == records,
        Err(fault) => r matches Err(error) && fault_described(error, fault),
    }
}

/// Whether `error` tells of `fault`: a malformed record, with the offending
/// text as its cause where a code point is at fault.
pub open spec fn fault_described(error: PickerError, fault: CorpusFault) -> bool {
    &&& error.kind() == ErrorKind::MalformedRecord
    &&& fault matches CorpusFault::CodePoint(hex) ==> error.cause() == hex
}

/// A fault is final: whatever follows it, the document yields the same fault.
pub proof fn lemma_fault_is_final(items: Seq<MarkupItem>, k: int)
    requires
        0 <= k <= items.len(),
        scan(items.take(k)) is Err,
    ensures
        scan(items) == scan(items.take(k)),
    decreases items.len() - k,
{
    if k == items.len() {
        assert(items.take(k) =~= items);
    } else {
        assert(items.take(k + 1).drop_last() =~= items.take(k));
        lemma_fault_is_final(items, k + 1);
    }
}

/// The number of `char` elements that start among the steps `items`.
pub open spec fn character_count(items: Seq<MarkupItem>) -> nat
    decreases items.len(),
{
    if items.len() == 0 {
        0
    } else {
        character_count(items.drop_last()) + if items.last() matches MarkupItem::Open { name, .. }
            && name == "char"@ {
            1nat
        } else {
            0nat
        }
    }
}

/// A corpus has one record for each `char` element of its document.
pub proof fn lemma_one_record_per_character(items: Seq<MarkupItem>)
    requires
        scan(items) is Ok,
    ensures
        scan(items)->Ok_0.records.len() == character_count(items),
    decreases items.len(),
{
    reveal_strlit("group");
    reveal_strlit("char");
    if items.len() > 0 {
        lemma_one_record_per_character(items.drop_last());
        assert("group"@.len() != "char"@.len());
    }
}

/// Every record of a corpus has a block that is not empty.
pub proof fn lemma_blocks_are_named(items: Seq<MarkupItem>, i: int)
    requires
        scan(items) matches Ok(state) && 0 <= i < state.records.len(),
    ensures
        scan(items)->Ok_0.records[i].block.len() > 0,
    decreases items.len(),
{
    reveal_strlit("NONE");
    if items.len() > 0 {
        let before = scan(items.drop_last())->Ok_0;
        if i < before.records.len() {
            lemma_blocks_are_named(items.drop_last(), i);
        }
    }
}

/// The state of a load that is under way.
pub struct CorpusScan {
    block: String,
    records: Vec<CharacterRecord>,
}

impl DeepView for CorpusScan {
    type V = ScanModel;

    closed spec fn deep_view(&self) -> ScanModel {
        ScanModel { block: self.block@, records: self.records.deep_view() }
    }
}

fn find_value<'a>(attributes: &'a Vec<Attribute>, first: &str, second: &str) -> (r: Option<
    &'a String,
>)
    ensures
        match first_value(attributes.deep_view(), first@, second@) {
            Some(value) => r matches Some(found) && found@ == value,
            None => r is None,
        },
{
    let first_name = first.to_owned();
    let second_name = second.to_owned();
    let ghost all = attributes.deep_view();
    let mut i: usize = 0;
    assert(all.skip(0) =~= all);
    while i < attributes.len()
        invariant
            i <= attributes.len(),
            all == attributes.deep_view(),
            first_name@ == first@,
            second_name@ == second@,
            first_value(all, first@, second@) == first_value(all.skip(i as int), first@, second@),
        decreases attributes.len() - i,
    {
        let attribute = &attributes[i];
        proof {
            let rest = all.skip(i as int);
            assert(rest[0] == attribute.deep_view());
            assert(rest.drop_first() =~= all.skip(i + 1));
        }
        if attribute.name == first_name || attribute.name == second_name {
            return Some(&attribute.value);
        }
        i += 1;
    }
    None
}

impl CorpusScan {
    /// A load that has seen nothing yet.
    pub fn new() -> (fresh: CorpusScan)
        ensures
            fresh.deep_view() == (ScanModel { block: Seq::empty(), records: Seq::empty() }),
    {
        let fresh = CorpusScan { block: String::new(), records: Vec::new() };
        assert(fresh.records.deep_view() =~= Seq::empty());
        fresh
    }

    /// Takes in the start of an element. On a fault nothing changes.
    pub fn feed_element(&mut self, name: &str, attributes: &Vec<Attribute>) -> (r: Result<
        (),
        PickerError,
    >)
        ensures
            match scan_element(old(self).deep_view(), name@, attributes.deep_view()) {
                Ok(state) => r is Ok && final(self).deep_view() == state,
                Err(fault) => {
                    &&& r matches Err(error) && fault_described(error, fault)
                    &&& final(self).deep_view() == old(self).deep_view()
                },
            },
    {
        let element = name.to_owned();
        if element == "group".to_owned() {
            self.block = match find_value(attributes, "blk", "blk") {
                Some(block) => block.clone(),
                None => String::new(),
            };
            Ok(())
        } else if element == "char".to_owned() {
            let hex: String = match find_value(attributes, "cp", "cp") {
                Some(hex) => hex.clone(),
                None => "0".to_owned(),
            };
            match parse_unsigned(hex.as_str(), 16, 0xffff_ffff_ffff_ffff) {
                Some(code_point) => {
                    let name: String = match find_value(attributes, "na", "na1") {
                        Some(name) => name.clone(),
                        None => "NONE".to_owned(),
                    };
                    let block: String = if self.block.as_str().is_empty() {
                        "NONE".to_owned()
                    } else {
                        self.block.clone()
                    };
                    let record = CharacterRecord { name, block, code_point };
                    let ghost before = self.records.deep_view();
                    self.records.push(record);
                    assert(self.records.deep_view() =~= before.push(record.deep_view()));
                    Ok(())
                },
                None => Err(PickerError::MalformedRecord(hex)),
            }
        } else {
            Ok(())
        }
    }

    /// Takes in one event of the document. On a fault nothing changes.
    pub fn feed(&mut self, event: &Markup) -> (r: Result<(), PickerError>)
        ensures
            match scan_item(old(self).deep_view(), event.deep_view()) {
                Ok(state) => r is Ok && final(self).deep_view() == state,
                Err(fault) => {
                    &&& r matches Err(error) && fault_described(error, fault)
                    &&& final(self).deep_view() == old(self).deep_view()
                },
            },
    {
        match event {
            Markup::Open { name, attributes } => self.feed_element(name.as_str(), attributes),
            Markup::Other => Ok(()),
        }
    }

    /// The records gathered.
    pub fn finish(self) -> (records: Vec<CharacterRecord>)
        ensures
            records.deep_view() == self.deep_view().records,
    {
        self.records
    }
}

/// The records of a document that consists of the events `events`.
pub fn records_from(events: &Vec<Markup>) -> (r: Result<Vec<CharacterRecord>, PickerError>)
    ensures
        load_result(r, corpus_records(items_of(events@))),
{
    let ghost items = items_of(events@);
    let mut state = CorpusScan::new();
    let mut i: usize = 0;
    assert(items.take(0) =~= Seq::empty());
    while i < events.len()
        invariant
            i <= events.len(),
            items == items_of(events@),
            scan(items.take(i as int)) == Ok::<ScanModel, CorpusFault>(state.deep_view()),
        decreases events.len() - i,
    {
        proof {
            assert(items.take(i + 1).drop_last() =~= items.take(i as int));
            assert(items.take(i + 1).last() == events@[i as int].deep_view());
        }
        match state.feed(&events[i]) {
            Ok(()) => {},
            Err(error) => {
                proof {
                    lemma_fault_is_final(items, i + 1);
                }
                return Err(error);
            },
        }
        i += 1;
    }
    proof {
        assert(items.take(i as int) =~= items);
    }
    Ok(state.finish())
}

/// The records of the document that `stream` has still to hand out. The
/// stream is read to its end or to the first fault.
pub(crate) fn load_stream(stream: &mut MarkupStream) -> (r: Result<
    Vec<CharacterRecord>,
    PickerError,
>)
    ensures
        load_result(r, corpus_records(pending(*old(stream)))),
{
    let ghost items = pending(*stream);
    let ghost mut seen: int = 0;
    let mut state = CorpusScan::new();
    assert(items.take(0) =~= Seq::empty());
    assert(items.skip(0) =~= items);
    loop
        invariant
            0 <= seen <= items.len(),
            items == pending(*old(stream)),
            pending(*stream) == items.skip(seen),
            scan(items.take(seen)) == Ok::<ScanModel, CorpusFault>(state.deep_view()),
        decreases items.len() - seen,
    {
        let step = next_markup(stream);
        proof {
            if seen < items.len() {
                assert(items.take(seen + 1).drop_last() =~= items.take(seen));
                assert(items.take(seen + 1).last() == items.skip(seen)[0]);
                assert(items.skip(seen).skip(1) =~= items.skip(seen + 1));
            }
        }
        match step {
            None => {
                proof {
                    assert(items.take(seen) =~= items);
                }
                return Ok(state.finish());
            },
            Some(Err(error)) => {
                proof {
                    lemma_fault_is_final(items, seen + 1);
                }
                return Err(PickerError::MalformedRecord(describe_markup_error(&error)));
            },
            Some(Ok(event)) => {
                match state.feed(&event) {
                    Ok(()) => {},
                    Err(error) => {
                        proof {
                            lemma_fault_is_final(items, seen + 1);
                        }
                        return Err(error);
                    },
                }
            },
        }
        proof {
            seen = seen + 1;
        }
    }
}

/// The records of the corpus document `bytes`.
///
/// Nothing is returned of a document with a fault in it: the load is all or
/// nothing.
pub fn load_corpus(bytes: &[u8]) -> (r: Result<Vec<CharacterRecord>, PickerError>)
    ensures
        load_result(r, corpus_records(markup_of(bytes@))),
{
    let mut stream = open_markup(bytes);
    load_stream(&mut stream)
}

} // verus!
