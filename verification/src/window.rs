//! The result window: the slice of the results that is visible, row by row.

use crate::record::{decode, decoded, CharacterRecord, RecordModel};
use crate::state::{QueryState, StateModel, PAGE_SIZE};
use vstd::prelude::*;
use vstd::string::StringExecFns;

verus! {

/// One visible result.
#[derive(Debug, PartialEq, Eq)]
pub struct Row {
    pub label: String,
    pub selected: bool,
}

/// What a `Row` stands for.
pub struct RowModel {
    pub label: Seq<char>,
    pub selected: bool,
}

impl DeepView for Row {
    type V = RowModel;

    open spec fn deep_view(&self) -> RowModel {
        RowModel { label: self.label@, selected: self.selected }
    }
}

/// The character shown for a code point: the character itself, or a space
/// where the code point denotes none.
pub open spec fn glyph(code_point: u64) -> char {
    match decoded(code_point) {
        Some(c) => c,
        None => ' ',
    }
}

/// The line shown for a record: the character, a colon, the name, a dash, the block.
pub open spec fn label_of(record: RecordModel) -> Seq<char> {
    seq![glyph(record.code_point)] + ": "@ + record.name + " - "@ + record.block
}

/// The line shown for `record`.
pub fn label(record: &CharacterRecord) -> (text: String)
    ensures
        text@ == label_of(record.deep_view()),
{
    let mut text = String::new();
    text.push(
        match decode(record.code_point) {
            Some(c) => c,
            None => ' ',
        },
    );
    text.append(": ");
    text.append(record.name.as_str());
    text.append(" - ");
    text.append(record.block.as_str());
    assert(text@ =~= label_of(record.deep_view()));
    text
}

impl StateModel {
    /// The index behind the last visible result.
    pub open spec fn window_end(self) -> nat {
        if self.scroll + PAGE_SIZE < self.count() {
            (self.scroll + PAGE_SIZE) as nat
        } else {
            self.count()
        }
    }

    /// The visible results, top to bottom, each with its line and whether it
    /// is the selected one.
    pub open spec fn rows(self) -> Seq<RowModel> {
        Seq::new(
            (self.window_end() - self.scroll) as nat,
            |i: int|
                RowModel {
                    label: label_of(self.results->Some_0[self.scroll + i]),
                    selected: self.scroll + i == self.selected,
                },
        )
    }
}

/// The selected result is always among the visible ones: where there are
/// results, at most a page of them is visible, and the selected one is the
/// one row that is marked.
pub proof fn lemma_selection_is_visible(state: StateModel)
    requires
        state.well_formed(),
        state.count() > 0,
    ensures
        0 < state.rows().len() <= PAGE_SIZE,
        forall|i: int|
            0 <= i < state.rows().len() ==> ((#[trigger] state.rows()[i]).selected <==> i
                == state.selected - state.scroll),
        0 <= state.selected - state.scroll < state.rows().len(),
{
}

/// The visible results of `state`.
pub fn visible_rows(state: &QueryState) -> (rows: Vec<Row>)
    ensures
        rows.deep_view() == state.deep_view().rows(),
{
    let mut rows: Vec<Row> = Vec::new();
    let scroll = state.scroll_offset();
    let selected = state.selected_index();
    let count = state.result_count();
    match state.results() {
        None => {
            assert(rows.deep_view() =~= state.deep_view().rows());
        },
        Some(records) => {
            let end: usize = if scroll + PAGE_SIZE < count {
                scroll + PAGE_SIZE
            } else {
                count
            };
            let mut i: usize = scroll;
            let ghost model = state.deep_view();
            while i < end
                invariant
                    scroll <= i <= end <= count,
                    count == records.len(),
                    end == model.window_end(),
                    scroll == model.scroll,
                    selected == model.selected,
                    model.results == Some(records.deep_view()),
                    rows.len() == i - scroll,
                    forall|k: int|
                        0 <= k < rows.len() ==> (#[trigger] rows[k]).deep_view() == model.rows()[k],
                decreases end - i,
            {
                let row = Row { label: label(&records[i]), selected: i == selected };
                rows.push(row);
                i += 1;
            }
            assert(rows.deep_view() =~= model.rows());
        },
    }
    rows
}

} // verus!
