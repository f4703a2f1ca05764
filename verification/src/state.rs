//! The interaction state: the query text with its edit cursor, the current
//! results with the selection and the visible window, and what each input
//! event does to them.

use crate::record::{decode, decoded, CharacterRecord, RecordModel};
use crate::text::{char_is_control, is_control, string_of, with_inserted, with_removed};
use vstd::prelude::*;

verus! {

/// The number of results that are visible at once.
pub const PAGE_SIZE: usize = 20;

/// By how many results the visible window moves when the selection leaves it.
pub const SCROLL_STEP: usize = 2;

/// The largest number of results that are kept.
pub const RESULT_LIMIT: usize = 40;

/// The window that had the focus when the picker was summoned.
#[derive(Clone, Copy, Debug, PartialEq, Eq, Structural)]
pub struct TargetWindow(pub usize);

/// An input event.
#[derive(Clone, Copy, Debug, PartialEq, Eq)]
pub enum InputEvent {
    /// The hotkey: the picker is summoned while the given window has the focus.
    Invoke(Option<TargetWindow>),
    /// A character was typed.
    Character(char),
    Backspace,
    DeleteForward,
    Escape,
    CursorLeft,
    CursorRight,
    NavigateUp,
    NavigateDown,
    /// Enter: the selected character is to be delivered.
    Confirm,
    ModifierPressed,
    ModifierReleased,
    /// The program is to end.
    Quit,
}

/// A character to be delivered to a window.
#[derive(Clone, Copy, Debug, PartialEq, Eq)]
pub struct Injection {
    pub target: TargetWindow,
    pub character: char,
    /// Deliver by the clipboard and a paste, not by keystrokes.
    pub via_clipboard: bool,
}

/// What is to happen outside the state after an event.
#[derive(Clone, Copy, Debug, PartialEq, Eq)]
pub struct Effect {
    /// The query is to be evaluated again on the text as it is now.
    pub requery: bool,
    /// The picker is to be shown near the caret of the target window.
    pub show: bool,
    /// The picker is to be hidden.
    pub hide: bool,
    pub injection: Option<Injection>,
    pub quit: bool,
}

/// What evaluating a query yields.
#[derive(Debug)]
pub enum QueryOutcome {
    /// The text does not parse: the results stay as they are.
    Unchanged,
    /// The matches, best first.
    Replaced(Vec<CharacterRecord>),
}

/// What a `QueryOutcome` stands for.
pub enum OutcomeModel {
    Unchanged,
    Replaced(Seq<RecordModel>),
}

impl DeepView for QueryOutcome {
    type V = OutcomeModel;

    open spec fn deep_view(&self) -> OutcomeModel {
        match self {
            QueryOutcome::Unchanged => OutcomeModel::Unchanged,
            QueryOutcome::Replaced(records) => OutcomeModel::Replaced(records.deep_view()),
        }
    }
}

/// The effect in which nothing happens.
pub open spec fn no_effect() -> Effect {
    Effect { requery: false, show: false, hide: false, injection: None, quit: false }
}

/// What a `QueryState` stands for.
pub struct StateModel {
    pub text: Seq<char>,
    pub cursor: nat,
    /// The latest results; `None` while no query has been evaluated.
    pub results: Option<Seq<RecordModel>>,
    pub selected: nat,
    pub scroll: nat,
    pub target: Option<TargetWindow>,
    pub modifier: bool,
}

impl StateModel {
    /// The state at startup.
    pub open spec fn initial() -> StateModel {
        StateModel {
            text: Seq::empty(),
            cursor: 0,
            results: None,
            selected: 0,
            scroll: 0,
            target: None,
            modifier: false,
        }
    }

    /// The number of results.
    pub open spec fn count(self) -> nat {
        match self.results {
            Some(records) => records.len(),
            None => 0,
        }
    }

    /// The cursor lies within the text, the selection within the results and
    /// within the visible window, and no more results are kept than the limit.
    pub open spec fn well_formed(self) -> bool {
        &&& self.cursor <= self.text.len()
        &&& self.count() <= RESULT_LIMIT
        &&& self.count() > 0 ==> self.selected < self.count()
        &&& self.count() == 0 ==> self.selected == 0
        &&& self.scroll <= self.selected < self.scroll + PAGE_SIZE
    }

    /// The selected record, if there is one.
    pub open spec fn selection(self) -> Option<RecordModel> {
        if self.selected < self.count() {
            Some(self.results->Some_0[self.selected as int])
        } else {
            None
        }
    }

    /// A character that is no control character is inserted at the cursor,
    /// and the cursor moves behind it.
    pub open spec fn typed(self, c: char) -> StateModel {
        if is_control(c) {
            self
        } else {
            StateModel {
                text: self.text.insert(self.cursor as int, c),
                cursor: self.cursor + 1,
                ..self
            }
        }
    }

    /// The character before the cursor is deleted.
    pub open spec fn backspaced(self) -> StateModel {
        if self.cursor == 0 {
            self
        } else {
            StateModel {
                text: self.text.remove(self.cursor - 1),
                cursor: (self.cursor - 1) as nat,
                ..self
            }
        }
    }

    /// With the cursor at the start the whole text is cleared. Elsewhere the
    /// character at the cursor is deleted; at the end of the text, where there
    /// is none, the last one is.
    pub open spec fn deleted_forward(self) -> StateModel {
        if self.cursor == 0 {
            StateModel { text: Seq::empty(), ..self }
        } else if self.cursor == self.text.len() {
            StateModel {
                text: self.text.remove(self.cursor - 1),
                cursor: (self.cursor - 1) as nat,
                ..self
            }
        } else {
            StateModel { text: self.text.remove(self.cursor as int), ..self }
        }
    }

    /// The query is given up: text and positions are reset, the target is forgotten.
    pub open spec fn escaped(self) -> StateModel {
        StateModel {
            text: Seq::empty(),
            cursor: 0,
            selected: 0,
            scroll: 0,
            target: None,
            ..self
        }
    }

    /// The cursor moves left by one character, unless it is at the start.
    pub open spec fn moved_left(self) -> StateModel {
        if self.cursor > 0 {
            StateModel { cursor: (self.cursor - 1) as nat, ..self }
        } else {
            self
        }
    }

    /// The cursor moves right by one character, unless it is at the end.
    pub open spec fn moved_right(self) -> StateModel {
        if self.cursor < self.text.len() {
            StateModel { cursor: self.cursor + 1, ..self }
        } else {
            self
        }
    }

    /// The selection moves up by one unless it is the first result. Where it
    /// then lies above the visible window, the window moves up by a step, but
    /// not beyond the first result.
    pub open spec fn navigated_up(self) -> StateModel {
        let selected = if self.selected > 0 {
            (self.selected - 1) as nat
        } else {
            self.selected
        };
        let scroll = if self.scroll > 0 && selected < self.scroll {
            if self.scroll >= SCROLL_STEP {
                (self.scroll - SCROLL_STEP) as nat
            } else {
                0
            }
        } else {
            self.scroll
        };
        StateModel { selected, scroll, ..self }
    }

    /// While results remain below the selection, the selection moves down by
    /// one. Where it then lies below the visible window, the window moves
    /// down by a step.
    pub open spec fn navigated_down(self) -> StateModel {
        if self.selected + 1 < self.count() {
            let selected = self.selected + 1;
            let scroll = if selected >= self.scroll + PAGE_SIZE {
                (self.scroll + SCROLL_STEP) as nat
            } else {
                self.scroll
            };
            StateModel { selected, scroll, ..self }
        } else {
            self
        }
    }

    /// What Enter delivers: the selected character to the target window, by
    /// the clipboard if the modifier is held.
    pub open spec fn injection(self) -> Option<Injection> {
        match (self.target, self.selection()) {
            (Some(target), Some(record)) => match decoded(record.code_point) {
                Some(character) => Some(
                    Injection { target, character, via_clipboard: self.modifier },
                ),
                None => None,
            },
            _ => None,
        }
    }

    /// The state after Enter: the text is cleared, target and modifier are forgotten.
    pub open spec fn confirmed(self) -> StateModel {
        StateModel { text: Seq::empty(), cursor: 0, target: None, modifier: false, ..self }
    }

    /// The state after `event`, before any query is evaluated again.
    pub open spec fn after(self, event: InputEvent) -> StateModel {
        match event {
            InputEvent::Invoke(target) => StateModel { target, ..self },
            InputEvent::Character(c) => self.typed(c),
            InputEvent::Backspace => self.backspaced(),
            InputEvent::DeleteForward => self.deleted_forward(),
            InputEvent::Escape => self.escaped(),
            InputEvent::CursorLeft => self.moved_left(),
            InputEvent::CursorRight => self.moved_right(),
            InputEvent::NavigateUp => self.navigated_up(),
            InputEvent::NavigateDown => self.navigated_down(),
            InputEvent::Confirm => self.confirmed(),
            InputEvent::ModifierPressed => StateModel { modifier: true, ..self },
            InputEvent::ModifierReleased => StateModel { modifier: false, ..self },
            InputEvent::Quit => self,
        }
    }

    /// What is to happen outside the state when `event` arrives in this state.
    pub open spec fn effect(self, event: InputEvent) -> Effect {
        match event {
            InputEvent::Invoke(_) => Effect { requery: true, show: true, ..no_effect() },
            InputEvent::Character(c) => Effect { requery: !is_control(c), ..no_effect() },
            InputEvent::Backspace => Effect { requery: self.cursor > 0, ..no_effect() },
            InputEvent::DeleteForward => Effect { requery: self.cursor > 0, ..no_effect() },
            InputEvent::Escape => Effect { hide: true, ..no_effect() },
            InputEvent::Confirm => Effect {
                hide: true,
                injection: self.injection(),
                ..no_effect()
            },
            InputEvent::Quit => Effect { quit: true, ..no_effect() },
            _ => no_effect(),
        }
    }

    /// The state after a query was evaluated: new results replace the old
    /// ones, cut to the limit, and selection and window go back to the top.
    pub open spec fn with_outcome(self, outcome: OutcomeModel) -> StateModel {
        match outcome {
            OutcomeModel::Unchanged => self,
            OutcomeModel::Replaced(records) => StateModel {
                results: Some(
                    if records.len() > RESULT_LIMIT {
                        records.take(RESULT_LIMIT as int)
                    } else {
                        records
                    },
                ),
                selected: 0,
                scroll: 0,
                ..self
            },
        }
    }
}

/// One turn of a session: an event, and what the query yields if the event
/// has it evaluated again.
pub struct Turn {
    pub event: InputEvent,
    pub outcome: OutcomeModel,
}

impl StateModel {
    /// The state after one turn.
    pub open spec fn turn(self, turn: Turn) -> StateModel {
        if self.effect(turn.event).requery {
            self.after(turn.event).with_outcome(turn.outcome)
        } else {
            self.after(turn.event)
        }
    }

    /// The state after the turns `turns`, in order.
    pub open spec fn run(self, turns: Seq<Turn>) -> StateModel
        decreases turns.len(),
    {
        if turns.len() == 0 {
            self
        } else {
            self.run(turns.drop_last()).turn(turns.last())
        }
    }
}

/// Whether every turn of `turns` moves the selection up or down.
pub open spec fn only_navigation(turns: Seq<Turn>) -> bool {
    forall|i: int|
        0 <= i < turns.len() ==> (#[trigger] turns[i]).event == InputEvent::NavigateUp
            || turns[i].event == InputEvent::NavigateDown
}

/// No event leads out of the well-formed states.
pub proof fn lemma_event_keeps_well_formed(state: StateModel, event: InputEvent)
    requires
        state.well_formed(),
    ensures
        state.after(event).well_formed(),
{
}

/// No outcome of a query leads out of the well-formed states.
pub proof fn lemma_outcome_keeps_well_formed(state: StateModel, outcome: OutcomeModel)
    requires
        state.well_formed(),
    ensures
        state.with_outcome(outcome).well_formed(),
{
}

/// No sequence of turns leads out of the well-formed states.
pub proof fn lemma_run_keeps_well_formed(state: StateModel, turns: Seq<Turn>)
    requires
        state.well_formed(),
    ensures
        state.run(turns).well_formed(),
    decreases turns.len(),
{
    if turns.len() > 0 {
        lemma_run_keeps_well_formed(state, turns.drop_last());
        let before = state.run(turns.drop_last());
        lemma_event_keeps_well_formed(before, turns.last().event);
        lemma_outcome_keeps_well_formed(before.after(turns.last().event), turns.last().outcome);
    }
}

/// Whatever is typed, deleted or moved from startup on, the cursor never
/// leaves the text.
pub proof fn lemma_cursor_stays_in_text(turns: Seq<Turn>)
    ensures
        0 <= StateModel::initial().run(turns).cursor <= StateModel::initial().run(turns).text.len(),
{
    lemma_run_keeps_well_formed(StateModel::initial(), turns);
}

/// Whenever a query replaces the results, selection and window are back at
/// the top, wherever they were.
pub proof fn lemma_new_results_reset_position(state: StateModel, turn: Turn)
    requires
        state.effect(turn.event).requery,
        turn.outcome is Replaced,
    ensures
        state.turn(turn).selected == 0,
        state.turn(turn).scroll == 0,
        state.with_outcome(turn.outcome).selected == 0,
        state.with_outcome(turn.outcome).scroll == 0,
{
}

/// However often the selection is moved up and down, the results stay as
/// they are and the selection stays among them.
pub proof fn lemma_navigation_stays_in_results(state: StateModel, turns: Seq<Turn>)
    requires
        state.well_formed(),
        state.count() > 0,
        only_navigation(turns),
    ensures
        state.run(turns).results == state.results,
        0 <= state.run(turns).selected <= state.count() - 1,
    decreases turns.len(),
{
    if turns.len() > 0 {
        let earlier = turns.drop_last();
        assert forall|i: int| 0 <= i < earlier.len() implies (#[trigger] earlier[i]).event
            == InputEvent::NavigateUp || earlier[i].event == InputEvent::NavigateDown by {
            assert(earlier[i] == turns[i]);
        }
        lemma_navigation_stays_in_results(state, earlier);
        lemma_run_keeps_well_formed(state, earlier);
        lemma_event_keeps_well_formed(state.run(earlier), turns.last().event);
    }
}

/// A query text that does not parse leaves the results as they were.
pub proof fn lemma_rejected_query_keeps_results(state: StateModel, event: InputEvent)
    ensures
        state.turn(Turn { event, outcome: OutcomeModel::Unchanged }).results == state.results,
        state.with_outcome(OutcomeModel::Unchanged) == state,
{
}

/// Where the selection and the visible window are.
#[derive(Clone, Copy)]
struct Position {
    selected: usize,
    scroll: usize,
}

/// The live state of a session.
pub struct QueryState {
    text: Vec<char>,
    cursor: usize,
    results: Option<Vec<CharacterRecord>>,
    position: Position,
    target: Option<TargetWindow>,
    modifier: bool,
}

impl DeepView for QueryState {
    type V = StateModel;

    closed spec fn deep_view(&self) -> StateModel {
        StateModel {
            text: self.text@,
            cursor: self.cursor as nat,
            results: self.results.deep_view(),
            selected: self.position.selected as nat,
            scroll: self.position.scroll as nat,
            target: self.target,
            modifier: self.modifier,
        }
    }
}

impl QueryState {
    #[verifier::type_invariant]
    closed spec fn valid(&self) -> bool {
        self.deep_view().well_formed()
    }

    /// The state at startup: no text, no results, no target.
    pub fn new() -> (state: QueryState)
        ensures
            state.deep_view() == StateModel::initial(),
    {
        QueryState {
            text: Vec::new(),
            cursor: 0,
            results: None,
            position: Position { selected: 0, scroll: 0 },
            target: None,
            modifier: false,
        }
    }

    /// The query text, character by character.
    pub fn query_text(&self) -> (text: &Vec<char>)
        ensures
            text@ == self.deep_view().text,
    {
        &self.text
    }

    /// The query text as a string.
    pub fn query_string(&self) -> (text: String)
        ensures
            text@ == self.deep_view().text,
            self.deep_view().well_formed(),
    {
        proof {
            use_type_invariant(self);
        }
        string_of(&self.text)
    }

    /// The number of characters before the edit cursor.
    pub fn cursor(&self) -> (cursor: usize)
        ensures
            cursor == self.deep_view().cursor,
            cursor <= self.deep_view().text.len(),
    {
        proof {
            use_type_invariant(self);
        }
        self.cursor
    }

    /// The latest results; `None` while no query has been evaluated.
    pub fn results(&self) -> (results: Option<&Vec<CharacterRecord>>)
        ensures
            results.deep_view() == self.deep_view().results,
    {
        self.results.as_ref()
    }

    /// The number of results.
    pub fn result_count(&self) -> (count: usize)
        ensures
            count == self.deep_view().count(),
            count <= RESULT_LIMIT,
            self.deep_view().well_formed(),
    {
        proof {
            use_type_invariant(self);
        }
        match &self.results {
            Some(records) => records.len(),
            None => 0,
        }
    }

    /// The index of the selected result.
    pub fn selected_index(&self) -> (selected: usize)
        ensures
            selected == self.deep_view().selected,
            self.deep_view().count() > 0 ==> selected < self.deep_view().count(),
    {
        proof {
            use_type_invariant(self);
        }
        self.position.selected
    }

    /// The index of the first visible result.
    pub fn scroll_offset(&self) -> (scroll: usize)
        ensures
            scroll == self.deep_view().scroll,
            scroll <= self.deep_view().selected < scroll + PAGE_SIZE,
    {
        proof {
            use_type_invariant(self);
        }
        self.position.scroll
    }

    /// The window that the chosen character is to go to.
    pub fn pending_target(&self) -> (target: Option<TargetWindow>)
        ensures
            target == self.deep_view().target,
    {
        self.target
    }

    /// Whether the modifier key is held.
    pub fn modifier_held(&self) -> (held: bool)
        ensures
            held == self.deep_view().modifier,
    {
        self.modifier
    }

    /// The selected record, if there is one.
    pub fn selected_record(&self) -> (record: Option<&CharacterRecord>)
        ensures
            record.deep_view() == self.deep_view().selection(),
    {
        match &self.results {
            Some(records) => if self.position.selected < records.len() {
                Some(&records[self.position.selected])
            } else {
                None
            },
            None => None,
        }
    }

    /// A character was typed. Returns whether the text changed.
    pub fn type_character(&mut self, c: char) -> (changed: bool)
        ensures
            final(self).deep_view() == old(self).deep_view().typed(c),
            final(self).deep_view().well_formed(),
            changed == !is_control(c),
    {
        proof {
            use_type_invariant(&*self);
        }
        if char_is_control(c) {
            false
        } else {
            self.text = with_inserted(&self.text, self.cursor, c);
            assert(self.cursor < self.text.len());
            self.cursor = self.cursor + 1;
            true
        }
    }

    /// Backspace. Returns whether the text changed.
    pub fn backspace(&mut self) -> (changed: bool)
        ensures
            final(self).deep_view() == old(self).deep_view().backspaced(),
            final(self).deep_view().well_formed(),
            changed == (old(self).deep_view().cursor > 0),
    {
        proof {
            use_type_invariant(&*self);
        }
        if self.cursor == 0 {
            false
        } else {
            self.cursor = self.cursor - 1;
            self.text = with_removed(&self.text, self.cursor);
            true
        }
    }

    /// Delete. Returns whether a single character was deleted; clearing the
    /// whole text does not count.
    pub fn delete_forward(&mut self) -> (changed: bool)
        ensures
            final(self).deep_view() == old(self).deep_view().deleted_forward(),
            final(self).deep_view().well_formed(),
            changed == (old(self).deep_view().cursor > 0),
    {
        proof {
            use_type_invariant(&*self);
        }
        if self.cursor == 0 {
            self.text = Vec::new();
            false
        } else {
            if self.cursor == self.text.len() {
                self.cursor = self.cursor - 1;
            }
            self.text = with_removed(&self.text, self.cursor);
            true
        }
    }

    /// Escape: the query is given up.
    pub fn escape(&mut self)
        ensures
            final(self).deep_view() == old(self).deep_view().escaped(),
            final(self).deep_view().well_formed(),
    {
        proof {
            use_type_invariant(&*self);
        }
        self.cursor = 0;
        self.text = Vec::new();
        self.position = Position { selected: 0, scroll: 0 };
        self.target = None;
    }

    /// Cursor left.
    pub fn cursor_left(&mut self)
        ensures
            final(self).deep_view() == old(self).deep_view().moved_left(),
            final(self).deep_view().well_formed(),
    {
        proof {
            use_type_invariant(&*self);
        }
        if self.cursor > 0 {
            self.cursor = self.cursor - 1;
        }
    }

    /// Cursor right.
    pub fn cursor_right(&mut self)
        ensures
            final(self).deep_view() == old(self).deep_view().moved_right(),
            final(self).deep_view().well_formed(),
    {
        proof {
            use_type_invariant(&*self);
        }
        if self.cursor < self.text.len() {
            self.cursor = self.cursor + 1;
        }
    }

    /// The selection moves up, and the window with it where it has to.
    pub fn navigate_up(&mut self)
        ensures
            final(self).deep_view() == old(self).deep_view().navigated_up(),
            final(self).deep_view().well_formed(),
    {
        proof {
            use_type_invariant(&*self);
        }
        let Position { selected, scroll } = self.position;
        let selected: usize = if selected > 0 {
            selected - 1
        } else {
            selected
        };
        let scroll: usize = if scroll > 0 && selected < scroll {
            if scroll >= SCROLL_STEP {
                scroll - SCROLL_STEP
            } else {
                0
            }
        } else {
            scroll
        };
        self.position = Position { selected, scroll };
    }

    /// The selection moves down, and the window with it where it has to.
    pub fn navigate_down(&mut self)
        ensures
            final(self).deep_view() == old(self).deep_view().navigated_down(),
            final(self).deep_view().well_formed(),
    {
        proof {
            use_type_invariant(&*self);
        }
        let count = self.result_count();
        let Position { selected, scroll } = self.position;
        if selected + 1 < count {
            let selected: usize = selected + 1;
            let scroll: usize = if selected >= scroll + PAGE_SIZE {
                scroll + SCROLL_STEP
            } else {
                scroll
            };
            self.position = Position { selected, scroll };
        }
    }

    /// Enter. Returns what is to be delivered, if anything.
    pub fn confirm(&mut self) -> (injection: Option<Injection>)
        ensures
            final(self).deep_view() == old(self).deep_view().confirmed(),
            final(self).deep_view().well_formed(),
            injection == old(self).deep_view().injection(),
    {
        proof {
            use_type_invariant(&*self);
        }
        let injection = match (self.target, self.selected_record()) {
            (Some(target), Some(record)) => match decode(record.code_point) {
                Some(character) => Some(
                    Injection { target, character, via_clipboard: self.modifier },
                ),
                None => None,
            },
            _ => None,
        };
        self.cursor = 0;
        self.text = Vec::new();
        self.target = None;
        self.modifier = false;
        injection
    }

    /// The hotkey: the window that has the focus becomes the target.
    pub fn invoke(&mut self, target: Option<TargetWindow>)
        ensures
            final(self).deep_view() == (StateModel { target, ..old(self).deep_view() }),
            final(self).deep_view().well_formed(),
    {
        proof {
            use_type_invariant(&*self);
        }
        self.target = target;
    }

    /// The modifier key went down or up.
    pub fn set_modifier(&mut self, held: bool)
        ensures
            final(self).deep_view() == (StateModel { modifier: held, ..old(self).deep_view() }),
            final(self).deep_view().well_formed(),
    {
        proof {
            use_type_invariant(&*self);
        }
        self.modifier = held;
    }

    /// Takes in an input event. Where the effect asks for the query to be
    /// evaluated again, the outcome is to be handed to `apply_outcome`.
    pub fn apply(&mut self, event: InputEvent) -> (effect: Effect)
        ensures
            final(self).deep_view() == old(self).deep_view().after(event),
            final(self).deep_view().well_formed(),
            effect == old(self).deep_view().effect(event),
    {
        let nothing = Effect {
            requery: false,
            show: false,
            hide: false,
            injection: None,
            quit: false,
        };
        match event {
            InputEvent::Invoke(target) => {
                self.invoke(target);
                Effect { requery: true, show: true, ..nothing }
            },
            InputEvent::Character(c) => Effect { requery: self.type_character(c), ..nothing },
            InputEvent::Backspace => Effect { requery: self.backspace(), ..nothing },
            InputEvent::DeleteForward => Effect { requery: self.delete_forward(), ..nothing },
            InputEvent::Escape => {
                self.escape();
                Effect { hide: true, ..nothing }
            },
            InputEvent::CursorLeft => {
                self.cursor_left();
                nothing
            },
            InputEvent::CursorRight => {
                self.cursor_right();
                nothing
            },
            InputEvent::NavigateUp => {
                self.navigate_up();
                nothing
            },
            InputEvent::NavigateDown => {
                self.navigate_down();
                nothing
            },
            InputEvent::Confirm => Effect { hide: true, injection: self.confirm(), ..nothing },
            InputEvent::ModifierPressed => {
                self.set_modifier(true);
                nothing
            },
            InputEvent::ModifierReleased => {
                self.set_modifier(false);
                nothing
            },
            InputEvent::Quit => {
                proof {
                    use_type_invariant(&*self);
                }
                Effect { quit: true, ..nothing }
            },
        }
    }

    /// Takes in the outcome of a query.
    pub fn apply_outcome(&mut self, outcome: QueryOutcome)
        ensures
            final(self).deep_view() == old(self).deep_view().with_outcome(outcome.deep_view()),
            final(self).deep_view().well_formed(),
    {
        proof {
            use_type_invariant(&*self);
        }
        match outcome {
            QueryOutcome::Unchanged => {},
            QueryOutcome::Replaced(records) => {
                let mut records = records;
                let ghost given = records.deep_view();
                if records.len() > RESULT_LIMIT {
                    records.truncate(RESULT_LIMIT);
                    assert(records.deep_view() =~= given.take(RESULT_LIMIT as int));
                }
                self.position = Position { selected: 0, scroll: 0 };
                self.results = Some(records);
            },
        }
    }
}

} // verus!
