//! The picker: the interaction state together with the query engine that
//! evaluates the text whenever it changes.

use crate::engine::{results_of, SearchEngine};
use crate::error::{ErrorKind, PickerError};
use crate::state::{
    Effect, InputEvent, OutcomeModel, QueryOutcome, QueryState, StateModel, Turn,
};
use crate::text::trimmed;
use vstd::prelude::*;

verus! {

/// Whether `after` is what `before` becomes when its text is evaluated as a
/// query by `engine`; `found` says whether the evaluation went through.
///
/// An empty query has no results. A text that does not parse changes nothing.
/// A search yields new results, and selection and window go back to the top;
/// a search that fails changes nothing.
pub open spec fn evaluated(before: StateModel, after: StateModel, engine: SearchEngine, found: bool)
    -> bool {
    let text = trimmed(before.text);
    if text.len() == 0 {
        found && after == before.with_outcome(OutcomeModel::Replaced(Seq::empty()))
    } else {
        match engine.query(text) {
            None => found && after == before,
            Some(query) => if found {
                &&& after.results matches Some(records)
                &&& after == before.with_outcome(OutcomeModel::Replaced(records))
                &&& results_of(records, query, engine.layout())
            } else {
                after == before
            },
        }
    }
}

/// Handling an event is one turn of the session: whatever the engine did,
/// the state afterwards is the state after the event with some outcome of
/// the query taken in.
pub proof fn lemma_handling_is_a_turn(
    before: StateModel,
    event: InputEvent,
    after: StateModel,
    engine: SearchEngine,
    found: bool,
)
    requires
        before.effect(event).requery ==> evaluated(before.after(event), after, engine, found),
        !before.effect(event).requery ==> after == before.after(event),
    ensures
        exists|outcome: OutcomeModel| after == #[trigger] before.turn(Turn { event, outcome }),
{
    let unchanged = Turn { event, outcome: OutcomeModel::Unchanged };
    if after == before.turn(unchanged) {
    } else {
        let planned = before.after(event);
        if trimmed(planned.text).len() == 0 {
            let turn = Turn { event, outcome: OutcomeModel::Replaced(Seq::empty()) };
            assert(after == before.turn(turn));
        } else {
            let records = after.results->Some_0;
            let turn = Turn { event, outcome: OutcomeModel::Replaced(records) };
            assert(after == before.turn(turn));
        }
    }
}

/// A picker session.
pub struct Picker {
    state: QueryState,
    engine: SearchEngine,
}

impl Picker {
    /// What the state stands for.
    pub closed spec fn model(&self) -> StateModel {
        self.state.deep_view()
    }

    /// The engine that evaluates the queries.
    pub closed spec fn search_engine(&self) -> SearchEngine {
        self.engine
    }

    /// A session in the state at startup.
    pub fn new(engine: SearchEngine) -> (picker: Picker)
        ensures
            picker.model() == StateModel::initial(),
            picker.search_engine() == engine,
    {
        Picker { state: QueryState::new(), engine }
    }

    /// The interaction state.
    pub fn state(&self) -> (state: &QueryState)
        ensures
            state.deep_view() == self.model(),
    {
        &self.state
    }

    /// The engine that evaluates the queries.
    pub fn engine(&self) -> (engine: &SearchEngine)
        ensures
            *engine == self.search_engine(),
    {
        &self.engine
    }

    /// Evaluates the query text as it stands and takes in the outcome.
    pub fn requery(&mut self) -> (r: Result<(), PickerError>)
        ensures
            final(self).search_engine() == old(self).search_engine(),
            final(self).model().well_formed(),
            evaluated(old(self).model(), final(self).model(), old(self).search_engine(), r is Ok),
            r matches Err(e) ==> e.kind() == ErrorKind::IndexUnavailable,
    {
        let text = self.state.query_string();
        match self.engine.run_query(text.as_str()) {
            Ok(outcome) => {
                proof {
                    if let QueryOutcome::Replaced(found) = &outcome {
                        let records = found.deep_view();
                        assert(records.len() == found.len());
                        if found.len() == 0 {
                            assert(records =~= Seq::empty());
                        }
                    }
                }
                self.state.apply_outcome(outcome);
                Ok(())
            },
            Err(error) => Err(error),
        }
    }

    /// Takes in an input event, and evaluates the query again where the
    /// event asks for it. Returns what is to happen outside the state.
    pub fn handle(&mut self, event: InputEvent) -> (r: Result<Effect, PickerError>)
        ensures
            final(self).search_engine() == old(self).search_engine(),
            final(self).model().well_formed(),
            !old(self).model().effect(event).requery ==> final(self).model() == old(
                self,
            ).model().after(event) && r == Ok::<Effect, PickerError>(
                old(self).model().effect(event),
            ),
            old(self).model().effect(event).requery ==> evaluated(
                old(self).model().after(event),
                final(self).model(),
                old(self).search_engine(),
                r is Ok,
            ),
            r matches Ok(effect) ==> effect == old(self).model().effect(event),
            r matches Err(e) ==> e.kind() == ErrorKind::IndexUnavailable,
    {
        let effect = self.state.apply(event);
        if effect.requery {
            match self.requery() {
                Ok(()) => Ok(effect),
                Err(error) => Err(error),
            }
        } else {
            Ok(effect)
        }
    }
}

} // verus!
