//! The stored index and its version marker: what to do with them when the
//! picker starts.
//!
//! Beside the index lies a marker that holds, in decimal, the version of the
//! format the index was built for. An index of an older format is never
//! queried: it is discarded and built anew.

use crate::error::{ErrorKind, PickerError};
use crate::record::RecordModel;
use crate::text::{
    decimal_digits, format_decimal, lemma_decimal_round_trip, parse_number, parse_unsigned,
};
use vstd::prelude::*;

verus! {

/// The version of the index format that this library builds and queries.
pub const INDEX_VERSION: u32 = 5;

/// What was found where the version marker is kept.
pub enum MarkerReading {
    Missing,
    Found(String),
}

impl DeepView for MarkerReading {
    type V = Option<Seq<char>>;

    open spec fn deep_view(&self) -> Option<Seq<char>> {
        match self {
            MarkerReading::Missing => None,
            MarkerReading::Found(text) => Some(text@),
        }
    }
}

/// What is to be done, in this order, before queries are served.
pub struct OpenPlan {
    /// Remove whatever lies where the index is kept.
    pub discard_index: bool,
    /// Replace the marker's content by this text.
    pub marker: Option<String>,
    /// Create an empty index and load the corpus into it; otherwise open the
    /// index that is there.
    pub build: bool,
}

/// What an `OpenPlan` stands for.
pub struct PlanModel {
    pub discard_index: bool,
    pub marker: Option<Seq<char>>,
    pub build: bool,
}

impl DeepView for OpenPlan {
    type V = PlanModel;

    open spec fn deep_view(&self) -> PlanModel {
        PlanModel {
            discard_index: self.discard_index,
            marker: match self.marker {
                Some(text) => Some(text@),
                None => None,
            },
            build: self.build,
        }
    }
}

/// The version that a marker with the content `text` records.
pub open spec fn marker_version(text: Seq<char>) -> Option<nat> {
    parse_number(text, 10, u32::MAX as nat)
}

/// The content of a marker that records `version`.
pub open spec fn marker_text(version: u32) -> Seq<char> {
    decimal_digits(version as nat)
}

/// The plan that starts from nothing: discard, record `expected`, build.
pub open spec fn rebuild_plan(expected: u32) -> PlanModel {
    PlanModel { discard_index: true, marker: Some(marker_text(expected)), build: true }
}

/// The plan for a store whose marker reads `marker` and that holds an index
/// or not, when the format `expected` is wanted; `None` where the marker
/// records no version.
pub open spec fn planned(marker: Option<Seq<char>>, index_present: bool, expected: u32) -> Option<
    PlanModel,
> {
    match marker {
        None => Some(rebuild_plan(expected)),
        Some(text) => match marker_version(text) {
            None => None,
            Some(stored) => if stored < expected {
                Some(rebuild_plan(expected))
            } else {
                Some(PlanModel { discard_index: false, marker: None, build: !index_present })
            },
        },
    }
}

/// The version that the marker text `text` records.
pub fn read_marker(text: &str) -> (version: Option<u32>)
    ensures
        version is Some == marker_version(text@) is Some,
        version matches Some(v) ==> marker_version(text@) == Some(v as nat),
{
    match parse_unsigned(text, 10, 0xffff_ffff) {
        Some(v) => Some(v as u32),
        None => None,
    }
}

/// The marker text that records `version`.
pub fn write_marker(version: u32) -> (text: String)
    ensures
        text@ == marker_text(version),
        marker_version(text@) == Some(version as nat),
{
    proof {
        lemma_decimal_round_trip(version as nat, u32::MAX as nat);
    }
    format_decimal(version)
}

/// Decides what is to be done before queries are served.
///
/// A marker that records no version is a failure of the index store.
pub fn plan_open(marker: &MarkerReading, index_present: bool, expected: u32) -> (r: Result<
    OpenPlan,
    PickerError,
>)
    ensures
        match planned(marker.deep_view(), index_present, expected) {
            Some(plan) => r matches Ok(p) && p.deep_view() == plan,
            None => r matches Err(e) && e.kind() == ErrorKind::IndexUnavailable && Some(e.cause())
                == marker.deep_view(),
        },
{
    let stale = match marker {
        MarkerReading::Missing => true,
        MarkerReading::Found(text) => match read_marker(text.as_str()) {
            None => {
                return Err(PickerError::IndexUnavailable(text.clone()));
            },
            Some(stored) => stored < expected,
        },
    };
    if stale {
        Ok(OpenPlan { discard_index: true, marker: Some(write_marker(expected)), build: true })
    } else {
        Ok(OpenPlan { discard_index: false, marker: None, build: !index_present })
    }
}

/// Whether what lies where the index is kept is to be removed once `plan`
/// was carried out: it is where the plan built an index and that failed, so
/// that no index that is built in part is ever opened.
pub open spec fn discards(plan: PlanModel, succeeded: bool) -> bool {
    plan.build && !succeeded
}

/// How the opening ends: whether the index is to be discarded first, and the
/// outcome that is handed on to the caller.
pub struct Settled<T, E> {
    pub discard_index: bool,
    pub outcome: Result<T, E>,
}

/// Decides how the opening ends. `outcome` is what carrying out `plan` came
/// to: the index that was opened or built, or the failure. The outcome is
/// handed on as it is; after a build that failed the index is discarded
/// first.
pub fn settle<T, E>(plan: &OpenPlan, outcome: Result<T, E>) -> (settled: Settled<T, E>)
    ensures
        settled.outcome == outcome,
        settled.discard_index == discards(plan.deep_view(), outcome is Ok),
{
    let discard_index = plan.build && outcome.is_err();
    Settled { discard_index, outcome }
}

/// What lies in the store: the marker's content, and the records of the
/// index if there is one.
pub struct StoreModel {
    pub marker: Option<Seq<char>>,
    pub index: Option<Seq<RecordModel>>,
}

/// The store after `plan` was carried out on `store` and the opening was
/// settled. Where the plan builds, `corpus` holds the records that were
/// loaded, or `None` where loading failed: what was built by then is some
/// part of an index, and it is discarded.
pub open spec fn carried_out(store: StoreModel, plan: PlanModel, corpus: Option<Seq<RecordModel>>)
    -> StoreModel {
    StoreModel {
        marker: match plan.marker {
            Some(text) => Some(text),
            None => store.marker,
        },
        index: if discards(plan, corpus is Some) {
            None
        } else if plan.build {
            corpus
        } else if plan.discard_index {
            None
        } else {
            store.index
        },
    }
}

/// Whether opening `store` for the format `expected` succeeds, given what
/// loading the corpus would yield.
pub open spec fn opens(store: StoreModel, expected: u32, corpus: Option<Seq<RecordModel>>) -> bool {
    match planned(store.marker, store.index is Some, expected) {
        None => false,
        Some(plan) => plan.build ==> corpus is Some,
    }
}

/// The store after it was opened for the format `expected`.
pub open spec fn opened(store: StoreModel, expected: u32, corpus: Option<Seq<RecordModel>>)
    -> StoreModel {
    match planned(store.marker, store.index is Some, expected) {
        None => store,
        Some(plan) => carried_out(store, plan, corpus),
    }
}

/// Where an index has to be built and loading the corpus fails, the opening
/// fails and leaves no index behind, whatever was there before.
pub proof fn lemma_failed_build_leaves_no_index(store: StoreModel, expected: u32)
    requires
        planned(store.marker, store.index is Some, expected) matches Some(plan) && plan.build,
    ensures
        !opens(store, expected, None),
        opened(store, expected, None).index is None,
        discards(planned(store.marker, store.index is Some, expected)->Some_0, false),
{
}

/// An index that is there and whose marker records the expected version is
/// opened as it is: nothing is discarded, nothing is written, and the corpus
/// is not loaded.
pub proof fn lemma_current_index_is_kept(
    store: StoreModel,
    expected: u32,
    corpus: Option<Seq<RecordModel>>,
)
    requires
        store.index is Some,
        store.marker matches Some(text) && marker_version(text) == Some(expected as nat),
    ensures
        planned(store.marker, true, expected) == Some(
            PlanModel { discard_index: false, marker: None, build: false },
        ),
        opens(store, expected, corpus),
        opened(store, expected, corpus) == store,
{
}

/// Opening twice for the same version loads the corpus at most once: after an
/// open that succeeded, a second open for the same version builds nothing and
/// leaves marker and records as they are, whatever the corpus holds by then.
pub proof fn lemma_second_open_builds_nothing(
    store: StoreModel,
    expected: u32,
    first_corpus: Option<Seq<RecordModel>>,
    second_corpus: Option<Seq<RecordModel>>,
)
    requires
        opens(store, expected, first_corpus),
    ensures
        ({
            let once = opened(store, expected, first_corpus);
            &&& planned(once.marker, once.index is Some, expected) matches Some(plan)
                && !plan.build && !plan.discard_index && plan.marker is None
            &&& opens(once, expected, second_corpus)
            &&& opened(once, expected, second_corpus) == once
        }),
{
    lemma_decimal_round_trip(expected as nat, u32::MAX as nat);
}

/// An index whose marker records an older version is discarded and built
/// anew, and the marker then records the expected version.
pub proof fn lemma_stale_index_is_rebuilt(
    store: StoreModel,
    expected: u32,
    records: Seq<RecordModel>,
)
    requires
        store.marker matches Some(text) && marker_version(text) matches Some(stored) && stored
            < expected,
    ensures
        planned(store.marker, store.index is Some, expected) == Some(rebuild_plan(expected)),
        opens(store, expected, Some(records)),
        opened(store, expected, Some(records)) == (StoreModel {
            marker: Some(marker_text(expected)),
            index: Some(records),
        }),
        marker_version(marker_text(expected)) == Some(expected as nat),
        opened(store, expected, None).index is None,
{
    lemma_decimal_round_trip(expected as nat, u32::MAX as nat);
}

} // verus!
