//! The index provider: serves the index from the cache while the cache is
//! valid, and otherwise fetches it, stores it and serves what it fetched.
//!
//! The provider does none of that work itself. It is a state machine: it
//! asks for one thing at a time (an `Action`), the caller does it and
//! reports what came of it (an `Event`), and `step` decides what is next.
//! The cache is two files, the index as fetched and a marker with the date
//! until which it may be used. A fetch is asked for with `Action::Fetch` and
//! is over with `Event::Fetched`: a caller that shows progress brackets
//! there.

use crate::error::{CacheFile, ErrorDetails, ErrorModel, WritePhase};
use crate::expiry::{
    expiry, expiry_marker, expiry_of, freshness_of, judge_marker, lives_on, Freshness, Response,
};
use crate::http_date::{http_date_text, is_after};
use crate::index::NodeIndex;
use reqwest::hyper_011::header::HttpDate;
use vstd::prelude::*;

verus! {

/// What came of reading a cache file.
#[derive(Debug, PartialEq, Eq)]
pub enum CacheRead<T> {
    /// The file is there; this is what it holds.
    Found(T),
    /// There is no such file.
    Absent,
    /// The file is there, and its content could not be had.
    Unreadable,
}

/// What the caller reports back.
#[derive(Debug, PartialEq, Eq)]
pub enum Event {
    /// The expiry marker was read, when the clock showed `now` seconds
    /// since the epoch.
    ExpiryRead { marker: CacheRead<String>, now: u64 },
    /// The cached index was read. A file that does not hold an index counts
    /// as unreadable.
    IndexRead { index: CacheRead<NodeIndex> },
    /// The fetch is over, at `now` seconds since the epoch. There is no
    /// response where the request failed or the server refused it.
    Fetched { response: Option<Response>, now: u64 },
    /// The write that was asked for is over.
    Written { outcome: Result<(), WritePhase> },
}

/// What the caller is asked to do.
#[derive(Debug, PartialEq, Eq)]
pub enum Action {
    /// Read the expiry marker.
    ReadExpiry,
    /// Read the cached index.
    ReadIndex,
    /// Fetch the index from `url`, with one GET.
    Fetch { url: String },
    /// Replace the cached index by `text`, all of it or none.
    WriteIndex { text: String },
    /// Replace the expiry marker by `text`, all of it or none.
    WriteExpiry { text: String },
    /// Nothing more: this is the index, or the reason why there is none.
    Finish { index: Result<NodeIndex, ErrorDetails> },
    /// The event was not the one awaited. It is set aside, and what was
    /// asked for before still stands.
    Wait,
}

/// An `Action` with its texts as sequences of characters.
pub enum ActionModel {
    ReadExpiry,
    ReadIndex,
    Fetch { url: Seq<char> },
    WriteIndex { text: Seq<char> },
    WriteExpiry { text: Seq<char> },
    Finish { index: Result<NodeIndex, ErrorModel> },
    Wait,
}

impl View for Action {
    type V = ActionModel;

    open spec fn view(&self) -> ActionModel {
        match *self {
            Action::ReadExpiry => ActionModel::ReadExpiry,
            Action::ReadIndex => ActionModel::ReadIndex,
            Action::Fetch { url } => ActionModel::Fetch { url: url@ },
            Action::WriteIndex { text } => ActionModel::WriteIndex { text: text@ },
            Action::WriteExpiry { text } => ActionModel::WriteExpiry { text: text@ },
            Action::Finish { index } => ActionModel::Finish {
                index: match index {
                    Ok(index) => Ok(index),
                    Err(error) => Err(error@),
                },
            },
            Action::Wait => ActionModel::Wait,
        }
    }
}

/// Where the provider stands: what it has asked for and not yet heard of.
#[derive(Debug, PartialEq, Eq)]
pub enum Provider {
    /// The expiry marker.
    ExpiryWanted { url: String },
    /// The cached index, the marker having shown it to be valid.
    IndexWanted { url: String },
    /// The response of the registry.
    ResponseWanted { url: String },
    /// The write of the fetched index, which is valid until `until`.
    IndexWriteWanted { index: NodeIndex, until: HttpDate },
    /// The write of the expiry marker, the index being in place.
    ExpiryWriteWanted { index: NodeIndex },
    /// Nothing: the index, or the failure, has been handed over.
    Finished,
}

/// One step of the provider: its new state, what it asks for, and a failure
/// that it went past, if there was one, for the caller to log.
#[derive(Debug, PartialEq, Eq)]
pub struct Step {
    pub state: Provider,
    pub action: Action,
    pub note: Option<ErrorDetails>,
}

/// A `Step` with its texts as sequences of characters.
pub struct StepModel {
    pub state: Provider,
    pub action: ActionModel,
    pub note: Option<ErrorModel>,
}

impl View for Step {
    type V = StepModel;

    open spec fn view(&self) -> StepModel {
        StepModel {
            state: self.state,
            action: self.action@,
            note: match self.note {
                Some(error) => Some(error@),
                None => None,
            },
        }
    }
}

/// The name under which a failed fetch is reported.
pub open spec fn tool_name() -> Seq<char> {
    "Node"@
}

/// The first step: the provider asks for the expiry marker.
pub open spec fn start(url: String) -> StepModel {
    StepModel { state: Provider::ExpiryWanted { url }, action: ActionModel::ReadExpiry, note: None }
}

/// The cache cannot serve: the index is fetched. `note` is the failure that
/// made it so, where there was one.
pub open spec fn miss(url: String, note: Option<ErrorModel>) -> StepModel {
    StepModel {
        state: Provider::ResponseWanted { url },
        action: ActionModel::Fetch { url: url@ },
        note,
    }
}

/// The provider is done and hands over `index`.
pub open spec fn finish(index: Result<NodeIndex, ErrorModel>, note: Option<ErrorModel>) -> StepModel {
    StepModel { state: Provider::Finished, action: ActionModel::Finish { index }, note }
}

/// After the expiry marker was read: the cached index is read next if the
/// marker holds a date that is still ahead, and the index is fetched
/// otherwise. A marker that cannot be read, or holds no date, is a miss and
/// is noted.
pub open spec fn after_expiry_read(url: String, marker: CacheRead<String>, now: u64) -> StepModel {
    match marker {
        CacheRead::Found(text) => match freshness_of(text@, now as int) {
            Freshness::Fresh => StepModel {
                state: Provider::IndexWanted { url },
                action: ActionModel::ReadIndex,
                note: None,
            },
            Freshness::Expired => miss(url, None),
            Freshness::Malformed => miss(url, Some(ErrorModel::ParseExpiryError)),
        },
        CacheRead::Absent => miss(url, None),
        CacheRead::Unreadable => miss(
            url,
            Some(ErrorModel::ReadCacheError { file: CacheFile::Expiry }),
        ),
    }
}

/// After the cached index was read: it is served if it was found. A file
/// that is not there is a miss; one that cannot be read is a miss and is
/// noted.
pub open spec fn after_index_read(url: String, index: CacheRead<NodeIndex>) -> StepModel {
    match index {
        CacheRead::Found(index) => finish(Ok(index), None),
        CacheRead::Absent => miss(url, None),
        CacheRead::Unreadable => miss(
            url,
            Some(ErrorModel::ReadCacheError { file: CacheFile::Index }),
        ),
    }
}

/// After the fetch. Without a response, or with one whose body is no index,
/// the provider fails. With an index it asks for the body to be stored,
/// unless the response's expiry lies past what an HTTP date can show: such
/// an index is served and not stored.
pub open spec fn after_fetch(url: String, response: Option<Response>, now: u64) -> StepModel {
    match response {
        None => finish(
            Err(ErrorModel::NetworkFetchError { tool: tool_name(), url: url@ }),
            None,
        ),
        Some(response) => match response.index {
            None => finish(Err(ErrorModel::ParseIndexError { url: url@ }), None),
            Some(index) => match expiry_of(response, now as int) {
                Some(until) => StepModel {
                    state: Provider::IndexWriteWanted { index, until },
                    action: ActionModel::WriteIndex { text: response.body@ },
                    note: None,
                },
                None => finish(Ok(index), None),
            },
        },
    }
}

/// After the write of the index. Only with the index in place is the marker
/// written; a failed write is noted, and the index is served all the same.
pub open spec fn after_index_write(
    index: NodeIndex,
    until: HttpDate,
    outcome: Result<(), WritePhase>,
) -> StepModel {
    match outcome {
        Ok(_) => StepModel {
            state: Provider::ExpiryWriteWanted { index },
            action: ActionModel::WriteExpiry { text: http_date_text(until) },
            note: None,
        },
        Err(phase) => finish(
            Ok(index),
            Some(ErrorModel::WriteCacheError { file: CacheFile::Index, phase }),
        ),
    }
}

/// After the write of the marker: the index is served, and a failed write
/// is noted.
pub open spec fn after_expiry_write(index: NodeIndex, outcome: Result<(), WritePhase>) -> StepModel {
    match outcome {
        Ok(_) => finish(Ok(index), None),
        Err(phase) => finish(
            Ok(index),
            Some(ErrorModel::WriteCacheError { file: CacheFile::Expiry, phase }),
        ),
    }
}

/// The step that the provider takes in `state` on `event`. An event other
/// than the one that the state awaits changes nothing.
pub open spec fn transition(state: Provider, event: Event) -> StepModel {
    match (state, event) {
        (Provider::ExpiryWanted { url }, Event::ExpiryRead { marker, now }) => after_expiry_read(
            url,
            marker,
            now,
        ),
        (Provider::IndexWanted { url }, Event::IndexRead { index }) => after_index_read(url, index),
        (Provider::ResponseWanted { url }, Event::Fetched { response, now }) => after_fetch(
            url,
            response,
            now,
        ),
        (Provider::IndexWriteWanted { index, until }, Event::Written { outcome }) => {
            after_index_write(index, until, outcome)
        },
        (Provider::ExpiryWriteWanted { index }, Event::Written { outcome }) => after_expiry_write(
            index,
            outcome,
        ),
        _ => StepModel { state, action: ActionModel::Wait, note: None },
    }
}

/// What is passed over and what is not: a failure that a step notes
/// concerns the cache alone, and a failure that a step hands over in place
/// of the index ends the resolution.
pub proof fn only_cache_failures_are_passed_over(state: Provider, event: Event)
    ensures
        transition(state, event).note matches Some(noted) ==> !noted.is_fatal(),
        transition(state, event).action matches ActionModel::Finish { index: Err(failure) }
            ==> failure.is_fatal(),
{
}

/// Starts the provider for the index at `url`. Its first request is for the
/// expiry marker.
pub fn resolve_node_versions(url: String) -> (first: Step)
    ensures
        first@ == start(url),
{
    Step { state: Provider::ExpiryWanted { url }, action: Action::ReadExpiry, note: None }
}

fn fetch_from(url: String, note: Option<ErrorDetails>) -> (step: Step)
    ensures
        step@ == miss(
            url,
            match note {
                Some(error) => Some(error@),
                None => None,
            },
        ),
{
    let target = url.clone();
    Step { state: Provider::ResponseWanted { url }, action: Action::Fetch { url: target }, note }
}

fn hand_over(index: Result<NodeIndex, ErrorDetails>, note: Option<ErrorDetails>) -> (step: Step)
    ensures
        step@ == finish(
            match index {
                Ok(index) => Ok(index),
                Err(error) => Err(error@),
            },
            match note {
                Some(error) => Some(error@),
                None => None,
            },
        ),
{
    Step { state: Provider::Finished, action: Action::Finish { index }, note }
}

/// Reads a public index from the Node cache, if it exists and hasn't
/// expired: decides, with the expiry marker read, whether the cached index
/// is to be read or the index fetched.
pub fn read_cached_opt(url: String, marker: CacheRead<String>, now: u64) -> (step: Step)
    ensures
        step@ == after_expiry_read(url, marker, now),
{
    match marker {
        CacheRead::Found(text) => match judge_marker(text.as_str(), now) {
            Freshness::Fresh => Step {
                state: Provider::IndexWanted { url },
                action: Action::ReadIndex,
                note: None,
            },
            Freshness::Expired => fetch_from(url, None),
            Freshness::Malformed => fetch_from(url, Some(ErrorDetails::ParseExpiryError)),
        },
        CacheRead::Absent => fetch_from(url, None),
        CacheRead::Unreadable => fetch_from(
            url,
            Some(ErrorDetails::ReadCacheError { file: CacheFile::Expiry }),
        ),
    }
}

fn on_index_read(url: String, index: CacheRead<NodeIndex>) -> (step: Step)
    ensures
        step@ == after_index_read(url, index),
{
    match index {
        CacheRead::Found(index) => hand_over(Ok(index), None),
        CacheRead::Absent => fetch_from(url, None),
        CacheRead::Unreadable => fetch_from(
            url,
            Some(ErrorDetails::ReadCacheError { file: CacheFile::Index }),
        ),
    }
}

/// Whether the record that `step` sets out to store, if it does, expires
/// strictly after `now`.
pub open spec fn stores_beyond(step: Step, now: u64) -> bool {
    match step.state {
        Provider::IndexWriteWanted { index, until } => is_after(until, now as int),
        _ => true,
    }
}

/// Whether `event` is a fetch with a response that has a lifetime above
/// zero.
pub open spec fn brings_lifetime(event: Event) -> bool {
    match event {
        Event::Fetched { response: Some(fetched), now } => lives_on(fetched),
        _ => false,
    }
}

fn on_fetched(url: String, response: Option<Response>, now: u64) -> (step: Step)
    ensures
        step@ == after_fetch(url, response, now),
        (response matches Some(fetched) && lives_on(fetched)) ==> stores_beyond(step, now),
{
    match response {
        None => hand_over(
            Err(ErrorDetails::NetworkFetchError { tool: "Node".to_owned(), url }),
            None,
        ),
        Some(response) => {
            let until = expiry(&response, now);
            let Response { body, index, expires: _, cache_control: _ } = response;
            match index {
                None => hand_over(Err(ErrorDetails::ParseIndexError { url }), None),
                Some(index) => match until {
                    Some(until) => Step {
                        state: Provider::IndexWriteWanted { index, until },
                        action: Action::WriteIndex { text: body },
                        note: None,
                    },
                    None => hand_over(Ok(index), None),
                },
            }
        },
    }
}

fn on_index_written(index: NodeIndex, until: HttpDate, outcome: Result<(), WritePhase>) -> (step:
    Step)
    ensures
        step@ == after_index_write(index, until, outcome),
{
    match outcome {
        Ok(_) => Step {
            state: Provider::ExpiryWriteWanted { index },
            action: Action::WriteExpiry { text: expiry_marker(&until) },
            note: None,
        },
        Err(phase) => hand_over(
            Ok(index),
            Some(ErrorDetails::WriteCacheError { file: CacheFile::Index, phase }),
        ),
    }
}

fn on_expiry_written(index: NodeIndex, outcome: Result<(), WritePhase>) -> (step: Step)
    ensures
        step@ == after_expiry_write(index, outcome),
{
    match outcome {
        Ok(_) => hand_over(Ok(index), None),
        Err(phase) => hand_over(
            Ok(index),
            Some(ErrorDetails::WriteCacheError { file: CacheFile::Expiry, phase }),
        ),
    }
}

/// Takes the provider from `state` past `event`: gives the new state, the
/// next request, and the failure that was passed over, if any. A record
/// that is to be stored after a fetch expires strictly after the time of
/// the fetch, where the response gave it a lifetime above zero.
pub fn step(state: Provider, event: Event) -> (next: Step)
    ensures
        next@ == transition(state, event),
        (state is ResponseWanted && brings_lifetime(event)) ==> stores_beyond(
            next,
            event->Fetched_now,
        ),
{
    match (state, event) {
        (Provider::ExpiryWanted { url }, Event::ExpiryRead { marker, now }) => read_cached_opt(
            url,
            marker,
            now,
        ),
        (Provider::IndexWanted { url }, Event::IndexRead { index }) => on_index_read(url, index),
        (Provider::ResponseWanted { url }, Event::Fetched { response, now }) => on_fetched(
            url,
            response,
            now,
        ),
        (Provider::IndexWriteWanted { index, until }, Event::Written { outcome }) => {
            on_index_written(index, until, outcome)
        },
        (Provider::ExpiryWriteWanted { index }, Event::Written { outcome }) => on_expiry_written(
            index,
            outcome,
        ),
        (state, _) => Step { state, action: Action::Wait, note: None },
    }
}

} // verus!
