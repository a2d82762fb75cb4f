//! Whole runs of the index provider, and what holds of every one of them.
//!
//! A run is the provider's side of a conversation: the requests it makes,
//! first to last. What the caller answers is fixed by a `World`, which says
//! what is in the cache, what the registry sends and how the writes end.

use crate::error::{ErrorModel, WritePhase};
use crate::expiry::{expiry_of, freshness_of, Freshness, Response};
use crate::http_date::http_date_text;
use crate::index::NodeIndex;
use crate::provider::{start, tool_name, transition, ActionModel, CacheRead, Event, StepModel};
use vstd::prelude::*;

verus! {

/// The surroundings of one run.
pub struct World {
    /// What reading the expiry marker gives.
    pub marker: CacheRead<String>,
    /// The clock, in seconds since the epoch, when the marker is read.
    pub read_at: u64,
    /// What reading the cached index gives.
    pub cached: CacheRead<NodeIndex>,
    /// What a fetch gives.
    pub response: Option<Response>,
    /// The clock when the fetch is over.
    pub fetched_at: u64,
    /// How a write of the index ends.
    pub index_write: Result<(), WritePhase>,
    /// How a write of the marker ends.
    pub expiry_write: Result<(), WritePhase>,
}

impl World {
    /// The event with which the caller answers `action`. The last request of
    /// a run has no answer.
    pub open spec fn answer(self, action: ActionModel) -> Option<Event> {
        match action {
            ActionModel::ReadExpiry => Some(
                Event::ExpiryRead { marker: self.marker, now: self.read_at },
            ),
            ActionModel::ReadIndex => Some(Event::IndexRead { index: self.cached }),
            ActionModel::Fetch { .. } => Some(
                Event::Fetched { response: self.response, now: self.fetched_at },
            ),
            ActionModel::WriteIndex { .. } => Some(Event::Written { outcome: self.index_write }),
            ActionModel::WriteExpiry { .. } => Some(Event::Written { outcome: self.expiry_write }),
            ActionModel::Finish { .. } => None,
            ActionModel::Wait => None,
        }
    }

    /// Whether the cache holds a record that serves: a marker with a date
    /// that is still ahead when it is read, and an index beside it.
    pub open spec fn cache_serves(self) -> bool {
        &&& self.marker matches CacheRead::Found(text)
        &&& freshness_of(text@, self.read_at as int) == Freshness::Fresh
        &&& self.cached is Found
    }

    /// Whether the marker lets the cached index be read at all.
    pub open spec fn marker_is_fresh(self) -> bool {
        &&& self.marker matches CacheRead::Found(text)
        &&& freshness_of(text@, self.read_at as int) == Freshness::Fresh
    }
}

/// The requests that the provider makes from `step` on, at most `fuel` of
/// them after that of `step` itself.
pub open spec fn run(world: World, step: StepModel, fuel: nat) -> Seq<ActionModel>
    decreases fuel,
{
    match world.answer(step.action) {
        Some(event) => if fuel > 0 {
            seq![step.action] + run(world, transition(step.state, event), (fuel - 1) as nat)
        } else {
            seq![step.action]
        },
        None => seq![step.action],
    }
}

/// The requests that the provider makes, first to last, when it is asked
/// for the index at `url` in `world`. No run makes more than six.
pub open spec fn requests(world: World, url: String) -> Seq<ActionModel> {
    run(world, start(url), 5)
}

/// The requests with which a run begins: the marker is read, and the cached
/// index too if the marker allows it.
pub open spec fn reads(world: World) -> Seq<ActionModel> {
    if world.marker_is_fresh() {
        seq![ActionModel::ReadExpiry, ActionModel::ReadIndex]
    } else {
        seq![ActionModel::ReadExpiry]
    }
}

/// Every run comes to an end: its last request, at most the sixth, hands
/// over an index or a failure, and no request before it does.
pub proof fn run_finishes(world: World, url: String)
    ensures
        1 <= requests(world, url).len() <= 6,
        requests(world, url).last() is Finish,
        forall|i: int|
            0 <= i < requests(world, url).len() - 1 ==> !(#[trigger] requests(world, url)[i]
                is Finish) && !(requests(world, url)[i] is Wait),
{
    reveal_with_fuel(run, 6);
}

/// A cache that serves is served from: the run reads the marker and the
/// index, hands the cached index over, and asks for nothing else. It makes
/// no fetch.
pub proof fn cache_hit_makes_no_fetch(world: World, url: String)
    requires
        world.cache_serves(),
    ensures
        requests(world, url) == seq![
            ActionModel::ReadExpiry,
            ActionModel::ReadIndex,
            ActionModel::Finish { index: Ok(world.cached->Found_0) },
        ],
        forall|i: int|
            0 <= i < requests(world, url).len() ==> !(#[trigger] requests(world, url)[i] is Fetch),
{
    reveal_with_fuel(run, 6);
}

/// A cache that does not serve (no marker, a marker without a date, a date
/// that has come, no index beside it) leads to one fetch and no more: the
/// fetch follows the reads, it is of `url`, and no other request is a fetch.
pub proof fn cache_miss_fetches_once(world: World, url: String)
    requires
        !world.cache_serves(),
    ensures
        requests(world, url).len() > reads(world).len(),
        requests(world, url).subrange(0, reads(world).len() as int) == reads(world),
        requests(world, url)[reads(world).len() as int] == (ActionModel::Fetch { url: url@ }),
        forall|i: int|
            0 <= i < requests(world, url).len() && #[trigger] requests(world, url)[i] is Fetch
                ==> i == reads(world).len(),
{
    reveal_with_fuel(run, 6);
    let trace = requests(world, url);
    let n = reads(world).len() as int;
    assert(trace.subrange(0, n) =~= reads(world));
}

/// After a miss, a fetch that brings an index with an expiry, followed by
/// writes that succeed, stores the record and serves the index: the body is
/// written as the index, then the expiry as the marker, then the fetched
/// index is handed over.
pub proof fn cache_miss_stores_what_it_fetched(world: World, url: String)
    requires
        !world.cache_serves(),
        world.response matches Some(response) && response.index is Some && expiry_of(
            response,
            world.fetched_at as int,
        ) is Some,
        world.index_write is Ok,
        world.expiry_write is Ok,
    ensures
        requests(world, url) == reads(world) + seq![
            ActionModel::Fetch { url: url@ },
            ActionModel::WriteIndex { text: world.response->Some_0.body@ },
            ActionModel::WriteExpiry {
                text: http_date_text(
                    expiry_of(world.response->Some_0, world.fetched_at as int)->Some_0,
                ),
            },
            ActionModel::Finish { index: Ok(world.response->Some_0.index->Some_0) },
        ],
{
    reveal_with_fuel(run, 6);
    let response = world.response->Some_0;
    let tail = seq![
        ActionModel::Fetch { url: url@ },
        ActionModel::WriteIndex { text: response.body@ },
        ActionModel::WriteExpiry {
            text: http_date_text(expiry_of(response, world.fetched_at as int)->Some_0),
        },
        ActionModel::Finish { index: Ok(response.index->Some_0) },
    ];
    assert(requests(world, url) =~= reads(world) + tail);
}

/// No trouble with the cache keeps a fetched index back: after a miss, a
/// response whose body is an index has that index handed over, however the
/// writes end.
pub proof fn fetched_index_is_served(world: World, url: String)
    requires
        !world.cache_serves(),
        world.response matches Some(response) && response.index is Some,
    ensures
        requests(world, url).last() == (ActionModel::Finish {
            index: Ok(world.response->Some_0.index->Some_0),
        }),
{
    reveal_with_fuel(run, 6);
}

/// A run fails only on the fetch: with no response, or with a body that is
/// no index, and in either case with the address in the failure. A run
/// whose cache serves does not fail.
pub proof fn only_the_fetch_fails(world: World, url: String)
    ensures
        requests(world, url).last() matches ActionModel::Finish { index: Err(failure) } ==> {
            &&& !world.cache_serves()
            &&& match world.response {
                None => failure == (ErrorModel::NetworkFetchError {
                    tool: tool_name(),
                    url: url@,
                }),
                Some(response) => response.index.is_none() && failure == (
                ErrorModel::ParseIndexError { url: url@ }),
            }
        },
{
    reveal_with_fuel(run, 6);
}

/// Two runs on one cache that serves at both times give the same index:
/// each hands over the index that the cache holds.
pub proof fn cache_hits_agree(first: World, second: World, url: String)
    requires
        first.cache_serves(),
        second.cache_serves(),
        first.marker == second.marker,
        first.cached == second.cached,
    ensures
        requests(first, url).last() == requests(second, url).last(),
        requests(first, url).last() == (ActionModel::Finish { index: Ok(first.cached->Found_0) }),
{
    cache_hit_makes_no_fetch(first, url);
    cache_hit_makes_no_fetch(second, url);
}

/// A marker that holds no date, whatever it holds instead, is a miss like
/// any other: the index is fetched next, and the run goes on to its end.
pub proof fn broken_marker_is_a_miss(world: World, url: String)
    requires
        world.marker matches CacheRead::Found(text) && freshness_of(text@, world.read_at as int)
            == Freshness::Malformed,
    ensures
        requests(world, url).len() >= 3,
        requests(world, url)[0] == ActionModel::ReadExpiry,
        requests(world, url)[1] == (ActionModel::Fetch { url: url@ }),
        requests(world, url).last() is Finish,
{
    reveal_with_fuel(run, 6);
}

/// The cached index is not read on a guaranteed miss: a request to read it
/// is the second of its run and follows a marker with a date still ahead.
pub proof fn index_is_read_only_when_fresh(world: World, url: String)
    ensures
        forall|i: int|
            0 <= i < requests(world, url).len() && #[trigger] requests(world, url)[i]
                is ReadIndex ==> i == 1 && world.marker_is_fresh(),
{
    reveal_with_fuel(run, 6);
}

/// The marker is written only over an index that is in place: a request to
/// write the marker comes right after the request to write the index, and
/// only where that write succeeded.
pub proof fn marker_follows_index(world: World, url: String)
    ensures
        forall|i: int|
            0 <= i < requests(world, url).len() && #[trigger] requests(world, url)[i]
                is WriteExpiry ==> i > 0 && requests(world, url)[i - 1] is WriteIndex
                && world.index_write is Ok,
{
    reveal_with_fuel(run, 6);
}

} // verus!
