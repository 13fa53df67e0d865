//! A whole resolution, played against a cache store and an upstream that do
//! what they are asked: what a request ends in, and what it leaves behind.
//!
//! Nothing here runs. The module states, over the step function of
//! [`crate::request`], what follows for a request from its first event to
//! its response when no operation fails and nobody else touches the entry.

use crate::config::ConfigView;
use crate::error::{AptCacheError, STATUS_OK};
use crate::expiry::{is_expired, ttl_seconds};
use crate::request::{
    cache_file_path, resolve_step, upstream_url_of, Body, ResolveActionView, ResolveEvent,
    ResolveState, UpstreamReply,
};
use crate::store::{Probe, StoreReply};
use vstd::prelude::*;

verus! {

/// What a resolution can see and change outside itself.
pub struct World {
    /// The age of the entry at the request's cache path, if there is one, in
    /// whole seconds, rounded up.
    pub entry: Option<u64>,
    /// What the upstream answers when asked for the file.
    pub upstream: UpstreamReply,
    /// How often the upstream has been asked.
    pub fetches: nat,
}

/// How a resolution ended.
pub struct Outcome {
    /// The world it left behind.
    pub world: World,
    /// The terminal state.
    pub state: ResolveState,
    /// The last action: the response, or the error.
    pub action: ResolveActionView,
}

impl World {
    /// The request would find no entry to serve: there is none, or it has
    /// outlived the time to live.
    pub open spec fn is_miss(self, ttl_minutes: u64) -> bool {
        match self.entry {
            None => true,
            Some(age_secs) => is_expired(age_secs, ttl_minutes),
        }
    }

    /// The world after the upstream has been asked once more.
    pub open spec fn fetched(self) -> World {
        World { fetches: self.fetches + 1, ..self }
    }

    /// The world with the entry gone.
    pub open spec fn without_entry(self) -> World {
        World { entry: None, ..self }
    }

    /// The world with the entry newly written.
    pub open spec fn with_new_entry(self) -> World {
        World { entry: Some(0), ..self }
    }
}

/// What a working store and upstream answer to an action, and the world as
/// the action leaves it. A response or an error is answered by nobody.
pub open spec fn answer(world: World, action: ResolveActionView) -> Option<(World, ResolveEvent)> {
    match action {
        ResolveActionView::Probe { .. } => Some(
            (
                world,
                ResolveEvent::Probed(
                    match world.entry {
                        Some(age_secs) => Probe::Present { age_secs },
                        None => Probe::Absent,
                    },
                ),
            ),
        ),
        ResolveActionView::Evict { .. } => Some(
            (
                world.without_entry(),
                ResolveEvent::Evicted(
                    if world.entry is Some {
                        StoreReply::Done
                    } else {
                        StoreReply::Absent
                    },
                ),
            ),
        ),
        ResolveActionView::Open { .. } => Some(
            (
                world,
                ResolveEvent::Opened(
                    if world.entry is Some {
                        StoreReply::Done
                    } else {
                        StoreReply::Absent
                    },
                ),
            ),
        ),
        ResolveActionView::Fetch { .. } => Some(
            (world.fetched(), ResolveEvent::Upstream(world.upstream)),
        ),
        ResolveActionView::Create { .. } => Some(
            (world.with_new_entry(), ResolveEvent::Created(StoreReply::Done)),
        ),
        ResolveActionView::Respond { .. } => None,
        ResolveActionView::Reject(_) => None,
    }
}

/// The resolution from a given state and event on, for at most `fuel` more
/// answered actions.
pub open spec fn resolve_from(
    config: ConfigView,
    repository: Seq<char>,
    path: Seq<char>,
    world: World,
    state: ResolveState,
    event: ResolveEvent,
    fuel: nat,
) -> Option<Outcome>
    decreases fuel,
{
    match resolve_step(config, repository, path, state, event) {
        None => None,
        Some((next, action)) => match answer(world, action) {
            None => Some(Outcome { world, state: next, action }),
            Some((changed, reply)) => if fuel == 0 {
                None
            } else {
                resolve_from(config, repository, path, changed, next, reply, (fuel - 1) as nat)
            },
        },
    }
}

/// Most actions that a resolution asks for before it responds: probe,
/// evict, fetch and create.
pub open spec fn longest_resolution() -> nat {
    4
}

/// A whole resolution of one request.
pub open spec fn resolve(
    config: ConfigView,
    repository: Seq<char>,
    path: Seq<char>,
    world: World,
) -> Option<Outcome> {
    resolve_from(
        config,
        repository,
        path,
        world,
        ResolveState::Start,
        ResolveEvent::Request,
        longest_resolution(),
    )
}

/// What a resolution ends in, case by case.
pub open spec fn expected_outcome(
    config: ConfigView,
    repository: Seq<char>,
    world: World,
) -> Outcome {
    if !config.has_repository(repository) {
        Outcome {
            world,
            state: ResolveState::NotFound,
            action: ResolveActionView::Reject(AptCacheError::RepositoryNotFound),
        }
    } else if !world.is_miss(config.cache_ttl) {
        Outcome {
            world,
            state: ResolveState::CacheHit,
            action: ResolveActionView::Respond {
                status: STATUS_OK,
                cached: true,
                body: Body::CacheFile,
            },
        }
    } else {
        match world.upstream {
            UpstreamReply::Failed => Outcome {
                world: world.without_entry().fetched(),
                state: ResolveState::Failed,
                action: ResolveActionView::Reject(AptCacheError::UpstreamFailure),
            },
            UpstreamReply::Status(status) => if status == STATUS_OK {
                Outcome {
                    world: world.with_new_entry().fetched(),
                    state: ResolveState::TeeAndCache,
                    action: ResolveActionView::Respond {
                        status: STATUS_OK,
                        cached: false,
                        body: Body::Tee,
                    },
                }
            } else {
                Outcome {
                    world: world.without_entry().fetched(),
                    state: ResolveState::PassthroughNonOk,
                    action: ResolveActionView::Respond {
                        status,
                        cached: false,
                        body: Body::Upstream,
                    },
                }
            },
        }
    }
}

/// Every resolution ends, within the longest chain of actions, and ends as
/// [`expected_outcome`] says.
pub proof fn resolution_ends_as_expected(
    config: ConfigView,
    repository: Seq<char>,
    path: Seq<char>,
    world: World,
)
    ensures
        resolve(config, repository, path, world) == Some(
            expected_outcome(config, repository, world),
        ),
{
    reveal_with_fuel(resolve_from, 6);
    let expected = expected_outcome(config, repository, world);
    let outcome = resolve(config, repository, path, world);
    if config.has_repository(repository) {
        assert(outcome is Some);
        assert(outcome.unwrap().world =~= expected.world);
    }
}

/// A request for a repository that is not configured ends in
/// `RepositoryNotFound`, whatever the path, without a question to the cache
/// store or the upstream; the error is answered with status 404.
pub proof fn unconfigured_repository_is_not_found(
    config: ConfigView,
    repository: Seq<char>,
    path: Seq<char>,
    world: World,
)
    requires
        !config.has_repository(repository),
    ensures
        resolve(config, repository, path, world) == Some(
            Outcome {
                world,
                state: ResolveState::NotFound,
                action: ResolveActionView::Reject(AptCacheError::RepositoryNotFound),
            },
        ),
        AptCacheError::RepositoryNotFound.status() == 404,
        forall|state: ResolveState, event: ResolveEvent| #[trigger]
            state.awaits(event) ==> resolve_step(config, repository, path, state, event) == Some(
                (
                    ResolveState::NotFound,
                    ResolveActionView::Reject(AptCacheError::RepositoryNotFound),
                ),
            ),
{
    resolution_ends_as_expected(config, repository, path, world);
}

/// While an entry is fresh the request is served from it: status 200,
/// marked as cached, with no call to the upstream and the entry untouched.
pub proof fn fresh_entry_is_a_hit(
    config: ConfigView,
    repository: Seq<char>,
    path: Seq<char>,
    world: World,
)
    requires
        config.has_repository(repository),
        !world.is_miss(config.cache_ttl),
    ensures
        resolve(config, repository, path, world) is Some,
        resolve(config, repository, path, world).unwrap().action == (ResolveActionView::Respond {
            status: 200,
            cached: true,
            body: Body::CacheFile,
        }),
        resolve(config, repository, path, world).unwrap().world == world,
{
    resolution_ends_as_expected(config, repository, path, world);
}

/// Once an entry's age exceeds the time to live, the next request for its
/// path is a miss: the entry is deleted and the upstream is asked anew,
/// exactly once.
pub proof fn expired_entry_is_a_miss(
    config: ConfigView,
    repository: Seq<char>,
    path: Seq<char>,
    world: World,
    age_secs: u64,
)
    requires
        config.has_repository(repository),
        world.entry == Some(age_secs),
        age_secs as int > ttl_seconds(config.cache_ttl),
    ensures
        resolve(config, repository, path, world) is Some,
        resolve(config, repository, path, world).unwrap().state != ResolveState::CacheHit,
        resolve(config, repository, path, world).unwrap().world.fetches == world.fetches + 1,
        resolve(config, repository, path, world).unwrap().world.entry is Some ==> world.upstream
            == UpstreamReply::Status(200),
{
    resolution_ends_as_expected(config, repository, path, world);
}

/// A miss that the upstream answers with 200 is served with status 200, not
/// marked as cached, and written to the cache while it is served.
pub proof fn successful_miss_is_cached(
    config: ConfigView,
    repository: Seq<char>,
    path: Seq<char>,
    world: World,
)
    requires
        config.has_repository(repository),
        world.is_miss(config.cache_ttl),
        world.upstream == UpstreamReply::Status(200),
    ensures
        resolve(config, repository, path, world) is Some,
        resolve(config, repository, path, world).unwrap().action == (ResolveActionView::Respond {
            status: 200,
            cached: false,
            body: Body::Tee,
        }),
        resolve(config, repository, path, world).unwrap().world.entry == Some(0u64),
        resolve(config, repository, path, world).unwrap().world.fetches == world.fetches + 1,
{
    resolution_ends_as_expected(config, repository, path, world);
}

/// An upstream response other than 200 is passed through with its status
/// and never stored: after the request the cache holds no entry for the
/// path.
pub proof fn unsuccessful_response_is_never_cached(
    config: ConfigView,
    repository: Seq<char>,
    path: Seq<char>,
    world: World,
    status: u16,
)
    requires
        config.has_repository(repository),
        world.is_miss(config.cache_ttl),
        world.upstream == UpstreamReply::Status(status),
        status != 200,
    ensures
        resolve(config, repository, path, world) is Some,
        resolve(config, repository, path, world).unwrap().action == (ResolveActionView::Respond {
            status,
            cached: false,
            body: Body::Upstream,
        }),
        resolve(config, repository, path, world).unwrap().world.entry is None,
{
    resolution_ends_as_expected(config, repository, path, world);
}

/// An upstream that cannot be reached fails the request and leaves no entry
/// behind.
pub proof fn unreachable_upstream_leaves_no_entry(
    config: ConfigView,
    repository: Seq<char>,
    path: Seq<char>,
    world: World,
)
    requires
        config.has_repository(repository),
        world.is_miss(config.cache_ttl),
        world.upstream == UpstreamReply::Failed,
    ensures
        resolve(config, repository, path, world) is Some,
        resolve(config, repository, path, world).unwrap().action == ResolveActionView::Reject(
            AptCacheError::UpstreamFailure,
        ),
        resolve(config, repository, path, world).unwrap().world.entry is None,
{
    resolution_ends_as_expected(config, repository, path, world);
}

/// A hit reads the file that the miss before it wrote: for one repository
/// and path, the entry that is created on a successful fetch, the entry that
/// is probed, and the entry that is opened are the same file; and the
/// upstream is asked for the base URL followed by the path.
pub proof fn hit_reads_what_the_miss_wrote(
    config: ConfigView,
    repository: Seq<char>,
    path: Seq<char>,
    age_secs: u64,
)
    requires
        config.has_repository(repository),
        !is_expired(age_secs, config.cache_ttl),
    ensures
        resolve_step(config, repository, path, ResolveState::Start, ResolveEvent::Request) == Some(
            (
                ResolveState::CacheCheck,
                ResolveActionView::Probe {
                    cache_path: cache_file_path(config.cache_directory, repository, path),
                },
            ),
        ),
        resolve_step(
            config,
            repository,
            path,
            ResolveState::UpstreamFetch,
            ResolveEvent::Upstream(UpstreamReply::Status(200)),
        ) == Some(
            (
                ResolveState::Creating,
                ResolveActionView::Create {
                    cache_path: cache_file_path(config.cache_directory, repository, path),
                },
            ),
        ),
        resolve_step(
            config,
            repository,
            path,
            ResolveState::CacheCheck,
            ResolveEvent::Probed(Probe::Present { age_secs }),
        ) == Some(
            (
                ResolveState::Opening,
                ResolveActionView::Open {
                    cache_path: cache_file_path(config.cache_directory, repository, path),
                },
            ),
        ),
        resolve_step(
            config,
            repository,
            path,
            ResolveState::CacheCheck,
            ResolveEvent::Probed(Probe::Absent),
        ) == Some(
            (
                ResolveState::UpstreamFetch,
                ResolveActionView::Fetch {
                    url: upstream_url_of(config.lookup(repository).unwrap().url, path),
                },
            ),
        ),
{
}

/// An entry that vanishes between the probe and the opening is a miss, not
/// a failure.
pub proof fn vanished_entry_is_a_miss(config: ConfigView, repository: Seq<char>, path: Seq<char>)
    requires
        config.has_repository(repository),
    ensures
        resolve_step(
            config,
            repository,
            path,
            ResolveState::Opening,
            ResolveEvent::Opened(StoreReply::Absent),
        ) == Some(
            (
                ResolveState::UpstreamFetch,
                ResolveActionView::Fetch {
                    url: upstream_url_of(config.lookup(repository).unwrap().url, path),
                },
            ),
        ),
{
}

} // verus!
