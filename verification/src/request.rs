//! Resolving a request: from a repository name and a path to a response.
//!
//! The resolution is a state machine. Each step takes what the outside world
//! answered to the last action and hands out the next action: a question to
//! the cache store, a fetch from the upstream, or the response itself.

use crate::config::{Config, ConfigView, Repository};
use crate::error::{AptCacheError, STATUS_OK};
use crate::expiry::{check_file_ttl, is_expired};
use crate::key::{cache_key, cache_key_of, is_key, KEY_LEN};
use crate::store::{Probe, StoreReply};
use vstd::prelude::*;
use vstd::string::*;

verus! {

/// Name of the response header that says whether the body came from the cache.
pub const CACHED_HEADER: &'static str = "X-Cached";

/// How the upstream answered a fetch.
#[derive(Debug, Clone, Copy, PartialEq, Eq, Structural)]
pub enum UpstreamReply {
    /// It answered with this HTTP status; the body is still to be streamed.
    Status(u16),
    /// It could not be reached, or broke the protocol.
    Failed,
}

/// What to do about a cache entry, given what the store reports of it.
#[derive(Debug, Clone, Copy, PartialEq, Eq, Structural)]
pub enum CacheVerdict {
    /// The entry is there and fresh: serve it.
    Hit,
    /// There is no entry: fetch from the upstream.
    Miss,
    /// The entry has outlived its time to live: delete it, then fetch.
    Expired,
    /// The store failed: so does the request.
    Failed,
}

/// Where a resolution stands.
#[derive(Debug, Clone, Copy, PartialEq, Eq, Structural)]
pub enum ResolveState {
    /// Nothing has happened yet.
    Start,
    /// The cache store has been asked for the entry.
    CacheCheck,
    /// An expired entry is being deleted.
    Evicting,
    /// A fresh entry is being opened for reading.
    Opening,
    /// The upstream has been asked for the file.
    UpstreamFetch,
    /// The entry is being created to receive a successful upstream response.
    Creating,
    /// Ended: the repository is not configured.
    NotFound,
    /// Ended: the response is served from the cache.
    CacheHit,
    /// Ended: the upstream's unsuccessful response is passed through.
    PassthroughNonOk,
    /// Ended: the upstream's response is served and written to the cache.
    TeeAndCache,
    /// Ended: the cache store or the upstream failed.
    Failed,
}

/// What happened outside since the last step.
#[derive(Debug, Clone, Copy, PartialEq, Eq, Structural)]
pub enum ResolveEvent {
    /// A request arrived.
    Request,
    /// The cache store answered a probe.
    Probed(Probe),
    /// The cache store answered the deletion of an expired entry.
    Evicted(StoreReply),
    /// The cache store answered the opening of an entry for reading.
    Opened(StoreReply),
    /// The upstream answered.
    Upstream(UpstreamReply),
    /// The cache store answered the creation of an entry for writing.
    Created(StoreReply),
}

/// Where the bytes of a response come from.
#[derive(Debug, Clone, Copy, PartialEq, Eq, Structural)]
pub enum Body {
    /// The cache entry that was opened.
    CacheFile,
    /// The upstream's body, untouched and not stored.
    Upstream,
    /// The upstream's body, forwarded and written to the entry that was created.
    Tee,
}

/// What the caller has to do next.
#[derive(Debug, Clone, PartialEq, Eq)]
pub enum ResolveAction {
    /// Ask the cache store whether this entry exists and how old it is.
    Probe { cache_path: String },
    /// Delete this entry.
    Evict { cache_path: String },
    /// Open this entry for reading.
    Open { cache_path: String },
    /// Issue a streaming GET for this URL.
    Fetch { url: String },
    /// Create this entry, or truncate it, for writing.
    Create { cache_path: String },
    /// Answer the request.
    Respond { status: u16, cached: bool, body: Body },
    /// Answer the request with an error.
    Reject(AptCacheError),
}

/// What a [`ResolveAction`] holds.
pub enum ResolveActionView {
    Probe { cache_path: Seq<char> },
    Evict { cache_path: Seq<char> },
    Open { cache_path: Seq<char> },
    Fetch { url: Seq<char> },
    Create { cache_path: Seq<char> },
    Respond { status: u16, cached: bool, body: Body },
    Reject(AptCacheError),
}

impl View for ResolveAction {
    type V = ResolveActionView;

    open spec fn view(&self) -> ResolveActionView {
        match self {
            ResolveAction::Probe { cache_path } => ResolveActionView::Probe {
                cache_path: cache_path@,
            },
            ResolveAction::Evict { cache_path } => ResolveActionView::Evict {
                cache_path: cache_path@,
            },
            ResolveAction::Open { cache_path } => ResolveActionView::Open {
                cache_path: cache_path@,
            },
            ResolveAction::Fetch { url } => ResolveActionView::Fetch { url: url@ },
            ResolveAction::Create { cache_path } => ResolveActionView::Create {
                cache_path: cache_path@,
            },
            ResolveAction::Respond { status, cached, body } => ResolveActionView::Respond {
                status: *status,
                cached: *cached,
                body: *body,
            },
            ResolveAction::Reject(error) => ResolveActionView::Reject(*error),
        }
    }
}

/// The file that holds the cache entry of a path:
/// `{cache_directory}/{repository}/{cache key of the path}`.
pub open spec fn cache_file_path(
    cache_directory: Seq<char>,
    repository: Seq<char>,
    path: Seq<char>,
) -> Seq<char> {
    cache_directory + seq!['/'] + repository + seq!['/'] + cache_key_of(path)
}

/// The upstream URL of a path: the base URL followed by the path.
pub open spec fn upstream_url_of(base_url: Seq<char>, path: Seq<char>) -> Seq<char> {
    base_url + path
}

/// The verdict on an entry, by what the store reports and the time to live.
pub open spec fn cache_verdict(ttl_minutes: u64, probe: Probe) -> CacheVerdict {
    match probe {
        Probe::Absent => CacheVerdict::Miss,
        Probe::Present { age_secs } => if is_expired(age_secs, ttl_minutes) {
            CacheVerdict::Expired
        } else {
            CacheVerdict::Hit
        },
        Probe::Failed => CacheVerdict::Failed,
    }
}

impl ResolveState {
    /// The resolution has ended: no event is awaited.
    pub open spec fn is_terminal(self) -> bool {
        match self {
            ResolveState::NotFound
            | ResolveState::CacheHit
            | ResolveState::PassthroughNonOk
            | ResolveState::TeeAndCache
            | ResolveState::Failed => true,
            _ => false,
        }
    }

    /// The event is the answer that this state waits for.
    pub open spec fn awaits(self, event: ResolveEvent) -> bool {
        match (self, event) {
            (ResolveState::Start, ResolveEvent::Request) => true,
            (ResolveState::CacheCheck, ResolveEvent::Probed(_)) => true,
            (ResolveState::Evicting, ResolveEvent::Evicted(_)) => true,
            (ResolveState::Opening, ResolveEvent::Opened(_)) => true,
            (ResolveState::UpstreamFetch, ResolveEvent::Upstream(_)) => true,
            (ResolveState::Creating, ResolveEvent::Created(_)) => true,
            _ => false,
        }
    }
}

impl ResolveState {
    /// Whether the event is the answer that this state waits for.
    pub fn expects(self, event: ResolveEvent) -> (yes: bool)
        ensures
            yes == self.awaits(event),
    {
        match (self, event) {
            (ResolveState::Start, ResolveEvent::Request) => true,
            (ResolveState::CacheCheck, ResolveEvent::Probed(_)) => true,
            (ResolveState::Evicting, ResolveEvent::Evicted(_)) => true,
            (ResolveState::Opening, ResolveEvent::Opened(_)) => true,
            (ResolveState::UpstreamFetch, ResolveEvent::Upstream(_)) => true,
            (ResolveState::Creating, ResolveEvent::Created(_)) => true,
            _ => false,
        }
    }
}

/// One step of a resolution whose repository is configured, for an event that
/// the state awaits. `cache_path` is the entry's file, `url` the upstream URL.
pub open spec fn transition(
    ttl_minutes: u64,
    cache_path: Seq<char>,
    url: Seq<char>,
    event: ResolveEvent,
) -> (ResolveState, ResolveActionView) {
    let fetch = (ResolveState::UpstreamFetch, ResolveActionView::Fetch { url });
    let fail = (ResolveState::Failed, ResolveActionView::Reject(AptCacheError::CacheFailure));
    match event {
        ResolveEvent::Request => (
            ResolveState::CacheCheck,
            ResolveActionView::Probe { cache_path },
        ),
        ResolveEvent::Probed(probe) => match cache_verdict(ttl_minutes, probe) {
            CacheVerdict::Hit => (ResolveState::Opening, ResolveActionView::Open { cache_path }),
            CacheVerdict::Miss => fetch,
            CacheVerdict::Expired => (
                ResolveState::Evicting,
                ResolveActionView::Evict { cache_path },
            ),
            CacheVerdict::Failed => fail,
        },
        ResolveEvent::Evicted(reply) => match reply {
            StoreReply::Done | StoreReply::Absent => fetch,
            StoreReply::Failed => fail,
        },
        ResolveEvent::Opened(reply) => match reply {
            StoreReply::Done => (
                ResolveState::CacheHit,
                ResolveActionView::Respond {
                    status: STATUS_OK,
                    cached: true,
                    body: Body::CacheFile,
                },
            ),
            StoreReply::Absent => fetch,
            StoreReply::Failed => fail,
        },
        ResolveEvent::Upstream(reply) => match reply {
            UpstreamReply::Status(status) => if status == STATUS_OK {
                (ResolveState::Creating, ResolveActionView::Create { cache_path })
            } else {
                (
                    ResolveState::PassthroughNonOk,
                    ResolveActionView::Respond { status, cached: false, body: Body::Upstream },
                )
            },
            UpstreamReply::Failed => (
                ResolveState::Failed,
                ResolveActionView::Reject(AptCacheError::UpstreamFailure),
            ),
        },
        ResolveEvent::Created(reply) => match reply {
            StoreReply::Done => (
                ResolveState::TeeAndCache,
                ResolveActionView::Respond { status: STATUS_OK, cached: false, body: Body::Tee },
            ),
            StoreReply::Absent | StoreReply::Failed => fail,
        },
    }
}

/// One step of a resolution.
///
/// An event that the state does not await is no step. Otherwise the
/// repository is looked up first, and a request for an unconfigured one ends
/// at once; for a configured one the step is [`transition`].
pub open spec fn resolve_step(
    config: ConfigView,
    repository: Seq<char>,
    path: Seq<char>,
    state: ResolveState,
    event: ResolveEvent,
) -> Option<(ResolveState, ResolveActionView)> {
    if !state.awaits(event) {
        None
    } else {
        match config.lookup(repository) {
            None => Some(
                (
                    ResolveState::NotFound,
                    ResolveActionView::Reject(AptCacheError::RepositoryNotFound),
                ),
            ),
            Some(found) => Some(
                transition(
                    config.cache_ttl,
                    cache_file_path(config.cache_directory, repository, path),
                    upstream_url_of(found.url, path),
                    event,
                ),
            ),
        }
    }
}

/// What a step holds.
pub open spec fn step_view(step: Option<(ResolveState, ResolveAction)>) -> Option<
    (ResolveState, ResolveActionView),
> {
    match step {
        Some((state, action)) => Some((state, action@)),
        None => None,
    }
}

/// The value of the `X-Cached` header.
pub open spec fn cached_header_text(cached: bool) -> Seq<char> {
    if cached {
        "true"@
    } else {
        "false"@
    }
}

/// The value of the `X-Cached` response header: whether the body was served
/// from the cache.
pub fn cached_header_value(cached: bool) -> (value: &'static str)
    ensures
        value@ == cached_header_text(cached),
{
    match cached {
        true => "true",
        false => "false",
    }
}

/// Get the file path to the cache file.
/// The path looks like this: `{cache_directory}/{repository_name}/{hash_of_path}`.
pub fn get_cache_file_path(config: &Config, repository: &str, path: &str) -> (cache_path: String)
    ensures
        cache_path@ == cache_file_path(config@.cache_directory, repository@, path@),
        is_key(cache_key_of(path@)),
        cache_path@.len() == config@.cache_directory.len() + repository@.len() + 2 + KEY_LEN,
{
    proof {
        reveal_strlit("/");
    }
    let key = cache_key(path);
    let cache_path = config.cache_directory.clone().concat("/").concat(repository).concat(
        "/",
    ).concat(key.as_str());
    assert("/"@ =~= seq!['/']);
    cache_path
}

/// The URL at which the upstream serves a path of this repository.
pub fn upstream_url(repository: &Repository, path: &str) -> (url: String)
    ensures
        url@ == upstream_url_of(repository@.url, path@),
{
    repository.url.clone().concat(path)
}

/// Decides what to do about a cache entry from what the store reports of it.
/// An entry is served only while it is fresh; an expired one has to be
/// deleted before the file is fetched again.
pub fn get_cached_file(config: &Config, probe: Probe) -> (verdict: CacheVerdict)
    ensures
        verdict == cache_verdict(config.cache_ttl, probe),
{
    match probe {
        Probe::Absent => CacheVerdict::Miss,
        Probe::Present { age_secs } => if check_file_ttl(config, age_secs) {
            CacheVerdict::Hit
        } else {
            CacheVerdict::Expired
        },
        Probe::Failed => CacheVerdict::Failed,
    }
}

/// Request a file (path) in the given repository: one step of the resolution.
///
/// Start with `ResolveState::Start` and `ResolveEvent::Request`; perform the
/// action that comes back and call again with the state that came back and
/// the outcome of the action, until the action is `Respond` or `Reject`.
/// Returns `None` exactly when the event is not the one the state awaits.
pub fn request_file(
    config: &Config,
    repository: &str,
    path: &str,
    state: ResolveState,
    event: ResolveEvent,
) -> (step: Option<(ResolveState, ResolveAction)>)
    ensures
        step_view(step) == resolve_step(config@, repository@, path@, state, event),
        step is Some <==> state.awaits(event),
{
    if !state.expects(event) {
        return None;
    }
    let repo = match config.get_repository(repository) {
        Some(repo) => repo,
        None => {
            return Some(
                (ResolveState::NotFound, ResolveAction::Reject(AptCacheError::RepositoryNotFound)),
            );
        },
    };
    let step = match event {
        ResolveEvent::Request => (
            ResolveState::CacheCheck,
            ResolveAction::Probe { cache_path: get_cache_file_path(config, repository, path) },
        ),
        ResolveEvent::Probed(probe) => match get_cached_file(config, probe) {
            CacheVerdict::Hit => (
                ResolveState::Opening,
                ResolveAction::Open { cache_path: get_cache_file_path(config, repository, path) },
            ),
            CacheVerdict::Miss => (
                ResolveState::UpstreamFetch,
                ResolveAction::Fetch { url: upstream_url(repo, path) },
            ),
            CacheVerdict::Expired => (
                ResolveState::Evicting,
                ResolveAction::Evict { cache_path: get_cache_file_path(config, repository, path) },
            ),
            CacheVerdict::Failed => (
                ResolveState::Failed,
                ResolveAction::Reject(AptCacheError::CacheFailure),
            ),
        },
        ResolveEvent::Evicted(reply) => match reply {
            StoreReply::Done | StoreReply::Absent => (
                ResolveState::UpstreamFetch,
                ResolveAction::Fetch { url: upstream_url(repo, path) },
            ),
            StoreReply::Failed => (
                ResolveState::Failed,
                ResolveAction::Reject(AptCacheError::CacheFailure),
            ),
        },
        ResolveEvent::Opened(reply) => match reply {
            StoreReply::Done => (
                ResolveState::CacheHit,
                ResolveAction::Respond { status: STATUS_OK, cached: true, body: Body::CacheFile },
            ),
            StoreReply::Absent => (
                ResolveState::UpstreamFetch,
                ResolveAction::Fetch { url: upstream_url(repo, path) },
            ),
            StoreReply::Failed => (
                ResolveState::Failed,
                ResolveAction::Reject(AptCacheError::CacheFailure),
            ),
        },
        ResolveEvent::Upstream(reply) => match reply {
            UpstreamReply::Status(status) => if status == STATUS_OK {
                (
                    ResolveState::Creating,
                    ResolveAction::Create {
                        cache_path: get_cache_file_path(config, repository, path),
                    },
                )
            } else {
                (
                    ResolveState::PassthroughNonOk,
                    ResolveAction::Respond { status, cached: false, body: Body::Upstream },
                )
            },
            UpstreamReply::Failed => (
                ResolveState::Failed,
                ResolveAction::Reject(AptCacheError::UpstreamFailure),
            ),
        },
        ResolveEvent::Created(reply) => match reply {
            StoreReply::Done => (
                ResolveState::TeeAndCache,
                ResolveAction::Respond { status: STATUS_OK, cached: false, body: Body::Tee },
            ),
            StoreReply::Absent | StoreReply::Failed => (
                ResolveState::Failed,
                ResolveAction::Reject(AptCacheError::CacheFailure),
            ),
        },
    };
    Some(step)
}

/// A resolution ends with its response: a step leads to a terminal state
/// exactly when its action is `Respond` or `Reject`, and a terminal state
/// takes no further step.
pub proof fn responses_end_the_resolution(
    config: ConfigView,
    repository: Seq<char>,
    path: Seq<char>,
    state: ResolveState,
    event: ResolveEvent,
)
    ensures
        state.is_terminal() ==> resolve_step(config, repository, path, state, event) is None,
        match resolve_step(config, repository, path, state, event) {
            Some((next, action)) => next.is_terminal() <==> (action is Respond || action is Reject),
            None => true,
        },
{
}

/// Only a response with status 200 that did not come from the cache is
/// written to it, and only an entry that was opened is served from it.
pub proof fn only_successful_fetches_are_stored(
    config: ConfigView,
    repository: Seq<char>,
    path: Seq<char>,
    state: ResolveState,
    event: ResolveEvent,
)
    ensures
        match resolve_step(config, repository, path, state, event) {
            Some((_, ResolveActionView::Respond { status, cached, body })) => {
                &&& body == Body::Tee <==> event == ResolveEvent::Created(StoreReply::Done)
                &&& body == Body::Tee ==> status == 200 && !cached
                &&& body == Body::CacheFile <==> event == ResolveEvent::Opened(StoreReply::Done)
                &&& body == Body::CacheFile <==> cached
                &&& cached ==> status == 200
                &&& body == Body::Upstream ==> status != 200
            },
            Some((next, ResolveActionView::Create { .. })) => event == ResolveEvent::Upstream(
                UpstreamReply::Status(200),
            ),
            _ => true,
        },
{
}

} // verus!
