//! The background sweep: walking the whole cache at a fixed interval and
//! deleting what has expired.
//!
//! The walk itself is the caller's: it lists the cache root and each
//! repository directory under it and reports every entry it finds. What to do
//! about an entry, and when to sleep, is decided here.

use crate::config::Config;
use crate::expiry::{check_file_ttl, is_expired};
use crate::store::StoreReply;
use vstd::prelude::*;

verus! {

/// Seconds between the end of one sweep and the start of the next.
pub const SWEEP_INTERVAL_SECS: u64 = 60;

/// Where the sweeper stands.
#[derive(Debug, Clone, Copy, PartialEq, Eq, Structural)]
pub enum SweepState {
    /// Between two sweeps, or before the first.
    Idle,
    /// Listing the cache root.
    Root,
    /// Listing a repository directory.
    Repository,
    /// Deleting an expired file of a repository directory.
    Evicting,
    /// Ended: the sweeper was cancelled.
    Stopped,
}

/// An entry of a directory, as far as the sweep cares.
#[derive(Debug, Clone, Copy, PartialEq, Eq, Structural)]
pub enum Entry {
    /// A directory.
    Directory,
    /// A regular file, last written this many seconds ago, in whole
    /// seconds, rounded up.
    File { age_secs: u64 },
    /// Something else.
    Other,
    /// An entry whose kind or age could not be read, for one that vanished
    /// after it was listed.
    Unreadable,
}

/// What happened since the last step.
#[derive(Debug, Clone, Copy, PartialEq, Eq, Structural)]
pub enum SweepEvent {
    /// It is time to sweep: the sweeper was started, or the interval elapsed.
    Wake,
    /// The current listing produced an entry.
    Found(Entry),
    /// The current listing has no more entries, or cannot be read any further.
    Exhausted,
    /// The cache store answered the deletion of a file.
    Removed(StoreReply),
    /// The sweeper is asked to stop.
    Cancel,
}

/// What the caller has to do next.
#[derive(Debug, Clone, Copy, PartialEq, Eq, Structural)]
pub enum SweepAction {
    /// Start listing the cache root and report its first entry.
    ListRoot,
    /// Start listing the directory just found and report its first entry.
    Enter,
    /// Report the next entry of the current listing.
    Next,
    /// Delete the file just found and report how that went.
    Evict,
    /// Go back to the listing of the cache root and report its next entry.
    Leave,
    /// Sleep for this many seconds, then report `Wake`.
    Sleep { secs: u64 },
    /// End the task.
    Stop,
}

/// One step of the sweeper. An event that cannot occur in the state is no
/// step.
pub open spec fn sweep_step(ttl_minutes: u64, state: SweepState, event: SweepEvent) -> Option<
    (SweepState, SweepAction),
> {
    match (state, event) {
        (SweepState::Stopped, _) => None,
        (_, SweepEvent::Cancel) => Some((SweepState::Stopped, SweepAction::Stop)),
        (SweepState::Idle, SweepEvent::Wake) => Some((SweepState::Root, SweepAction::ListRoot)),
        (SweepState::Root, SweepEvent::Found(entry)) => match entry {
            Entry::Directory => Some((SweepState::Repository, SweepAction::Enter)),
            _ => Some((SweepState::Root, SweepAction::Next)),
        },
        (SweepState::Root, SweepEvent::Exhausted) => Some(
            (SweepState::Idle, SweepAction::Sleep { secs: SWEEP_INTERVAL_SECS }),
        ),
        (SweepState::Repository, SweepEvent::Found(entry)) => match entry {
            Entry::File { age_secs } => if is_expired(age_secs, ttl_minutes) {
                Some((SweepState::Evicting, SweepAction::Evict))
            } else {
                Some((SweepState::Repository, SweepAction::Next))
            },
            _ => Some((SweepState::Repository, SweepAction::Next)),
        },
        (SweepState::Repository, SweepEvent::Exhausted) => Some(
            (SweepState::Root, SweepAction::Leave),
        ),
        (SweepState::Evicting, SweepEvent::Removed(_)) => Some(
            (SweepState::Repository, SweepAction::Next),
        ),
        _ => None,
    }
}

/// Run a worker that checks every 60 seconds whether a cache file has
/// expired and deletes it if so: one step of that worker.
///
/// Start with `SweepState::Idle` and `SweepEvent::Wake`; perform the action
/// that comes back and call again with the state that came back and what
/// happened. Returns `None` exactly when the event cannot occur in the state.
pub fn run_cache_ttl_worker(config: &Config, state: SweepState, event: SweepEvent) -> (step:
    Option<(SweepState, SweepAction)>)
    ensures
        step == sweep_step(config.cache_ttl, state, event),
{
    match state {
        SweepState::Stopped => None,
        _ => match event {
            SweepEvent::Cancel => Some((SweepState::Stopped, SweepAction::Stop)),
            SweepEvent::Wake => match state {
                SweepState::Idle => Some((SweepState::Root, SweepAction::ListRoot)),
                _ => None,
            },
            SweepEvent::Found(entry) => match state {
                SweepState::Root => match entry {
                    Entry::Directory => Some((SweepState::Repository, SweepAction::Enter)),
                    _ => Some((SweepState::Root, SweepAction::Next)),
                },
                SweepState::Repository => match entry {
                    Entry::File { age_secs } => if check_file_ttl(config, age_secs) {
                        Some((SweepState::Repository, SweepAction::Next))
                    } else {
                        Some((SweepState::Evicting, SweepAction::Evict))
                    },
                    _ => Some((SweepState::Repository, SweepAction::Next)),
                },
                _ => None,
            },
            SweepEvent::Exhausted => match state {
                SweepState::Root => Some(
                    (SweepState::Idle, SweepAction::Sleep { secs: SWEEP_INTERVAL_SECS }),
                ),
                SweepState::Repository => Some((SweepState::Root, SweepAction::Leave)),
                _ => None,
            },
            SweepEvent::Removed(_) => match state {
                SweepState::Evicting => Some((SweepState::Repository, SweepAction::Next)),
                _ => None,
            },
        },
    }
}

/// Nothing but a cancellation ends the sweeper: whatever it finds, and
/// however a listing or a deletion goes, every step leaves it running.
pub proof fn only_cancellation_stops_the_sweep(
    ttl_minutes: u64,
    state: SweepState,
    event: SweepEvent,
)
    requires
        event != SweepEvent::Cancel,
        sweep_step(ttl_minutes, state, event) is Some,
    ensures
        sweep_step(ttl_minutes, state, event).unwrap().0 != SweepState::Stopped,
        sweep_step(ttl_minutes, state, event).unwrap().1 != SweepAction::Stop,
{
}

/// Eviction is idempotent for the sweep: whether the file was deleted, was
/// already gone, or could not be deleted, the sweep goes on with the next
/// entry.
pub proof fn eviction_never_fails_the_sweep(ttl_minutes: u64, reply: StoreReply)
    ensures
        sweep_step(ttl_minutes, SweepState::Evicting, SweepEvent::Removed(reply)) == Some(
            (SweepState::Repository, SweepAction::Next),
        ),
{
}

/// An entry that cannot be read is skipped, in the cache root and in a
/// repository directory alike.
pub proof fn unreadable_entries_are_skipped(ttl_minutes: u64)
    ensures
        sweep_step(ttl_minutes, SweepState::Root, SweepEvent::Found(Entry::Unreadable)) == Some(
            (SweepState::Root, SweepAction::Next),
        ),
        sweep_step(ttl_minutes, SweepState::Repository, SweepEvent::Found(Entry::Unreadable))
            == Some((SweepState::Repository, SweepAction::Next)),
{
}

/// The sweep deletes a file of a repository directory exactly when it has
/// expired.
pub proof fn sweep_evicts_exactly_the_expired(ttl_minutes: u64, age_secs: u64)
    ensures
        sweep_step(
            ttl_minutes,
            SweepState::Repository,
            SweepEvent::Found(Entry::File { age_secs }),
        ) == Some((SweepState::Evicting, SweepAction::Evict)) <==> is_expired(
            age_secs,
            ttl_minutes,
        ),
{
}

/// A sweep that has run through the cache root sleeps for the interval and
/// wakes into the next sweep.
pub proof fn sweeps_repeat_at_the_interval(ttl_minutes: u64)
    ensures
        sweep_step(ttl_minutes, SweepState::Root, SweepEvent::Exhausted) == Some(
            (SweepState::Idle, SweepAction::Sleep { secs: 60 }),
        ),
        sweep_step(ttl_minutes, SweepState::Idle, SweepEvent::Wake) == Some(
            (SweepState::Root, SweepAction::ListRoot),
        ),
{
}

/// A run of the sweeper: the state reached from `start` and the actions
/// handed out, in order, if every event was a step.
pub open spec fn sweep_run(ttl_minutes: u64, start: SweepState, events: Seq<SweepEvent>) -> Option<
    (SweepState, Seq<SweepAction>),
>
    decreases events.len(),
{
    if events.len() == 0 {
        Some((start, Seq::empty()))
    } else {
        match sweep_run(ttl_minutes, start, events.drop_last()) {
            None => None,
            Some((state, actions)) => match sweep_step(ttl_minutes, state, events.last()) {
                None => None,
                Some((next, action)) => Some((next, actions.push(action))),
            },
        }
    }
}

/// A sweeper that is never cancelled never stops, however long it runs and
/// whatever it is told.
pub proof fn uncancelled_sweeper_keeps_running(
    ttl_minutes: u64,
    start: SweepState,
    events: Seq<SweepEvent>,
)
    requires
        start != SweepState::Stopped,
        !events.contains(SweepEvent::Cancel),
        sweep_run(ttl_minutes, start, events) is Some,
    ensures
        sweep_run(ttl_minutes, start, events).unwrap().0 != SweepState::Stopped,
        !sweep_run(ttl_minutes, start, events).unwrap().1.contains(SweepAction::Stop),
    decreases events.len(),
{
    if events.len() > 0 {
        let earlier = events.drop_last();
        assert forall|i: int| 0 <= i < earlier.len() implies earlier[i] != SweepEvent::Cancel by {
            assert(earlier[i] == events[i]);
        }
        assert(events.last() == events[events.len() - 1]);
        uncancelled_sweeper_keeps_running(ttl_minutes, start, earlier);
    }
}

/// The sweep deletes this entry of a repository directory: it is a regular
/// file and has expired.
pub open spec fn is_evicted(ttl_minutes: u64, entry: Entry) -> bool {
    match entry {
        Entry::File { age_secs } => is_expired(age_secs, ttl_minutes),
        _ => false,
    }
}

/// What a caller reports while it walks a repository directory that holds
/// `entries`: each entry as it is found and, for each that the sweep has
/// deleted, how the deletion went. `replies` holds one reply for each entry;
/// those of entries that are not deleted are not used.
pub open spec fn walk(ttl_minutes: u64, entries: Seq<Entry>, replies: Seq<StoreReply>) -> Seq<
    SweepEvent,
>
    recommends
        replies.len() == entries.len(),
    decreases entries.len(),
{
    if entries.len() == 0 {
        Seq::empty()
    } else {
        let earlier = walk(ttl_minutes, entries.drop_last(), replies.drop_last());
        let found = SweepEvent::Found(entries.last());
        if is_evicted(ttl_minutes, entries.last()) {
            earlier.push(found).push(SweepEvent::Removed(replies.last()))
        } else {
            earlier.push(found)
        }
    }
}

/// What the sweep does about a repository directory that holds `entries`:
/// it deletes each expired file and moves on, and skips everything else.
pub open spec fn plan(ttl_minutes: u64, entries: Seq<Entry>) -> Seq<SweepAction>
    decreases entries.len(),
{
    if entries.len() == 0 {
        Seq::empty()
    } else {
        let earlier = plan(ttl_minutes, entries.drop_last());
        if is_evicted(ttl_minutes, entries.last()) {
            earlier.push(SweepAction::Evict).push(SweepAction::Next)
        } else {
            earlier.push(SweepAction::Next)
        }
    }
}

/// One walk through a repository directory deletes every expired file in it
/// and nothing else, in the order of the listing, and is ready for the next
/// entry afterwards: however each deletion went, and whatever else the
/// directory holds.
pub proof fn sweep_evicts_every_expired_file(
    ttl_minutes: u64,
    entries: Seq<Entry>,
    replies: Seq<StoreReply>,
)
    requires
        replies.len() == entries.len(),
    ensures
        sweep_run(ttl_minutes, SweepState::Repository, walk(ttl_minutes, entries, replies))
            == Some((SweepState::Repository, plan(ttl_minutes, entries))),
    decreases entries.len(),
{
    if entries.len() > 0 {
        let earlier = walk(ttl_minutes, entries.drop_last(), replies.drop_last());
        let found = SweepEvent::Found(entries.last());
        sweep_evicts_every_expired_file(ttl_minutes, entries.drop_last(), replies.drop_last());
        let with_found = earlier.push(found);
        assert(with_found.drop_last() =~= earlier);
        assert(with_found.last() == found);
        if is_evicted(ttl_minutes, entries.last()) {
            let removed = SweepEvent::Removed(replies.last());
            let with_removed = with_found.push(removed);
            assert(with_removed.drop_last() =~= with_found);
            assert(with_removed.last() == removed);
            assert(sweep_run(ttl_minutes, SweepState::Repository, with_found) == Some(
                (
                    SweepState::Evicting,
                    plan(ttl_minutes, entries.drop_last()).push(SweepAction::Evict),
                ),
            ));
        }
    }
}

/// A run over two stretches of events is the run over the first followed by
/// the run over the second.
pub proof fn sweep_run_splits(
    ttl_minutes: u64,
    start: SweepState,
    first: Seq<SweepEvent>,
    second: Seq<SweepEvent>,
)
    ensures
        sweep_run(ttl_minutes, start, first + second) == match sweep_run(
            ttl_minutes,
            start,
            first,
        ) {
            None => None,
            Some((middle, actions)) => match sweep_run(ttl_minutes, middle, second) {
                None => None,
                Some((end, more)) => Some((end, actions + more)),
            },
        },
    decreases second.len(),
{
    if second.len() == 0 {
        assert(first + second =~= first);
        if let Some((middle, actions)) = sweep_run(ttl_minutes, start, first) {
            assert(actions + Seq::<SweepAction>::empty() =~= actions);
        }
    } else {
        sweep_run_splits(ttl_minutes, start, first, second.drop_last());
        assert((first + second).drop_last() =~= first + second.drop_last());
        assert((first + second).last() == second.last());
        if let Some((middle, actions)) = sweep_run(ttl_minutes, start, first) {
            if let Some((state, more)) = sweep_run(ttl_minutes, middle, second.drop_last()) {
                if let Some((next, action)) = sweep_step(ttl_minutes, state, second.last()) {
                    assert((actions + more).push(action) =~= actions + more.push(action));
                }
            }
        }
    }
}

/// An entry of the cache root together with what it holds if it is a
/// directory, and with how each deletion in it goes.
pub struct Node {
    pub entry: Entry,
    pub files: Seq<Entry>,
    pub replies: Seq<StoreReply>,
}

/// What a caller reports about one entry of the cache root: the entry and,
/// for a directory, the walk through it up to the end of its listing.
pub open spec fn visit(ttl_minutes: u64, node: Node) -> Seq<SweepEvent> {
    if node.entry == Entry::Directory {
        seq![SweepEvent::Found(node.entry)] + walk(ttl_minutes, node.files, node.replies)
            + seq![SweepEvent::Exhausted]
    } else {
        seq![SweepEvent::Found(node.entry)]
    }
}

/// What the sweep does about one entry of the cache root: a directory is
/// entered, swept and left; anything else is passed over.
pub open spec fn visit_plan(ttl_minutes: u64, node: Node) -> Seq<SweepAction> {
    if node.entry == Entry::Directory {
        seq![SweepAction::Enter] + plan(ttl_minutes, node.files) + seq![SweepAction::Leave]
    } else {
        seq![SweepAction::Next]
    }
}

/// What a caller reports while it walks the whole cache.
pub open spec fn tour(ttl_minutes: u64, root: Seq<Node>) -> Seq<SweepEvent>
    decreases root.len(),
{
    if root.len() == 0 {
        Seq::empty()
    } else {
        tour(ttl_minutes, root.drop_last()) + visit(ttl_minutes, root.last())
    }
}

/// What the sweep does about the whole cache.
pub open spec fn tour_plan(ttl_minutes: u64, root: Seq<Node>) -> Seq<SweepAction>
    decreases root.len(),
{
    if root.len() == 0 {
        Seq::empty()
    } else {
        tour_plan(ttl_minutes, root.drop_last()) + visit_plan(ttl_minutes, root.last())
    }
}

/// Each deletion in each directory has its reply.
pub open spec fn replies_match(root: Seq<Node>) -> bool {
    forall|i: int| 0 <= i < root.len() ==> (#[trigger] root[i]).replies.len() == root[i].files.len()
}

/// One whole sweep. Woken up, the sweeper lists the cache root, enters every
/// directory in it, deletes every expired file there and nothing else, and
/// goes to sleep for the interval: whatever the cache holds and however each
/// deletion goes.
pub proof fn one_sweep_covers_the_whole_cache(ttl_minutes: u64, root: Seq<Node>)
    requires
        replies_match(root),
    ensures
        sweep_run(
            ttl_minutes,
            SweepState::Idle,
            seq![SweepEvent::Wake] + tour(ttl_minutes, root) + seq![SweepEvent::Exhausted],
        ) == Some(
            (
                SweepState::Idle,
                seq![SweepAction::ListRoot] + tour_plan(ttl_minutes, root) + seq![
                    SweepAction::Sleep { secs: SWEEP_INTERVAL_SECS },
                ],
            ),
        ),
{
    let wake = seq![SweepEvent::Wake];
    let end = seq![SweepEvent::Exhausted];
    let list = seq![SweepAction::ListRoot];
    let sleep = seq![SweepAction::Sleep { secs: SWEEP_INTERVAL_SECS }];
    single_step_run(ttl_minutes, SweepState::Idle, SweepEvent::Wake);
    tour_follows_its_plan(ttl_minutes, root);
    single_step_run(ttl_minutes, SweepState::Root, SweepEvent::Exhausted);
    sweep_run_splits(ttl_minutes, SweepState::Idle, wake, tour(ttl_minutes, root));
    sweep_run_splits(ttl_minutes, SweepState::Idle, wake + tour(ttl_minutes, root), end);
}

/// A run over one event is one step.
proof fn single_step_run(ttl_minutes: u64, start: SweepState, event: SweepEvent)
    ensures
        sweep_run(ttl_minutes, start, seq![event]) == match sweep_step(ttl_minutes, start, event) {
            None => None,
            Some((next, action)) => Some((next, seq![action])),
        },
{
    let events = seq![event];
    assert(events.drop_last() =~= Seq::<SweepEvent>::empty());
    assert(events.last() == event);
    assert(sweep_run(ttl_minutes, start, events.drop_last()) == Some(
        (start, Seq::<SweepAction>::empty()),
    ));
    if let Some((next, action)) = sweep_step(ttl_minutes, start, event) {
        assert(Seq::<SweepAction>::empty().push(action) =~= seq![action]);
    }
}

/// The walk through the cache root, from the root listing back to it.
proof fn tour_follows_its_plan(ttl_minutes: u64, root: Seq<Node>)
    requires
        replies_match(root),
    ensures
        sweep_run(ttl_minutes, SweepState::Root, tour(ttl_minutes, root)) == Some(
            (SweepState::Root, tour_plan(ttl_minutes, root)),
        ),
    decreases root.len(),
{
    if root.len() > 0 {
        let node = root.last();
        assert(node == root[root.len() - 1]);
        assert forall|i: int| 0 <= i < root.drop_last().len() implies (
        #[trigger] root.drop_last()[i]).replies.len() == root.drop_last()[i].files.len() by {
            assert(root.drop_last()[i] == root[i]);
        }
        tour_follows_its_plan(ttl_minutes, root.drop_last());
        visit_follows_its_plan(ttl_minutes, node);
        sweep_run_splits(
            ttl_minutes,
            SweepState::Root,
            tour(ttl_minutes, root.drop_last()),
            visit(ttl_minutes, node),
        );
    }
}

/// One entry of the cache root, from the root listing back to it.
proof fn visit_follows_its_plan(ttl_minutes: u64, node: Node)
    requires
        node.replies.len() == node.files.len(),
    ensures
        sweep_run(ttl_minutes, SweepState::Root, visit(ttl_minutes, node)) == Some(
            (SweepState::Root, visit_plan(ttl_minutes, node)),
        ),
{
    let found = SweepEvent::Found(node.entry);
    single_step_run(ttl_minutes, SweepState::Root, found);
    if node.entry == Entry::Directory {
        let inside = walk(ttl_minutes, node.files, node.replies);
        sweep_evicts_every_expired_file(ttl_minutes, node.files, node.replies);
        single_step_run(ttl_minutes, SweepState::Repository, SweepEvent::Exhausted);
        sweep_run_splits(ttl_minutes, SweepState::Root, seq![found], inside);
        sweep_run_splits(
            ttl_minutes,
            SweepState::Root,
            seq![found] + inside,
            seq![SweepEvent::Exhausted],
        );
    }
}

} // verus!
