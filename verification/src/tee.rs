//! Serving an upstream response while writing it to the cache.
//!
//! One coordinator consumes the upstream stream. Every chunk goes to the
//! client and, through a bounded hand-off queue, to a writer that appends it
//! to the cache entry. The coordinator's decisions are the state machine of
//! this module; the caller moves the chunks and reports what happened.

use vstd::prelude::*;

verus! {

/// Bound of the hand-off queue between the coordinator and the writer, in
/// chunks. A full queue holds the coordinator back until the writer has
/// caught up.
pub const HANDOFF_CAPACITY: usize = 1024;

/// Where a tee stands.
#[derive(Debug, Clone, Copy, PartialEq, Eq, Structural)]
pub enum TeeState {
    /// Chunks go to the client and to the writer.
    Teeing,
    /// The writer was lost and the partial entry deleted: chunks go to the
    /// client only.
    Forwarding,
    /// The upstream ended and so did the client's stream; the writer is
    /// writing out what is still queued.
    Draining,
    /// Ended: the entry is complete and stays.
    Committed,
    /// Ended: the client was served in full, the cache holds no entry.
    Discarded,
    /// Ended: the upstream failed or the client went away; the client's
    /// stream did not end well and the cache holds no entry.
    Aborted,
}

/// What happened since the last step.
#[derive(Debug, Clone, PartialEq, Eq)]
pub enum TeeEvent<T> {
    /// The upstream delivered a chunk.
    Chunk(T),
    /// The upstream ended its stream.
    End,
    /// The upstream failed in the middle of the stream.
    UpstreamFailed,
    /// The client went away before its stream had ended.
    ClientGone,
    /// The writer could not write to the entry.
    SinkFailed,
    /// The writer wrote everything it was handed and closed the entry.
    SinkDone,
}

/// What the caller has to do next.
#[derive(Debug, Clone, PartialEq, Eq)]
pub enum TeeAction<T> {
    /// Yield the chunk to the client and hand a copy to the writer.
    Tee(T),
    /// Yield the chunk to the client.
    Forward(T),
    /// End the client's stream and close the hand-off queue, so that the
    /// writer finishes the entry.
    Flush,
    /// End the client's stream; nothing is being written.
    Finish,
    /// The entry is complete: leave it in the cache.
    Keep,
    /// Stop writing and delete the partial entry.
    Discard,
    /// Stop reading the upstream, end the client's stream with an error if
    /// the client is still there, and stop the writer; delete the partial
    /// entry if `discard` is set.
    Abort { discard: bool },
}

impl TeeState {
    /// The tee has ended: no event is awaited.
    pub open spec fn is_terminal(self) -> bool {
        self == TeeState::Committed || self == TeeState::Discarded || self == TeeState::Aborted
    }

    /// Both the client and the writer have received every chunk so far.
    pub open spec fn is_caching(self) -> bool {
        self == TeeState::Teeing || self == TeeState::Draining || self == TeeState::Committed
    }
}

/// One step of a tee. An event that cannot occur in the state is no step.
pub open spec fn tee_step<T>(state: TeeState, event: TeeEvent<T>) -> Option<
    (TeeState, TeeAction<T>),
> {
    match (state, event) {
        (TeeState::Teeing, TeeEvent::Chunk(chunk)) => Some(
            (TeeState::Teeing, TeeAction::Tee(chunk)),
        ),
        (TeeState::Teeing, TeeEvent::End) => Some((TeeState::Draining, TeeAction::Flush)),
        (TeeState::Teeing, TeeEvent::UpstreamFailed)
        | (TeeState::Teeing, TeeEvent::ClientGone) => Some(
            (TeeState::Aborted, TeeAction::Abort { discard: true }),
        ),
        (TeeState::Teeing, TeeEvent::SinkFailed) => Some(
            (TeeState::Forwarding, TeeAction::Discard),
        ),
        (TeeState::Forwarding, TeeEvent::Chunk(chunk)) => Some(
            (TeeState::Forwarding, TeeAction::Forward(chunk)),
        ),
        (TeeState::Forwarding, TeeEvent::End) => Some((TeeState::Discarded, TeeAction::Finish)),
        (TeeState::Forwarding, TeeEvent::UpstreamFailed)
        | (TeeState::Forwarding, TeeEvent::ClientGone) => Some(
            (TeeState::Aborted, TeeAction::Abort { discard: false }),
        ),
        (TeeState::Draining, TeeEvent::SinkDone) => Some((TeeState::Committed, TeeAction::Keep)),
        (TeeState::Draining, TeeEvent::SinkFailed) => Some(
            (TeeState::Discarded, TeeAction::Discard),
        ),
        _ => None,
    }
}

/// Cache the stream and get a new stream: one step of the tee.
///
/// Start with `TeeState::Teeing`, once the entry has been created. Report
/// each chunk, the end or failure of the upstream, the loss of the client,
/// and the end or failure of the writer; perform the action that comes back.
/// Returns `None` exactly when the event cannot occur in the state.
pub fn cache_file<T>(state: TeeState, event: TeeEvent<T>) -> (step: Option<
    (TeeState, TeeAction<T>),
>)
    ensures
        step == tee_step(state, event),
{
    match state {
        TeeState::Teeing => match event {
            TeeEvent::Chunk(chunk) => Some((TeeState::Teeing, TeeAction::Tee(chunk))),
            TeeEvent::End => Some((TeeState::Draining, TeeAction::Flush)),
            TeeEvent::UpstreamFailed | TeeEvent::ClientGone => Some(
                (TeeState::Aborted, TeeAction::Abort { discard: true }),
            ),
            TeeEvent::SinkFailed => Some((TeeState::Forwarding, TeeAction::Discard)),
            TeeEvent::SinkDone => None,
        },
        TeeState::Forwarding => match event {
            TeeEvent::Chunk(chunk) => Some((TeeState::Forwarding, TeeAction::Forward(chunk))),
            TeeEvent::End => Some((TeeState::Discarded, TeeAction::Finish)),
            TeeEvent::UpstreamFailed | TeeEvent::ClientGone => Some(
                (TeeState::Aborted, TeeAction::Abort { discard: false }),
            ),
            _ => None,
        },
        TeeState::Draining => match event {
            TeeEvent::SinkDone => Some((TeeState::Committed, TeeAction::Keep)),
            TeeEvent::SinkFailed => Some((TeeState::Discarded, TeeAction::Discard)),
            _ => None,
        },
        _ => None,
    }
}

/// A whole run: the state reached from `Teeing` and the actions handed out,
/// in order, if every event was a step.
pub open spec fn tee_run<T>(events: Seq<TeeEvent<T>>) -> Option<(TeeState, Seq<TeeAction<T>>)>
    decreases events.len(),
{
    if events.len() == 0 {
        Some((TeeState::Teeing, Seq::empty()))
    } else {
        match tee_run(events.drop_last()) {
            None => None,
            Some((state, actions)) => match tee_step(state, events.last()) {
                None => None,
                Some((next, action)) => Some((next, actions.push(action))),
            },
        }
    }
}

/// The chunks that the upstream delivered, in order.
pub open spec fn received<T>(events: Seq<TeeEvent<T>>) -> Seq<T>
    decreases events.len(),
{
    if events.len() == 0 {
        Seq::empty()
    } else {
        match events.last() {
            TeeEvent::Chunk(chunk) => received(events.drop_last()).push(chunk),
            _ => received(events.drop_last()),
        }
    }
}

/// The chunks that the client was given, in order.
pub open spec fn forwarded<T>(actions: Seq<TeeAction<T>>) -> Seq<T>
    decreases actions.len(),
{
    if actions.len() == 0 {
        Seq::empty()
    } else {
        match actions.last() {
            TeeAction::Tee(chunk) => forwarded(actions.drop_last()).push(chunk),
            TeeAction::Forward(chunk) => forwarded(actions.drop_last()).push(chunk),
            _ => forwarded(actions.drop_last()),
        }
    }
}

/// The chunks that the writer was handed, in order.
pub open spec fn stored<T>(actions: Seq<TeeAction<T>>) -> Seq<T>
    decreases actions.len(),
{
    if actions.len() == 0 {
        Seq::empty()
    } else {
        match actions.last() {
            TeeAction::Tee(chunk) => stored(actions.drop_last()).push(chunk),
            _ => stored(actions.drop_last()),
        }
    }
}

/// Whether the entry that was created for the tee is still in the cache
/// after these actions.
pub open spec fn entry_kept<T>(actions: Seq<TeeAction<T>>) -> bool
    decreases actions.len(),
{
    if actions.len() == 0 {
        true
    } else {
        match actions.last() {
            TeeAction::Discard => false,
            TeeAction::Abort { discard } => !discard && entry_kept(actions.drop_last()),
            _ => entry_kept(actions.drop_last()),
        }
    }
}

/// What holds after every run of a tee.
///
/// The client is given exactly the chunks that the upstream delivered, in
/// their order. The writer is handed a prefix of them, in the same order,
/// and all of them for as long as it has not failed. The entry is in the
/// cache exactly as long as the tee is caching.
pub proof fn tee_preserves_order<T>(events: Seq<TeeEvent<T>>)
    requires
        tee_run(events) is Some,
    ensures
        forwarded(tee_run(events).unwrap().1) == received(events),
        stored(tee_run(events).unwrap().1).is_prefix_of(forwarded(tee_run(events).unwrap().1)),
        tee_run(events).unwrap().0.is_caching() ==> stored(tee_run(events).unwrap().1)
            == received(events),
        tee_run(events).unwrap().0.is_caching() <==> entry_kept(tee_run(events).unwrap().1),
    decreases events.len(),
{
    if events.len() > 0 {
        let earlier = tee_run(events.drop_last()).unwrap();
        let later = tee_run(events).unwrap();
        tee_preserves_order(events.drop_last());
        assert(later.1.drop_last() =~= earlier.1);
        assert(forwarded(later.1) =~= received(events));
        assert(stored(later.1).is_prefix_of(forwarded(later.1)));
    }
}

/// An entry that a tee leaves in the cache holds, chunk for chunk, what the
/// client was served: a run that ends in `Committed` handed the writer
/// exactly the chunks it gave the client, in the same order.
pub proof fn committed_entry_is_what_the_client_got<T>(events: Seq<TeeEvent<T>>)
    requires
        tee_run(events) is Some,
        tee_run(events).unwrap().0 == TeeState::Committed,
    ensures
        stored(tee_run(events).unwrap().1) == forwarded(tee_run(events).unwrap().1),
        stored(tee_run(events).unwrap().1) == received(events),
        entry_kept(tee_run(events).unwrap().1),
{
    tee_preserves_order(events);
}

/// A tee that ends in any other way than `Committed` leaves no entry behind:
/// a partial file is never left to be served as a cache hit.
pub proof fn failed_tee_leaves_no_entry<T>(events: Seq<TeeEvent<T>>)
    requires
        tee_run(events) is Some,
        tee_run(events).unwrap().0 == TeeState::Forwarding || tee_run(events).unwrap().0
            == TeeState::Discarded || tee_run(events).unwrap().0 == TeeState::Aborted,
    ensures
        !entry_kept(tee_run(events).unwrap().1),
{
    tee_preserves_order(events);
}

/// A failing writer never costs the client a chunk: the step that reports
/// the failure forwards nothing and drops nothing, and every later chunk is
/// still given to the client.
pub proof fn sink_failure_is_contained<T>(chunk: T)
    ensures
        tee_step(TeeState::Teeing, TeeEvent::<T>::SinkFailed) == Some(
            (TeeState::Forwarding, TeeAction::<T>::Discard),
        ),
        tee_step(TeeState::Forwarding, TeeEvent::Chunk(chunk)) == Some(
            (TeeState::Forwarding, TeeAction::Forward(chunk)),
        ),
        tee_step(TeeState::Forwarding, TeeEvent::<T>::End) == Some(
            (TeeState::Discarded, TeeAction::<T>::Finish),
        ),
{
}

/// The bytes of a cache entry that a tee leaves behind are, byte for byte,
/// the bytes that the client was served.
pub proof fn cached_bytes_are_the_served_bytes(events: Seq<TeeEvent<Seq<u8>>>)
    requires
        tee_run(events) is Some,
        tee_run(events).unwrap().0 == TeeState::Committed,
    ensures
        stored(tee_run(events).unwrap().1).flatten() == forwarded(
            tee_run(events).unwrap().1,
        ).flatten(),
        stored(tee_run(events).unwrap().1).flatten() == received(events).flatten(),
{
    tee_preserves_order(events);
}

/// A tee that has ended takes no further step.
pub proof fn ended_tee_takes_no_step<T>(state: TeeState, event: TeeEvent<T>)
    requires
        state.is_terminal(),
    ensures
        tee_step(state, event) is None,
{
}

} // verus!
