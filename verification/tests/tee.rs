use apt_cache::tee::{cache_file, TeeAction, TeeEvent, TeeState, HANDOFF_CAPACITY};

fn run(events: Vec<TeeEvent<Vec<u8>>>) -> (TeeState, Vec<TeeAction<Vec<u8>>>) {
    let mut state = TeeState::Teeing;
    let mut actions = Vec::new();
    for event in events {
        let (next, action) = cache_file(state, event).unwrap();
        state = next;
        actions.push(action);
    }
    (state, actions)
}

fn forwarded(actions: &[TeeAction<Vec<u8>>]) -> Vec<u8> {
    let mut bytes = Vec::new();
    for action in actions {
        match action {
            TeeAction::Tee(chunk) | TeeAction::Forward(chunk) => bytes.extend_from_slice(chunk),
            _ => {}
        }
    }
    bytes
}

fn stored(actions: &[TeeAction<Vec<u8>>]) -> Vec<u8> {
    let mut bytes = Vec::new();
    for action in actions {
        if let TeeAction::Tee(chunk) = action {
            bytes.extend_from_slice(chunk);
        }
    }
    bytes
}

#[test]
fn handoff_queue_is_bounded() {
    assert_eq!(HANDOFF_CAPACITY, 1024);
}

#[test]
fn complete_stream_is_forwarded_and_stored_alike() {
    let (state, actions) = run(vec![
        TeeEvent::Chunk(b"AB".to_vec()),
        TeeEvent::Chunk(b"".to_vec()),
        TeeEvent::Chunk(b"C".to_vec()),
        TeeEvent::End,
        TeeEvent::SinkDone,
    ]);
    assert_eq!(state, TeeState::Committed);
    assert_eq!(
        actions,
        vec![
            TeeAction::Tee(b"AB".to_vec()),
            TeeAction::Tee(b"".to_vec()),
            TeeAction::Tee(b"C".to_vec()),
            TeeAction::Flush,
            TeeAction::Keep,
        ]
    );
    assert_eq!(forwarded(&actions), b"ABC");
    assert_eq!(stored(&actions), b"ABC");
}

#[test]
fn empty_stream_commits_an_empty_entry() {
    let (state, actions) = run(vec![TeeEvent::End, TeeEvent::SinkDone]);
    assert_eq!(state, TeeState::Committed);
    assert_eq!(actions, vec![TeeAction::Flush, TeeAction::Keep]);
}

#[test]
fn writer_failure_is_contained_to_the_cache() {
    let (state, actions) = run(vec![
        TeeEvent::Chunk(b"A".to_vec()),
        TeeEvent::SinkFailed,
        TeeEvent::Chunk(b"B".to_vec()),
        TeeEvent::Chunk(b"C".to_vec()),
        TeeEvent::End,
    ]);
    assert_eq!(state, TeeState::Discarded);
    assert_eq!(
        actions,
        vec![
            TeeAction::Tee(b"A".to_vec()),
            TeeAction::Discard,
            TeeAction::Forward(b"B".to_vec()),
            TeeAction::Forward(b"C".to_vec()),
            TeeAction::Finish,
        ]
    );
    assert_eq!(forwarded(&actions), b"ABC");
    assert_eq!(stored(&actions), b"A");
}

#[test]
fn writer_failure_while_draining_discards_the_entry() {
    let (state, actions) =
        run(vec![TeeEvent::Chunk(b"A".to_vec()), TeeEvent::End, TeeEvent::SinkFailed]);
    assert_eq!(state, TeeState::Discarded);
    assert_eq!(
        actions,
        vec![TeeAction::Tee(b"A".to_vec()), TeeAction::Flush, TeeAction::Discard]
    );
}

#[test]
fn upstream_failure_aborts_and_discards() {
    let (state, actions) = run(vec![TeeEvent::Chunk(b"A".to_vec()), TeeEvent::UpstreamFailed]);
    assert_eq!(state, TeeState::Aborted);
    assert_eq!(
        actions,
        vec![TeeAction::Tee(b"A".to_vec()), TeeAction::Abort { discard: true }]
    );
}

#[test]
fn upstream_failure_after_writer_failure_has_nothing_left_to_discard() {
    let (state, actions) = run(vec![TeeEvent::SinkFailed, TeeEvent::UpstreamFailed]);
    assert_eq!(state, TeeState::Aborted);
    assert_eq!(actions, vec![TeeAction::Discard, TeeAction::Abort { discard: false }]);
}

#[test]
fn lost_client_aborts_and_discards() {
    let (state, actions) = run(vec![TeeEvent::Chunk(b"A".to_vec()), TeeEvent::ClientGone]);
    assert_eq!(state, TeeState::Aborted);
    assert_eq!(
        actions,
        vec![TeeAction::Tee(b"A".to_vec()), TeeAction::Abort { discard: true }]
    );
    let (state, actions) = run(vec![TeeEvent::SinkFailed, TeeEvent::ClientGone]);
    assert_eq!(state, TeeState::Aborted);
    assert_eq!(actions, vec![TeeAction::Discard, TeeAction::Abort { discard: false }]);
}

#[test]
fn chunks_of_any_type_pass_through_unchanged() {
    let step = cache_file(TeeState::Teeing, TeeEvent::Chunk("chunk"));
    assert_eq!(step, Some((TeeState::Teeing, TeeAction::Tee("chunk"))));
    let step = cache_file(TeeState::Forwarding, TeeEvent::Chunk(7u32));
    assert_eq!(step, Some((TeeState::Forwarding, TeeAction::Forward(7u32))));
}

#[test]
fn events_that_cannot_occur_are_no_steps() {
    let none: Option<(TeeState, TeeAction<u8>)> = None;
    assert_eq!(cache_file::<u8>(TeeState::Teeing, TeeEvent::SinkDone), none);
    assert_eq!(cache_file::<u8>(TeeState::Forwarding, TeeEvent::SinkDone), none);
    assert_eq!(cache_file::<u8>(TeeState::Forwarding, TeeEvent::SinkFailed), none);
    assert_eq!(cache_file::<u8>(TeeState::Draining, TeeEvent::Chunk(1)), none);
    assert_eq!(cache_file::<u8>(TeeState::Draining, TeeEvent::End), none);
    assert_eq!(cache_file::<u8>(TeeState::Draining, TeeEvent::UpstreamFailed), none);
    assert_eq!(cache_file::<u8>(TeeState::Draining, TeeEvent::ClientGone), none);
    for state in [TeeState::Committed, TeeState::Discarded, TeeState::Aborted] {
        assert_eq!(cache_file::<u8>(state, TeeEvent::Chunk(1)), none);
        assert_eq!(cache_file::<u8>(state, TeeEvent::End), none);
        assert_eq!(cache_file::<u8>(state, TeeEvent::UpstreamFailed), none);
        assert_eq!(cache_file::<u8>(state, TeeEvent::ClientGone), none);
        assert_eq!(cache_file::<u8>(state, TeeEvent::SinkFailed), none);
        assert_eq!(cache_file::<u8>(state, TeeEvent::SinkDone), none);
    }
}
