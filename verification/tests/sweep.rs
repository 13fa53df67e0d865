use apt_cache::config::Config;
use apt_cache::store::StoreReply;
use apt_cache::sweep::{
    run_cache_ttl_worker, Entry, SweepAction, SweepEvent, SweepState, SWEEP_INTERVAL_SECS,
};

fn config() -> Config {
    Config { repositories: Vec::new(), cache_directory: "cache".to_string(), cache_ttl: 1 }
}

fn step(state: SweepState, event: SweepEvent) -> Option<(SweepState, SweepAction)> {
    run_cache_ttl_worker(&config(), state, event)
}

#[test]
fn sweep_interval_is_a_minute() {
    assert_eq!(SWEEP_INTERVAL_SECS, 60);
}

#[test]
fn a_whole_sweep() {
    let events = [
        SweepEvent::Wake,
        SweepEvent::Found(Entry::File { age_secs: 1_000_000 }),
        SweepEvent::Found(Entry::Directory),
        SweepEvent::Found(Entry::File { age_secs: 60 }),
        SweepEvent::Found(Entry::File { age_secs: 61 }),
        SweepEvent::Removed(StoreReply::Done),
        SweepEvent::Found(Entry::Directory),
        SweepEvent::Found(Entry::Unreadable),
        SweepEvent::Found(Entry::File { age_secs: 3600 }),
        SweepEvent::Removed(StoreReply::Absent),
        SweepEvent::Exhausted,
        SweepEvent::Found(Entry::Unreadable),
        SweepEvent::Found(Entry::Other),
        SweepEvent::Found(Entry::Directory),
        SweepEvent::Exhausted,
        SweepEvent::Exhausted,
        SweepEvent::Wake,
    ];
    let expected = [
        (SweepState::Root, SweepAction::ListRoot),
        (SweepState::Root, SweepAction::Next),
        (SweepState::Repository, SweepAction::Enter),
        (SweepState::Repository, SweepAction::Next),
        (SweepState::Evicting, SweepAction::Evict),
        (SweepState::Repository, SweepAction::Next),
        (SweepState::Repository, SweepAction::Next),
        (SweepState::Repository, SweepAction::Next),
        (SweepState::Evicting, SweepAction::Evict),
        (SweepState::Repository, SweepAction::Next),
        (SweepState::Root, SweepAction::Leave),
        (SweepState::Root, SweepAction::Next),
        (SweepState::Root, SweepAction::Next),
        (SweepState::Repository, SweepAction::Enter),
        (SweepState::Root, SweepAction::Leave),
        (SweepState::Idle, SweepAction::Sleep { secs: 60 }),
        (SweepState::Root, SweepAction::ListRoot),
    ];
    let mut state = SweepState::Idle;
    for (event, want) in events.iter().zip(expected.iter()) {
        let (next, action) = step(state, *event).unwrap();
        assert_eq!((next, action), *want);
        state = next;
    }
}

#[test]
fn eviction_goes_on_however_the_deletion_went() {
    for reply in [StoreReply::Done, StoreReply::Absent, StoreReply::Failed] {
        assert_eq!(
            step(SweepState::Evicting, SweepEvent::Removed(reply)),
            Some((SweepState::Repository, SweepAction::Next))
        );
    }
}

#[test]
fn sweep_uses_the_configured_ttl() {
    let long = Config {
        repositories: Vec::new(),
        cache_directory: "cache".to_string(),
        cache_ttl: 1440,
    };
    let found = SweepEvent::Found(Entry::File { age_secs: 86_400 });
    assert_eq!(
        run_cache_ttl_worker(&long, SweepState::Repository, found),
        Some((SweepState::Repository, SweepAction::Next))
    );
    let found = SweepEvent::Found(Entry::File { age_secs: 86_401 });
    assert_eq!(
        run_cache_ttl_worker(&long, SweepState::Repository, found),
        Some((SweepState::Evicting, SweepAction::Evict))
    );
}

#[test]
fn files_in_the_cache_root_are_left_alone() {
    assert_eq!(
        step(SweepState::Root, SweepEvent::Found(Entry::File { age_secs: u64::MAX })),
        Some((SweepState::Root, SweepAction::Next))
    );
}

#[test]
fn directories_inside_a_repository_are_not_entered() {
    assert_eq!(
        step(SweepState::Repository, SweepEvent::Found(Entry::Directory)),
        Some((SweepState::Repository, SweepAction::Next))
    );
}

#[test]
fn cancellation_stops_the_sweeper_in_every_running_state() {
    for state in
        [SweepState::Idle, SweepState::Root, SweepState::Repository, SweepState::Evicting]
    {
        assert_eq!(
            step(state, SweepEvent::Cancel),
            Some((SweepState::Stopped, SweepAction::Stop))
        );
    }
    assert_eq!(step(SweepState::Stopped, SweepEvent::Cancel), None);
    assert_eq!(step(SweepState::Stopped, SweepEvent::Wake), None);
}

#[test]
fn sweep_events_that_cannot_occur_are_no_steps() {
    assert_eq!(step(SweepState::Idle, SweepEvent::Exhausted), None);
    assert_eq!(step(SweepState::Idle, SweepEvent::Found(Entry::Directory)), None);
    assert_eq!(step(SweepState::Idle, SweepEvent::Removed(StoreReply::Done)), None);
    assert_eq!(step(SweepState::Root, SweepEvent::Wake), None);
    assert_eq!(step(SweepState::Root, SweepEvent::Removed(StoreReply::Done)), None);
    assert_eq!(step(SweepState::Repository, SweepEvent::Wake), None);
    assert_eq!(step(SweepState::Repository, SweepEvent::Removed(StoreReply::Done)), None);
    assert_eq!(step(SweepState::Evicting, SweepEvent::Wake), None);
    assert_eq!(step(SweepState::Evicting, SweepEvent::Exhausted), None);
    assert_eq!(step(SweepState::Evicting, SweepEvent::Found(Entry::Other)), None);
}
