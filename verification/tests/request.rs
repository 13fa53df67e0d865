use apt_cache::config::{Config, Repository};
use apt_cache::error::AptCacheError;
use apt_cache::request::{
    cached_header_value, get_cache_file_path, get_cached_file, request_file, upstream_url, Body,
    CacheVerdict, ResolveAction, ResolveEvent, ResolveState, UpstreamReply, CACHED_HEADER,
};
use apt_cache::store::{Probe, StoreReply};
use apt_cache::tee::{cache_file, TeeAction, TeeEvent, TeeState};

const KEY_OF_POOL_A_DEB: &str = "6f95c596bfca63fbe79620bca90d1781c4adbfec";

fn debian() -> Config {
    Config {
        repositories: vec![Repository {
            name: "debian".to_string(),
            url: "http://mirror.example/debian/".to_string(),
        }],
        cache_directory: "cache".to_string(),
        cache_ttl: 1,
    }
}

fn entry_path() -> String {
    format!("cache/debian/{}", KEY_OF_POOL_A_DEB)
}

fn step(state: ResolveState, event: ResolveEvent) -> (ResolveState, ResolveAction) {
    request_file(&debian(), "debian", "pool/a.deb", state, event).unwrap()
}

#[test]
fn x_cached_header() {
    assert_eq!(CACHED_HEADER, "X-Cached");
    assert_eq!(cached_header_value(true), "true");
    assert_eq!(cached_header_value(false), "false");
}

#[test]
fn cache_file_path_is_directory_repository_and_key() {
    assert_eq!(get_cache_file_path(&debian(), "debian", "pool/a.deb"), entry_path());
    assert_eq!(
        get_cache_file_path(&debian(), "ubuntu", "pool/a.deb"),
        format!("cache/ubuntu/{}", KEY_OF_POOL_A_DEB)
    );
    assert_eq!(
        get_cache_file_path(&debian(), "debian", ""),
        "cache/debian/da39a3ee5e6b4b0d3255bfef95601890afd80709"
    );
}

#[test]
fn cache_file_path_ends_in_a_key_of_forty_digits() {
    for (repository, path) in [("debian", "pool/a.deb"), ("", ""), ("ubuntu", "a/b/../c")] {
        let cache_path = get_cache_file_path(&debian(), repository, path);
        assert_eq!(cache_path.len(), "cache".len() + repository.len() + 2 + 40);
        let key = &cache_path[cache_path.len() - 40..];
        assert!(key.chars().all(|c| matches!(c, '0'..='9' | 'a'..='f')));
        assert!(cache_path.starts_with(&format!("cache/{}/", repository)));
    }
}

#[test]
fn cache_file_path_is_the_same_on_every_call() {
    let config = debian();
    assert_eq!(
        get_cache_file_path(&config, "debian", "dists/stable/Release"),
        get_cache_file_path(&config, "debian", "dists/stable/Release")
    );
}

#[test]
fn upstream_url_is_base_url_then_path() {
    let config = debian();
    let repository = config.get_repository("debian").unwrap();
    assert_eq!(upstream_url(repository, "pool/a.deb"), "http://mirror.example/debian/pool/a.deb");
    assert_eq!(upstream_url(repository, ""), "http://mirror.example/debian/");
}

#[test]
fn verdict_on_a_probe() {
    let config = debian();
    assert_eq!(get_cached_file(&config, Probe::Absent), CacheVerdict::Miss);
    assert_eq!(get_cached_file(&config, Probe::Failed), CacheVerdict::Failed);
    assert_eq!(get_cached_file(&config, Probe::Present { age_secs: 0 }), CacheVerdict::Hit);
    assert_eq!(get_cached_file(&config, Probe::Present { age_secs: 59 }), CacheVerdict::Hit);
    assert_eq!(get_cached_file(&config, Probe::Present { age_secs: 60 }), CacheVerdict::Hit);
    assert_eq!(get_cached_file(&config, Probe::Present { age_secs: 61 }), CacheVerdict::Expired);
    assert_eq!(
        get_cached_file(&config, Probe::Present { age_secs: u64::MAX }),
        CacheVerdict::Expired
    );
}

#[test]
fn first_request_is_a_miss_that_is_fetched_and_cached() {
    let (state, action) = step(ResolveState::Start, ResolveEvent::Request);
    assert_eq!(state, ResolveState::CacheCheck);
    assert_eq!(action, ResolveAction::Probe { cache_path: entry_path() });

    let (state, action) = step(state, ResolveEvent::Probed(Probe::Absent));
    assert_eq!(state, ResolveState::UpstreamFetch);
    assert_eq!(
        action,
        ResolveAction::Fetch { url: "http://mirror.example/debian/pool/a.deb".to_string() }
    );

    let (state, action) = step(state, ResolveEvent::Upstream(UpstreamReply::Status(200)));
    assert_eq!(state, ResolveState::Creating);
    assert_eq!(action, ResolveAction::Create { cache_path: entry_path() });

    let (state, action) = step(state, ResolveEvent::Created(StoreReply::Done));
    assert_eq!(state, ResolveState::TeeAndCache);
    assert_eq!(action, ResolveAction::Respond { status: 200, cached: false, body: Body::Tee });

    let (tee, action) = cache_file(TeeState::Teeing, TeeEvent::Chunk(b"ABC".to_vec())).unwrap();
    assert_eq!(action, TeeAction::Tee(b"ABC".to_vec()));
    let (tee, action) = cache_file::<Vec<u8>>(tee, TeeEvent::End).unwrap();
    assert_eq!(action, TeeAction::Flush);
    let (tee, action) = cache_file::<Vec<u8>>(tee, TeeEvent::SinkDone).unwrap();
    assert_eq!(action, TeeAction::Keep);
    assert_eq!(tee, TeeState::Committed);
}

#[test]
fn repeated_request_is_served_from_the_cache() {
    let (state, action) = step(ResolveState::Start, ResolveEvent::Request);
    assert_eq!(action, ResolveAction::Probe { cache_path: entry_path() });

    let (state, action) = step(state, ResolveEvent::Probed(Probe::Present { age_secs: 0 }));
    assert_eq!(state, ResolveState::Opening);
    assert_eq!(action, ResolveAction::Open { cache_path: entry_path() });

    let (state, action) = step(state, ResolveEvent::Opened(StoreReply::Done));
    assert_eq!(state, ResolveState::CacheHit);
    assert_eq!(action, ResolveAction::Respond { status: 200, cached: true, body: Body::CacheFile });
}

#[test]
fn request_after_the_ttl_evicts_and_fetches_again() {
    let (state, _) = step(ResolveState::Start, ResolveEvent::Request);

    let (state, action) = step(state, ResolveEvent::Probed(Probe::Present { age_secs: 61 }));
    assert_eq!(state, ResolveState::Evicting);
    assert_eq!(action, ResolveAction::Evict { cache_path: entry_path() });

    let (state, action) = step(state, ResolveEvent::Evicted(StoreReply::Done));
    assert_eq!(state, ResolveState::UpstreamFetch);
    assert_eq!(
        action,
        ResolveAction::Fetch { url: "http://mirror.example/debian/pool/a.deb".to_string() }
    );

    let (state, _) = step(state, ResolveEvent::Upstream(UpstreamReply::Status(200)));
    let (state, action) = step(state, ResolveEvent::Created(StoreReply::Done));
    assert_eq!(state, ResolveState::TeeAndCache);
    assert_eq!(action, ResolveAction::Respond { status: 200, cached: false, body: Body::Tee });
}

#[test]
fn entry_of_exactly_the_ttl_is_still_a_hit() {
    let (state, action) =
        step(ResolveState::CacheCheck, ResolveEvent::Probed(Probe::Present { age_secs: 60 }));
    assert_eq!(state, ResolveState::Opening);
    assert_eq!(action, ResolveAction::Open { cache_path: entry_path() });
}

#[test]
fn eviction_of_an_entry_already_gone_is_a_miss() {
    let (state, action) = step(ResolveState::Evicting, ResolveEvent::Evicted(StoreReply::Absent));
    assert_eq!(state, ResolveState::UpstreamFetch);
    assert_eq!(
        action,
        ResolveAction::Fetch { url: "http://mirror.example/debian/pool/a.deb".to_string() }
    );
}

#[test]
fn entry_that_vanished_before_opening_is_a_miss() {
    let (state, action) = step(ResolveState::Opening, ResolveEvent::Opened(StoreReply::Absent));
    assert_eq!(state, ResolveState::UpstreamFetch);
    assert_eq!(
        action,
        ResolveAction::Fetch { url: "http://mirror.example/debian/pool/a.deb".to_string() }
    );
}

#[test]
fn unconfigured_repository_is_rejected() {
    let step = request_file(&debian(), "foo", "x", ResolveState::Start, ResolveEvent::Request);
    assert_eq!(
        step,
        Some((ResolveState::NotFound, ResolveAction::Reject(AptCacheError::RepositoryNotFound)))
    );
    let (body, status) = AptCacheError::RepositoryNotFound.response_error();
    assert_eq!(status, 404);
    assert_eq!(body.error, "repository_not_found");
}

#[test]
fn unconfigured_repository_is_rejected_whatever_the_path() {
    for path in ["", "x", "pool/a.deb", "../debian/pool/a.deb", "debian"] {
        let step = request_file(&debian(), "foo", path, ResolveState::Start, ResolveEvent::Request);
        assert_eq!(
            step,
            Some((
                ResolveState::NotFound,
                ResolveAction::Reject(AptCacheError::RepositoryNotFound)
            ))
        );
    }
    let step = request_file(&debian(), "Debian", "x", ResolveState::Start, ResolveEvent::Request);
    assert_eq!(
        step,
        Some((ResolveState::NotFound, ResolveAction::Reject(AptCacheError::RepositoryNotFound)))
    );
}

#[test]
fn upstream_404_is_passed_through_and_not_cached() {
    let (state, _) = step(ResolveState::Start, ResolveEvent::Request);
    let (state, _) = step(state, ResolveEvent::Probed(Probe::Absent));
    let (state, action) = step(state, ResolveEvent::Upstream(UpstreamReply::Status(404)));
    assert_eq!(state, ResolveState::PassthroughNonOk);
    assert_eq!(action, ResolveAction::Respond { status: 404, cached: false, body: Body::Upstream });
    assert_eq!(request_file(&debian(), "debian", "pool/a.deb", state, ResolveEvent::Request), None);
}

#[test]
fn every_status_but_200_is_passed_through() {
    for status in [0u16, 100, 199, 201, 204, 206, 301, 304, 403, 500, 503, u16::MAX] {
        let event = ResolveEvent::Upstream(UpstreamReply::Status(status));
        let (state, action) = step(ResolveState::UpstreamFetch, event);
        assert_eq!(state, ResolveState::PassthroughNonOk);
        assert_eq!(action, ResolveAction::Respond { status, cached: false, body: Body::Upstream });
    }
}

#[test]
fn unreachable_upstream_fails_the_request() {
    let (state, action) =
        step(ResolveState::UpstreamFetch, ResolveEvent::Upstream(UpstreamReply::Failed));
    assert_eq!(state, ResolveState::Failed);
    assert_eq!(action, ResolveAction::Reject(AptCacheError::UpstreamFailure));
}

#[test]
fn store_failures_fail_the_request() {
    let failed = (ResolveState::Failed, ResolveAction::Reject(AptCacheError::CacheFailure));
    assert_eq!(step(ResolveState::CacheCheck, ResolveEvent::Probed(Probe::Failed)), failed);
    assert_eq!(step(ResolveState::Evicting, ResolveEvent::Evicted(StoreReply::Failed)), failed);
    assert_eq!(step(ResolveState::Opening, ResolveEvent::Opened(StoreReply::Failed)), failed);
    assert_eq!(step(ResolveState::Creating, ResolveEvent::Created(StoreReply::Failed)), failed);
    assert_eq!(step(ResolveState::Creating, ResolveEvent::Created(StoreReply::Absent)), failed);
}

#[test]
fn an_event_that_is_not_awaited_is_no_step() {
    let config = debian();
    let states = [
        ResolveState::Start,
        ResolveState::CacheCheck,
        ResolveState::Evicting,
        ResolveState::Opening,
        ResolveState::UpstreamFetch,
        ResolveState::Creating,
        ResolveState::NotFound,
        ResolveState::CacheHit,
        ResolveState::PassthroughNonOk,
        ResolveState::TeeAndCache,
        ResolveState::Failed,
    ];
    let events = [
        ResolveEvent::Request,
        ResolveEvent::Probed(Probe::Absent),
        ResolveEvent::Evicted(StoreReply::Done),
        ResolveEvent::Opened(StoreReply::Done),
        ResolveEvent::Upstream(UpstreamReply::Status(200)),
        ResolveEvent::Created(StoreReply::Done),
    ];
    for (i, state) in states.iter().enumerate() {
        for (j, event) in events.iter().enumerate() {
            assert_eq!(state.expects(*event), i == j);
            let step = request_file(&config, "debian", "pool/a.deb", *state, *event);
            assert_eq!(step.is_some(), i == j);
            let step = request_file(&config, "foo", "pool/a.deb", *state, *event);
            assert_eq!(step.is_some(), i == j);
        }
    }
}
