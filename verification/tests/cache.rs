use newsapi_demo::cache::cache_key;
use newsapi_demo::cache::checked_payload;
use newsapi_demo::cache::get_image_from_url;
use newsapi_demo::cache::key_from_digest;
use newsapi_demo::cache::validate_image;
use newsapi_demo::cache::DirOutcome;
use newsapi_demo::cache::ResolveAction;
use newsapi_demo::cache::ResolveEvent;
use newsapi_demo::cache::ResolveState;
use newsapi_demo::cache::Resolution;
use newsapi_demo::cache::KEY_BYTES;
use newsapi_demo::newsapi::NewsAPIError;
use std::collections::HashMap;

const PNG: [u8; 12] = [0x89, b'P', b'N', b'G', b'\r', b'\n', 0x1a, b'\n', 0, 0, 0, 13];
const JPEG: [u8; 4] = [0xff, 0xd8, 0xff, 0xe0];

fn other_io_error() -> std::io::Error {
    std::io::Error::new(std::io::ErrorKind::PermissionDenied, "denied")
}

fn transport_error() -> reqwest::Error {
    reqwest::Client::new().get("not a url").build().unwrap_err()
}

/// Drives a resolution to its end against a cache held in memory and a
/// network that answers from `web`; returns what was delivered and records
/// what was stored.
fn resolve(
    url: &str,
    disk: &mut HashMap<String, Vec<u8>>,
    web: &HashMap<String, Vec<u8>>,
) -> Result<Vec<u8>, NewsAPIError> {
    let (mut resolution, mut action) = get_image_from_url(url);
    loop {
        let event = match action {
            ResolveAction::CreateDir => ResolveEvent::DirCreated(DirOutcome::AlreadyExists),
            ResolveAction::Probe(name) => ResolveEvent::Probed(disk.contains_key(&name)),
            ResolveAction::ReadFile(name) => ResolveEvent::FileRead(Ok(disk[&name].clone())),
            ResolveAction::Fetch(url) => match web.get(&url) {
                Some(bytes) => ResolveEvent::Fetched(Ok(bytes.clone())),
                None => ResolveEvent::Fetched(Err(transport_error())),
            },
            ResolveAction::Deliver { bytes, store_as } => {
                if let Some(name) = store_as {
                    disk.insert(name, bytes.clone());
                }
                assert!(resolution.is_finished());
                return Ok(bytes);
            }
            ResolveAction::Fail(error) => {
                assert!(resolution.is_finished());
                return Err(error);
            }
            ResolveAction::Idle => unreachable!("a resolution ends before it idles"),
        };
        action = resolution.step(event);
    }
}

#[test]
fn keys_are_the_first_eight_digest_bytes_in_hex() {
    assert_eq!(KEY_BYTES, 8);
    assert_eq!(cache_key(""), "e3b0c44298fc1c14");
    assert_eq!(cache_key("abc"), "ba7816bf8f01cfea");
    assert_eq!(cache_key("https://example.com/a.png"), "494a30704d4f32ac");
    assert_eq!(cache_key("https://example.com/b.png"), "200d8de414eb1898");
    assert_eq!(cache_key("https://newsapi.org/images/n-logo-border.png"), "e70e9c8a174ee796");
}

#[test]
fn keys_hash_the_utf8_text() {
    assert_eq!(cache_key("https://example.com/bild-\u{e4}.png"), "68ceff123ad8dbc9");
}

#[test]
fn keys_are_sixteen_lower_case_hex_digits() {
    for url in ["", "a", "https://example.com/a.png", "\u{1F600}"] {
        let key = cache_key(url);
        assert_eq!(key.len(), 16);
        assert!(key.chars().all(|c| c.is_ascii_digit() || ('a'..='f').contains(&c)));
    }
}

#[test]
fn keys_depend_on_the_url_alone() {
    let first = cache_key("https://example.com/a.png");
    let second = cache_key("https://example.com/a.png");
    assert_eq!(first, second);
    assert_ne!(cache_key("https://example.com/a.png"), cache_key("https://example.com/b.png"));
}

#[test]
fn known_containers_pass_validation_unchanged() {
    assert_eq!(validate_image(PNG.to_vec()).unwrap(), PNG.to_vec());
    assert_eq!(validate_image(JPEG.to_vec()).unwrap(), JPEG.to_vec());
    assert_eq!(validate_image(b"GIF89a...".to_vec()).unwrap(), b"GIF89a...".to_vec());
}

#[test]
fn unknown_payloads_fail_validation() {
    assert!(matches!(validate_image(b"<html></html>".to_vec()), Err(NewsAPIError::Image(_))));
    assert!(matches!(validate_image(Vec::new()), Err(NewsAPIError::Image(_))));
    assert!(matches!(validate_image(vec![0x89, b'P']), Err(NewsAPIError::Image(_))));
}

#[test]
fn verdict_decides_the_fate_of_the_payload() {
    let good = image::guess_format(&PNG);
    assert_eq!(checked_payload(vec![1, 2, 3], good).unwrap(), vec![1, 2, 3]);
    let bad = image::guess_format(b"nothing");
    assert!(matches!(checked_payload(PNG.to_vec(), bad), Err(NewsAPIError::Image(_))));
}

#[test]
fn directory_outcomes_are_classified() {
    assert!(matches!(DirOutcome::from_result(Ok(())), DirOutcome::Created));
    let exists = std::io::Error::new(std::io::ErrorKind::AlreadyExists, "there");
    assert!(matches!(DirOutcome::from_result(Err(exists)), DirOutcome::AlreadyExists));
    match DirOutcome::from_result(Err(other_io_error())) {
        DirOutcome::Failed(error) => {
            assert_eq!(error.kind(), std::io::ErrorKind::PermissionDenied)
        }
        other => panic!("expected a failure, got {:?}", other),
    }
}

#[test]
fn resolution_starts_with_the_directory() {
    let (resolution, action) = get_image_from_url("https://example.com/a.png");
    assert!(matches!(action, ResolveAction::CreateDir));
    assert_eq!(resolution.state(), ResolveState::CreatingDir);
    assert_eq!(resolution.url(), "https://example.com/a.png");
    assert!(!resolution.is_finished());
}

#[test]
fn existing_directory_is_as_good_as_a_new_one() {
    for outcome in [DirOutcome::Created, DirOutcome::AlreadyExists] {
        let (mut resolution, _) = get_image_from_url("https://example.com/a.png");
        match resolution.step(ResolveEvent::DirCreated(outcome)) {
            ResolveAction::Probe(name) => assert_eq!(name, "494a30704d4f32ac"),
            other => panic!("expected a probe, got {:?}", other),
        }
        assert_eq!(resolution.state(), ResolveState::Probing);
    }
}

#[test]
fn directory_failure_ends_the_resolution() {
    let (mut resolution, _) = get_image_from_url("https://example.com/a.png");
    match resolution.step(ResolveEvent::DirCreated(DirOutcome::Failed(other_io_error()))) {
        ResolveAction::Fail(NewsAPIError::IO(error)) => {
            assert_eq!(error.kind(), std::io::ErrorKind::PermissionDenied)
        }
        other => panic!("expected an IO failure, got {:?}", other),
    }
    assert!(resolution.is_finished());
}

#[test]
fn hit_is_read_and_delivered_as_it_is() {
    let (mut resolution, _) = get_image_from_url("https://example.com/a.png");
    resolution.step(ResolveEvent::DirCreated(DirOutcome::Created));
    match resolution.step(ResolveEvent::Probed(true)) {
        ResolveAction::ReadFile(name) => assert_eq!(name, "494a30704d4f32ac"),
        other => panic!("expected a read, got {:?}", other),
    }
    assert_eq!(resolution.state(), ResolveState::Reading);
    // What sits in the cache is handed out without a second look.
    match resolution.step(ResolveEvent::FileRead(Ok(b"cached".to_vec()))) {
        ResolveAction::Deliver { bytes, store_as } => {
            assert_eq!(bytes, b"cached".to_vec());
            assert_eq!(store_as, None);
        }
        other => panic!("expected a delivery, got {:?}", other),
    }
    assert!(resolution.is_finished());
}

#[test]
fn unreadable_hit_fails_with_io() {
    let (mut resolution, _) = get_image_from_url("https://example.com/a.png");
    resolution.step(ResolveEvent::DirCreated(DirOutcome::Created));
    resolution.step(ResolveEvent::Probed(true));
    match resolution.step(ResolveEvent::FileRead(Err(other_io_error()))) {
        ResolveAction::Fail(NewsAPIError::IO(error)) => {
            assert_eq!(error.kind(), std::io::ErrorKind::PermissionDenied)
        }
        other => panic!("expected an IO failure, got {:?}", other),
    }
    assert!(resolution.is_finished());
}

#[test]
fn miss_is_downloaded_delivered_and_stored() {
    let (mut resolution, _) = get_image_from_url("https://example.com/a.png");
    resolution.step(ResolveEvent::DirCreated(DirOutcome::AlreadyExists));
    match resolution.step(ResolveEvent::Probed(false)) {
        ResolveAction::Fetch(url) => assert_eq!(url, "https://example.com/a.png"),
        other => panic!("expected a download, got {:?}", other),
    }
    assert_eq!(resolution.state(), ResolveState::Fetching);
    match resolution.step(ResolveEvent::Fetched(Ok(PNG.to_vec()))) {
        ResolveAction::Deliver { bytes, store_as } => {
            assert_eq!(bytes, PNG.to_vec());
            assert_eq!(store_as.as_deref(), Some("494a30704d4f32ac"));
        }
        other => panic!("expected a delivery, got {:?}", other),
    }
    assert!(resolution.is_finished());
}

#[test]
fn invalid_download_is_neither_delivered_nor_stored() {
    let (mut resolution, _) = get_image_from_url("https://example.com/a.png");
    resolution.step(ResolveEvent::DirCreated(DirOutcome::AlreadyExists));
    resolution.step(ResolveEvent::Probed(false));
    let action = resolution.step(ResolveEvent::Fetched(Ok(b"<html>404</html>".to_vec())));
    assert!(matches!(action, ResolveAction::Fail(NewsAPIError::Image(_))));
    assert!(resolution.is_finished());
}

#[test]
fn failed_download_fails_with_transport() {
    let (mut resolution, _) = get_image_from_url("https://example.com/a.png");
    resolution.step(ResolveEvent::DirCreated(DirOutcome::AlreadyExists));
    resolution.step(ResolveEvent::Probed(false));
    let action = resolution.step(ResolveEvent::Fetched(Err(transport_error())));
    assert!(matches!(action, ResolveAction::Fail(NewsAPIError::Reqwest(_))));
    assert!(resolution.is_finished());
}

#[test]
fn stray_events_repeat_the_pending_action() {
    let (mut resolution, _) = get_image_from_url("https://example.com/a.png");
    assert!(matches!(resolution.step(ResolveEvent::Probed(true)), ResolveAction::CreateDir));
    assert_eq!(resolution.state(), ResolveState::CreatingDir);
    resolution.step(ResolveEvent::DirCreated(DirOutcome::Created));
    match resolution.step(ResolveEvent::Fetched(Ok(PNG.to_vec()))) {
        ResolveAction::Probe(name) => assert_eq!(name, "494a30704d4f32ac"),
        other => panic!("expected the probe again, got {:?}", other),
    }
    assert_eq!(resolution.state(), ResolveState::Probing);
    resolution.step(ResolveEvent::Probed(true));
    match resolution.step(ResolveEvent::Probed(false)) {
        ResolveAction::ReadFile(name) => assert_eq!(name, "494a30704d4f32ac"),
        other => panic!("expected the read again, got {:?}", other),
    }
    assert_eq!(resolution.state(), ResolveState::Reading);
}

#[test]
fn stray_events_while_fetching_repeat_the_download() {
    let (mut resolution, _) = get_image_from_url("https://example.com/a.png");
    resolution.step(ResolveEvent::DirCreated(DirOutcome::Created));
    resolution.step(ResolveEvent::Probed(false));
    match resolution.step(ResolveEvent::FileRead(Ok(PNG.to_vec()))) {
        ResolveAction::Fetch(url) => assert_eq!(url, "https://example.com/a.png"),
        other => panic!("expected the download again, got {:?}", other),
    }
    assert_eq!(resolution.state(), ResolveState::Fetching);
}

#[test]
fn finished_resolution_idles() {
    let (mut resolution, _) = get_image_from_url("https://example.com/a.png");
    resolution.step(ResolveEvent::DirCreated(DirOutcome::Failed(other_io_error())));
    assert!(matches!(resolution.step(ResolveEvent::Probed(true)), ResolveAction::Idle));
    assert!(matches!(
        resolution.step(ResolveEvent::DirCreated(DirOutcome::Created)),
        ResolveAction::Idle
    ));
    assert!(resolution.is_finished());
}

#[test]
fn second_resolution_returns_identical_bytes() {
    let url = "https://example.com/a.png";
    let mut disk = HashMap::new();
    let mut web = HashMap::new();
    web.insert(url.to_string(), PNG.to_vec());
    let first = resolve(url, &mut disk, &web).unwrap();
    assert_eq!(disk.len(), 1);
    assert_eq!(disk["494a30704d4f32ac"], PNG.to_vec());
    // The second resolution must not need the network any more.
    let second = resolve(url, &mut disk, &HashMap::new()).unwrap();
    assert_eq!(first, second);
    assert_eq!(second, PNG.to_vec());
    assert_eq!(disk.len(), 1);
}

#[test]
fn invalid_payload_never_reaches_the_cache() {
    let url = "https://example.com/a.png";
    let mut disk = HashMap::new();
    let mut web = HashMap::new();
    web.insert(url.to_string(), b"oops".to_vec());
    assert!(matches!(resolve(url, &mut disk, &web), Err(NewsAPIError::Image(_))));
    assert!(disk.is_empty());
}

#[test]
fn resolutions_of_different_urls_do_not_share_entries() {
    let mut disk = HashMap::new();
    let mut web = HashMap::new();
    web.insert("https://example.com/a.png".to_string(), PNG.to_vec());
    web.insert("https://example.com/b.png".to_string(), JPEG.to_vec());
    assert_eq!(resolve("https://example.com/a.png", &mut disk, &web).unwrap(), PNG.to_vec());
    assert_eq!(resolve("https://example.com/b.png", &mut disk, &web).unwrap(), JPEG.to_vec());
    assert_eq!(disk.len(), 2);
    assert_eq!(disk["200d8de414eb1898"], JPEG.to_vec());
}

#[test]
fn concurrent_resolutions_of_one_url_are_not_shared() {
    // Two resolutions that both probe before either stores both download,
    // and both store the same bytes under the same name.
    let url = "https://example.com/a.png";
    let (mut one, _): (Resolution, ResolveAction) = get_image_from_url(url);
    let (mut two, _) = get_image_from_url(url);
    one.step(ResolveEvent::DirCreated(DirOutcome::Created));
    two.step(ResolveEvent::DirCreated(DirOutcome::AlreadyExists));
    assert!(matches!(one.step(ResolveEvent::Probed(false)), ResolveAction::Fetch(_)));
    assert!(matches!(two.step(ResolveEvent::Probed(false)), ResolveAction::Fetch(_)));
    let first = one.step(ResolveEvent::Fetched(Ok(PNG.to_vec())));
    let second = two.step(ResolveEvent::Fetched(Ok(PNG.to_vec())));
    match (first, second) {
        (
            ResolveAction::Deliver { bytes: a, store_as: Some(name_a) },
            ResolveAction::Deliver { bytes: b, store_as: Some(name_b) },
        ) => {
            assert_eq!(a, b);
            assert_eq!(name_a, name_b);
        }
        other => panic!("expected two deliveries, got {:?}", other),
    }
}

#[test]
fn key_is_the_hex_of_the_first_eight_digest_bytes() {
    let mut digest = [0u8; 32];
    for (i, byte) in digest.iter_mut().enumerate() {
        *byte = (i as u8) * 0x11;
    }
    assert_eq!(key_from_digest(&digest), "0011223344556677");
    assert_eq!(key_from_digest(&[0xff; 32]), "ffffffffffffffff");
    let mut digest = [0u8; 32];
    digest[0] = 0x0a;
    digest[7] = 0xf0;
    digest[8] = 0xee;
    assert_eq!(key_from_digest(&digest), "0a000000000000f0");
}

#[test]
fn classification_goes_by_the_kind_flag() {
    assert!(matches!(DirOutcome::classify(Ok(()), false), DirOutcome::Created));
    assert!(matches!(DirOutcome::classify(Ok(()), true), DirOutcome::Created));
    assert!(matches!(DirOutcome::classify(Err(other_io_error()), true), DirOutcome::AlreadyExists));
    assert!(matches!(DirOutcome::classify(Err(other_io_error()), false), DirOutcome::Failed(_)));
}

#[test]
fn only_an_existing_directory_is_tolerated() {
    for kind in [
        std::io::ErrorKind::NotFound,
        std::io::ErrorKind::PermissionDenied,
        std::io::ErrorKind::InvalidInput,
        std::io::ErrorKind::Other,
    ] {
        match DirOutcome::from_result(Err(std::io::Error::new(kind, "no"))) {
            DirOutcome::Failed(error) => assert_eq!(error.kind(), kind),
            other => panic!("expected a failure for {:?}, got {:?}", kind, other),
        }
    }
    let exists = std::io::Error::from(std::io::ErrorKind::AlreadyExists);
    assert!(matches!(DirOutcome::from_result(Err(exists)), DirOutcome::AlreadyExists));
}
