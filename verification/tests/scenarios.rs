//! Whole requests, driven against a small stand-in for the two services
//! and for local storage.

use avatar_cache::coordinator::{Action, Coordinator, Event, Step};
use avatar_cache::error::ErrorKind;
use avatar_cache::locate::Config;
use avatar_cache::upstream::HttpReply;
use avatar_cache::user::UserId;
use bytes::Bytes;
use std::collections::BTreeMap;

const PNG_ABC: [u8; 6] = [0x89, 0x50, 0x4e, 0x47, 0x0d, 0x0a];
const PNG_XYZ: [u8; 5] = [0x89, 0x50, 0x00, 0x01, 0x02];
const TGA_ABC: [u8; 4] = [0x00, 0x00, 0x02, 0x00];

/// What the services answer and what storage holds.
struct Env {
    /// The descriptor that the account service yields; `None`: unreachable.
    descriptor: Option<String>,
    /// The images of the render service, by address.
    images: BTreeMap<String, Vec<u8>>,
    files: BTreeMap<String, Vec<u8>>,
    dirs: Vec<String>,
    writable: bool,
    log: Vec<String>,
}

fn env(descriptor: Option<&str>) -> Env {
    let mut images = BTreeMap::new();
    images.insert("http://render/miis/image.png?data=ABC".to_string(), PNG_ABC.to_vec());
    images.insert("http://render/miis/image.png?data=XYZ".to_string(), PNG_XYZ.to_vec());
    images.insert("http://render/miis/image.tga?data=ABC".to_string(), TGA_ABC.to_vec());
    Env {
        descriptor: descriptor.map(|d| d.to_string()),
        images,
        files: BTreeMap::new(),
        dirs: Vec::new(),
        writable: true,
        log: Vec::new(),
    }
}

fn coordinator() -> Coordinator {
    Coordinator::new(Config::new(
        "http://account".to_string(),
        "http://render".to_string(),
        "miis".to_string(),
    ))
}

fn json_text(text: &str) -> Bytes {
    Bytes::from(format!("\"{}\"", text))
}

fn perform(env: &mut Env, action: Action) -> Event {
    match action {
        Action::FetchDescriptor { url } => {
            env.log.push(format!("fetch-descriptor {}", url));
            Event::DescriptorFetched(match &env.descriptor {
                Some(d) => HttpReply::Answered { status: 200, body: json_text(d) },
                None => HttpReply::Unreachable,
            })
        }
        Action::ReadDescriptor { path } => {
            env.log.push(format!("read-descriptor {}", path));
            Event::DescriptorRead(
                env.files.get(&path).and_then(|bytes| String::from_utf8(bytes.clone()).ok()),
            )
        }
        Action::WriteDescriptor { dir, path, descriptor } => {
            env.log.push(format!("write-descriptor {} {}", path, descriptor));
            if env.writable {
                if !env.dirs.contains(&dir) {
                    env.dirs.push(dir);
                }
                env.files.insert(path, descriptor.into_bytes());
            }
            Event::DescriptorWritten { persisted: env.writable }
        }
        Action::ProbeImage { path } => {
            env.log.push(format!("probe-image {}", path));
            Event::ImageProbed { exists: env.files.contains_key(&path) }
        }
        Action::ReadImage { path } => {
            env.log.push(format!("read-image {}", path));
            Event::ImageRead(env.files.get(&path).map(|bytes| Bytes::from(bytes.clone())))
        }
        Action::FetchImage { url } => {
            env.log.push(format!("fetch-image {}", url));
            Event::ImageFetched(match env.images.get(&url) {
                Some(bytes) => HttpReply::Answered { status: 200, body: Bytes::from(bytes.clone()) },
                None => HttpReply::Answered { status: 500, body: Bytes::new() },
            })
        }
        Action::WriteImage { path, bytes } => {
            env.log.push(format!("write-image {}", path));
            if env.writable {
                env.files.insert(path, bytes.to_vec());
            }
            Event::ImageWritten { persisted: env.writable }
        }
    }
}

/// Drives one request to its answer.
fn request(env: &mut Env, user: i32, path: &str) -> Result<Bytes, ErrorKind> {
    env.log.clear();
    let coordinator = coordinator();
    let mut session = coordinator.begin(UserId::new(user).unwrap(), path)?;
    let mut turns = 0;
    loop {
        match session.pending() {
            Step::Respond(outcome) => {
                assert!(session.is_finished());
                return outcome;
            }
            Step::Perform(action) => {
                assert!(!session.is_finished());
                let event = perform(env, action);
                session = session.advance(event);
            }
        }
        turns += 1;
        assert!(turns <= 6);
    }
}

fn render_calls(env: &Env) -> usize {
    env.log.iter().filter(|line| line.starts_with("fetch-image")).count()
}

#[test]
fn first_request_fills_the_cache() {
    let mut env = env(Some("ABC"));
    let served = request(&mut env, 1000, "image.png");
    assert_eq!(served, Ok(Bytes::from(PNG_ABC.to_vec())));
    assert_eq!(env.dirs, vec!["miis/1000".to_string()]);
    assert_eq!(env.files.get("miis/1000/data"), Some(&b"ABC".to_vec()));
    assert_eq!(env.files.get("miis/1000/image.png"), Some(&PNG_ABC.to_vec()));
    assert_eq!(env.files.len(), 2);
    assert_eq!(
        env.log,
        vec![
            "fetch-descriptor http://account/api/v2/users/1000/mii".to_string(),
            "read-descriptor miis/1000/data".to_string(),
            "write-descriptor miis/1000/data ABC".to_string(),
            "fetch-image http://render/miis/image.png?data=ABC".to_string(),
            "write-image miis/1000/image.png".to_string(),
        ]
    );
}

#[test]
fn changed_descriptor_refreshes_the_requested_image_only() {
    let mut env = env(Some("ABC"));
    assert_eq!(request(&mut env, 1000, "image.png"), Ok(Bytes::from(PNG_ABC.to_vec())));
    assert_eq!(request(&mut env, 1000, "image.tga"), Ok(Bytes::from(TGA_ABC.to_vec())));
    env.descriptor = Some("XYZ".to_string());
    let served = request(&mut env, 1000, "image.png");
    assert_eq!(served, Ok(Bytes::from(PNG_XYZ.to_vec())));
    assert_eq!(env.files.get("miis/1000/data"), Some(&b"XYZ".to_vec()));
    assert_eq!(env.files.get("miis/1000/image.png"), Some(&PNG_XYZ.to_vec()));
    assert_eq!(env.files.get("miis/1000/image.tga"), Some(&TGA_ABC.to_vec()));
    assert_eq!(
        env.log,
        vec![
            "fetch-descriptor http://account/api/v2/users/1000/mii".to_string(),
            "read-descriptor miis/1000/data".to_string(),
            "write-descriptor miis/1000/data XYZ".to_string(),
            "fetch-image http://render/miis/image.png?data=XYZ".to_string(),
            "write-image miis/1000/image.png".to_string(),
        ]
    );
}

#[test]
fn image_left_from_an_older_descriptor_is_served_as_stored() {
    let mut env = env(Some("ABC"));
    assert_eq!(request(&mut env, 1000, "image.png"), Ok(Bytes::from(PNG_ABC.to_vec())));
    assert_eq!(request(&mut env, 1000, "image.tga"), Ok(Bytes::from(TGA_ABC.to_vec())));
    env.descriptor = Some("XYZ".to_string());
    assert_eq!(request(&mut env, 1000, "image.png"), Ok(Bytes::from(PNG_XYZ.to_vec())));
    // The descriptor on storage is current now, and the other image is
    // still there: it is served without a look at what it was made from.
    assert_eq!(request(&mut env, 1000, "image.tga"), Ok(Bytes::from(TGA_ABC.to_vec())));
    assert_eq!(render_calls(&env), 0);
}

#[test]
fn unreachable_account_service_fails_the_request() {
    let mut env = env(Some("ABC"));
    assert_eq!(request(&mut env, 1000, "image.png"), Ok(Bytes::from(PNG_ABC.to_vec())));
    env.descriptor = None;
    let served = request(&mut env, 1000, "image.png");
    assert_eq!(served, Err(ErrorKind::UpstreamUnavailable));
    assert_eq!(env.log, vec!["fetch-descriptor http://account/api/v2/users/1000/mii".to_string()]);
    assert_eq!(env.files.get("miis/1000/image.png"), Some(&PNG_ABC.to_vec()));
}

#[test]
fn unreadable_descriptor_counts_as_none() {
    let mut corrupt = env(Some("ABC"));
    corrupt.files.insert("miis/1000/data".to_string(), vec![0xff, 0xfe, 0x00]);
    corrupt.files.insert("miis/1000/image.png".to_string(), vec![1, 2, 3]);
    let served = request(&mut corrupt, 1000, "image.png");
    assert_eq!(served, Ok(Bytes::from(PNG_ABC.to_vec())));
    assert_eq!(corrupt.files.get("miis/1000/data"), Some(&b"ABC".to_vec()));
    assert_eq!(corrupt.files.get("miis/1000/image.png"), Some(&PNG_ABC.to_vec()));

    let mut fresh = env(Some("ABC"));
    assert_eq!(request(&mut fresh, 1000, "image.png"), served);
    assert_eq!(fresh.log, corrupt.log);
    assert_eq!(fresh.files, corrupt.files);
}

#[test]
fn served_bytes_are_what_the_render_service_returned() {
    for (path, expected) in [("image.png", PNG_ABC.to_vec()), ("image.tga", TGA_ABC.to_vec())] {
        let mut env = env(Some("ABC"));
        assert_eq!(request(&mut env, 7, path), Ok(Bytes::from(expected.clone())));
        assert_eq!(request(&mut env, 7, path), Ok(Bytes::from(expected)));
    }
}

#[test]
fn second_request_asks_no_rendering() {
    let mut env = env(Some("ABC"));
    assert_eq!(request(&mut env, 1000, "image.png"), Ok(Bytes::from(PNG_ABC.to_vec())));
    assert_eq!(render_calls(&env), 1);
    assert_eq!(request(&mut env, 1000, "image.png"), Ok(Bytes::from(PNG_ABC.to_vec())));
    assert_eq!(render_calls(&env), 0);
    assert_eq!(
        env.log,
        vec![
            "fetch-descriptor http://account/api/v2/users/1000/mii".to_string(),
            "read-descriptor miis/1000/data".to_string(),
            "probe-image miis/1000/image.png".to_string(),
            "read-image miis/1000/image.png".to_string(),
        ]
    );
}

#[test]
fn unsupported_extension_asks_nothing() {
    let mut env = env(Some("ABC"));
    for path in ["image.jpg", "image", "image.", "image.PNG", "image.png.bak", ""] {
        assert_eq!(request(&mut env, 1000, path), Err(ErrorKind::UnsupportedFormat));
        assert!(env.log.is_empty());
        assert!(env.files.is_empty());
    }
}

#[test]
fn missing_image_is_rendered_beside_a_current_descriptor() {
    let mut env = env(Some("ABC"));
    assert_eq!(request(&mut env, 1000, "image.png"), Ok(Bytes::from(PNG_ABC.to_vec())));
    let served = request(&mut env, 1000, "image.tga");
    assert_eq!(served, Ok(Bytes::from(TGA_ABC.to_vec())));
    assert_eq!(
        env.log,
        vec![
            "fetch-descriptor http://account/api/v2/users/1000/mii".to_string(),
            "read-descriptor miis/1000/data".to_string(),
            "probe-image miis/1000/image.tga".to_string(),
            "fetch-image http://render/miis/image.tga?data=ABC".to_string(),
            "write-image miis/1000/image.tga".to_string(),
        ]
    );
    assert_eq!(env.files.get("miis/1000/data"), Some(&b"ABC".to_vec()));
}

#[test]
fn failed_rendering_fails_the_request_and_keeps_the_descriptor() {
    let mut env = env(Some("NEW"));
    let served = request(&mut env, 1000, "image.png");
    assert_eq!(served, Err(ErrorKind::UpstreamUnavailable));
    assert_eq!(env.files.get("miis/1000/data"), Some(&b"NEW".to_vec()));
    assert_eq!(env.files.get("miis/1000/image.png"), None);

    // The next request finds the descriptor current and asks for the image only.
    env.images.insert("http://render/miis/image.png?data=NEW".to_string(), vec![9, 9]);
    assert_eq!(request(&mut env, 1000, "image.png"), Ok(Bytes::from(vec![9u8, 9])));
    assert_eq!(
        env.log,
        vec![
            "fetch-descriptor http://account/api/v2/users/1000/mii".to_string(),
            "read-descriptor miis/1000/data".to_string(),
            "probe-image miis/1000/image.png".to_string(),
            "fetch-image http://render/miis/image.png?data=NEW".to_string(),
            "write-image miis/1000/image.png".to_string(),
        ]
    );
}

#[test]
fn refused_writes_do_not_fail_the_request() {
    let mut env = env(Some("ABC"));
    env.writable = false;
    assert_eq!(request(&mut env, 1000, "image.png"), Ok(Bytes::from(PNG_ABC.to_vec())));
    assert!(env.files.is_empty());
    assert_eq!(request(&mut env, 1000, "image.png"), Ok(Bytes::from(PNG_ABC.to_vec())));
    assert_eq!(render_calls(&env), 1);
}

#[test]
fn users_are_cached_apart() {
    let mut env = env(Some("ABC"));
    assert_eq!(request(&mut env, 1, "image.png"), Ok(Bytes::from(PNG_ABC.to_vec())));
    assert_eq!(request(&mut env, 10, "image.png"), Ok(Bytes::from(PNG_ABC.to_vec())));
    assert_eq!(render_calls(&env), 1);
    assert_eq!(env.dirs, vec!["miis/1".to_string(), "miis/10".to_string()]);
    assert_eq!(env.files.len(), 4);
}
