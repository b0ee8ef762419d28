//! Sessions step by step, and what the replies of the services are worth.

use avatar_cache::coordinator::{Action, Coordinator, Event, Session, Step};
use avatar_cache::error::ErrorKind;
use avatar_cache::format::Format;
use avatar_cache::locate::Config;
use avatar_cache::upstream::{judge_descriptor, read_descriptor, read_image, status_is_success, HttpReply};
use avatar_cache::user::UserId;
use bytes::Bytes;

fn coordinator() -> Coordinator {
    Coordinator::new(Config::new("A".to_string(), "R".to_string(), "C".to_string()))
}

fn answered(status: u16, body: &'static [u8]) -> HttpReply {
    HttpReply::Answered { status, body: Bytes::from_static(body) }
}

fn action(session: &Session) -> Action {
    match session.pending() {
        Step::Perform(action) => action,
        Step::Respond(outcome) => panic!("the session has ended: {:?}", outcome),
    }
}

fn answer(session: &Session) -> Result<Bytes, ErrorKind> {
    match session.pending() {
        Step::Respond(outcome) => outcome,
        Step::Perform(action) => panic!("the session goes on: {:?}", action),
    }
}

/// A session that has fetched the descriptor `ABC` for user 5 and `f.png`.
fn fetched(coordinator: &Coordinator) -> Session<'_> {
    let session = coordinator.begin(UserId::new(5).unwrap(), "f.png").unwrap();
    session.advance(Event::DescriptorFetched(answered(200, b"\"ABC\"")))
}

#[test]
fn success_is_a_status_from_200_to_299() {
    for status in [200u16, 201, 204, 206, 299] {
        assert!(status_is_success(status), "{}", status);
    }
    for status in [0u16, 100, 199, 300, 301, 304, 400, 404, 500, 503, 999, u16::MAX] {
        assert!(!status_is_success(status), "{}", status);
    }
}

#[test]
fn descriptor_is_judged_by_status_first() {
    assert_eq!(judge_descriptor(200, Some("ABC".to_string())), Ok("ABC".to_string()));
    assert_eq!(judge_descriptor(299, Some(String::new())), Ok(String::new()));
    assert_eq!(judge_descriptor(200, None), Err(ErrorKind::UpstreamMalformed));
    assert_eq!(judge_descriptor(404, Some("ABC".to_string())), Err(ErrorKind::UpstreamUnavailable));
    assert_eq!(judge_descriptor(500, None), Err(ErrorKind::UpstreamUnavailable));
    assert_eq!(judge_descriptor(199, None), Err(ErrorKind::UpstreamUnavailable));
    assert_eq!(judge_descriptor(300, Some("ABC".to_string())), Err(ErrorKind::UpstreamUnavailable));
}

#[test]
fn descriptor_is_a_json_string() {
    assert_eq!(read_descriptor(&answered(200, b"\"ABC\"")), Ok("ABC".to_string()));
    assert_eq!(read_descriptor(&answered(200, b"  \"ABC\"\n")), Ok("ABC".to_string()));
    assert_eq!(read_descriptor(&answered(200, b"\"\"")), Ok(String::new()));
    assert_eq!(read_descriptor(&answered(200, b"\"a\\\"b\\n\\u0041\"")), Ok("a\"b\nA".to_string()));
    assert_eq!(read_descriptor(&answered(200, b"\"A+/=\"")), Ok("A+/=".to_string()));
}

#[test]
fn other_bodies_are_malformed() {
    let bodies: [&'static [u8]; 10] = [
        b"",
        b"ABC",
        b"\"ABC",
        b"123",
        b"null",
        b"true",
        b"[\"ABC\"]",
        b"{\"mii\":\"ABC\"}",
        b"\"ABC\" \"DEF\"",
        b"\"\xff\"",
    ];
    for body in bodies {
        assert_eq!(read_descriptor(&answered(200, body)), Err(ErrorKind::UpstreamMalformed), "{:?}", body);
    }
}

#[test]
fn account_service_without_success_is_unavailable() {
    assert_eq!(read_descriptor(&HttpReply::Unreachable), Err(ErrorKind::UpstreamUnavailable));
    assert_eq!(read_descriptor(&answered(404, b"\"ABC\"")), Err(ErrorKind::UpstreamUnavailable));
    assert_eq!(read_descriptor(&answered(500, b"oops")), Err(ErrorKind::UpstreamUnavailable));
    assert_eq!(read_descriptor(&answered(302, b"")), Err(ErrorKind::UpstreamUnavailable));
}

#[test]
fn image_is_the_body_of_a_successful_reply() {
    assert_eq!(read_image(answered(200, b"\x89PNG")), Ok(Bytes::from_static(b"\x89PNG")));
    assert_eq!(read_image(answered(204, b"")), Ok(Bytes::new()));
    assert_eq!(read_image(answered(200, b"\"ABC\"")), Ok(Bytes::from_static(b"\"ABC\"")));
    assert_eq!(read_image(answered(404, b"\x89PNG")), Err(ErrorKind::UpstreamUnavailable));
    assert_eq!(read_image(answered(500, b"")), Err(ErrorKind::UpstreamUnavailable));
    assert_eq!(read_image(HttpReply::Unreachable), Err(ErrorKind::UpstreamUnavailable));
}

#[test]
fn session_starts_with_the_account_service() {
    let coordinator = coordinator();
    let session = coordinator.begin(UserId::new(5).unwrap(), "f.png").unwrap();
    assert_eq!(session.user().get(), 5);
    assert_eq!(session.file(), "f.png");
    assert_eq!(session.format(), Format::Png);
    assert!(!session.is_finished());
    assert_eq!(session.tolerated(), None);
    assert_eq!(action(&session), Action::FetchDescriptor { url: "A/api/v2/users/5/mii".to_string() });
    assert_eq!(coordinator.config().cache_root, "C");
}

#[test]
fn unsupported_format_opens_no_session() {
    let coordinator = coordinator();
    let user = UserId::new(5).unwrap();
    assert_eq!(coordinator.begin(user, "f.gif").err(), Some(ErrorKind::UnsupportedFormat));
    assert_eq!(coordinator.begin(user, "data").err(), Some(ErrorKind::UnsupportedFormat));
    assert_eq!(coordinator.receive("5", "f.gif").err(), Some(ErrorKind::UnsupportedFormat));
}

#[test]
fn request_is_received_as_text() {
    let coordinator = coordinator();
    let session = coordinator.receive("0005", "f.tga").unwrap();
    assert_eq!(session.user().get(), 5);
    assert_eq!(session.format(), Format::Tga);
    assert_eq!(action(&session), Action::FetchDescriptor { url: "A/api/v2/users/5/mii".to_string() });
    assert_eq!(coordinator.receive("five", "f.tga").err(), Some(ErrorKind::InvalidUserId));
    assert_eq!(coordinator.receive("0", "f.tga").err(), Some(ErrorKind::InvalidUserId));
    assert_eq!(coordinator.receive("-5", "f.gif").err(), Some(ErrorKind::InvalidUserId));
    assert_eq!(coordinator.receive("", "").err(), Some(ErrorKind::InvalidUserId));
}

#[test]
fn fetched_descriptor_is_held_against_the_stored_one() {
    let coordinator = coordinator();
    let session = fetched(&coordinator);
    assert_eq!(action(&session), Action::ReadDescriptor { path: "C/5/data".to_string() });

    let current = session.advance(Event::DescriptorRead(Some("ABC".to_string())));
    assert_eq!(action(&current), Action::ProbeImage { path: "C/5/f.png".to_string() });

    for stored in [None, Some("XYZ".to_string()), Some("abc".to_string()), Some("ABC ".to_string()), Some(String::new())] {
        let stale = fetched(&coordinator).advance(Event::DescriptorRead(stored));
        assert_eq!(
            action(&stale),
            Action::WriteDescriptor {
                dir: "C/5".to_string(),
                path: "C/5/data".to_string(),
                descriptor: "ABC".to_string(),
            }
        );
    }
}

#[test]
fn failed_descriptor_fetch_ends_the_session() {
    let coordinator = coordinator();
    let cases = [
        (HttpReply::Unreachable, ErrorKind::UpstreamUnavailable),
        (answered(503, b"\"ABC\""), ErrorKind::UpstreamUnavailable),
        (answered(200, b"ABC"), ErrorKind::UpstreamMalformed),
    ];
    for (reply, failure) in cases {
        let session = coordinator.begin(UserId::new(5).unwrap(), "f.png").unwrap();
        let session = session.advance(Event::DescriptorFetched(reply));
        assert!(session.is_finished());
        assert_eq!(answer(&session), Err(failure));
        assert_eq!(session.tolerated(), None);
    }
}

#[test]
fn stored_image_is_served_beside_a_current_descriptor() {
    let coordinator = coordinator();
    let session = fetched(&coordinator)
        .advance(Event::DescriptorRead(Some("ABC".to_string())))
        .advance(Event::ImageProbed { exists: true });
    assert_eq!(action(&session), Action::ReadImage { path: "C/5/f.png".to_string() });
    let session = session.advance(Event::ImageRead(Some(Bytes::from_static(b"stored"))));
    assert!(session.is_finished());
    assert_eq!(answer(&session), Ok(Bytes::from_static(b"stored")));
    assert_eq!(session.tolerated(), None);
}

#[test]
fn unreadable_stored_image_is_rendered_anew() {
    let coordinator = coordinator();
    let session = fetched(&coordinator)
        .advance(Event::DescriptorRead(Some("ABC".to_string())))
        .advance(Event::ImageProbed { exists: true })
        .advance(Event::ImageRead(None));
    assert_eq!(action(&session), Action::FetchImage { url: "R/miis/image.png?data=ABC".to_string() });
    assert_eq!(session.tolerated(), Some(ErrorKind::StorageDegraded));
    let session = session
        .advance(Event::ImageFetched(answered(200, b"fresh")))
        .advance(Event::ImageWritten { persisted: true });
    assert_eq!(answer(&session), Ok(Bytes::from_static(b"fresh")));
    assert_eq!(session.tolerated(), Some(ErrorKind::StorageDegraded));
}

#[test]
fn rendered_image_is_stored_then_served() {
    let coordinator = coordinator();
    let session = fetched(&coordinator)
        .advance(Event::DescriptorRead(None))
        .advance(Event::DescriptorWritten { persisted: true });
    assert_eq!(action(&session), Action::FetchImage { url: "R/miis/image.png?data=ABC".to_string() });
    let session = session.advance(Event::ImageFetched(answered(200, b"\x89PNG\r\n")));
    assert_eq!(
        action(&session),
        Action::WriteImage { path: "C/5/f.png".to_string(), bytes: Bytes::from_static(b"\x89PNG\r\n") }
    );
    assert!(!session.is_finished());
    let session = session.advance(Event::ImageWritten { persisted: true });
    assert!(session.is_finished());
    assert_eq!(answer(&session), Ok(Bytes::from_static(b"\x89PNG\r\n")));
    assert_eq!(answer(&session), Ok(Bytes::from_static(b"\x89PNG\r\n")));
    assert_eq!(session.tolerated(), None);
}

#[test]
fn failed_rendering_ends_the_session() {
    let coordinator = coordinator();
    for reply in [HttpReply::Unreachable, answered(500, b"x"), answered(404, b"")] {
        let session = fetched(&coordinator)
            .advance(Event::DescriptorRead(Some("ABC".to_string())))
            .advance(Event::ImageProbed { exists: false })
            .advance(Event::ImageFetched(reply));
        assert!(session.is_finished());
        assert_eq!(answer(&session), Err(ErrorKind::UpstreamUnavailable));
    }
}

#[test]
fn refused_writes_are_tolerated_and_noted() {
    let coordinator = coordinator();
    let session = fetched(&coordinator)
        .advance(Event::DescriptorRead(None))
        .advance(Event::DescriptorWritten { persisted: false });
    assert_eq!(session.tolerated(), Some(ErrorKind::StorageDegraded));
    assert_eq!(action(&session), Action::FetchImage { url: "R/miis/image.png?data=ABC".to_string() });
    let session = session
        .advance(Event::ImageFetched(answered(200, b"img")))
        .advance(Event::ImageWritten { persisted: true });
    assert_eq!(answer(&session), Ok(Bytes::from_static(b"img")));
    assert_eq!(session.tolerated(), Some(ErrorKind::StorageDegraded));

    let session = fetched(&coordinator)
        .advance(Event::DescriptorRead(None))
        .advance(Event::DescriptorWritten { persisted: true })
        .advance(Event::ImageFetched(answered(200, b"img")));
    assert_eq!(session.tolerated(), None);
    let session = session.advance(Event::ImageWritten { persisted: false });
    assert_eq!(answer(&session), Ok(Bytes::from_static(b"img")));
    assert_eq!(session.tolerated(), Some(ErrorKind::StorageDegraded));
}

#[test]
fn events_that_report_on_nothing_asked_are_ignored() {
    let coordinator = coordinator();
    let session = coordinator.begin(UserId::new(5).unwrap(), "f.png").unwrap();
    let session = session
        .advance(Event::DescriptorRead(Some("ABC".to_string())))
        .advance(Event::DescriptorWritten { persisted: false })
        .advance(Event::ImageProbed { exists: true })
        .advance(Event::ImageRead(Some(Bytes::from_static(b"x"))))
        .advance(Event::ImageRead(None))
        .advance(Event::ImageFetched(answered(200, b"x")))
        .advance(Event::ImageWritten { persisted: false });
    assert_eq!(action(&session), Action::FetchDescriptor { url: "A/api/v2/users/5/mii".to_string() });
    assert_eq!(session.tolerated(), None);

    let session = fetched(&coordinator)
        .advance(Event::DescriptorFetched(answered(200, b"\"XYZ\"")))
        .advance(Event::ImageFetched(HttpReply::Unreachable));
    assert_eq!(action(&session), Action::ReadDescriptor { path: "C/5/data".to_string() });

    let done = fetched(&coordinator)
        .advance(Event::DescriptorRead(Some("ABC".to_string())))
        .advance(Event::ImageProbed { exists: true })
        .advance(Event::ImageRead(Some(Bytes::from_static(b"kept"))))
        .advance(Event::ImageFetched(answered(200, b"late")))
        .advance(Event::DescriptorFetched(HttpReply::Unreachable));
    assert_eq!(answer(&done), Ok(Bytes::from_static(b"kept")));
}
