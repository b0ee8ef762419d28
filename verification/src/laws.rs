//! What holds of every request, proved of the sessions of
//! [`crate::coordinator`] run in the surroundings of [`crate::world`].

use crate::coordinator::{ActionView, EventView, SessionView, StepView};
use crate::error::ErrorKind;
use crate::format::{format_of_path, Format};
use crate::locate::{law_images_lie_apart_from_the_descriptor, ConfigView};
use crate::table::law_requests_follow_the_table;
use crate::upstream::{descriptor_of_reply, image_of_reply};
use crate::world::{serve, World};
use vstd::prelude::*;
use vstd::utf8::{encode_utf8, encode_utf8_decode_utf8, encode_utf8_valid_utf8};

verus! {

/// Whether the render service is asked for anything in `trace`.
pub open spec fn asks_render(trace: Seq<ActionView>) -> bool {
    exists|i: int| 0 <= i < trace.len() && #[trigger] trace[i] is FetchImage
}

/// An event that reports on the pending action brings the session nearer
/// to its end; any other event leaves the session as it is.
pub proof fn law_sessions_make_progress(session: SessionView, event: EventView)
    ensures
        session.expects(event) ==> session.advance(event).rank() < session.rank(),
        !session.expects(event) ==> session.advance(event) == session,
        session.pending() is Respond <==> session.rank() == 0,
{
}

/// What comes of carrying out the pending action reports on that action.
pub proof fn law_surroundings_answer_what_is_asked(session: SessionView, world: World)
    ensures
        match session.pending() {
            StepView::Perform(action) => session.expects(world.event_of(action)),
            StepView::Respond(_) => true,
        },
{
}

/// A request for a file name that asks for no served format fails as
/// unsupported, and nothing is asked of any service or of storage for it.
pub proof fn law_unsupported_format_touches_nothing(
    config: ConfigView,
    user: int,
    path: Seq<char>,
    world: World,
)
    requires
        format_of_path(path) is None,
    ensures
        serve(config, user, path, world).outcome == Err::<Seq<u8>, ErrorKind>(
            ErrorKind::UnsupportedFormat,
        ),
        serve(config, user, path, world).trace == Seq::<ActionView>::empty(),
        serve(config, user, path, world).world == world,
{
}

/// Where the account service yields the user's descriptor and the render
/// service yields an image for that descriptor in the requested format, the
/// request is answered with exactly that image, whether storage takes the
/// writes or not.
///
/// One case is left out: an image is stored under the requested name,
/// beside the very descriptor that the account service yields, and is not
/// that image. Such a file is served as it is.
pub proof fn law_served_image_is_the_rendering(
    config: ConfigView,
    user: int,
    path: Seq<char>,
    world: World,
    format: Format,
    descriptor: Seq<char>,
    image: Seq<u8>,
)
    requires
        format_of_path(path) == Some(format),
        descriptor_of_reply((world.account)(config.descriptor_url(user))) == Ok::<
            Seq<char>,
            ErrorKind,
        >(descriptor),
        image_of_reply((world.render)(config.render_url(format, descriptor))) == Ok::<
            Seq<u8>,
            ErrorKind,
        >(image),
        world.text_at(config.descriptor_path(user)) == Some(descriptor)
            && world.files.contains_key(config.image_path(user, path))
            ==> world.files[config.image_path(user, path)] == image,
    ensures
        serve(config, user, path, world).outcome == Ok::<Seq<u8>, ErrorKind>(image),
{
    law_requests_follow_the_table(config, user, path, world, format);
}

/// The same request once more, with storage that takes writes and the
/// services answering as before, asks nothing of the render service.
///
/// One case is left out: the first request found no image stored under the
/// requested name, asked the render service, and got none.
pub proof fn law_repeated_request_is_a_cache_hit(
    config: ConfigView,
    user: int,
    path: Seq<char>,
    world: World,
)
    requires
        world.writable,
        !(asks_render(serve(config, user, path, world).trace)
            && serve(config, user, path, world).outcome is Err
            && !world.files.contains_key(config.image_path(user, path))),
    ensures
        !asks_render(serve(config, user, path, serve(config, user, path, world).world).trace),
{
    let first = serve(config, user, path, world);
    let second = serve(config, user, path, first.world);
    match format_of_path(path) {
        None => {},
        Some(format) => {
            law_requests_follow_the_table(config, user, path, world, format);
            law_requests_follow_the_table(config, user, path, first.world, format);
            law_images_lie_apart_from_the_descriptor(config, user, path);
            match descriptor_of_reply((world.account)(config.descriptor_url(user))) {
                Err(_) => {},
                Ok(descriptor) => {
                    encode_utf8_valid_utf8(descriptor);
                    encode_utf8_decode_utf8(descriptor);
                    if first.outcome is Err && !world.files.contains_key(
                        config.image_path(user, path),
                    ) {
                        assert(first.trace[first.trace.len() - 1] is FetchImage);
                    }
                    assert(first.world.text_at(config.descriptor_path(user)) == Some(descriptor));
                    assert(first.world.files.contains_key(config.image_path(user, path)));
                    assert(second.trace.len() == 4);
                },
            }
        },
    }
}

/// Every request is answered after five actions at most, and never with a
/// failure of storage or of the user's name: a session fails only by its
/// upstream services. The first action of every session is to ask the
/// account service: nothing is served on the word of storage alone.
pub proof fn law_every_request_is_answered(
    config: ConfigView,
    user: int,
    path: Seq<char>,
    world: World,
)
    ensures
        serve(config, user, path, world).trace.len() <= 5,
        format_of_path(path) is Some ==> serve(config, user, path, world).trace.len() >= 1
            && serve(config, user, path, world).trace[0] == (ActionView::FetchDescriptor {
            url: config.descriptor_url(user),
        }),
        match serve(config, user, path, world).outcome {
            Ok(_) => format_of_path(path) is Some,
            Err(e) => {
                ||| e == ErrorKind::UnsupportedFormat && format_of_path(path) is None
                ||| e == ErrorKind::UpstreamUnavailable && format_of_path(path) is Some
                ||| e == ErrorKind::UpstreamMalformed && format_of_path(path) is Some
            },
        },
{
    match format_of_path(path) {
        Some(format) => law_requests_follow_the_table(config, user, path, world, format),
        None => {},
    }
}

/// Where the account service yields no descriptor, the request fails with
/// that service's failure after the one call, whatever is stored.
pub proof fn law_account_failure_is_final(
    config: ConfigView,
    user: int,
    path: Seq<char>,
    world: World,
    failure: ErrorKind,
)
    requires
        format_of_path(path) is Some,
        descriptor_of_reply((world.account)(config.descriptor_url(user))) == Err::<
            Seq<char>,
            ErrorKind,
        >(failure),
    ensures
        serve(config, user, path, world).outcome == Err::<Seq<u8>, ErrorKind>(failure),
        serve(config, user, path, world).trace == seq![
            ActionView::FetchDescriptor { url: config.descriptor_url(user) },
        ],
        serve(config, user, path, world).world == world,
{
    match format_of_path(path) {
        Some(format) => law_requests_follow_the_table(config, user, path, world, format),
        None => {},
    }
    assert(serve(config, user, path, world).trace =~= seq![
        ActionView::FetchDescriptor { url: config.descriptor_url(user) },
    ]);
}

/// With the stored descriptor current and the image stored, the stored
/// image is served: the render service is not asked and nothing is written.
pub proof fn law_current_image_is_served_as_stored(
    config: ConfigView,
    user: int,
    path: Seq<char>,
    world: World,
    descriptor: Seq<char>,
)
    requires
        format_of_path(path) is Some,
        descriptor_of_reply((world.account)(config.descriptor_url(user))) == Ok::<
            Seq<char>,
            ErrorKind,
        >(descriptor),
        world.text_at(config.descriptor_path(user)) == Some(descriptor),
        world.files.contains_key(config.image_path(user, path)),
    ensures
        serve(config, user, path, world).outcome == Ok::<Seq<u8>, ErrorKind>(
            world.files[config.image_path(user, path)],
        ),
        serve(config, user, path, world).trace == seq![
            ActionView::FetchDescriptor { url: config.descriptor_url(user) },
            ActionView::ReadDescriptor { path: config.descriptor_path(user) },
            ActionView::ProbeImage { path: config.image_path(user, path) },
            ActionView::ReadImage { path: config.image_path(user, path) },
        ],
        serve(config, user, path, world).world == world,
{
    match format_of_path(path) {
        Some(format) => law_requests_follow_the_table(config, user, path, world, format),
        None => {},
    }
    assert(serve(config, user, path, world).trace =~= seq![
        ActionView::FetchDescriptor { url: config.descriptor_url(user) },
        ActionView::ReadDescriptor { path: config.descriptor_path(user) },
        ActionView::ProbeImage { path: config.image_path(user, path) },
        ActionView::ReadImage { path: config.image_path(user, path) },
    ]);
}

/// With the stored descriptor current and no image stored, the image is
/// rendered and stored; the descriptor is left as it is.
pub proof fn law_missing_image_is_rendered(
    config: ConfigView,
    user: int,
    path: Seq<char>,
    world: World,
    format: Format,
    descriptor: Seq<char>,
    image: Seq<u8>,
)
    requires
        format_of_path(path) == Some(format),
        descriptor_of_reply((world.account)(config.descriptor_url(user))) == Ok::<
            Seq<char>,
            ErrorKind,
        >(descriptor),
        image_of_reply((world.render)(config.render_url(format, descriptor))) == Ok::<
            Seq<u8>,
            ErrorKind,
        >(image),
        world.text_at(config.descriptor_path(user)) == Some(descriptor),
        !world.files.contains_key(config.image_path(user, path)),
    ensures
        serve(config, user, path, world).outcome == Ok::<Seq<u8>, ErrorKind>(image),
        serve(config, user, path, world).trace == seq![
            ActionView::FetchDescriptor { url: config.descriptor_url(user) },
            ActionView::ReadDescriptor { path: config.descriptor_path(user) },
            ActionView::ProbeImage { path: config.image_path(user, path) },
            ActionView::FetchImage { url: config.render_url(format, descriptor) },
            ActionView::WriteImage { path: config.image_path(user, path), bytes: image },
        ],
        serve(config, user, path, world).world == world.write(
            config.image_path(user, path),
            image,
        ),
{
    law_requests_follow_the_table(config, user, path, world, format);
    assert(serve(config, user, path, world).trace =~= seq![
        ActionView::FetchDescriptor { url: config.descriptor_url(user) },
        ActionView::ReadDescriptor { path: config.descriptor_path(user) },
        ActionView::ProbeImage { path: config.image_path(user, path) },
        ActionView::FetchImage { url: config.render_url(format, descriptor) },
        ActionView::WriteImage { path: config.image_path(user, path), bytes: image },
    ]);
}

/// With any other descriptor stored than the fetched one, with one that
/// does not read as text, or with none, the fetched descriptor is stored,
/// in a directory made for the user if there is none, and the image is
/// rendered and stored, whether one was stored or not. Nothing else on
/// storage changes: images under other names stay.
pub proof fn law_stale_descriptor_is_replaced(
    config: ConfigView,
    user: int,
    path: Seq<char>,
    world: World,
    format: Format,
    descriptor: Seq<char>,
    image: Seq<u8>,
)
    requires
        format_of_path(path) == Some(format),
        descriptor_of_reply((world.account)(config.descriptor_url(user))) == Ok::<
            Seq<char>,
            ErrorKind,
        >(descriptor),
        image_of_reply((world.render)(config.render_url(format, descriptor))) == Ok::<
            Seq<u8>,
            ErrorKind,
        >(image),
        world.text_at(config.descriptor_path(user)) != Some(descriptor),
    ensures
        serve(config, user, path, world).outcome == Ok::<Seq<u8>, ErrorKind>(image),
        serve(config, user, path, world).trace == seq![
            ActionView::FetchDescriptor { url: config.descriptor_url(user) },
            ActionView::ReadDescriptor { path: config.descriptor_path(user) },
            ActionView::WriteDescriptor {
                dir: config.partition_dir(user),
                path: config.descriptor_path(user),
                descriptor,
            },
            ActionView::FetchImage { url: config.render_url(format, descriptor) },
            ActionView::WriteImage { path: config.image_path(user, path), bytes: image },
        ],
        serve(config, user, path, world).world == world.make_dir(
            config.partition_dir(user),
        ).write(config.descriptor_path(user), encode_utf8(descriptor)).write(
            config.image_path(user, path),
            image,
        ),
{
    law_requests_follow_the_table(config, user, path, world, format);
    assert(serve(config, user, path, world).trace =~= seq![
        ActionView::FetchDescriptor { url: config.descriptor_url(user) },
        ActionView::ReadDescriptor { path: config.descriptor_path(user) },
        ActionView::WriteDescriptor {
            dir: config.partition_dir(user),
            path: config.descriptor_path(user),
            descriptor,
        },
        ActionView::FetchImage { url: config.render_url(format, descriptor) },
        ActionView::WriteImage { path: config.image_path(user, path), bytes: image },
    ]);
}

/// Where the render service yields no image, the request fails as
/// unavailable. What was written before stays written: nothing is undone.
pub proof fn law_render_failure_fails_the_request(
    config: ConfigView,
    user: int,
    path: Seq<char>,
    world: World,
    format: Format,
    descriptor: Seq<char>,
)
    requires
        format_of_path(path) == Some(format),
        descriptor_of_reply((world.account)(config.descriptor_url(user))) == Ok::<
            Seq<char>,
            ErrorKind,
        >(descriptor),
        image_of_reply((world.render)(config.render_url(format, descriptor))) is Err,
        !(world.text_at(config.descriptor_path(user)) == Some(descriptor)
            && world.files.contains_key(config.image_path(user, path))),
    ensures
        serve(config, user, path, world).outcome == Err::<Seq<u8>, ErrorKind>(
            ErrorKind::UpstreamUnavailable,
        ),
        serve(config, user, path, world).world == if world.text_at(
            config.descriptor_path(user),
        ) == Some(descriptor) {
            world
        } else {
            world.make_dir(config.partition_dir(user)).write(
                config.descriptor_path(user),
                encode_utf8(descriptor),
            )
        },
{
    law_requests_follow_the_table(config, user, path, world, format);
}

/// Whether `trace` holds a write to storage.
pub open spec fn asks_write(trace: Seq<ActionView>) -> bool {
    exists|i: int|
        0 <= i < trace.len() && (#[trigger] trace[i] is WriteDescriptor || trace[i] is WriteImage)
}

/// Whether storage takes writes changes neither the answer to a request
/// nor what is asked on the way. Refused writes leave storage as it was.
pub proof fn law_refused_writes_change_no_answer(
    config: ConfigView,
    user: int,
    path: Seq<char>,
    world: World,
)
    ensures
        ({
            let taken = serve(config, user, path, World { writable: true, ..world });
            let refused = serve(config, user, path, World { writable: false, ..world });
            &&& refused.outcome == taken.outcome
            &&& refused.trace == taken.trace
            &&& refused.world.files == world.files
            &&& refused.world.dirs == world.dirs
        }),
{
    let taken = serve(config, user, path, World { writable: true, ..world });
    let refused = serve(config, user, path, World { writable: false, ..world });
    match format_of_path(path) {
        Some(format) => {
            law_requests_follow_the_table(
                config,
                user,
                path,
                World { writable: true, ..world },
                format,
            );
            law_requests_follow_the_table(
                config,
                user,
                path,
                World { writable: false, ..world },
                format,
            );
            assert(refused.trace =~= taken.trace);
        },
        None => {},
    }
}

/// A request notes storage trouble exactly where it asked for a write and
/// storage takes none.
pub proof fn law_refused_writes_are_noted(
    config: ConfigView,
    user: int,
    path: Seq<char>,
    world: World,
)
    ensures
        serve(config, user, path, world).degraded <==> !world.writable && asks_write(
            serve(config, user, path, world).trace,
        ),
{
    let served = serve(config, user, path, world);
    match format_of_path(path) {
        None => {},
        Some(format) => {
            law_requests_follow_the_table(config, user, path, world, format);
            if served.degraded {
                if served.trace.len() > 2 && served.trace[2] is WriteDescriptor {
                } else {
                    assert(served.trace[served.trace.len() - 1] is WriteImage);
                }
            }
        },
    }
}

} // verus!
