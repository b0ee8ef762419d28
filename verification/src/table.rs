//! The decision table: what a request comes to, told from what it finds.
//!
//! [`by_the_table`] says in one piece what the session of a request does
//! step by step, and [`law_requests_follow_the_table`] proves that the two
//! agree.

use crate::coordinator::{opening, ActionView, PhaseView, SessionView};
use crate::error::ErrorKind;
use crate::format::{format_of_path, Format};
use crate::locate::ConfigView;
use crate::upstream::{descriptor_of_reply, image_of_reply};
use crate::world::{drive, serve, Served, World};
use vstd::prelude::*;
use vstd::utf8::encode_utf8;

verus! {

/// Fetch and write the image: the render service is asked for the image of
/// `descriptor`. What it yields is written under the requested name and
/// served as it came. Where it yields nothing the request fails, and what
/// was written before stays.
pub open spec fn rendered(
    config: ConfigView,
    user: int,
    file: Seq<char>,
    format: Format,
    descriptor: Seq<char>,
    world: World,
    trace: Seq<ActionView>,
    degraded: bool,
) -> Served {
    let ask = ActionView::FetchImage { url: config.render_url(format, descriptor) };
    match image_of_reply((world.render)(config.render_url(format, descriptor))) {
        Ok(image) => Served {
            outcome: Ok(image),
            world: world.write(config.image_path(user, file), image),
            trace: trace.push(ask).push(
                ActionView::WriteImage { path: config.image_path(user, file), bytes: image },
            ),
            degraded: degraded || !world.writable,
        },
        Err(e) => Served { outcome: Err(e), world, trace: trace.push(ask), degraded },
    }
}

/// What a request of `user` for `file` in `format` comes to in `world`.
///
/// The account service is asked first, and its failure is the request's.
/// Then, by the descriptor that is stored for the user:
///
/// | stored descriptor | image stored | what is done |
/// |---|---|---|
/// | the fetched one | yes | the stored image is served |
/// | the fetched one | no | fetch and write the image |
/// | another, none, or none that reads as text | yes or no | the fetched descriptor is written, in a directory made for the user if there is none; fetch and write the image |
pub open spec fn by_the_table(
    config: ConfigView,
    user: int,
    file: Seq<char>,
    format: Format,
    world: World,
) -> Served {
    let descriptor_path = config.descriptor_path(user);
    let image_path = config.image_path(user, file);
    let asked = Seq::<ActionView>::empty().push(
        ActionView::FetchDescriptor { url: config.descriptor_url(user) },
    );
    match descriptor_of_reply((world.account)(config.descriptor_url(user))) {
        Err(e) => Served { outcome: Err(e), world, trace: asked, degraded: false },
        Ok(fetched) => {
            let read = asked.push(ActionView::ReadDescriptor { path: descriptor_path });
            if world.text_at(descriptor_path) != Some(fetched) {
                rendered(
                    config,
                    user,
                    file,
                    format,
                    fetched,
                    world.make_dir(config.partition_dir(user)).write(
                        descriptor_path,
                        encode_utf8(fetched),
                    ),
                    read.push(
                        ActionView::WriteDescriptor {
                            dir: config.partition_dir(user),
                            path: descriptor_path,
                            descriptor: fetched,
                        },
                    ),
                    !world.writable,
                )
            } else if world.files.contains_key(image_path) {
                Served {
                    outcome: Ok(world.files[image_path]),
                    world,
                    trace: read.push(ActionView::ProbeImage { path: image_path }).push(
                        ActionView::ReadImage { path: image_path },
                    ),
                    degraded: false,
                }
            } else {
                rendered(
                    config,
                    user,
                    file,
                    format,
                    fetched,
                    world,
                    read.push(ActionView::ProbeImage { path: image_path }),
                    false,
                )
            }
        },
    }
}

/// A session that waits for the image to be written ends with that image.
proof fn lemma_from_writing_image(
    session: SessionView,
    world: World,
    trace: Seq<ActionView>,
    bytes: Seq<u8>,
)
    requires
        session.phase == (PhaseView::WritingImage { bytes }),
    ensures
        drive(session, world, trace) == (Served {
            outcome: Ok(bytes),
            world: world.write(session.config.image_path(session.user, session.file), bytes),
            trace: trace.push(
                ActionView::WriteImage {
                    path: session.config.image_path(session.user, session.file),
                    bytes,
                },
            ),
            degraded: session.degraded || !world.writable,
        }),
{
    reveal_with_fuel(drive, 2);
}

/// A session that waits for the render service goes on as [`rendered`] says.
proof fn lemma_from_fetching_image(
    session: SessionView,
    world: World,
    trace: Seq<ActionView>,
    descriptor: Seq<char>,
)
    requires
        session.phase == (PhaseView::FetchingImage { descriptor }),
    ensures
        drive(session, world, trace) == rendered(
            session.config,
            session.user,
            session.file,
            session.format,
            descriptor,
            world,
            trace,
            session.degraded,
        ),
{
    reveal_with_fuel(drive, 2);
    let ask = ActionView::FetchImage {
        url: session.config.render_url(session.format, descriptor),
    };
    match image_of_reply((world.render)(session.config.render_url(session.format, descriptor))) {
        Ok(bytes) => {
            lemma_from_writing_image(
                session.advance(world.event_of(ask)),
                world,
                trace.push(ask),
                bytes,
            );
        },
        Err(_) => {},
    }
}

/// A session that waits for the descriptor to be written goes on to render.
proof fn lemma_from_writing_descriptor(
    session: SessionView,
    world: World,
    trace: Seq<ActionView>,
    fetched: Seq<char>,
)
    requires
        session.phase == (PhaseView::WritingDescriptor { fetched }),
    ensures
        drive(session, world, trace) == rendered(
            session.config,
            session.user,
            session.file,
            session.format,
            fetched,
            world.make_dir(session.config.partition_dir(session.user)).write(
                session.config.descriptor_path(session.user),
                encode_utf8(fetched),
            ),
            trace.push(
                ActionView::WriteDescriptor {
                    dir: session.config.partition_dir(session.user),
                    path: session.config.descriptor_path(session.user),
                    descriptor: fetched,
                },
            ),
            session.degraded || !world.writable,
        ),
{
    reveal_with_fuel(drive, 1);
    let store = ActionView::WriteDescriptor {
        dir: session.config.partition_dir(session.user),
        path: session.config.descriptor_path(session.user),
        descriptor: fetched,
    };
    lemma_from_fetching_image(
        session.advance(world.event_of(store)),
        world.after(store),
        trace.push(store),
        fetched,
    );
}

/// A session that waits to learn of the image serves the stored one, or
/// goes on to render.
proof fn lemma_from_probing_image(
    session: SessionView,
    world: World,
    trace: Seq<ActionView>,
    fetched: Seq<char>,
)
    requires
        session.phase == (PhaseView::ProbingImage { fetched }),
    ensures
        drive(session, world, trace) == if world.files.contains_key(
            session.config.image_path(session.user, session.file),
        ) {
            Served {
                outcome: Ok(world.files[session.config.image_path(session.user, session.file)]),
                world,
                trace: trace.push(
                    ActionView::ProbeImage {
                        path: session.config.image_path(session.user, session.file),
                    },
                ).push(
                    ActionView::ReadImage {
                        path: session.config.image_path(session.user, session.file),
                    },
                ),
                degraded: session.degraded,
            }
        } else {
            rendered(
                session.config,
                session.user,
                session.file,
                session.format,
                fetched,
                world,
                trace.push(
                    ActionView::ProbeImage {
                        path: session.config.image_path(session.user, session.file),
                    },
                ),
                session.degraded,
            )
        },
{
    reveal_with_fuel(drive, 3);
    let probe = ActionView::ProbeImage {
        path: session.config.image_path(session.user, session.file),
    };
    if !world.files.contains_key(session.config.image_path(session.user, session.file)) {
        lemma_from_fetching_image(
            session.advance(world.event_of(probe)),
            world,
            trace.push(probe),
            fetched,
        );
    }
}

/// A request for a file name that asks for a served format comes to what
/// the table says.
pub proof fn law_requests_follow_the_table(
    config: ConfigView,
    user: int,
    path: Seq<char>,
    world: World,
    format: Format,
)
    requires
        format_of_path(path) == Some(format),
    ensures
        serve(config, user, path, world) == by_the_table(config, user, path, format, world),
{
    reveal_with_fuel(drive, 2);
    let start = SessionView::start(config, user, path, format);
    assert(opening(config, user, path) == Ok::<SessionView, ErrorKind>(start));
    let fetch = ActionView::FetchDescriptor { url: config.descriptor_url(user) };
    let read = ActionView::ReadDescriptor { path: config.descriptor_path(user) };
    let asked = Seq::<ActionView>::empty().push(fetch);
    match descriptor_of_reply((world.account)(config.descriptor_url(user))) {
        Err(_) => {},
        Ok(fetched) => {
            let reading = start.advance(world.event_of(fetch));
            let decided = reading.advance(world.event_of(read));
            if world.text_at(config.descriptor_path(user)) != Some(fetched) {
                lemma_from_writing_descriptor(decided, world, asked.push(read), fetched);
            } else {
                lemma_from_probing_image(decided, world, asked.push(read), fetched);
            }
        },
    }
}

} // verus!
