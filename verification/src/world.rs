//! A model of what surrounds a session, to state what sessions achieve.
//!
//! The model is mathematical only: the two upstream services as functions
//! from an address to a reply, and local storage as a set of directories
//! and a map from a path to a file's bytes. A session is run against it by answering each pending
//! action as such surroundings would.

use crate::coordinator::{opening, ActionView, EventView, SessionView, StepView};
use crate::error::ErrorKind;
use crate::locate::ConfigView;
use crate::upstream::HttpReplyView;
use vstd::prelude::*;
use vstd::utf8::{decode_utf8, encode_utf8, valid_utf8};

verus! {

/// The surroundings of a session.
pub struct World {
    /// What the account service replies to a call of an address.
    pub account: spec_fn(Seq<char>) -> HttpReplyView,
    /// What the render service replies to a call of an address.
    pub render: spec_fn(Seq<char>) -> HttpReplyView,
    /// The directories on local storage.
    pub dirs: Set<Seq<char>>,
    /// The files on local storage, each with its bytes.
    pub files: Map<Seq<char>, Seq<u8>>,
    /// Whether local storage takes writes.
    pub writable: bool,
}

/// What a request came to.
pub struct Served {
    /// The answer to the request.
    pub outcome: Result<Seq<u8>, ErrorKind>,
    /// The surroundings as the request left them.
    pub world: World,
    /// The actions that were carried out, in order.
    pub trace: Seq<ActionView>,
    /// Whether storage trouble was noted on the way.
    pub degraded: bool,
}

impl World {
    /// The text of the file at `path`; `None` where there is no such file
    /// or it does not hold text.
    pub open spec fn text_at(self, path: Seq<char>) -> Option<Seq<char>> {
        if self.files.contains_key(path) && valid_utf8(self.files[path]) {
            Some(decode_utf8(self.files[path]))
        } else {
            None
        }
    }

    /// The surroundings after an attempt to write `bytes` to `path`.
    pub open spec fn write(self, path: Seq<char>, bytes: Seq<u8>) -> World {
        if self.writable {
            World { files: self.files.insert(path, bytes), ..self }
        } else {
            self
        }
    }

    /// The surroundings after an attempt to make the directory `dir`,
    /// which is no change where the directory is there.
    pub open spec fn make_dir(self, dir: Seq<char>) -> World {
        if self.writable {
            World { dirs: self.dirs.insert(dir), ..self }
        } else {
            self
        }
    }

    /// The surroundings after `action` was carried out.
    pub open spec fn after(self, action: ActionView) -> World {
        match action {
            ActionView::WriteDescriptor { dir, path, descriptor } => self.make_dir(dir).write(
                path,
                encode_utf8(descriptor),
            ),
            ActionView::WriteImage { path, bytes } => self.write(path, bytes),
            _ => self,
        }
    }

    /// What comes of carrying out `action`.
    pub open spec fn event_of(self, action: ActionView) -> EventView {
        match action {
            ActionView::FetchDescriptor { url } => EventView::DescriptorFetched(
                (self.account)(url),
            ),
            ActionView::ReadDescriptor { path } => EventView::DescriptorRead(self.text_at(path)),
            ActionView::WriteDescriptor { .. } => EventView::DescriptorWritten {
                persisted: self.writable,
            },
            ActionView::ProbeImage { path } => EventView::ImageProbed {
                exists: self.files.contains_key(path),
            },
            ActionView::ReadImage { path } => EventView::ImageRead(
                if self.files.contains_key(path) {
                    Some(self.files[path])
                } else {
                    None
                },
            ),
            ActionView::FetchImage { url } => EventView::ImageFetched((self.render)(url)),
            ActionView::WriteImage { .. } => EventView::ImageWritten { persisted: self.writable },
        }
    }
}

/// Runs `session` in `world` to its end, after the actions of `trace`: each
/// action the session asks for is carried out and reported back.
pub open spec fn drive(session: SessionView, world: World, trace: Seq<ActionView>) -> Served
    decreases session.rank(),
{
    match session.pending() {
        StepView::Perform(action) => drive(
            session.advance(world.event_of(action)),
            world.after(action),
            trace.push(action),
        ),
        StepView::Respond(outcome) => Served {
            outcome,
            world,
            trace,
            degraded: session.degraded,
        },
    }
}

/// What a request of `user` for `path` comes to in `world`.
pub open spec fn serve(config: ConfigView, user: int, path: Seq<char>, world: World) -> Served {
    match opening(config, user, path) {
        Ok(session) => drive(session, world, Seq::empty()),
        Err(e) => Served { outcome: Err(e), world, trace: Seq::empty(), degraded: false },
    }
}

} // verus!
