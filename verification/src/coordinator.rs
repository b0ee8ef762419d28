//! The decision procedure that serves one request.
//!
//! A request runs as a [`Session`]: the session names the one thing that has
//! to happen next, its pending [`Action`]; whoever drives the session
//! carries the action out and reports what came of it as an [`Event`], which
//! moves the session on. A session ends when it asks for the request to be
//! answered, [`Step::Respond`]. The session keeps nothing between requests:
//! what one request leaves to the next lies on local storage.

use crate::error::ErrorKind;
use crate::format::{format_of_path, Format};
use crate::locate::{Config, ConfigView};
use crate::upstream::{
    content, descriptor_of_reply, image_of_reply, read_descriptor, read_image, HttpReply,
    HttpReplyView,
};
use crate::user::{user_of_text, UserId};
use vstd::prelude::*;
use vstd::string::StringExecFns;

verus! {

/// The one thing a session waits for.
#[derive(Debug, PartialEq, Eq)]
pub enum Action {
    /// Ask the account service for the user's current descriptor.
    FetchDescriptor { url: String },
    /// Read the descriptor that is stored for the user, as text.
    ReadDescriptor { path: String },
    /// Store the descriptor for the user; make the user's directory first
    /// if it is not there.
    WriteDescriptor { dir: String, path: String, descriptor: String },
    /// Find out whether the image is stored as a file.
    ProbeImage { path: String },
    /// Read the stored image.
    ReadImage { path: String },
    /// Ask the render service for the image.
    FetchImage { url: String },
    /// Store the image.
    WriteImage { path: String, bytes: bytes::Bytes },
}

/// What a session asks of its driver.
#[derive(Debug, PartialEq, Eq)]
pub enum Step {
    /// Carry out the action and report what came of it.
    Perform(Action),
    /// The session has ended: answer the request, with the image or with
    /// the failure.
    Respond(Result<bytes::Bytes, ErrorKind>),
}

/// What came of an action.
#[derive(Debug, PartialEq, Eq)]
pub enum Event {
    /// The account service's reply.
    DescriptorFetched(HttpReply),
    /// The stored descriptor; `None` where there is none, or none that
    /// reads as text.
    DescriptorRead(Option<String>),
    /// The descriptor was written, or storage refused.
    DescriptorWritten { persisted: bool },
    /// Whether the image is stored.
    ImageProbed { exists: bool },
    /// The stored image; `None` where storage did not yield it.
    ImageRead(Option<bytes::Bytes>),
    /// The render service's reply.
    ImageFetched(HttpReply),
    /// The image was written, or storage refused.
    ImageWritten { persisted: bool },
}

/// How far a session has come.
#[derive(Debug, PartialEq, Eq)]
enum Phase {
    FetchingDescriptor,
    ReadingDescriptor { fetched: String },
    WritingDescriptor { fetched: String },
    ProbingImage { fetched: String },
    ReadingImage { fetched: String },
    FetchingImage { descriptor: String },
    WritingImage { bytes: bytes::Bytes },
    Finished { result: Result<bytes::Bytes, ErrorKind> },
}

/// One request on its way.
#[derive(Debug, PartialEq, Eq)]
pub struct Session<'a> {
    config: &'a Config,
    user: UserId,
    file: String,
    format: Format,
    phase: Phase,
    degraded: bool,
}

/// Serves requests in given surroundings.
#[derive(Debug, PartialEq, Eq)]
pub struct Coordinator {
    config: Config,
}

/// An [`Action`] as a mathematical value.
pub enum ActionView {
    FetchDescriptor { url: Seq<char> },
    ReadDescriptor { path: Seq<char> },
    WriteDescriptor { dir: Seq<char>, path: Seq<char>, descriptor: Seq<char> },
    ProbeImage { path: Seq<char> },
    ReadImage { path: Seq<char> },
    FetchImage { url: Seq<char> },
    WriteImage { path: Seq<char>, bytes: Seq<u8> },
}

/// A [`Step`] as a mathematical value.
pub enum StepView {
    Perform(ActionView),
    Respond(Result<Seq<u8>, ErrorKind>),
}

/// An [`Event`] as a mathematical value.
pub enum EventView {
    DescriptorFetched(HttpReplyView),
    DescriptorRead(Option<Seq<char>>),
    DescriptorWritten { persisted: bool },
    ImageProbed { exists: bool },
    ImageRead(Option<Seq<u8>>),
    ImageFetched(HttpReplyView),
    ImageWritten { persisted: bool },
}

/// How far a session has come, as a mathematical value.
pub enum PhaseView {
    /// Waiting for the account service.
    FetchingDescriptor,
    /// Waiting for the stored descriptor, to hold it against the fetched one.
    ReadingDescriptor { fetched: Seq<char> },
    /// Waiting for the fetched descriptor to be stored.
    WritingDescriptor { fetched: Seq<char> },
    /// The stored descriptor is current; waiting to learn of the image.
    ProbingImage { fetched: Seq<char> },
    /// Waiting for the stored image.
    ReadingImage { fetched: Seq<char> },
    /// Waiting for the render service.
    FetchingImage { descriptor: Seq<char> },
    /// Waiting for the rendered image to be stored.
    WritingImage { bytes: Seq<u8> },
    /// Done.
    Finished { result: Result<Seq<u8>, ErrorKind> },
}

/// A [`Session`] as a mathematical value.
pub struct SessionView {
    pub config: ConfigView,
    pub user: int,
    pub file: Seq<char>,
    pub format: Format,
    pub phase: PhaseView,
    pub degraded: bool,
}

/// A buffer or a failure, the buffer taken by its bytes.
pub open spec fn outcome_view(result: Result<bytes::Bytes, ErrorKind>) -> Result<Seq<u8>, ErrorKind> {
    match result {
        Ok(bytes) => Ok(content(bytes)),
        Err(e) => Err(e),
    }
}

impl View for Action {
    type V = ActionView;

    open spec fn view(&self) -> ActionView {
        match *self {
            Action::FetchDescriptor { url } => ActionView::FetchDescriptor { url: url@ },
            Action::ReadDescriptor { path } => ActionView::ReadDescriptor { path: path@ },
            Action::WriteDescriptor { dir, path, descriptor } => ActionView::WriteDescriptor {
                dir: dir@,
                path: path@,
                descriptor: descriptor@,
            },
            Action::ProbeImage { path } => ActionView::ProbeImage { path: path@ },
            Action::ReadImage { path } => ActionView::ReadImage { path: path@ },
            Action::FetchImage { url } => ActionView::FetchImage { url: url@ },
            Action::WriteImage { path, bytes } => ActionView::WriteImage {
                path: path@,
                bytes: content(bytes),
            },
        }
    }
}

impl View for Step {
    type V = StepView;

    open spec fn view(&self) -> StepView {
        match *self {
            Step::Perform(action) => StepView::Perform(action@),
            Step::Respond(result) => StepView::Respond(outcome_view(result)),
        }
    }
}

impl View for Event {
    type V = EventView;

    open spec fn view(&self) -> EventView {
        match *self {
            Event::DescriptorFetched(reply) => EventView::DescriptorFetched(reply@),
            Event::DescriptorRead(stored) => EventView::DescriptorRead(
                match stored {
                    Some(text) => Some(text@),
                    None => None,
                },
            ),
            Event::DescriptorWritten { persisted } => EventView::DescriptorWritten { persisted },
            Event::ImageProbed { exists } => EventView::ImageProbed { exists },
            Event::ImageRead(stored) => EventView::ImageRead(
                match stored {
                    Some(bytes) => Some(content(bytes)),
                    None => None,
                },
            ),
            Event::ImageFetched(reply) => EventView::ImageFetched(reply@),
            Event::ImageWritten { persisted } => EventView::ImageWritten { persisted },
        }
    }
}

impl View for Phase {
    type V = PhaseView;

    closed spec fn view(&self) -> PhaseView {
        match *self {
            Phase::FetchingDescriptor => PhaseView::FetchingDescriptor,
            Phase::ReadingDescriptor { fetched } => PhaseView::ReadingDescriptor {
                fetched: fetched@,
            },
            Phase::WritingDescriptor { fetched } => PhaseView::WritingDescriptor {
                fetched: fetched@,
            },
            Phase::ProbingImage { fetched } => PhaseView::ProbingImage { fetched: fetched@ },
            Phase::ReadingImage { fetched } => PhaseView::ReadingImage { fetched: fetched@ },
            Phase::FetchingImage { descriptor } => PhaseView::FetchingImage {
                descriptor: descriptor@,
            },
            Phase::WritingImage { bytes } => PhaseView::WritingImage { bytes: content(bytes) },
            Phase::Finished { result } => PhaseView::Finished { result: outcome_view(result) },
        }
    }
}

impl<'a> View for Session<'a> {
    type V = SessionView;

    closed spec fn view(&self) -> SessionView {
        SessionView {
            config: self.config@,
            user: self.user@,
            file: self.file@,
            format: self.format,
            phase: self.phase@,
            degraded: self.degraded,
        }
    }
}

impl View for Coordinator {
    type V = ConfigView;

    closed spec fn view(&self) -> ConfigView {
        self.config@
    }
}

impl SessionView {
    /// The session in which a request starts: nothing is known yet, and the
    /// account service is asked first.
    pub open spec fn start(config: ConfigView, user: int, file: Seq<char>, format: Format) -> SessionView {
        SessionView {
            config,
            user,
            file,
            format,
            phase: PhaseView::FetchingDescriptor,
            degraded: false,
        }
    }

    /// The same session in another phase.
    pub open spec fn at(self, phase: PhaseView) -> SessionView {
        SessionView { phase, ..self }
    }

    /// The same session after an access that storage took or refused.
    pub open spec fn noting(self, persisted: bool) -> SessionView {
        SessionView { degraded: self.degraded || !persisted, ..self }
    }

    /// What the session asks of its driver next.
    pub open spec fn pending(self) -> StepView {
        match self.phase {
            PhaseView::FetchingDescriptor => StepView::Perform(
                ActionView::FetchDescriptor { url: self.config.descriptor_url(self.user) },
            ),
            PhaseView::ReadingDescriptor { .. } => StepView::Perform(
                ActionView::ReadDescriptor { path: self.config.descriptor_path(self.user) },
            ),
            PhaseView::WritingDescriptor { fetched } => StepView::Perform(
                ActionView::WriteDescriptor {
                    dir: self.config.partition_dir(self.user),
                    path: self.config.descriptor_path(self.user),
                    descriptor: fetched,
                },
            ),
            PhaseView::ProbingImage { .. } => StepView::Perform(
                ActionView::ProbeImage { path: self.config.image_path(self.user, self.file) },
            ),
            PhaseView::ReadingImage { .. } => StepView::Perform(
                ActionView::ReadImage { path: self.config.image_path(self.user, self.file) },
            ),
            PhaseView::FetchingImage { descriptor } => StepView::Perform(
                ActionView::FetchImage { url: self.config.render_url(self.format, descriptor) },
            ),
            PhaseView::WritingImage { bytes } => StepView::Perform(
                ActionView::WriteImage {
                    path: self.config.image_path(self.user, self.file),
                    bytes,
                },
            ),
            PhaseView::Finished { result } => StepView::Respond(result),
        }
    }

    /// An upper bound on the actions that the session still asks for.
    pub open spec fn rank(self) -> nat {
        match self.phase {
            PhaseView::FetchingDescriptor => 6,
            PhaseView::ReadingDescriptor { .. } => 5,
            PhaseView::ProbingImage { .. } => 4,
            PhaseView::ReadingImage { .. } => 3,
            PhaseView::WritingDescriptor { .. } => 3,
            PhaseView::FetchingImage { .. } => 2,
            PhaseView::WritingImage { .. } => 1,
            PhaseView::Finished { .. } => 0,
        }
    }

    /// Whether `event` reports on the action that the session waits for.
    pub open spec fn expects(self, event: EventView) -> bool {
        match (self.phase, event) {
            (PhaseView::FetchingDescriptor, EventView::DescriptorFetched(_)) => true,
            (PhaseView::ReadingDescriptor { .. }, EventView::DescriptorRead(_)) => true,
            (PhaseView::WritingDescriptor { .. }, EventView::DescriptorWritten { .. }) => true,
            (PhaseView::ProbingImage { .. }, EventView::ImageProbed { .. }) => true,
            (PhaseView::ReadingImage { .. }, EventView::ImageRead(_)) => true,
            (PhaseView::FetchingImage { .. }, EventView::ImageFetched(_)) => true,
            (PhaseView::WritingImage { .. }, EventView::ImageWritten { .. }) => true,
            _ => false,
        }
    }

    /// The session after an event.
    ///
    /// The account service is always asked, and its failure ends the
    /// request. The stored descriptor is current if it is the fetched one;
    /// any other, or none, is replaced by the fetched one, and the image is
    /// rendered anew. With a current descriptor the stored image is served
    /// if there is one that storage yields, and rendered if not. A rendered
    /// image is stored and then served as it came; the render service's
    /// failure ends the request. Whether storage took a write changes
    /// nothing but the note of it. An event that does not report on the
    /// pending action is ignored.
    pub open spec fn advance(self, event: EventView) -> SessionView {
        match (self.phase, event) {
            (PhaseView::FetchingDescriptor, EventView::DescriptorFetched(reply)) => {
                match descriptor_of_reply(reply) {
                    Ok(fetched) => self.at(PhaseView::ReadingDescriptor { fetched }),
                    Err(e) => self.at(PhaseView::Finished { result: Err(e) }),
                }
            },
            (PhaseView::ReadingDescriptor { fetched }, EventView::DescriptorRead(stored)) => {
                if stored == Some(fetched) {
                    self.at(PhaseView::ProbingImage { fetched })
                } else {
                    self.at(PhaseView::WritingDescriptor { fetched })
                }
            },
            (
                PhaseView::WritingDescriptor { fetched },
                EventView::DescriptorWritten { persisted },
            ) => self.noting(persisted).at(PhaseView::FetchingImage { descriptor: fetched }),
            (PhaseView::ProbingImage { fetched }, EventView::ImageProbed { exists }) => {
                if exists {
                    self.at(PhaseView::ReadingImage { fetched })
                } else {
                    self.at(PhaseView::FetchingImage { descriptor: fetched })
                }
            },
            (PhaseView::ReadingImage { fetched }, EventView::ImageRead(stored)) => {
                match stored {
                    Some(bytes) => self.at(PhaseView::Finished { result: Ok(bytes) }),
                    None => self.noting(false).at(
                        PhaseView::FetchingImage { descriptor: fetched },
                    ),
                }
            },
            (PhaseView::FetchingImage { .. }, EventView::ImageFetched(reply)) => {
                match image_of_reply(reply) {
                    Ok(bytes) => self.at(PhaseView::WritingImage { bytes }),
                    Err(e) => self.at(PhaseView::Finished { result: Err(e) }),
                }
            },
            (PhaseView::WritingImage { bytes }, EventView::ImageWritten { persisted }) => {
                self.noting(persisted).at(PhaseView::Finished { result: Ok(bytes) })
            },
            _ => self,
        }
    }
}

/// The session that a request for `path` opens, or the refusal of the
/// request where `path` asks for no served format.
pub open spec fn opening(config: ConfigView, user: int, path: Seq<char>) -> Result<
    SessionView,
    ErrorKind,
> {
    match format_of_path(path) {
        Some(format) => Ok(SessionView::start(config, user, path, format)),
        None => Err(ErrorKind::UnsupportedFormat),
    }
}

/// The session that a request of `user` for `path` opens, both as they
/// were received. A request that names no user is refused as such, whatever
/// it asks for.
pub open spec fn reception(config: ConfigView, user: Seq<char>, path: Seq<char>) -> Result<
    SessionView,
    ErrorKind,
> {
    match user_of_text(user) {
        Some(id) => opening(config, id, path),
        None => Err(ErrorKind::InvalidUserId),
    }
}

/// Whether `r` is the session or refusal `expected`.
pub open spec fn same_opening(r: Result<Session<'_>, ErrorKind>, expected: Result<SessionView, ErrorKind>) -> bool {
    match (r, expected) {
        (Ok(a), Ok(b)) => a@ == b,
        (Err(a), Err(b)) => a == b,
        _ => false,
    }
}

impl Coordinator {
    /// A coordinator in the given surroundings.
    pub fn new(config: Config) -> (r: Coordinator)
        ensures
            r@ == config@,
    {
        Coordinator { config }
    }

    /// The coordinator's surroundings.
    pub fn config(&self) -> (r: &Config)
        ensures
            r@ == self@,
    {
        &self.config
    }

    /// Opens the session for a user's request for `path`.
    ///
    /// A path that asks for no served format is refused here, before
    /// anything is fetched, read or written: no session comes to be.
    pub fn begin<'a>(&'a self, user: UserId, path: &str) -> (r: Result<Session<'a>, ErrorKind>)
        ensures
            same_opening(r, opening(self@, user@, path@)),
            format_of_path(path@) is None ==> r == Err::<Session<'a>, ErrorKind>(
                ErrorKind::UnsupportedFormat,
            ),
    {
        match Format::from_path(path) {
            Ok(format) => Ok(
                Session {
                    config: &self.config,
                    user,
                    file: String::from_str(path),
                    format,
                    phase: Phase::FetchingDescriptor,
                    degraded: false,
                },
            ),
            Err(e) => Err(e),
        }
    }

    /// Opens the session for a request whose user is still text.
    pub fn receive<'a>(&'a self, user: &str, path: &str) -> (r: Result<Session<'a>, ErrorKind>)
        ensures
            same_opening(r, reception(self@, user@, path@)),
    {
        match UserId::parse(user) {
            Ok(id) => self.begin(id, path),
            Err(e) => Err(e),
        }
    }
}

impl<'a> Session<'a> {
    #[verifier::type_invariant]
    spec fn file_asks_for_format(self) -> bool {
        format_of_path(self.file@) == Some(self.format)
    }

    /// What the session asks of its driver next.
    pub fn pending(&self) -> (r: Step)
        ensures
            r@ == self@.pending(),
    {
        match &self.phase {
            Phase::FetchingDescriptor => Step::Perform(
                Action::FetchDescriptor { url: self.config.descriptor_url(self.user) },
            ),
            Phase::ReadingDescriptor { .. } => Step::Perform(
                Action::ReadDescriptor { path: self.config.descriptor_path(self.user) },
            ),
            Phase::WritingDescriptor { fetched } => Step::Perform(
                Action::WriteDescriptor {
                    dir: self.config.partition_dir(self.user),
                    path: self.config.descriptor_path(self.user),
                    descriptor: fetched.clone(),
                },
            ),
            Phase::ProbingImage { .. } => Step::Perform(
                Action::ProbeImage {
                    path: self.config.image_path(self.user, self.file.as_str()),
                },
            ),
            Phase::ReadingImage { .. } => Step::Perform(
                Action::ReadImage { path: self.config.image_path(self.user, self.file.as_str()) },
            ),
            Phase::FetchingImage { descriptor } => Step::Perform(
                Action::FetchImage {
                    url: self.config.render_url(self.format, descriptor.as_str()),
                },
            ),
            Phase::WritingImage { bytes } => Step::Perform(
                Action::WriteImage {
                    path: self.config.image_path(self.user, self.file.as_str()),
                    bytes: bytes.clone(),
                },
            ),
            Phase::Finished { result } => Step::Respond(
                match result {
                    Ok(bytes) => Ok(bytes.clone()),
                    Err(e) => Err(*e),
                },
            ),
        }
    }

    /// The user whose image is asked for.
    pub fn user(&self) -> (r: UserId)
        ensures
            r@ == self@.user,
    {
        self.user
    }

    /// The file name that the image is asked for under.
    pub fn file(&self) -> (r: &str)
        ensures
            r@ == self@.file,
    {
        self.file.as_str()
    }

    /// The format that the file name asks for.
    pub fn format(&self) -> (r: Format)
        ensures
            r == self@.format,
            format_of_path(self@.file) == Some(r),
    {
        proof {
            use_type_invariant(self);
        }
        self.format
    }

    /// Whether the session has ended: all that is left is to answer.
    pub fn is_finished(&self) -> (r: bool)
        ensures
            r == (self@.phase is Finished),
    {
        match &self.phase {
            Phase::Finished { .. } => true,
            _ => false,
        }
    }

    /// The failure that the session went on in spite of, if there was one:
    /// storage refused a write, or did not yield the image it holds.
    pub fn tolerated(&self) -> (r: Option<ErrorKind>)
        ensures
            r == if self@.degraded {
                Some(ErrorKind::StorageDegraded)
            } else {
                None
            },
    {
        if self.degraded {
            Some(ErrorKind::StorageDegraded)
        } else {
            None
        }
    }

    /// Moves the session on by what came of its pending action.
    pub fn advance(self, event: Event) -> (r: Session<'a>)
        ensures
            r@ == self@.advance(event@),
    {
        proof {
            use_type_invariant(&self);
        }
        let Session { config, user, file, format, phase, degraded } = self;
        match (phase, event) {
            (Phase::FetchingDescriptor, Event::DescriptorFetched(reply)) => {
                let phase = match read_descriptor(&reply) {
                    Ok(fetched) => Phase::ReadingDescriptor { fetched },
                    Err(e) => Phase::Finished { result: Err(e) },
                };
                Session { config, user, file, format, phase, degraded }
            },
            (Phase::ReadingDescriptor { fetched }, Event::DescriptorRead(stored)) => {
                let current = match stored {
                    Some(text) => text == fetched,
                    None => false,
                };
                let phase = if current {
                    Phase::ProbingImage { fetched }
                } else {
                    Phase::WritingDescriptor { fetched }
                };
                Session { config, user, file, format, phase, degraded }
            },
            (Phase::WritingDescriptor { fetched }, Event::DescriptorWritten { persisted }) => {
                Session {
                    config,
                    user,
                    file,
                    format,
                    phase: Phase::FetchingImage { descriptor: fetched },
                    degraded: degraded || !persisted,
                }
            },
            (Phase::ProbingImage { fetched }, Event::ImageProbed { exists }) => {
                let phase = if exists {
                    Phase::ReadingImage { fetched }
                } else {
                    Phase::FetchingImage { descriptor: fetched }
                };
                Session { config, user, file, format, phase, degraded }
            },
            (Phase::ReadingImage { fetched }, Event::ImageRead(stored)) => {
                match stored {
                    Some(bytes) => Session {
                        config,
                        user,
                        file,
                        format,
                        phase: Phase::Finished { result: Ok(bytes) },
                        degraded,
                    },
                    None => Session {
                        config,
                        user,
                        file,
                        format,
                        phase: Phase::FetchingImage { descriptor: fetched },
                        degraded: true,
                    },
                }
            },
            (Phase::FetchingImage { descriptor }, Event::ImageFetched(reply)) => {
                let phase = match read_image(reply) {
                    Ok(bytes) => Phase::WritingImage { bytes },
                    Err(e) => Phase::Finished { result: Err(e) },
                };
                Session { config, user, file, format, phase, degraded }
            },
            (Phase::WritingImage { bytes }, Event::ImageWritten { persisted }) => {
                Session {
                    config,
                    user,
                    file,
                    format,
                    phase: Phase::Finished { result: Ok(bytes) },
                    degraded: degraded || !persisted,
                }
            },
            (phase, _) => Session { config, user, file, format, phase, degraded },
        }
    }
}

} // verus!
