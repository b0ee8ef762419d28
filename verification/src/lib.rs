//! Cache coherence and fetch orchestration for rendered avatar images.
//!
//! The crate decides, for one request at a time, which upstream calls and
//! which storage accesses are needed to serve an up-to-date image, and in
//! which order. It performs no I/O itself: a driver carries out each
//! [`coordinator::Action`] and reports back with a [`coordinator::Event`].
//!
//! - [`format`], [`user`], [`locate`]: what a request names, and where the
//!   things it needs are found.
//! - [`upstream`]: what the replies of the two services are worth.
//! - [`coordinator`]: the session of a request, step by step.
//! - [`world`], [`table`], [`laws`]: sessions run in modelled surroundings,
//!   and what is proved of them.

pub mod coordinator;
pub mod error;
pub mod format;
pub mod laws;
pub mod locate;
pub mod table;
pub mod upstream;
pub mod user;
pub mod world;
