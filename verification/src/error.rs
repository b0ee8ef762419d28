//! The kinds of failure a request can meet.

use vstd::prelude::*;

verus! {

/// Why a request, or one step of it, did not go through.
#[derive(Clone, Copy, Debug, PartialEq, Eq, Structural)]
pub enum ErrorKind {
    /// The requested file name has no extension, or one that is not served.
    UnsupportedFormat,
    /// The user part of the request does not name a user.
    InvalidUserId,
    /// An upstream service could not be reached or answered without success.
    UpstreamUnavailable,
    /// The account service answered, but not with a descriptor.
    UpstreamMalformed,
    /// Local storage refused a read or a write.
    StorageDegraded,
}

/// Who has to deal with a failure.
#[derive(Clone, Copy, Debug, PartialEq, Eq, Structural)]
pub enum Blame {
    /// The request itself was wrong; nothing was fetched or stored for it.
    Client,
    /// An upstream service let the request down; it fails as a whole.
    Upstream,
    /// Nobody: the failure only costs a later cache hit and is not reported.
    Nobody,
}

impl ErrorKind {
    /// The party each kind of failure is put down to.
    pub open spec fn spec_blame(self) -> Blame {
        match self {
            ErrorKind::UnsupportedFormat | ErrorKind::InvalidUserId => Blame::Client,
            ErrorKind::UpstreamUnavailable | ErrorKind::UpstreamMalformed => Blame::Upstream,
            ErrorKind::StorageDegraded => Blame::Nobody,
        }
    }

    /// Classifies the failure by who has to deal with it.
    pub fn blame(&self) -> (r: Blame)
        ensures
            r == self.spec_blame(),
    {
        match self {
            ErrorKind::UnsupportedFormat | ErrorKind::InvalidUserId => Blame::Client,
            ErrorKind::UpstreamUnavailable | ErrorKind::UpstreamMalformed => Blame::Upstream,
            ErrorKind::StorageDegraded => Blame::Nobody,
        }
    }

    /// Whether a request that meets this failure is answered with it.
    pub open spec fn spec_is_fatal(self) -> bool {
        self != ErrorKind::StorageDegraded
    }

    /// Whether a request that meets this failure is answered with it.
    /// Storage trouble never is: the request goes on with what it has.
    pub fn is_fatal(&self) -> (r: bool)
        ensures
            r == self.spec_is_fatal(),
    {
        match self {
            ErrorKind::StorageDegraded => false,
            _ => true,
        }
    }
}

} // verus!
