//! Failures of the file system, as the host reports them.

use vstd::prelude::*;

verus! {

/// The kinds of failure that the library tells apart.
#[derive(Clone, Copy, Debug, PartialEq, Eq)]
pub enum IoKind {
    /// Nothing exists at the place asked about.
    NotFound,
    /// The place may not be looked at.
    PermissionDenied,
    /// Any other failure.
    Other,
}

/// One failed request to the file system.
#[derive(Clone, Debug, PartialEq, Eq)]
pub struct IoFailure {
    pub kind: IoKind,
    /// The host's own words for the failure.
    pub message: String,
}

/// The mathematical value of an [`IoFailure`].
pub struct IoFailureView {
    pub kind: IoKind,
    pub message: Seq<char>,
}

impl View for IoFailure {
    type V = IoFailureView;

    open spec fn view(&self) -> IoFailureView {
        IoFailureView { kind: self.kind, message: self.message@ }
    }
}

impl IoFailureView {
    /// True when the failure only says that nothing is there.
    pub open spec fn is_not_found(self) -> bool {
        self.kind == IoKind::NotFound
    }
}

impl IoFailure {
    /// The failure of this kind with this message.
    pub fn new(kind: IoKind, message: String) -> (failure: IoFailure)
        ensures
            failure.kind == kind,
            failure.message == message,
    {
        IoFailure { kind, message }
    }

    /// True when the failure only says that nothing is there.
    pub fn is_not_found(&self) -> (missing: bool)
        ensures
            missing == self@.is_not_found(),
    {
        match self.kind {
            IoKind::NotFound => true,
            IoKind::PermissionDenied => false,
            IoKind::Other => false,
        }
    }
}

} // verus!
