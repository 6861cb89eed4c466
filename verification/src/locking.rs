//! Which part of a session an operation takes hold of, and which
//! operations can therefore make one another wait.
//!
//! A session keeps its master side, its child, its writer and its reader
//! apart, each behind a lock of its own. An operation takes exactly one of
//! them, and only after it has let go of the table.

use crate::failure::Operation;
use vstd::prelude::*;

verus! {

/// The parts of a session that are locked separately.
#[derive(Clone, Copy, Debug, PartialEq, Eq, Structural)]
pub enum Resource {
    Master,
    Child,
    Writer,
    Reader,
}

impl Operation {
    /// The part of the session that the operation takes hold of; none for
    /// an operation that works on no session in the table.
    pub open spec fn spec_resource(self) -> Option<Resource> {
        match self {
            Operation::Write => Some(Resource::Writer),
            Operation::Read => Some(Resource::Reader),
            Operation::Resize => Some(Resource::Master),
            Operation::Wait => Some(Resource::Child),
            Operation::CheckStatus => Some(Resource::Child),
            Operation::Create => None,
            Operation::End => None,
            Operation::UserConfig => None,
            Operation::SystemInfo => None,
        }
    }

    /// The part of the session that the operation takes hold of.
    #[verifier::when_used_as_spec(spec_resource)]
    pub fn resource(self) -> (part: Option<Resource>)
        ensures
            part == self.spec_resource(),
    {
        match self {
            Operation::Write => Some(Resource::Writer),
            Operation::Read => Some(Resource::Reader),
            Operation::Resize => Some(Resource::Master),
            Operation::Wait => Some(Resource::Child),
            Operation::CheckStatus => Some(Resource::Child),
            Operation::Create => None,
            Operation::End => None,
            Operation::UserConfig => None,
            Operation::SystemInfo => None,
        }
    }

    /// Whether the operation begins by finding its session in the table.
    pub fn needs_session(self) -> (needed: bool)
        ensures
            needed == (self.spec_resource() is Some),
    {
        self.resource().is_some()
    }
}

/// Whether one operation can make the other wait: only if both work on the
/// same session and take hold of the same part of it.
pub open spec fn contend(
    first_handle: u32,
    first: Operation,
    second_handle: u32,
    second: Operation,
) -> bool {
    &&& first_handle == second_handle
    &&& first.spec_resource() is Some
    &&& first.spec_resource() == second.spec_resource()
}

/// Decides whether one operation can make the other wait.
pub fn may_contend(first_handle: u32, first: Operation, second_handle: u32, second: Operation) -> (answer:
    bool)
    ensures
        answer == contend(first_handle, first, second_handle, second),
{
    if first_handle != second_handle {
        return false;
    }
    match (first.resource(), second.resource()) {
        (Some(a), Some(b)) => a == b,
        _ => false,
    }
}

/// Operations on different sessions never make one another wait.
pub proof fn lemma_sessions_do_not_interfere(
    first_handle: u32,
    first: Operation,
    second_handle: u32,
    second: Operation,
)
    requires
        first_handle != second_handle,
    ensures
        !contend(first_handle, first, second_handle, second),
{
}

/// A resize takes hold of the master side only, so it never waits for a
/// read, a write, a wait or a status check on the same session, nor they
/// for it.
pub proof fn lemma_resize_leaves_streams_alone(handle: u32, other: Operation)
    requires
        other != Operation::Resize,
    ensures
        !contend(handle, Operation::Resize, handle, other),
        !contend(handle, other, handle, Operation::Resize),
{
}

} // verus!
