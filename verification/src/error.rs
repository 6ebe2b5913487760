//! What can go wrong while a tunnel is made.

use vstd::prelude::*;

verus! {

/// The ways in which making a tunnel fails. Deleting one never fails towards
/// the caller.
#[derive(Debug, PartialEq, Eq)]
pub enum Error {
    /// The name and its terminator do not fit the name field of a control
    /// block.
    NameTooLong,
    /// No interface of this name exists to carry the tunnel.
    MasterNotFound(String),
    /// The kernel refused a call; the code is the one it gave.
    SystemCall(i32),
}

} // verus!
