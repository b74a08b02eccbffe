//! Failure kinds of the subsystem and the actions a syscall can request.

use vstd::prelude::*;

verus! {

/// Every failure of this subsystem is one of these kinds; all of them are
/// terminal for the current run, mirroring the driving VM's all-or-nothing
/// execution model.
#[derive(Clone, Copy, PartialEq, Eq, Structural, Debug)]
pub enum SysError {
    /// The VM issued a row-write signal with an empty operand stack or with
    /// fewer readable memory bytes than one viewport row needs.
    ProtocolViolation,
    /// The presenter could not push a frame to the display surface.
    DisplayBackendFailure,
    /// A row index, palette index or tile/sprite id lay outside its valid
    /// bounds.
    OutOfRangeAccess,
}

/// What the caller of the syscall dispatcher still has to perform after a
/// successful dispatch.  Presenting a frame needs the display surface, which
/// the library does not own, so the dispatcher hands the request back.
#[derive(Clone, Copy, PartialEq, Eq, Structural, Debug)]
pub enum SysAction {
    /// Push the current framebuffer to the display surface.
    PresentFrame,
    /// Nothing is left to do.
    NoOp,
}

} // verus!
