use vstd::prelude::*;

verus! {

/// Errors surfaced to callers of the driver framework.
#[derive(Clone, Copy, Debug, PartialEq, Eq, Structural)]
pub enum Error {
    /// An argument is out of range, or the requested operation makes no sense
    /// in the driver's current state.
    InvalidArgument,
    /// The driver already has an operation in flight, or an unread result.
    Busy,
    /// There is no client message to consume.
    NotFound,
    /// A driver-specific failure code reported by the kernel.
    Code(usize),
}

} // verus!
