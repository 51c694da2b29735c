use vstd::prelude::*;

verus! {

/// The errors that the console driver and its collaborators report.
#[derive(Clone, Copy, Debug, PartialEq, Eq, Structural)]
pub enum Error {
    /// There are not enough free descriptors in the ring.
    QueueFull,
    /// The device is not ready.
    NotReady,
    /// The token handed back does not name the request that completed.
    WrongToken,
    /// The queue is already in use.
    AlreadyUsed,
    /// A parameter was out of range.
    InvalidParam,
    /// DMA memory could not be allocated.
    DmaError,
    /// The transport failed to carry out a request.
    IoError,
    /// The device does not support the request, for example the ring depth.
    Unsupported,
    /// The configuration region is smaller than the console's register layout.
    ConfigSpaceTooSmall,
    /// The device has no configuration region.
    ConfigSpaceMissing,
    /// The device completed a receive request without writing a byte, which breaks the ring
    /// contract. The receive side of the handle stays unusable afterwards.
    ProtocolViolation,
}

} // verus!
