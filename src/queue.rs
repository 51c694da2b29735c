use vstd::prelude::*;
use crate::error::Error;
use crate::hal::Hal;
use crate::transport::{Transport, TransportEvent};

verus! {

/// How a ring was built.
#[derive(Clone, Copy, Debug, PartialEq, Eq, Structural)]
pub struct QueueLayout {
    /// The queue index on the device.
    pub index: u16,
    /// The number of descriptors.
    pub size: usize,
    /// Whether indirect descriptors are used.
    pub indirect: bool,
    /// Whether notifications are suppressed through event indices.
    pub event_idx: bool,
}

/// A request submitted to a ring and not yet popped.
#[derive(Clone, Copy, Debug, PartialEq, Eq, Structural)]
pub struct Request {
    /// The token that names the request.
    pub token: u16,
    /// Length of the buffer the device reads.
    pub readable: usize,
    /// Length of the buffer the device writes.
    pub writable: usize,
}

/// A ring of descriptors shared with the device, on top of a transport `T`, in memory from the
/// platform `H`.
///
/// A request is a device-readable buffer followed by a device-writable one. Submitting it
/// returns a token; the request is completed when the device places that token on the used
/// ring, and it is then popped with the same buffers.
pub trait VirtQueue<H: Hal, T: Transport>: Sized {
    /// How the ring was built.
    spec fn layout(&self) -> QueueLayout;

    /// The requests submitted and not yet popped, in the order of submission.
    spec fn requests(&self) -> Vec<Request>;

    /// The token and written length at the head of the used ring, if the device has completed
    /// a request.
    spec fn used_head(&self) -> Option<(u16, u32)>;

    /// Whether the device asks to be notified of new requests.
    spec fn notify_wanted(&self) -> bool;

    /// The bytes the device has taken through completed round trips, in order.
    spec fn transmitted(&self) -> Vec<u8>;

    /// Creates ring `idx` with `size` descriptors in memory from `hal` and attaches it to
    /// `transport`.
    fn new(hal: &mut H, transport: &mut T, idx: u16, size: usize, indirect: bool, event_idx: bool) -> (r:
        Result<Self, Error>)
        ensures
            r matches Ok(q) ==> q.layout() == (QueueLayout { index: idx, size, indirect, event_idx })
                && q.requests()@.len() == 0 && q.transmitted()@.len() == 0
                && final(transport).log()@ == old(transport).log()@.push(
                TransportEvent::QueueSet(idx),
            ),
    ;

    /// Submits a request made of `inputs` (read by the device) and `outputs` (written by the
    /// device when it completes the request), and returns its token.
    fn add(&mut self, inputs: &[u8], outputs: &mut [u8]) -> (r: Result<u16, Error>)
        ensures
            final(outputs)@ == old(outputs)@,
            final(self).layout() == old(self).layout(),
            r matches Ok(t) ==> final(self).requests()@ == old(self).requests()@.push(
                Request {
                    token: t,
                    readable: inputs@.len() as usize,
                    writable: old(outputs)@.len() as usize,
                },
            ),
            r is Err ==> final(self).requests()@ == old(self).requests()@,
    ;

    /// Whether the device asked to be notified of new requests.
    fn should_notify(&self) -> (r: bool)
        ensures
            r == self.notify_wanted(),
    ;

    /// The token of the next completed request, if any.
    fn peek_used(&self) -> (r: Option<u16>)
        ensures
            r == (match self.used_head() {
                Some(h) => Some(h.0),
                None => None,
            }),
    ;

    /// Pops the completed request `token`, handing back the buffers it was submitted with;
    /// returns the number of bytes the device wrote into `outputs`.
    ///
    /// Every implementation must refuse a completion that claims more bytes than `outputs`
    /// holds, even when a misbehaving device reports one.
    fn pop_used(&mut self, token: u16, inputs: &[u8], outputs: &mut [u8]) -> (r: Result<u32, Error>)
        ensures
            final(outputs)@.len() == old(outputs)@.len(),
            final(self).layout() == old(self).layout(),
            r matches Ok(n) ==> n <= old(outputs)@.len() && old(self).used_head() == Some((token, n))
                && exists|i: int|
                0 <= i < old(self).requests()@.len() && old(self).requests()@[i] == (Request {
                    token,
                    readable: inputs@.len() as usize,
                    writable: old(outputs)@.len() as usize,
                }) && final(self).requests()@ == old(self).requests()@.remove(i),
            r is Err ==> final(self).requests()@ == old(self).requests()@,
    ;

    /// Submits `inputs` as one request, notifies the device through `transport` if it asked to
    /// be, waits until the device completes the request and pops it.
    fn add_notify_wait_pop(&mut self, inputs: &[u8], transport: &mut T) -> (r: Result<u32, Error>)
        ensures
            final(self).layout() == old(self).layout(),
            final(self).requests()@ == old(self).requests()@,
            r is Ok ==> final(self).transmitted()@ == old(self).transmitted()@ + inputs@,
            r is Err ==> final(self).transmitted()@ == old(self).transmitted()@
                || final(self).transmitted()@ == old(self).transmitted()@ + inputs@,
    ;
}

} // verus!
