use vstd::prelude::*;

verus! {

/// A call on the transport that the device can observe, as recorded in its log.
#[derive(Clone, Copy, Debug, PartialEq, Eq, Structural)]
pub enum TransportEvent {
    /// Initialization began: the driver offered the first feature set, the device accepted
    /// the second.
    BeginInit(u64, u64),
    /// A queue was attached to rings in driver memory.
    QueueSet(u16),
    /// The driver told the device it is ready.
    FinishInit,
    /// The device was notified of new buffers on a queue.
    Notify(u16),
    /// A queue was detached from driver memory.
    QueueUnset(u16),
}

/// The device transport: feature negotiation, the device's configuration registers,
/// notifications, interrupts and queue teardown.
///
/// The embedding system implements it for its bus (MMIO, PCI, ...) or for a simulated device.
pub trait Transport: Sized {
    /// The calls made on this transport that the device observes, in order.
    spec fn log(&self) -> Vec<TransportEvent>;

    /// The size in bytes of the device's configuration region, if it has one.
    spec fn config_size(&self) -> Option<usize>;

    /// The 16-bit configuration register at byte `offset`.
    spec fn config_u16(&self, offset: usize) -> u16;

    /// The 32-bit configuration register at byte `offset`.
    spec fn config_u32(&self, offset: usize) -> u32;

    /// Whether the device has raised an interrupt that is not yet acknowledged.
    spec fn interrupt_pending(&self) -> bool;

    /// Starts device initialization, offering `supported_features`, and returns the features
    /// that the device accepted.
    fn begin_init(&mut self, supported_features: u64) -> (r: u64)
        ensures
            final(self).log()@ == old(self).log()@.push(
                TransportEvent::BeginInit(supported_features, r),
            ),
            final(self).config_size() == old(self).config_size(),
    ;

    /// Tells the device that the driver is ready.
    fn finish_init(&mut self)
        ensures
            final(self).log()@ == old(self).log()@.push(TransportEvent::FinishInit),
    ;

    /// The size in bytes of the device's configuration region, if it has one.
    fn config_space_size(&self) -> (r: Option<usize>)
        ensures
            r == self.config_size(),
    ;

    /// Reads the 16-bit configuration register at byte `offset`, with a volatile access.
    fn read_config_u16(&self, offset: usize) -> (r: u16)
        ensures
            r == self.config_u16(offset),
    ;

    /// Reads the 32-bit configuration register at byte `offset`, with a volatile access.
    fn read_config_u32(&self, offset: usize) -> (r: u32)
        ensures
            r == self.config_u32(offset),
    ;

    /// Tells the device that queue `queue` has new buffers.
    fn notify(&mut self, queue: u16)
        ensures
            final(self).log()@ == old(self).log()@.push(TransportEvent::Notify(queue)),
    ;

    /// Acknowledges a pending interrupt; returns whether one was pending for this device.
    fn ack_interrupt(&mut self) -> (r: bool)
        ensures
            r == old(self).interrupt_pending(),
            final(self).log()@ == old(self).log()@,
    ;

    /// Detaches queue `queue`, so that the device no longer reads or writes its rings.
    fn queue_unset(&mut self, queue: u16)
        ensures
            final(self).log()@ == old(self).log()@.push(TransportEvent::QueueUnset(queue)),
    ;
}

} // verus!
