use vstd::prelude::*;
use crate::error::Error;
use crate::features::{
    has_feature, ring_options, FEATURE_RING_EVENT_IDX, FEATURE_RING_INDIRECT_DESC,
    SUPPORTED_FEATURES,
};
use crate::hal::Hal;
use crate::queue::{QueueLayout, Request, VirtQueue};
use crate::transport::{Transport, TransportEvent};
use crate::PAGE_SIZE;

verus! {

/// Index of the receive queue of port 0.
pub const QUEUE_RECEIVEQ_PORT_0: u16 = 0;

/// Index of the transmit queue of port 0.
pub const QUEUE_TRANSMITQ_PORT_0: u16 = 1;

/// Number of descriptors in each ring.
pub const QUEUE_SIZE: usize = 2;

/// Byte offset of the column count (16 bits) in the configuration region.
pub const CONFIG_COLS_OFFSET: usize = 0;

/// Byte offset of the row count (16 bits) in the configuration region.
pub const CONFIG_ROWS_OFFSET: usize = 2;

/// Byte offset of the maximum number of ports (32 bits) in the configuration region.
pub const CONFIG_MAX_NR_PORTS_OFFSET: usize = 4;

/// Byte offset of the emergency-write register (32 bits, write-only) in the configuration region.
pub const CONFIG_EMERG_WR_OFFSET: usize = 8;

/// Size of the console's register layout in the configuration region.
pub const CONFIG_SPACE_SIZE: usize = 12;

/// Information about a console device, read from its configuration registers.
#[derive(Clone, Debug, PartialEq, Eq)]
pub struct ConsoleInfo {
    /// The console height in characters.
    pub rows: u16,
    /// The console width in characters.
    pub columns: u16,
    /// The maximum number of ports supported by the console device.
    pub max_ports: u32,
}

/// The state of the receive pipeline.
pub struct RxView {
    /// Offset of the next unread byte in the staging buffer.
    pub cursor: nat,
    /// Number of valid bytes in the staging buffer.
    pub pending_len: nat,
    /// Token of the outstanding receive request, if there is one.
    pub token: Option<u16>,
    /// Whether the device broke the ring contract on a receive.
    pub faulted: bool,
}

impl RxView {
    /// Received bytes remain to be read.
    pub open spec fn has_data(self) -> bool {
        self.cursor < self.pending_len
    }

    /// No request is outstanding and every received byte has been read: a new request is due.
    pub open spec fn idle(self) -> bool {
        self.token is None && self.cursor == self.pending_len
    }

    /// The cursor stays within the valid bytes, which fit in the buffer; while a request is
    /// outstanding no unread byte remains; a faulted pipeline holds nothing.
    pub open spec fn wf(self) -> bool {
        &&& self.cursor <= self.pending_len <= PAGE_SIZE
        &&& self.token is Some ==> self.cursor == self.pending_len
        &&& self.faulted ==> self.token is None && self.pending_len == 0
    }
}

/// Driver for a console device with a single port.
///
/// The staging buffer is either lent to the device (a receive request is outstanding) or held
/// by the driver, in which case its bytes from the cursor up to the pending length are the ones
/// received and not yet read.
///
/// A driver must be torn down with [`VirtIOConsole::destroy`]: one that is simply dropped
/// leaves both queues attached to memory that is then freed.
pub struct VirtIOConsole<H: Hal, T: Transport, Q: VirtQueue<H, T>> {
    transport: T,
    hal: H,
    negotiated_features: u64,
    receiveq: Q,
    transmitq: Q,
    queue_buf_rx: Vec<u8>,
    cursor: usize,
    pending_len: usize,
    receive_token: Option<u16>,
    faulted: bool,
}

/// The result of checking that a configuration region of `size` bytes holds the console's
/// registers.
pub open spec fn config_space_check(size: Option<usize>) -> Result<(), Error> {
    match size {
        None => Err(Error::ConfigSpaceMissing),
        Some(n) => if n < CONFIG_SPACE_SIZE {
            Err(Error::ConfigSpaceTooSmall)
        } else {
            Ok(())
        },
    }
}

/// Checks that a configuration region of `size` bytes holds the console's registers.
pub fn check_config_space(size: Option<usize>) -> (r: Result<(), Error>)
    ensures
        r == config_space_check(size),
{
    match size {
        None => Err(Error::ConfigSpaceMissing),
        Some(n) => if n < CONFIG_SPACE_SIZE {
            Err(Error::ConfigSpaceTooSmall)
        } else {
            Ok(())
        },
    }
}

/// The receive request the driver submits: nothing for the device to read, the whole staging
/// buffer for it to write.
pub open spec fn rx_request(token: u16) -> Request {
    Request { token, readable: 0, writable: PAGE_SIZE }
}

/// The transport calls that follow a submission on queue `queue`: a notification exactly when
/// the ring asked for one.
pub open spec fn notify_events(wanted: bool, queue: u16) -> Seq<TransportEvent> {
    if wanted {
        seq![TransportEvent::Notify(queue)]
    } else {
        seq![]
    }
}

/// How a ring of the driver is built on a negotiated feature set.
pub open spec fn ring_layout(index: u16, negotiated: u64) -> QueueLayout {
    QueueLayout {
        index,
        size: QUEUE_SIZE,
        indirect: has_feature(negotiated, FEATURE_RING_INDIRECT_DESC),
        event_idx: has_feature(negotiated, FEATURE_RING_EVENT_IDX),
    }
}

impl<H: Hal, T: Transport, Q: VirtQueue<H, T>> VirtIOConsole<H, T, Q> {
    /// The state of the receive pipeline.
    pub closed spec fn rx(&self) -> RxView {
        RxView {
            cursor: self.cursor as nat,
            pending_len: self.pending_len as nat,
            token: self.receive_token,
            faulted: self.faulted,
        }
    }

    /// The staging buffer of the receive pipeline.
    pub closed spec fn buffer(&self) -> Seq<u8> {
        self.queue_buf_rx@
    }

    /// The feature set agreed with the device at start-up.
    pub closed spec fn negotiated(&self) -> u64 {
        self.negotiated_features
    }

    /// The device transport.
    pub closed spec fn transport(&self) -> T {
        self.transport
    }

    /// The receive ring.
    pub closed spec fn receiveq(&self) -> Q {
        self.receiveq
    }

    /// The transmit ring.
    pub closed spec fn transmitq(&self) -> Q {
        self.transmitq
    }

    /// The receive pipeline is consistent, the staging buffer is one page, and the receive
    /// ring holds exactly the outstanding request, if there is one.
    pub closed spec fn wf(&self) -> bool {
        &&& self.rx().wf()
        &&& self.queue_buf_rx@.len() == PAGE_SIZE
        &&& self.receiveq.requests()@ == match self.receive_token {
            Some(t) => seq![rx_request(t)],
            None => Seq::<Request>::empty(),
        }
    }

    /// The device has completed the outstanding receive request.
    pub open spec fn completion_ready(&self) -> bool {
        &&& !self.rx().faulted
        &&& self.rx().token is Some
        &&& match self.receiveq().used_head() {
            Some((token, _)) => Some(token) == self.rx().token,
            None => false,
        }
    }

    /// The number of bytes the device reports for the completion at the head of the used ring.
    pub open spec fn completed_len(&self) -> u32 {
        match self.receiveq().used_head() {
            Some((_, len)) => len,
            None => 0,
        }
    }

    /// `b` is `a` after the submission of a receive request succeeded with a token that `b`
    /// records: the ring holds that request, and the device was notified if it asked to be.
    pub open spec fn submitted(a: Self, b: Self) -> bool {
        &&& b.rx().token is Some
        &&& b.receiveq().requests()@ == a.receiveq().requests()@.push(rx_request(b.rx().token->0))
        &&& b.transport().log()@ == a.transport().log()@ + notify_events(
            b.receiveq().notify_wanted(),
            QUEUE_RECEIVEQ_PORT_0,
        )
    }

    /// `b` is `a` after the submission of a receive request failed: no token, no request, no
    /// notification.
    pub open spec fn not_submitted(a: Self, b: Self) -> bool {
        &&& b.rx().token is None
        &&& b.receiveq().requests()@ == a.receiveq().requests()@
        &&& b.transport() == a.transport()
    }

    /// `b` and `r` are a possible outcome of submit-if-idle on `a`: a request is submitted only
    /// when the pipeline is idle, and its token is recorded exactly when the ring accepted it.
    pub open spec fn submit_step(a: Self, b: Self, r: Result<(), Error>) -> bool {
        if a.rx().idle() {
            &&& b.rx().cursor == a.rx().cursor
            &&& b.rx().pending_len == a.rx().pending_len
            &&& b.rx().faulted == a.rx().faulted
            &&& b.buffer() == a.buffer()
            &&& b.transmitq() == a.transmitq()
            &&& b.receiveq().layout() == a.receiveq().layout()
            &&& if r is Ok {
                Self::submitted(a, b)
            } else {
                Self::not_submitted(a, b)
            }
        } else {
            b == a && r is Ok
        }
    }

    /// `b` and `r` are a possible outcome of reading on `a` when no receive completes: nothing
    /// is returned when no byte is buffered; otherwise the byte at the cursor, which advances
    /// when `pop` is set, and a new request is submitted once the buffer is drained.
    pub open spec fn read_step(a: Self, b: Self, pop: bool, r: Result<Option<u8>, Error>) -> bool {
        if !a.rx().has_data() {
            r == Ok::<Option<u8>, Error>(None) && b == a
        } else if !pop {
            r == Ok::<Option<u8>, Error>(Some(a.buffer()[a.rx().cursor as int])) && b == a
        } else {
            let byte = a.buffer()[a.rx().cursor as int];
            &&& b.rx().cursor == a.rx().cursor + 1
            &&& b.rx().pending_len == a.rx().pending_len
            &&& !b.rx().faulted
            &&& b.buffer() == a.buffer()
            &&& b.transmitq() == a.transmitq()
            &&& b.receiveq().layout() == a.receiveq().layout()
            &&& if b.rx().has_data() {
                &&& r == Ok::<Option<u8>, Error>(Some(byte))
                &&& b.rx().token is None
                &&& b.receiveq() == a.receiveq()
                &&& b.transport() == a.transport()
            } else if r is Ok {
                r == Ok::<Option<u8>, Error>(Some(byte)) && Self::submitted(a, b)
            } else {
                Self::not_submitted(a, b)
            }
        }
    }

    /// `b` and `r` are a possible outcome of taking in a completed receive on `a`: a faulted
    /// pipeline reports the fault; with no completion nothing changes; otherwise the
    /// outstanding request is popped and its bytes become the pending data, a completion without
    /// any byte faulting the pipeline.
    pub open spec fn finish_step(a: Self, b: Self, r: Result<bool, Error>) -> bool {
        &&& b.transmitq() == a.transmitq()
        &&& if a.rx().faulted {
            &&& r == Err::<bool, Error>(Error::ProtocolViolation)
            &&& b.rx() == a.rx()
            &&& b.buffer() == a.buffer()
            &&& b.receiveq() == a.receiveq()
        } else if !a.completion_ready() {
            &&& r == Ok::<bool, Error>(false)
            &&& b.rx() == a.rx()
            &&& b.buffer() == a.buffer()
            &&& b.receiveq() == a.receiveq()
        } else {
            let n = a.completed_len();
            &&& b.buffer().len() == a.buffer().len()
            &&& b.receiveq().layout() == a.receiveq().layout()
            &&& match r {
                Ok(v) => {
                    &&& v
                    &&& n > 0
                    &&& b.rx() == (RxView {
                        cursor: 0,
                        pending_len: n as nat,
                        token: None,
                        faulted: false,
                    })
                    &&& b.receiveq().requests()@.len() == 0
                },
                Err(e) => {
                    ||| {
                        &&& n == 0
                        &&& e == Error::ProtocolViolation
                        &&& b.rx() == (RxView {
                            cursor: 0,
                            pending_len: 0,
                            token: None,
                            faulted: true,
                        })
                        &&& b.receiveq().requests()@.len() == 0
                    }
                    ||| b.rx() == a.rx() && b.receiveq().requests()@ == a.receiveq().requests()@
                },
            }
        }
    }

    /// Makes a request to the device to receive data, if there is not already an outstanding
    /// receive request or some data already received and not yet returned.
    fn poll_retrieve(&mut self) -> (r: Result<(), Error>)
        requires
            old(self).wf(),
            !old(self).rx().faulted,
        ensures
            final(self).wf(),
            final(self).negotiated() == old(self).negotiated(),
            Self::submit_step(*old(self), *final(self), r),
    {
        if self.receive_token.is_none() && self.cursor == self.pending_len {
            let no_inputs: [u8; 0] = [];
            assert(no_inputs@.len() == 0);
            let token = self.receiveq.add(&no_inputs, self.queue_buf_rx.as_mut_slice());
            match token {
                Ok(t) => {
                    self.receive_token = Some(t);
                    if self.receiveq.should_notify() {
                        self.transport.notify(QUEUE_RECEIVEQ_PORT_0);
                    }
                    assert(self.transport.log()@ =~= old(self).transport.log()@ + notify_events(
                        self.receiveq.notify_wanted(),
                        QUEUE_RECEIVEQ_PORT_0,
                    ));
                    Ok(())
                },
                Err(e) => Err(e),
            }
        } else {
            Ok(())
        }
    }

    /// Records the completion of the outstanding receive request, in which the device wrote
    /// `len` bytes. A completion without any byte breaks the ring contract: the pipeline is
    /// then marked faulted for good.
    fn complete_receive(&mut self, len: u32) -> (r: Result<bool, Error>)
        requires
            !old(self).rx().faulted,
            old(self).rx().token is Some,
            old(self).queue_buf_rx@.len() == PAGE_SIZE,
            old(self).receiveq.requests()@.len() == 0,
            len <= PAGE_SIZE,
        ensures
            final(self).wf(),
            final(self).negotiated() == old(self).negotiated(),
            final(self).buffer() == old(self).buffer(),
            final(self).transport() == old(self).transport(),
            final(self).receiveq() == old(self).receiveq(),
            final(self).transmitq() == old(self).transmitq(),
            len == 0 ==> r == Err::<bool, Error>(Error::ProtocolViolation) && final(self).rx() == (
            RxView { cursor: 0, pending_len: 0, token: None, faulted: true }),
            len > 0 ==> r == Ok::<bool, Error>(true) && final(self).rx() == (RxView {
                cursor: 0,
                pending_len: len as nat,
                token: None,
                faulted: false,
            }),
    {
        self.receive_token = None;
        self.cursor = 0;
        assert(self.receiveq.requests()@ =~= Seq::<Request>::empty());
        if len == 0 {
            self.pending_len = 0;
            self.faulted = true;
            Err(Error::ProtocolViolation)
        } else {
            self.pending_len = len as usize;
            Ok(true)
        }
    }

    /// If the outstanding receive request has completed, pops it, handing back the staging
    /// buffer, and takes the received bytes in.
    ///
    /// Returns true if new data has been received.
    fn finish_receive(&mut self) -> (r: Result<bool, Error>)
        requires
            old(self).wf(),
        ensures
            final(self).wf(),
            final(self).negotiated() == old(self).negotiated(),
            final(self).transport() == old(self).transport(),
            Self::finish_step(*old(self), *final(self), r),
            !old(self).completion_ready() ==> *final(self) == *old(self),
    {
        if self.faulted {
            return Err(Error::ProtocolViolation);
        }
        match self.receive_token {
            None => Ok(false),
            Some(token) => {
                let head = self.receiveq.peek_used();
                if head == Some(token) {
                    let no_inputs: [u8; 0] = [];
                    assert(no_inputs@.len() == 0);
                    let popped = self.receiveq.pop_used(
                        token,
                        &no_inputs,
                        self.queue_buf_rx.as_mut_slice(),
                    );
                    match popped {
                        Ok(len) => {
                            assert(self.receiveq.requests()@.len() == 0);
                            self.complete_receive(len)
                        },
                        Err(e) => Err(e),
                    }
                } else {
                    Ok(false)
                }
            },
        }
    }

    /// Takes in a completed receive when the device raised an interrupt (`pending`); a
    /// faulted pipeline reports the fault either way.
    fn receive_if_pending(&mut self, pending: bool) -> (r: Result<bool, Error>)
        requires
            old(self).wf(),
        ensures
            final(self).wf(),
            final(self).negotiated() == old(self).negotiated(),
            final(self).transport() == old(self).transport(),
            !pending && !old(self).rx().faulted ==> r == Ok::<bool, Error>(false) && *final(self)
                == *old(self),
            pending || old(self).rx().faulted ==> Self::finish_step(*old(self), *final(self), r),
    {
        if self.faulted {
            return Err(Error::ProtocolViolation);
        }
        if !pending {
            return Ok(false);
        }
        self.finish_receive()
    }

    /// Acknowledges a pending interrupt, if any, and completes the outstanding receive request
    /// if the device has finished it.
    ///
    /// Returns true if new data has been received.
    pub fn ack_interrupt(&mut self) -> (r: Result<bool, Error>)
        requires
            old(self).wf(),
        ensures
            final(self).wf(),
            final(self).negotiated() == old(self).negotiated(),
            final(self).transport().log()@ == old(self).transport().log()@,
            !old(self).transport().interrupt_pending() && !old(self).rx().faulted ==> r == Ok::<
                bool,
                Error,
            >(false) && final(self).rx() == old(self).rx() && final(self).buffer() == old(
                self,
            ).buffer() && final(self).receiveq() == old(self).receiveq() && final(self).transmitq()
                == old(self).transmitq(),
            old(self).transport().interrupt_pending() || old(self).rx().faulted
                ==> Self::finish_step(*old(self), *final(self), r),
    {
        let pending = self.transport.ack_interrupt();
        self.receive_if_pending(pending)
    }

    /// Returns the next available byte from the console, if any, and consumes it when `pop`
    /// is set.
    ///
    /// If no data has been received this does not block but immediately returns `Ok(None)`.
    pub fn recv(&mut self, pop: bool) -> (r: Result<Option<u8>, Error>)
        requires
            old(self).wf(),
        ensures
            final(self).wf(),
            final(self).negotiated() == old(self).negotiated(),
            final(self).transmitq() == old(self).transmitq(),
            old(self).rx().faulted ==> r == Err::<Option<u8>, Error>(Error::ProtocolViolation)
                && *final(self) == *old(self),
            !old(self).rx().faulted && !old(self).completion_ready() ==> Self::read_step(
                *old(self),
                *final(self),
                pop,
                r,
            ),
            old(self).completion_ready() && r is Ok ==> !final(self).rx().faulted
                && old(self).completed_len() > 0 && final(self).rx().pending_len
                == old(self).completed_len() && final(self).rx().cursor == (if pop {
                1nat
            } else {
                0nat
            }) && r == Ok::<Option<u8>, Error>(Some(final(self).buffer()[0])),
            old(self).completion_ready() && old(self).completed_len() == 0 ==> r is Err,
            r is Err && final(self).rx().token is Some ==> final(self).rx() == old(self).rx(),
            final(self).rx().faulted ==> r == Err::<Option<u8>, Error>(Error::ProtocolViolation),
    {
        match self.finish_receive() {
            Ok(received) => {
                assert(old(self).completion_ready() ==> received);
            },
            Err(e) => return Err(e),
        }
        if self.cursor == self.pending_len {
            return Ok(None);
        }
        let ch = self.queue_buf_rx[self.cursor];
        if pop {
            self.cursor = self.cursor + 1;
            match self.poll_retrieve() {
                Ok(()) => {},
                Err(e) => return Err(e),
            }
        }
        Ok(Some(ch))
    }

    /// Sends a byte to the console, waiting until the device has taken it.
    pub fn send(&mut self, chr: u8) -> (r: Result<(), Error>)
        requires
            old(self).wf(),
        ensures
            final(self).wf(),
            final(self).negotiated() == old(self).negotiated(),
            final(self).rx() == old(self).rx(),
            final(self).buffer() == old(self).buffer(),
            final(self).receiveq() == old(self).receiveq(),
            final(self).transmitq().layout() == old(self).transmitq().layout(),
            final(self).transmitq().requests()@ == old(self).transmitq().requests()@,
            r is Ok ==> final(self).transmitq().transmitted()@ == old(
                self,
            ).transmitq().transmitted()@.push(chr),
            r is Err ==> final(self).transmitq().transmitted()@ == old(
                self,
            ).transmitq().transmitted()@ || final(self).transmitq().transmitted()@ == old(
                self,
            ).transmitq().transmitted()@.push(chr),
    {
        let buf: [u8; 1] = [chr];
        assert(buf@ =~= seq![chr]);
        match self.transmitq.add_notify_wait_pop(&buf, &mut self.transport) {
            Ok(_) => Ok(()),
            Err(e) => Err(e),
        }
    }

    /// Returns the console's geometry and port count, read from its configuration registers.
    pub fn info(&self) -> (r: ConsoleInfo)
        ensures
            r.columns == self.transport().config_u16(CONFIG_COLS_OFFSET),
            r.rows == self.transport().config_u16(CONFIG_ROWS_OFFSET),
            r.max_ports == self.transport().config_u32(CONFIG_MAX_NR_PORTS_OFFSET),
    {
        let columns = self.transport.read_config_u16(CONFIG_COLS_OFFSET);
        let rows = self.transport.read_config_u16(CONFIG_ROWS_OFFSET);
        let max_ports = self.transport.read_config_u32(CONFIG_MAX_NR_PORTS_OFFSET);
        ConsoleInfo { rows, columns, max_ports }
    }

    /// Creates a console driver on `transport`: offers the supported ring features, checks the
    /// configuration region, builds the receive ring (queue 0) and the transmit ring (queue 1)
    /// with the options that the negotiated features allow, tells the device the driver is
    /// ready, and primes the receive pipeline with a first request for the whole staging
    /// buffer, allocated once from `hal`. When a step fails after a queue was attached, the
    /// attached queues are detached before the error is returned.
    pub fn new(transport: T, hal: H) -> (r: Result<Self, Error>)
        ensures
            config_space_check(transport.config_size()) is Err ==> r == Err::<Self, Error>(
                config_space_check(transport.config_size())->Err_0,
            ),
            r matches Ok(c) ==> ({
                &&& c.wf()
                &&& c.buffer().len() == PAGE_SIZE
                &&& c.rx().cursor == 0
                &&& c.rx().pending_len == 0
                &&& c.rx().token is Some
                &&& !c.rx().faulted
                &&& c.receiveq().layout() == ring_layout(QUEUE_RECEIVEQ_PORT_0, c.negotiated())
                &&& c.transmitq().layout() == ring_layout(QUEUE_TRANSMITQ_PORT_0, c.negotiated())
                &&& c.receiveq().requests()@ == seq![rx_request(c.rx().token->0)]
                &&& c.transmitq().requests()@.len() == 0
                &&& c.transport().log()@ == transport.log()@ + seq![
                    TransportEvent::BeginInit(SUPPORTED_FEATURES, c.negotiated()),
                    TransportEvent::QueueSet(QUEUE_RECEIVEQ_PORT_0),
                    TransportEvent::QueueSet(QUEUE_TRANSMITQ_PORT_0),
                    TransportEvent::FinishInit,
                ] + notify_events(c.receiveq().notify_wanted(), QUEUE_RECEIVEQ_PORT_0)
            }),
    {
        let ghost log0 = transport.log()@;
        let mut transport = transport;
        let negotiated_features = transport.begin_init(SUPPORTED_FEATURES);
        match check_config_space(transport.config_space_size()) {
            Ok(()) => {},
            Err(e) => return Err(e),
        }
        let (indirect, event_idx) = ring_options(negotiated_features);
        let mut hal = hal;
        let receiveq = match Q::new(
            &mut hal,
            &mut transport,
            QUEUE_RECEIVEQ_PORT_0,
            QUEUE_SIZE,
            indirect,
            event_idx,
        ) {
            Ok(q) => q,
            Err(e) => return Err(e),
        };
        let transmitq = match Q::new(
            &mut hal,
            &mut transport,
            QUEUE_TRANSMITQ_PORT_0,
            QUEUE_SIZE,
            indirect,
            event_idx,
        ) {
            Ok(q) => q,
            Err(e) => {
                transport.queue_unset(QUEUE_RECEIVEQ_PORT_0);
                return Err(e);
            },
        };
        let queue_buf_rx = match hal.dma_alloc(PAGE_SIZE) {
            Ok(b) => b,
            Err(e) => {
                transport.queue_unset(QUEUE_RECEIVEQ_PORT_0);
                transport.queue_unset(QUEUE_TRANSMITQ_PORT_0);
                return Err(e);
            },
        };
        transport.finish_init();
        let mut console = VirtIOConsole {
            transport,
            hal,
            negotiated_features,
            receiveq,
            transmitq,
            queue_buf_rx,
            cursor: 0,
            pending_len: 0,
            receive_token: None,
            faulted: false,
        };
        assert(console.receiveq.requests()@ =~= Seq::<Request>::empty());
        match console.poll_retrieve() {
            Ok(()) => {
                assert(console.transport.log()@ =~= log0 + seq![
                    TransportEvent::BeginInit(SUPPORTED_FEATURES, negotiated_features),
                    TransportEvent::QueueSet(QUEUE_RECEIVEQ_PORT_0),
                    TransportEvent::QueueSet(QUEUE_TRANSMITQ_PORT_0),
                    TransportEvent::FinishInit,
                ] + notify_events(console.receiveq.notify_wanted(), QUEUE_RECEIVEQ_PORT_0));
                Ok(console)
            },
            Err(e) => {
                console.detach_queues();
                Err(e)
            },
        }
    }

    /// Detaches both queues from the device, so that it stops reading and writing the rings
    /// and the staging buffer before their memory is released.
    fn detach_queues(&mut self)
        ensures
            final(self).transport().log()@ == old(self).transport().log()@ + seq![
                TransportEvent::QueueUnset(QUEUE_RECEIVEQ_PORT_0),
                TransportEvent::QueueUnset(QUEUE_TRANSMITQ_PORT_0),
            ],
            final(self).rx() == old(self).rx(),
            final(self).buffer() == old(self).buffer(),
            final(self).receiveq() == old(self).receiveq(),
            final(self).transmitq() == old(self).transmitq(),
    {
        self.transport.queue_unset(QUEUE_RECEIVEQ_PORT_0);
        self.transport.queue_unset(QUEUE_TRANSMITQ_PORT_0);
        assert(self.transport.log()@ =~= old(self).transport.log()@ + seq![
            TransportEvent::QueueUnset(QUEUE_RECEIVEQ_PORT_0),
            TransportEvent::QueueUnset(QUEUE_TRANSMITQ_PORT_0),
        ]);
    }

    /// Tears the driver down: detaches both queues first, whether or not a receive request is
    /// still outstanding, and only then releases the rings and the staging buffer. Hands the
    /// transport back.
    pub fn destroy(self) -> (r: T)
        ensures
            r.log()@ == self.transport().log()@ + seq![
                TransportEvent::QueueUnset(QUEUE_RECEIVEQ_PORT_0),
                TransportEvent::QueueUnset(QUEUE_TRANSMITQ_PORT_0),
            ],
    {
        let mut console = self;
        console.detach_queues();
        let VirtIOConsole { transport, .. } = console;
        transport
    }

    /// In every state the driver reaches, the cursor stays within the received bytes, which fit
    /// in the one-page staging buffer; a receive request is never outstanding while unread bytes
    /// remain; a faulted driver holds nothing; and the receive ring holds exactly the request
    /// that the recorded token names, or none.
    pub proof fn lemma_rx_invariant(c: Self)
        requires
            c.wf(),
        ensures
            c.rx().cursor <= c.rx().pending_len <= PAGE_SIZE,
            !(c.rx().token is Some && c.rx().has_data()),
            c.rx().faulted ==> c.rx().token is None && c.rx().pending_len == 0,
            c.buffer().len() == PAGE_SIZE,
            c.receiveq().requests()@ == match c.rx().token {
                Some(t) => seq![rx_request(t)],
                None => Seq::<Request>::empty(),
            },
    {
    }

    /// Submit-if-idle submits nothing, and changes nothing, while a request is outstanding or
    /// unread bytes remain.
    pub proof fn lemma_submit_only_when_idle(a: Self, b: Self, r: Result<(), Error>)
        requires
            a.wf(),
            Self::submit_step(a, b, r),
            a.rx().token is Some || a.rx().has_data(),
        ensures
            b == a,
            r is Ok,
    {
    }

    /// Two calls of submit-if-idle in a row submit at most one request: the receive ring gains
    /// at most one request, and when the first call succeeds, the second changes nothing.
    pub proof fn lemma_submit_idempotent(
        a: Self,
        b: Self,
        c: Self,
        r1: Result<(), Error>,
        r2: Result<(), Error>,
    )
        requires
            a.wf(),
            Self::submit_step(a, b, r1),
            Self::submit_step(b, c, r2),
        ensures
            a.rx().token is None && b.rx().token is Some ==> c == b,
            r1 is Ok ==> c == b && r2 is Ok,
            c.receiveq().requests()@.len() <= a.receiveq().requests()@.len() + 1,
    {
    }

    /// Reading from a driver whose outstanding request has not completed, such as one just
    /// created, returns nothing, changes nothing, and is no error.
    pub proof fn lemma_no_spurious_data(a: Self, b: Self, pop: bool, r: Result<Option<u8>, Error>)
        requires
            a.wf(),
            a.rx().token is Some,
            !a.completion_ready(),
            Self::read_step(a, b, pop, r),
        ensures
            r == Ok::<Option<u8>, Error>(None),
            b == a,
    {
    }

    /// The first `k` consuming reads after a receive of `len` bytes return the first `k` bytes
    /// and leave the cursor at `k`.
    proof fn lemma_drain_prefix(
        s: Seq<Self>,
        rs: Seq<Result<Option<u8>, Error>>,
        len: nat,
        k: nat,
    )
        requires
            s.len() == len + 2,
            rs.len() == len + 1,
            s[0].wf(),
            s[0].rx() == (RxView { cursor: 0, pending_len: len, token: None, faulted: false }),
            forall|i: int| 0 <= i <= len ==> #[trigger] Self::read_step(s[i], s[i + 1], true, rs[i]),
            forall|i: int| 0 <= i < len ==> (#[trigger] rs[i]) is Ok,
            k <= len,
        ensures
            s[k as int].rx().cursor == k,
            s[k as int].rx().pending_len == len,
            !s[k as int].rx().faulted,
            s[k as int].buffer() == s[0].buffer(),
            k < len ==> s[k as int].rx().token is None,
            k == len && len > 0 ==> s[k as int].rx().token is Some,
            forall|i: int|
                0 <= i < k ==> rs[i] == Ok::<Option<u8>, Error>(Some(#[trigger] s[0].buffer()[i])),
        decreases k,
    {
        if k > 0 {
            Self::lemma_drain_prefix(s, rs, len, (k - 1) as nat);
            let j = k - 1;
            assert(Self::read_step(s[j], s[j + 1], true, rs[j]));
            assert(rs[j] is Ok);
        }
    }

    /// After a receive of `len` bytes completes, `len` consuming reads return the received
    /// bytes in order, the last of them submits a new request, and one more consuming read,
    /// with no new completion, returns nothing.
    pub proof fn lemma_drain_then_refill(
        s: Seq<Self>,
        rs: Seq<Result<Option<u8>, Error>>,
        len: nat,
    )
        requires
            len > 0,
            s.len() == len + 2,
            rs.len() == len + 1,
            s[0].wf(),
            s[0].rx() == (RxView { cursor: 0, pending_len: len, token: None, faulted: false }),
            forall|i: int| 0 <= i <= len ==> #[trigger] Self::read_step(s[i], s[i + 1], true, rs[i]),
            forall|i: int| 0 <= i < len ==> (#[trigger] rs[i]) is Ok,
        ensures
            forall|i: int|
                0 <= i < len ==> rs[i] == Ok::<Option<u8>, Error>(Some(#[trigger] s[0].buffer()[i])),
            s[len as int].rx().token is Some,
            !s[len as int].rx().has_data(),
            rs[len as int] == Ok::<Option<u8>, Error>(None),
    {
        Self::lemma_drain_prefix(s, rs, len, len);
        assert(Self::read_step(s[len as int], s[len + 1 as int], true, rs[len as int]));
    }
}

} // verus!
