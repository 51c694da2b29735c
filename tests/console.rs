use std::cell::RefCell;
use std::collections::VecDeque;
use std::rc::Rc;

use virtio_console::{
    check_config_space, ring_options, ConsoleInfo, Error, Hal, Transport, VirtIOConsole, VirtQueue, CONFIG_SPACE_SIZE,
    FEATURE_RING_EVENT_IDX, FEATURE_RING_INDIRECT_DESC, FEATURE_VERSION_1, PAGE_SIZE,
    QUEUE_RECEIVEQ_PORT_0, QUEUE_SIZE, QUEUE_TRANSMITQ_PORT_0, SUPPORTED_FEATURES,
    QueueLayout, Request, TransportEvent,
};

/// What the simulated device does and what it has seen.
struct Device {
    offered_features: u64,
    driver_features: Option<u64>,
    ready: bool,
    config: Vec<u8>,
    has_config: bool,
    interrupt_pending: bool,
    attached: [bool; 2],
    queues_built: Vec<(u16, usize, bool, bool)>,
    events: Vec<String>,
    log: Vec<TransportEvent>,
    next_token: u16,
    rx_requests: Vec<(u16, usize)>,
    rx_outstanding: Vec<Request>,
    rx_used: VecDeque<(u16, Vec<u8>)>,
    rx_add_error: Option<Error>,
    tx_polls_needed: usize,
    tx_sent: Vec<Vec<u8>>,
    fail_queue: Option<u16>,
}

impl Device {
    fn new(columns: u16, rows: u16, max_ports: u32) -> Rc<RefCell<Device>> {
        let mut config = Vec::new();
        config.extend_from_slice(&columns.to_le_bytes());
        config.extend_from_slice(&rows.to_le_bytes());
        config.extend_from_slice(&max_ports.to_le_bytes());
        config.extend_from_slice(&0u32.to_le_bytes());
        Rc::new(RefCell::new(Device {
            offered_features: FEATURE_RING_EVENT_IDX | FEATURE_VERSION_1,
            driver_features: None,
            ready: false,
            config,
            has_config: true,
            interrupt_pending: false,
            attached: [false, false],
            queues_built: Vec::new(),
            events: Vec::new(),
            log: Vec::new(),
            next_token: 0,
            rx_requests: Vec::new(),
            rx_outstanding: Vec::new(),
            rx_used: VecDeque::new(),
            rx_add_error: None,
            tx_polls_needed: 3,
            tx_sent: Vec::new(),
            fail_queue: None,
        }))
    }

    /// The device writes `data` into the outstanding receive request and completes it.
    fn complete_receive(&mut self, data: &[u8]) {
        let (token, _) = *self.rx_requests.last().expect("no receive request");
        self.rx_used.push_back((token, data.to_vec()));
        self.interrupt_pending = true;
    }
}

struct MockTransport {
    dev: Rc<RefCell<Device>>,
}

impl Transport for MockTransport {
    fn config_u16(&self, offset: usize) -> u16 {
        self.read_config_u16(offset)
    }

    fn config_u32(&self, offset: usize) -> u32 {
        self.read_config_u32(offset)
    }

    fn log(&self) -> Vec<TransportEvent> {
        self.dev.borrow().log.clone()
    }

    fn config_size(&self) -> Option<usize> {
        self.config_space_size()
    }

    fn interrupt_pending(&self) -> bool {
        self.dev.borrow().interrupt_pending
    }

    fn begin_init(&mut self, supported_features: u64) -> u64 {
        let mut dev = self.dev.borrow_mut();
        let negotiated = dev.offered_features & supported_features;
        dev.driver_features = Some(negotiated);
        dev.log.push(TransportEvent::BeginInit(supported_features, negotiated));
        negotiated
    }

    fn finish_init(&mut self) {
        let mut dev = self.dev.borrow_mut();
        dev.ready = true;
        dev.log.push(TransportEvent::FinishInit);
    }

    fn config_space_size(&self) -> Option<usize> {
        let dev = self.dev.borrow();
        if dev.has_config {
            Some(dev.config.len())
        } else {
            None
        }
    }

    fn read_config_u16(&self, offset: usize) -> u16 {
        let dev = self.dev.borrow();
        u16::from_le_bytes([dev.config[offset], dev.config[offset + 1]])
    }

    fn read_config_u32(&self, offset: usize) -> u32 {
        let dev = self.dev.borrow();
        let b = &dev.config[offset..offset + 4];
        u32::from_le_bytes([b[0], b[1], b[2], b[3]])
    }

    fn notify(&mut self, queue: u16) {
        let mut dev = self.dev.borrow_mut();
        dev.events.push(format!("notify {}", queue));
        dev.log.push(TransportEvent::Notify(queue));
    }

    fn ack_interrupt(&mut self) -> bool {
        let mut dev = self.dev.borrow_mut();
        let pending = dev.interrupt_pending;
        dev.interrupt_pending = false;
        pending
    }

    fn queue_unset(&mut self, queue: u16) {
        let mut dev = self.dev.borrow_mut();
        dev.attached[queue as usize] = false;
        dev.events.push(format!("unset {}", queue));
        dev.log.push(TransportEvent::QueueUnset(queue));
    }
}

struct MockQueue {
    dev: Rc<RefCell<Device>>,
    idx: u16,
    layout: QueueLayout,
}

impl Drop for MockQueue {
    fn drop(&mut self) {
        self.dev.borrow_mut().events.push(format!("free {}", self.idx));
    }
}

impl VirtQueue<MockHal, MockTransport> for MockQueue {
    fn layout(&self) -> QueueLayout {
        self.layout
    }

    fn requests(&self) -> Vec<Request> {
        if self.idx == QUEUE_RECEIVEQ_PORT_0 {
            self.dev.borrow().rx_outstanding.clone()
        } else {
            Vec::new()
        }
    }

    fn used_head(&self) -> Option<(u16, u32)> {
        self.dev.borrow().rx_used.front().map(|(t, d)| (*t, d.len() as u32))
    }

    fn notify_wanted(&self) -> bool {
        true
    }

    fn transmitted(&self) -> Vec<u8> {
        self.dev.borrow().tx_sent.concat()
    }

    fn new(
        _hal: &mut MockHal,
        transport: &mut MockTransport,
        idx: u16,
        size: usize,
        indirect: bool,
        event_idx: bool,
    ) -> Result<Self, Error> {
        let dev = transport.dev.clone();
        {
            let mut d = dev.borrow_mut();
            if d.fail_queue == Some(idx) {
                return Err(Error::Unsupported);
            }
            d.attached[idx as usize] = true;
            d.queues_built.push((idx, size, indirect, event_idx));
            d.log.push(TransportEvent::QueueSet(idx));
        }
        let layout = QueueLayout { index: idx, size, indirect, event_idx };
        Ok(MockQueue { dev, idx, layout })
    }

    fn add(&mut self, inputs: &[u8], outputs: &mut [u8]) -> Result<u16, Error> {
        let mut dev = self.dev.borrow_mut();
        if let Some(e) = dev.rx_add_error {
            return Err(e);
        }
        assert!(inputs.is_empty());
        let token = dev.next_token;
        dev.next_token += 1;
        dev.rx_requests.push((token, outputs.len()));
        dev.rx_outstanding.push(Request { token, readable: inputs.len(), writable: outputs.len() });
        dev.events.push(format!("add {}", self.idx));
        Ok(token)
    }

    fn should_notify(&self) -> bool {
        true
    }

    fn peek_used(&self) -> Option<u16> {
        self.dev.borrow().rx_used.front().map(|(t, _)| *t)
    }

    fn pop_used(&mut self, token: u16, _inputs: &[u8], outputs: &mut [u8]) -> Result<u32, Error> {
        let mut dev = self.dev.borrow_mut();
        let (t, data) = dev.rx_used.pop_front().ok_or(Error::NotReady)?;
        if t != token {
            return Err(Error::WrongToken);
        }
        if data.len() > outputs.len() {
            return Err(Error::InvalidParam);
        }
        outputs[..data.len()].copy_from_slice(&data);
        dev.rx_outstanding.retain(|r| r.token != token);
        Ok(data.len() as u32)
    }

    fn add_notify_wait_pop(
        &mut self,
        inputs: &[u8],
        transport: &mut MockTransport,
    ) -> Result<u32, Error> {
        let token = {
            let mut dev = self.dev.borrow_mut();
            let token = dev.next_token;
            dev.next_token += 1;
            dev.events.push(format!("add {}", self.idx));
            token
        };
        transport.notify(self.idx);
        let mut polls = 0;
        loop {
            let mut dev = self.dev.borrow_mut();
            if polls == dev.tx_polls_needed {
                dev.tx_sent.push(inputs.to_vec());
                dev.events.push(format!("complete {} token {}", self.idx, token));
                break;
            }
            polls += 1;
        }
        self.dev.borrow_mut().events.push(format!("pop {}", self.idx));
        Ok(0)
    }
}

/// Platform memory that can be told to run out.
struct MockHal {
    exhausted: bool,
}

impl Hal for MockHal {
    fn dma_alloc(&mut self, len: usize) -> Result<Vec<u8>, Error> {
        if self.exhausted {
            Err(Error::DmaError)
        } else {
            Ok(vec![0; len])
        }
    }
}

fn hal() -> MockHal {
    MockHal { exhausted: false }
}

type Console = VirtIOConsole<MockHal, MockTransport, MockQueue>;

fn console_on(dev: &Rc<RefCell<Device>>) -> Console {
    Console::new(MockTransport { dev: dev.clone() }, hal()).expect("construction failed")
}

#[test]
fn construction_primes_one_receive_request() {
    let dev = Device::new(80, 24, 1);
    let _console = console_on(&dev);
    let d = dev.borrow();
    assert!(d.ready);
    assert_eq!(d.driver_features, Some(FEATURE_RING_EVENT_IDX));
    assert_eq!(
        d.queues_built,
        vec![
            (QUEUE_RECEIVEQ_PORT_0, QUEUE_SIZE, false, true),
            (QUEUE_TRANSMITQ_PORT_0, QUEUE_SIZE, false, true)
        ]
    );
    assert_eq!(d.rx_requests, vec![(0, PAGE_SIZE)]);
    assert_eq!(d.events, vec!["add 0".to_string(), "notify 0".to_string()]);
    assert_eq!(
        d.log,
        vec![
            TransportEvent::BeginInit(SUPPORTED_FEATURES, FEATURE_RING_EVENT_IDX),
            TransportEvent::QueueSet(QUEUE_RECEIVEQ_PORT_0),
            TransportEvent::QueueSet(QUEUE_TRANSMITQ_PORT_0),
            TransportEvent::FinishInit,
            TransportEvent::Notify(QUEUE_RECEIVEQ_PORT_0),
        ]
    );
    assert_eq!(d.rx_outstanding, vec![Request { token: 0, readable: 0, writable: PAGE_SIZE }]);
}

#[test]
fn failed_first_request_detaches_queues() {
    let dev = Device::new(80, 24, 1);
    dev.borrow_mut().rx_add_error = Some(Error::QueueFull);
    let r = Console::new(MockTransport { dev: dev.clone() }, hal());
    assert!(matches!(r, Err(Error::QueueFull)));
    let d = dev.borrow();
    assert_eq!(d.attached, [false, false]);
    assert_eq!(
        d.log[d.log.len() - 2..],
        [
            TransportEvent::QueueUnset(QUEUE_RECEIVEQ_PORT_0),
            TransportEvent::QueueUnset(QUEUE_TRANSMITQ_PORT_0)
        ]
    );
}

#[test]
fn hello_scenario() {
    let dev = Device::new(80, 24, 1);
    let mut console = console_on(&dev);
    assert_eq!(console.info(), ConsoleInfo { rows: 24, columns: 80, max_ports: 1 });
    dev.borrow_mut().complete_receive(b"hello");
    assert_eq!(console.ack_interrupt(), Ok(true));
    for &c in b"hello" {
        assert_eq!(console.recv(true), Ok(Some(c)));
    }
    assert_eq!(dev.borrow().rx_requests.len(), 2);
    assert_eq!(console.recv(true), Ok(None));
    assert_eq!(dev.borrow().rx_requests.len(), 2);
}

#[test]
fn info_reads_each_register() {
    let dev = Device::new(132, 43, 4);
    let console = console_on(&dev);
    assert_eq!(console.info(), ConsoleInfo { rows: 43, columns: 132, max_ports: 4 });
}

#[test]
fn send_waits_for_completion() {
    let dev = Device::new(80, 24, 1);
    let mut console = console_on(&dev);
    dev.borrow_mut().events.clear();
    assert_eq!(console.send(b'A'), Ok(()));
    let d = dev.borrow();
    assert_eq!(d.tx_sent, vec![vec![b'A']]);
    assert_eq!(
        d.events,
        vec![
            "add 1".to_string(),
            "notify 1".to_string(),
            "complete 1 token 1".to_string(),
            "pop 1".to_string()
        ]
    );
}

#[test]
fn send_leaves_receive_side_alone() {
    let dev = Device::new(80, 24, 1);
    let mut console = console_on(&dev);
    dev.borrow_mut().complete_receive(b"q");
    assert_eq!(console.send(b'x'), Ok(()));
    assert_eq!(console.send(b'y'), Ok(()));
    assert_eq!(dev.borrow().tx_sent, vec![vec![b'x'], vec![b'y']]);
    assert_eq!(console.recv(true), Ok(Some(b'q')));
}

#[test]
fn fresh_handle_has_no_data() {
    let dev = Device::new(80, 24, 1);
    let mut console = console_on(&dev);
    assert_eq!(console.recv(false), Ok(None));
    assert_eq!(console.recv(true), Ok(None));
    assert_eq!(console.ack_interrupt(), Ok(false));
    assert_eq!(dev.borrow().rx_requests.len(), 1);
}

#[test]
fn repeated_polls_keep_one_request() {
    let dev = Device::new(80, 24, 1);
    let mut console = console_on(&dev);
    for _ in 0..5 {
        assert_eq!(console.recv(true), Ok(None));
    }
    dev.borrow_mut().complete_receive(b"ab");
    assert_eq!(console.recv(false), Ok(Some(b'a')));
    assert_eq!(console.recv(false), Ok(Some(b'a')));
    assert_eq!(dev.borrow().rx_requests.len(), 1);
}

#[test]
fn drain_then_refill() {
    let dev = Device::new(80, 24, 1);
    let mut console = console_on(&dev);
    dev.borrow_mut().complete_receive(b"abc");
    assert_eq!(console.recv(true), Ok(Some(b'a')));
    assert_eq!(dev.borrow().rx_requests.len(), 1);
    assert_eq!(console.recv(true), Ok(Some(b'b')));
    assert_eq!(dev.borrow().rx_requests.len(), 1);
    assert_eq!(console.recv(true), Ok(Some(b'c')));
    assert_eq!(dev.borrow().rx_requests.len(), 2);
    assert_eq!(dev.borrow().rx_requests[1], (1, PAGE_SIZE));
    assert_eq!(console.recv(true), Ok(None));
    assert_eq!(dev.borrow().rx_requests.len(), 2);
    dev.borrow_mut().complete_receive(b"d");
    assert_eq!(console.recv(true), Ok(Some(b'd')));
    assert_eq!(dev.borrow().rx_requests.len(), 3);
}

#[test]
fn full_page_receive() {
    let dev = Device::new(80, 24, 1);
    let mut console = console_on(&dev);
    let data: Vec<u8> = (0..PAGE_SIZE).map(|i| (i % 251) as u8).collect();
    dev.borrow_mut().complete_receive(&data);
    assert_eq!(console.ack_interrupt(), Ok(true));
    for &b in &data {
        assert_eq!(console.recv(true), Ok(Some(b)));
    }
    assert_eq!(console.recv(true), Ok(None));
    assert_eq!(dev.borrow().rx_requests.len(), 2);
}

#[test]
fn ack_without_interrupt_leaves_completion_for_polling() {
    let dev = Device::new(80, 24, 1);
    let mut console = console_on(&dev);
    dev.borrow_mut().complete_receive(b"z");
    dev.borrow_mut().interrupt_pending = false;
    assert_eq!(console.ack_interrupt(), Ok(false));
    assert_eq!(console.recv(false), Ok(Some(b'z')));
}

#[test]
fn ack_with_interrupt_but_no_completion() {
    let dev = Device::new(80, 24, 1);
    let mut console = console_on(&dev);
    dev.borrow_mut().interrupt_pending = true;
    assert_eq!(console.ack_interrupt(), Ok(false));
    assert_eq!(console.recv(true), Ok(None));
}

#[test]
fn zero_length_completion_is_a_fault() {
    let dev = Device::new(80, 24, 1);
    let mut console = console_on(&dev);
    dev.borrow_mut().complete_receive(b"");
    assert_eq!(console.ack_interrupt(), Err(Error::ProtocolViolation));
    assert_eq!(console.recv(true), Err(Error::ProtocolViolation));
    assert_eq!(console.recv(false), Err(Error::ProtocolViolation));
    dev.borrow_mut().interrupt_pending = true;
    assert_eq!(console.ack_interrupt(), Err(Error::ProtocolViolation));
    assert_eq!(dev.borrow().rx_requests.len(), 1);
}

#[test]
fn zero_length_completion_seen_by_recv() {
    let dev = Device::new(80, 24, 1);
    let mut console = console_on(&dev);
    dev.borrow_mut().complete_receive(b"");
    assert_eq!(console.recv(false), Err(Error::ProtocolViolation));
    assert_eq!(console.recv(false), Err(Error::ProtocolViolation));
}

#[test]
fn resubmission_failure_is_reported() {
    let dev = Device::new(80, 24, 1);
    let mut console = console_on(&dev);
    dev.borrow_mut().complete_receive(b"k");
    dev.borrow_mut().rx_add_error = Some(Error::QueueFull);
    assert_eq!(console.recv(true), Err(Error::QueueFull));
    assert_eq!(console.recv(true), Ok(None));
    assert_eq!(dev.borrow().rx_requests.len(), 1);
}

#[test]
fn destroy_detaches_before_freeing() {
    let dev = Device::new(80, 24, 1);
    let console = console_on(&dev);
    dev.borrow_mut().events.clear();
    let before = dev.borrow().log.clone();
    let transport = console.destroy();
    let mut expected = before;
    expected.push(TransportEvent::QueueUnset(QUEUE_RECEIVEQ_PORT_0));
    expected.push(TransportEvent::QueueUnset(QUEUE_TRANSMITQ_PORT_0));
    assert_eq!(transport.log(), expected);
    assert_eq!(
        dev.borrow().events,
        vec![
            "unset 0".to_string(),
            "unset 1".to_string(),
            "free 0".to_string(),
            "free 1".to_string()
        ]
    );
}

#[test]
fn destroy_with_unread_data() {
    let dev = Device::new(80, 24, 1);
    let mut console = console_on(&dev);
    dev.borrow_mut().complete_receive(b"xy");
    assert_eq!(console.recv(true), Ok(Some(b'x')));
    dev.borrow_mut().events.clear();
    let _ = console.destroy();
    assert_eq!(dev.borrow().events[0..2], ["unset 0".to_string(), "unset 1".to_string()]);
    assert_eq!(dev.borrow().attached, [false, false]);
}

#[test]
fn missing_config_space() {
    let dev = Device::new(80, 24, 1);
    dev.borrow_mut().has_config = false;
    let r = Console::new(MockTransport { dev: dev.clone() }, hal());
    assert!(matches!(r, Err(Error::ConfigSpaceMissing)));
}

#[test]
fn config_space_too_small() {
    let dev = Device::new(80, 24, 1);
    dev.borrow_mut().config.truncate(CONFIG_SPACE_SIZE - 4);
    let r = Console::new(MockTransport { dev: dev.clone() }, hal());
    assert!(matches!(r, Err(Error::ConfigSpaceTooSmall)));
    assert!(dev.borrow().queues_built.is_empty());
}

#[test]
fn transmit_queue_failure_aborts_construction() {
    let dev = Device::new(80, 24, 1);
    dev.borrow_mut().fail_queue = Some(QUEUE_TRANSMITQ_PORT_0);
    let r = Console::new(MockTransport { dev: dev.clone() }, hal());
    assert!(matches!(r, Err(Error::Unsupported)));
    assert!(!dev.borrow().ready);
    assert_eq!(dev.borrow().attached, [false, false]);
    assert_eq!(dev.borrow().log.last(), Some(&TransportEvent::QueueUnset(QUEUE_RECEIVEQ_PORT_0)));
}

#[test]
fn staging_buffer_allocation_failure() {
    let dev = Device::new(80, 24, 1);
    let r = Console::new(MockTransport { dev: dev.clone() }, MockHal { exhausted: true });
    assert!(matches!(r, Err(Error::DmaError)));
    let d = dev.borrow();
    assert!(!d.ready);
    assert_eq!(d.attached, [false, false]);
    assert!(d.rx_requests.is_empty());
}

#[test]
fn first_request_failure_aborts_construction() {
    let dev = Device::new(80, 24, 1);
    dev.borrow_mut().rx_add_error = Some(Error::QueueFull);
    let r = Console::new(MockTransport { dev: dev.clone() }, hal());
    assert!(matches!(r, Err(Error::QueueFull)));
}

#[test]
fn both_ring_features_negotiated() {
    let dev = Device::new(80, 24, 1);
    dev.borrow_mut().offered_features = u64::MAX;
    let _console = console_on(&dev);
    let d = dev.borrow();
    assert_eq!(d.driver_features, Some(SUPPORTED_FEATURES));
    assert_eq!(d.queues_built[0], (QUEUE_RECEIVEQ_PORT_0, QUEUE_SIZE, true, true));
    assert_eq!(d.queues_built[1], (QUEUE_TRANSMITQ_PORT_0, QUEUE_SIZE, true, true));
}

#[test]
fn ring_options_follow_negotiated_bits() {
    assert_eq!(SUPPORTED_FEATURES, 0x3000_0000);
    assert_eq!(ring_options(0), (false, false));
    assert_eq!(ring_options(FEATURE_RING_INDIRECT_DESC), (true, false));
    assert_eq!(ring_options(FEATURE_RING_EVENT_IDX), (false, true));
    assert_eq!(ring_options(SUPPORTED_FEATURES | FEATURE_VERSION_1), (true, true));
}

#[test]
fn config_space_sizes() {
    assert_eq!(check_config_space(None), Err(Error::ConfigSpaceMissing));
    assert_eq!(check_config_space(Some(0)), Err(Error::ConfigSpaceTooSmall));
    assert_eq!(check_config_space(Some(11)), Err(Error::ConfigSpaceTooSmall));
    assert_eq!(check_config_space(Some(12)), Ok(()));
    assert_eq!(check_config_space(Some(256)), Ok(()));
}
