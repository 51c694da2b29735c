//! Driver for a paravirtualized console device reached through shared-memory rings.
//!
//! The driver keeps one receive request primed against the receive ring, hands the received
//! bytes out one at a time, and sends bytes through a blocking round trip on the transmit ring.
//! The ring and device transports and the platform's memory are collaborators, described by
//! the [`VirtQueue`], [`Transport`] and [`Hal`] traits.
use vstd::prelude::*;

mod console;
mod error;
mod features;
mod hal;
mod queue;
mod transport;

pub use console::{
    check_config_space, config_space_check, notify_events, ring_layout, rx_request, ConsoleInfo,
    RxView, VirtIOConsole,
    CONFIG_COLS_OFFSET, CONFIG_EMERG_WR_OFFSET, CONFIG_MAX_NR_PORTS_OFFSET, CONFIG_ROWS_OFFSET,
    CONFIG_SPACE_SIZE, QUEUE_RECEIVEQ_PORT_0, QUEUE_SIZE, QUEUE_TRANSMITQ_PORT_0,
};
pub use error::Error;
pub use features::{
    has_feature, ring_options, FEATURE_ACCESS_PLATFORM, FEATURE_ANY_LAYOUT, FEATURE_EMERG_WRITE,
    FEATURE_IN_ORDER, FEATURE_MULTIPORT, FEATURE_NOTIFICATION_DATA, FEATURE_NOTIFY_ON_EMPTY,
    FEATURE_ORDER_PLATFORM, FEATURE_RING_EVENT_IDX, FEATURE_RING_INDIRECT_DESC,
    FEATURE_RING_PACKED, FEATURE_SIZE, FEATURE_SR_IOV, FEATURE_UNUSED, FEATURE_VERSION_1,
    SUPPORTED_FEATURES,
};
pub use hal::Hal;
pub use queue::{QueueLayout, Request, VirtQueue};
pub use transport::{Transport, TransportEvent};

verus! {

/// Size of a memory page, which is also the size of the receive staging buffer.
pub const PAGE_SIZE: usize = 4096;

} // verus!
