use vstd::prelude::*;

verus! {

/// Console geometry (columns and rows) is valid.
pub const FEATURE_SIZE: u64 = 0x1;
/// The device supports several ports.
pub const FEATURE_MULTIPORT: u64 = 0x2;
/// The device supports emergency writes.
pub const FEATURE_EMERG_WRITE: u64 = 0x4;
/// Legacy: notify when the available ring runs empty.
pub const FEATURE_NOTIFY_ON_EMPTY: u64 = 0x100_0000;
/// Legacy: any descriptor layout is accepted.
pub const FEATURE_ANY_LAYOUT: u64 = 0x800_0000;
/// Indirect descriptors may be used.
pub const FEATURE_RING_INDIRECT_DESC: u64 = 0x1000_0000;
/// Notifications are suppressed through event indices.
pub const FEATURE_RING_EVENT_IDX: u64 = 0x2000_0000;
/// Legacy: reserved bit.
pub const FEATURE_UNUSED: u64 = 0x4000_0000;
/// The device follows version 1 of the specification (tells legacy devices apart).
pub const FEATURE_VERSION_1: u64 = 0x1_0000_0000;
/// The device sits behind an IOMMU or similar platform translation.
pub const FEATURE_ACCESS_PLATFORM: u64 = 0x2_0000_0000;
/// Packed rings are available.
pub const FEATURE_RING_PACKED: u64 = 0x4_0000_0000;
/// Buffers are used in the order they were made available.
pub const FEATURE_IN_ORDER: u64 = 0x8_0000_0000;
/// Memory accesses are ordered as the platform orders them.
pub const FEATURE_ORDER_PLATFORM: u64 = 0x10_0000_0000;
/// Single-root I/O virtualization is supported.
pub const FEATURE_SR_IOV: u64 = 0x20_0000_0000;
/// Notifications carry extra data.
pub const FEATURE_NOTIFICATION_DATA: u64 = 0x40_0000_0000;

/// The ring features this driver knows how to use, offered to the device at start-up.
pub const SUPPORTED_FEATURES: u64 = FEATURE_RING_EVENT_IDX | FEATURE_RING_INDIRECT_DESC;

/// Whether every bit of `flag` is set in `set`.
pub open spec fn has_feature(set: u64, flag: u64) -> bool {
    set & flag == flag
}

/// The ring options that a negotiated feature set allows: whether indirect descriptors may be
/// used, and whether notifications are suppressed through event indices.
pub fn ring_options(negotiated: u64) -> (r: (bool, bool))
    ensures
        r.0 == has_feature(negotiated, FEATURE_RING_INDIRECT_DESC),
        r.1 == has_feature(negotiated, FEATURE_RING_EVENT_IDX),
{
    (
        negotiated & FEATURE_RING_INDIRECT_DESC == FEATURE_RING_INDIRECT_DESC,
        negotiated & FEATURE_RING_EVENT_IDX == FEATURE_RING_EVENT_IDX,
    )
}

} // verus!
