use vstd::prelude::*;
use crate::error::Error;

verus! {

/// The platform's memory services: DMA-capable memory that the device can reach.
///
/// The embedding system implements it for its memory management, or for a simulated device.
pub trait Hal: Sized {
    /// Allocates `len` bytes of zeroed memory that the device can read and write.
    fn dma_alloc(&mut self, len: usize) -> (r: Result<Vec<u8>, Error>)
        ensures
            r matches Ok(b) ==> b@.len() == len,
    ;
}

} // verus!
