//! The system bus: a single-slot transaction latch shared by bus masters
//! (CPU, DMA) and the memory unit that serves them.

use vstd::prelude::*;

verus! {

/// Width of a bus access.
#[derive(Copy, Clone, Debug, PartialEq, Eq, Structural)]
pub enum AccessWidth {
    Bit8,
    Bit16,
    Bit32,
}

/// Direction of a bus access; reads tell instruction fetches from data loads.
#[derive(Copy, Clone, Debug, PartialEq, Eq, Structural)]
pub enum OperationType {
    Read { is_instruction: bool },
    Write,
}

/// One bus transaction as a master presents it.
#[derive(Copy, Clone, Debug, PartialEq, Eq, Structural)]
pub struct MemoryRequest {
    pub address: u32,
    pub width: AccessWidth,
    pub op: OperationType,
    /// True iff this access directly follows the previous one in memory.
    pub seq: bool,
}

/// The shared latch. A master stores a request; the slave takes it, may hold
/// `busy` while it works, and leaves its answer in `data`.
pub struct Bus {
    /// The outstanding request, if any. Set only by a master.
    pub request: Option<MemoryRequest>,
    /// True while a device is still working on a request.
    pub busy: bool,
    /// Set by a DMA master to keep the CPU off the bus.
    pub dma_active: bool,
    /// Last word read or written. Writers mirror narrow values over all 32 bits.
    pub data: u32,
}

impl Bus {
    /// Latches `request`. At most one request may be outstanding.
    #[inline]
    pub fn make_request(&mut self, request: MemoryRequest)
        requires
            old(self).request is None,
        ensures
            final(self).request == Some(request),
            final(self).busy == old(self).busy,
            final(self).dma_active == old(self).dma_active,
            final(self).data == old(self).data,
    {
        self.request = Some(request);
    }

    /// Whether the CPU must hold off this cycle.
    #[inline]
    pub fn should_cpu_wait(&self) -> (r: bool)
        ensures
            r == (self.busy || self.dma_active),
    {
        self.busy || self.dma_active
    }

    /// Whether a DMA master must hold off this cycle.
    #[inline]
    pub fn should_dma_wait(&self) -> (r: bool)
        ensures
            r == self.busy,
    {
        self.busy
    }

    /// Removes and returns the outstanding request; the slave calls this when
    /// it starts to serve a transaction.
    pub fn take_request(&mut self) -> (r: Option<MemoryRequest>)
        ensures
            r == old(self).request,
            final(self).request is None,
            final(self).busy == old(self).busy,
            final(self).dma_active == old(self).dma_active,
            final(self).data == old(self).data,
    {
        let r = self.request;
        self.request = None;
        r
    }
}

impl Default for Bus {
    /// An idle bus: no request, nobody busy, all data lines high.
    fn default() -> (r: Bus)
        ensures
            r.request is None,
            !r.busy,
            !r.dma_active,
            r.data == 0xFFFF_FFFFu32,
    {
        Bus { request: None, busy: false, dma_active: false, data: 0xFFFF_FFFF }
    }
}

} // verus!
