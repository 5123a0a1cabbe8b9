//! DirectX to Vulkan translation layer for bare metal.
//!
//! D3D9, D3D11, D3D12 and DXGI interfaces are presented as COM objects kept
//! in a `com::ComHeap`.

use vstd::prelude::*;

pub mod com;
pub mod d3d9;
pub mod d3d11;
pub mod d3d12;
pub mod dxgi;

verus! {

/// Initialize the bridge: COM infrastructure (the live-object counter is set
/// to the number of live objects, 0 at start-up) and DXGI.
pub fn init(heap: &mut com::ComHeap)
    requires
        com::heap_wf(old(heap)@),
    ensures
        final(heap).wf(),
        final(heap)@ == old(heap)@,
        final(heap).live_count() == com::live_slots(old(heap)@),
{
    com::init(heap);
    dxgi::init();
}

} // verus!
