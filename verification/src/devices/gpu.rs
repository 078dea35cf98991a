//! A GPU as the layer allocator sees it.

use vstd::prelude::*;

verus! {

/// A GPU of any vendor, with what has been placed on it.
#[derive(Debug, Clone, Copy, PartialEq, Eq, Structural)]
pub struct GpuDevice {
    pub ordinal: u32,
    pub available_vram_bytes: u64,
    pub allocated_layer_bytes: u64,
    pub allocated_buffer_bytes: u64,
    pub allocated_layers: u64,
    pub is_main_gpu: bool,
}

impl Default for GpuDevice {
    /// Device zero with no memory, nothing placed on it.
    fn default() -> (gpu: GpuDevice)
        ensures
            gpu == (GpuDevice {
                ordinal: 0,
                available_vram_bytes: 0,
                allocated_layer_bytes: 0,
                allocated_buffer_bytes: 0,
                allocated_layers: 0,
                is_main_gpu: false,
            }),
    {
        GpuDevice {
            ordinal: 0,
            available_vram_bytes: 0,
            allocated_layer_bytes: 0,
            allocated_buffer_bytes: 0,
            allocated_layers: 0,
            is_main_gpu: false,
        }
    }
}

} // verus!
