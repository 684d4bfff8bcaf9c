//! Boot handoff records: the data contract between the bootloader and the
//! kernel entry point.

use vstd::prelude::*;

verus! {

/// Magic sentinel identifying a valid kernel image ("GRAPEOS" in hex).
pub const KERNEL_MAGIC: u64 = 0x4752415045_4F53_00;

/// Entry-point offset recorded in the header, relative to the kernel start.
pub const KERNEL_ENTRY_OFFSET: u64 = 0x1000;

/// Fixed-layout descriptor passed once from the bootloader to the kernel
/// entry point. An address field equal to 0 means "not provided".
pub struct BootInfo {
    pub memory_map_addr: u64,
    pub memory_map_size: usize,
    pub memory_map_entry_size: usize,
    pub framebuffer_addr: u64,
    pub framebuffer_width: usize,
    pub framebuffer_height: usize,
    pub framebuffer_stride: usize,
}

impl BootInfo {
    /// Builds a handoff record from the memory-map fields alone; the
    /// framebuffer descriptor starts out absent (all fields zero).
    pub fn new(
        memory_map_addr: u64,
        memory_map_size: usize,
        memory_map_entry_size: usize,
    ) -> (r: Self)
        ensures
            r.memory_map_addr == memory_map_addr,
            r.memory_map_size == memory_map_size,
            r.memory_map_entry_size == memory_map_entry_size,
            r.framebuffer_addr == 0,
            r.framebuffer_width == 0,
            r.framebuffer_height == 0,
            r.framebuffer_stride == 0,
    {
        Self {
            memory_map_addr,
            memory_map_size,
            memory_map_entry_size,
            framebuffer_addr: 0,
            framebuffer_width: 0,
            framebuffer_height: 0,
            framebuffer_stride: 0,
        }
    }
}

/// Link-time-placed metadata record that the bootloader validates before
/// transferring control. Read-only at runtime.
pub struct KernelHeader {
    pub magic: u64,
    pub entry_point: u64,
    pub size: u64,
}

impl KernelHeader {
    /// A header is valid when it carries the magic sentinel.
    pub open spec fn is_valid(self) -> bool {
        self.magic == KERNEL_MAGIC
    }

    /// The header value the build places at the linker-known location. The
    /// image size is left at zero for the build process to fill in.
    pub fn new() -> (h: Self)
        ensures
            h.magic == KERNEL_MAGIC,
            h.entry_point == KERNEL_ENTRY_OFFSET,
            h.size == 0,
            h.is_valid(),
    {
        Self { magic: KERNEL_MAGIC, entry_point: KERNEL_ENTRY_OFFSET, size: 0 }
    }
}

} // verus!
