//! Solid fill of the framebuffer described by the boot handoff.

use crate::boot::BootInfo;
use vstd::prelude::*;

verus! {

/// The fill color: blue, in BGR byte order.
pub const COLOR_BLUE: u32 = 0x00FF0000;

/// Fills the framebuffer with the fixed color. `region` is the run of
/// 32-bit pixel cells mapped at the descriptor's framebuffer address; a
/// zero address means no framebuffer was provided, and nothing is written.
///
/// Exactly the first `width * height` cells are painted and every other
/// cell is left untouched. The pixel count deliberately ignores `stride` -
/// a documented latent geometry assumption, not to be silently altered: on
/// hardware whose row stride exceeds the width, trailing bytes per row stay
/// unpainted.
pub fn fill_framebuffer(boot_info: &BootInfo, region: &mut Vec<u32>)
    requires
        boot_info.framebuffer_addr != 0 ==> boot_info.framebuffer_width
            * boot_info.framebuffer_height <= old(region)@.len(),
    ensures
        final (region)@.len() == old(region)@.len(),
        boot_info.framebuffer_addr == 0 ==> final (region)@ == old(region)@,
        boot_info.framebuffer_addr != 0 ==> forall|i: int|
            0 <= i < boot_info.framebuffer_width * boot_info.framebuffer_height
                ==> final (region)@[i] == COLOR_BLUE,
        boot_info.framebuffer_addr != 0 ==> forall|i: int|
            boot_info.framebuffer_width * boot_info.framebuffer_height <= i < old(region)@.len()
                ==> final (region)@[i] == old(region)@[i],
{
    if boot_info.framebuffer_addr != 0 {
        // Binding the length as a machine word bounds the pixel count, so
        // the product below cannot overflow.
        let cells_available: usize = region.len();
        let count: usize = boot_info.framebuffer_width * boot_info.framebuffer_height;
        assert(count <= cells_available);
        let mut i: usize = 0;
        while i < count
            invariant
                i <= count,
                count == boot_info.framebuffer_width * boot_info.framebuffer_height,
                region@.len() == old(region)@.len(),
                count <= region@.len(),
                forall|j: int| 0 <= j < i ==> region@[j] == COLOR_BLUE,
                forall|j: int| i <= j < region@.len() ==> region@[j] == old(region)@[j],
            decreases count - i,
        {
            region.set(i, COLOR_BLUE);
            i += 1;
        }
    }
}

} // verus!
