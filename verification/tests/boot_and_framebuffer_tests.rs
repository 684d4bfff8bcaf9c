use grapeos_core::boot::{BootInfo, KernelHeader, KERNEL_MAGIC};
use grapeos_core::framebuffer::{fill_framebuffer, COLOR_BLUE};

#[test]
fn boot_info_new_leaves_framebuffer_absent() {
    let info = BootInfo::new(0x8000, 4096, 48);
    assert_eq!(info.memory_map_addr, 0x8000);
    assert_eq!(info.memory_map_size, 4096);
    assert_eq!(info.memory_map_entry_size, 48);
    assert_eq!(info.framebuffer_addr, 0);
    assert_eq!(info.framebuffer_width, 0);
    assert_eq!(info.framebuffer_height, 0);
    assert_eq!(info.framebuffer_stride, 0);
}

#[test]
fn kernel_header_carries_magic_sentinel() {
    let header = KernelHeader::new();
    assert_eq!(header.magic, KERNEL_MAGIC);
    assert_eq!(header.magic, 0x4752415045_4F53_00);
    assert_eq!(header.entry_point, 0x1000);
    assert_eq!(header.size, 0);
}

#[test]
fn fill_paints_width_times_height_cells_and_no_others() {
    let info = BootInfo {
        memory_map_addr: 0,
        memory_map_size: 0,
        memory_map_entry_size: 0,
        framebuffer_addr: 0xA000,
        framebuffer_width: 2,
        framebuffer_height: 2,
        framebuffer_stride: 2,
    };
    // The region stands for the memory mapped at the framebuffer address,
    // with two spare cells past the painted area.
    let mut region: Vec<u32> = vec![0xDEAD; 6];
    fill_framebuffer(&info, &mut region);
    assert_eq!(&region[0..4], &[COLOR_BLUE; 4]);
    assert_eq!(region[4], 0xDEAD);
    assert_eq!(region[5], 0xDEAD);
}

#[test]
fn fill_with_zero_address_writes_nothing() {
    let info = BootInfo {
        memory_map_addr: 0,
        memory_map_size: 0,
        memory_map_entry_size: 0,
        framebuffer_addr: 0,
        framebuffer_width: 1024,
        framebuffer_height: 768,
        framebuffer_stride: 1024,
    };
    let mut region: Vec<u32> = vec![0x1234; 8];
    fill_framebuffer(&info, &mut region);
    assert_eq!(region, vec![0x1234; 8]);
}
