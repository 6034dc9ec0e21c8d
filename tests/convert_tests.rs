use nvdec_pipeline::convert::{
    bt709_to_rgb, cpu_frame_from_nv12, gpu_frame_from_readback, needs_allocation, nv12_host_size,
    nv12_kernel_launch, nv12_to_rgba, rgba_byte_size, GpuRgbaBuffer,
};

#[test]
fn bt709_reference_values() {
    assert_eq!(bt709_to_rgb(16, 128, 128), (0, 0, 0));
    assert_eq!(bt709_to_rgb(235, 128, 128), (255, 255, 255));
    assert_eq!(bt709_to_rgb(0, 128, 128), (0, 0, 0));
    assert_eq!(bt709_to_rgb(255, 128, 128), (255, 255, 255));
    // mid grey: 298 * 110 / 256 rounds to 128
    assert_eq!(bt709_to_rgb(126, 128, 128), (128, 128, 128));
    // strong red chroma
    let (r, g, b) = bt709_to_rgb(63, 102, 240);
    assert!(r > 200 && g < 40 && b < 40);
}

#[test]
fn nv12_conversion_size_and_opacity() {
    let (w, h, pitch) = (6u32, 4u32, 8u32);
    let y: Vec<u8> = (0..(pitch * h)).map(|i| (16 + i % 200) as u8).collect();
    let uv: Vec<u8> = (0..(pitch * h / 2)).map(|i| (100 + i % 50) as u8).collect();
    let out = nv12_to_rgba(&y, &uv, w, h, pitch, pitch);
    assert_eq!(out.len(), (w * h * 4) as usize);
    for i in (3..out.len()).step_by(4) {
        assert_eq!(out[i], 255);
    }
    // pixel (row 3, col 5) uses Y[3*8+5] and UV pair at row 1, col 4
    let (r, g, b) = bt709_to_rgb(y[29], uv[8 + 4], uv[8 + 5]);
    let k = ((3 * w + 5) * 4) as usize;
    assert_eq!((out[k], out[k + 1], out[k + 2]), (r, g, b));
}

#[test]
fn cpu_frame_from_host_copy() {
    let (w, h, pitch) = (64u32, 64u32, 64u32);
    let size = nv12_host_size(pitch, h);
    assert_eq!(size, (64 * 64 * 3 / 2) as usize);
    let mut host = vec![16u8; (pitch * h) as usize];
    host.resize(size, 128u8);
    let f = cpu_frame_from_nv12(&host, w, h, pitch, 33_333);
    assert_eq!((f.width, f.height, f.pts_us), (64, 64, 33_333));
    assert_eq!(f.rgba_data.len(), 16384);
    assert!(f.rgba_data.chunks(4).all(|p| p == [0, 0, 0, 255]));
}

#[test]
fn odd_height_host_copy_covers_last_chroma_row() {
    assert_eq!(nv12_host_size(16, 5), 16 * 5 + 16 * 3);
}

#[test]
fn buffer_reallocated_only_on_size_change() {
    assert!(needs_allocation(&None, 64, 64));
    let buf = GpuRgbaBuffer::new(0x9000, 64, 64);
    assert_eq!(buf.byte_size, 64 * 64 * 4);
    assert!(!needs_allocation(&Some(buf), 64, 64));
    assert!(needs_allocation(&Some(buf), 128, 64));
    assert!(buf.matches(64, 64));
    assert_eq!(rgba_byte_size(1920, 1080), 8_294_400);
}

#[test]
fn kernel_launch_shape() {
    let buf = GpuRgbaBuffer::new(0x9000, 1920, 1080);
    let l = nv12_kernel_launch(0x1000_0000, None, 2048, &buf);
    assert_eq!(l.uv_ptr, 0x1000_0000 + 1080 * 2048);
    assert_eq!((l.grid_x, l.grid_y, l.block_x, l.block_y), (120, 68, 16, 16));
    assert_eq!(l.out_pitch, 7680);
    assert_eq!(l.out_ptr, 0x9000);
    let l2 = nv12_kernel_launch(0x1000_0000, Some(0x2000_0000), 2048, &GpuRgbaBuffer::new(1, 17, 1));
    assert_eq!(l2.uv_ptr, 0x2000_0000);
    assert_eq!((l2.grid_x, l2.grid_y), (2, 1));
}

#[test]
fn readback_frame_keeps_size() {
    let buf = GpuRgbaBuffer::new(0x9000, 64, 64);
    let f = gpu_frame_from_readback(vec![7u8; buf.byte_size], &buf, 5).unwrap();
    assert_eq!((f.width, f.height, f.rgba_data.len()), (64, 64, 16384));
    assert!(gpu_frame_from_readback(vec![7u8; 100], &buf, 5).is_none());
}
