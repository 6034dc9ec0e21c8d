//! NV12 to RGBA conversion: the CPU fallback (BT.709, limited range), the
//! sizes of host copies, the persistent device output buffer, and the launch
//! parameters of the GPU conversion kernel.

use vstd::prelude::*;
use vstd::arithmetic::div_mod::lemma_fundamental_div_mod_converse;
use crate::engine::{all_opaque, rgba_len, DecodedFrame};

verus! {

pub open spec fn clamp_int(v: int, lo: int, hi: int) -> int {
    if v < lo { lo } else if v > hi { hi } else { v }
}

/// One colour channel from its fixed-point sum (8 fractional bits), rounded
/// and clamped to a byte.
pub open spec fn channel(sum: int) -> u8 {
    if sum + 128 < 0 { 0u8 } else { clamp_int((sum + 128) / 256, 0, 255) as u8 }
}

/// Luma expanded from limited range, scaled by 256.
pub open spec fn luma_term(y: u8) -> int {
    298 * (clamp_int(y as int, 16, 235) - 16)
}

pub open spec fn chroma(c: u8) -> int {
    clamp_int(c as int, 16, 240) - 128
}

/// BT.709 limited-range YUV to RGB.
pub open spec fn bt709_rgb(y: u8, u: u8, v: u8) -> (u8, u8, u8) {
    (
        channel(luma_term(y) + 459 * chroma(v)),
        channel(luma_term(y) - 55 * chroma(u) - 136 * chroma(v)),
        channel(luma_term(y) + 541 * chroma(u)),
    )
}

/// Byte `k` of the RGBA image converted from NV12 planes.
pub open spec fn nv12_rgba_byte(
    y_plane: Seq<u8>,
    uv_plane: Seq<u8>,
    width: int,
    y_pitch: int,
    uv_pitch: int,
    k: int,
) -> u8 {
    let p = k / 4;
    let row = p / width;
    let col = p % width;
    let yv = y_plane[row * y_pitch + col];
    let uv_at = (row / 2) * uv_pitch + (col / 2) * 2;
    let rgb = bt709_rgb(yv, uv_plane[uv_at], uv_plane[uv_at + 1]);
    if k % 4 == 0 { rgb.0 } else if k % 4 == 1 { rgb.1 } else if k % 4 == 2 { rgb.2 } else { 255u8 }
}

fn clamp_i32(v: i32, lo: i32, hi: i32) -> (r: i32)
    requires
        lo <= hi,
    ensures
        r == clamp_int(v as int, lo as int, hi as int),
{
    if v < lo { lo } else if v > hi { hi } else { v }
}

fn channel_of(sum: i32) -> (r: u8)
    requires
        -1_000_000 <= sum <= 1_000_000,
    ensures
        r == channel(sum as int),
{
    let s = sum + 128;
    if s < 0 {
        0
    } else {
        let q = s / 256;
        if q > 255 { 255 } else { q as u8 }
    }
}

/// Converts one BT.709 limited-range YUV sample to RGB.
pub fn bt709_to_rgb(y: u8, u: u8, v: u8) -> (r: (u8, u8, u8))
    ensures
        r == bt709_rgb(y, u, v),
{
    let yl: i32 = 298 * (clamp_i32(y as i32, 16, 235) - 16);
    let cu: i32 = clamp_i32(u as i32, 16, 240) - 128;
    let cv: i32 = clamp_i32(v as i32, 16, 240) - 128;
    (channel_of(yl + 459 * cv), channel_of(yl - 55 * cu - 136 * cv), channel_of(yl + 541 * cu))
}

/// Byte index arithmetic of pixel `(row, col)` in a tight RGBA image.
proof fn lemma_pixel_index(row: int, col: int, width: int, ch: int)
    requires
        0 <= row,
        0 <= col < width,
        0 <= ch < 4,
    ensures
        ((row * width + col) * 4 + ch) / 4 == row * width + col,
        ((row * width + col) * 4 + ch) % 4 == ch,
        (row * width + col) / width == row,
        (row * width + col) % width == col,
{
    lemma_fundamental_div_mod_converse((row * width + col) * 4 + ch, 4, row * width + col, ch);
    lemma_fundamental_div_mod_converse(row * width + col, width, row, col);
}

/// Planes are large enough for a `width x height` NV12 image.
pub open spec fn nv12_planes_fit(
    y_plane: Seq<u8>,
    uv_plane: Seq<u8>,
    width: int,
    height: int,
    y_pitch: int,
    uv_pitch: int,
) -> bool {
    &&& width <= y_pitch
    &&& 2 * ((width + 1) / 2) <= uv_pitch
    &&& y_pitch * height <= y_plane.len()
    &&& uv_pitch * ((height + 1) / 2) <= uv_plane.len()
}

/// CPU conversion of an NV12 image (full-resolution Y plane, half-height
/// interleaved UV plane) to tight RGBA8 with BT.709 limited-range
/// coefficients. Every pixel is opaque.
pub fn nv12_to_rgba(
    y_plane: &[u8],
    uv_plane: &[u8],
    width: u32,
    height: u32,
    y_pitch: u32,
    uv_pitch: u32,
) -> (out: Vec<u8>)
    requires
        nv12_planes_fit(y_plane@, uv_plane@, width as int, height as int, y_pitch as int, uv_pitch as int),
        rgba_len(width, height) <= usize::MAX,
    ensures
        out@.len() == rgba_len(width, height),
        all_opaque(out@),
        forall|k: int| 0 <= k < out@.len() ==> #[trigger] out@[k] == nv12_rgba_byte(
            y_plane@, uv_plane@, width as int, y_pitch as int, uv_pitch as int, k),
{
    let w = width as usize;
    let h = height as usize;
    let yp = y_pitch as usize;
    let uvp = uv_pitch as usize;
    let ylen = y_plane.len();
    let uvlen = uv_plane.len();
    let mut out: Vec<u8> = Vec::new();
    let mut row: usize = 0;
    while row < h
        invariant
            nv12_planes_fit(y_plane@, uv_plane@, w as int, h as int, yp as int, uvp as int),
            w == width, h == height, yp == y_pitch, uvp == uv_pitch,
            ylen == y_plane@.len(), uvlen == uv_plane@.len(),
            rgba_len(width, height) <= usize::MAX,
            0 <= row <= h,
            out@.len() == row * w * 4,
            forall|k: int| 0 <= k < out@.len() ==> #[trigger] out@[k] == nv12_rgba_byte(
                y_plane@, uv_plane@, w as int, yp as int, uvp as int, k),
        decreases h - row,
    {
        let mut col: usize = 0;
        while col < w
            invariant
                nv12_planes_fit(y_plane@, uv_plane@, w as int, h as int, yp as int, uvp as int),
                w == width, h == height, yp == y_pitch, uvp == uv_pitch,
                ylen == y_plane@.len(), uvlen == uv_plane@.len(),
                rgba_len(width, height) <= usize::MAX,
                0 <= row < h,
                0 <= col <= w,
                out@.len() == (row * w + col) * 4,
                forall|k: int| 0 <= k < out@.len() ==> #[trigger] out@[k] == nv12_rgba_byte(
                    y_plane@, uv_plane@, w as int, yp as int, uvp as int, k),
            decreases w - col,
        {
            proof {
                assert(row * yp + col < yp * h) by (nonlinear_arith)
                    requires row < h, col < w, w <= yp;
                let ghost r2 = row / 2;
                let ghost c2 = col / 2;
                assert(c2 * 2 + 1 < 2 * ((w + 1) / 2));
                assert(r2 + 1 <= (h + 1) / 2);
                assert(r2 * uvp + c2 * 2 + 1 < (r2 + 1) * uvp) by (nonlinear_arith)
                    requires c2 * 2 + 1 < uvp, r2 >= 0;
                assert((r2 + 1) * uvp <= uvp * ((h + 1) / 2)) by (nonlinear_arith)
                    requires r2 + 1 <= (h + 1) / 2, uvp >= 0;
                assert((row * w + col + 1) * 4 <= w * h * 4) by (nonlinear_arith)
                    requires row < h, col < w;
                assert(row * yp <= row * yp + col);
                assert(row * yp + col < y_plane@.len());
                assert((row / 2) * uvp + (col / 2) * 2 + 1 < uv_plane@.len());
                assert((row / 2) * uvp <= (row / 2) * uvp + (col / 2) * 2);
            }
            let yv = y_plane[row * yp + col];
            let uv_at = (row / 2) * uvp + (col / 2) * 2;
            let rgb = bt709_to_rgb(yv, uv_plane[uv_at], uv_plane[uv_at + 1]);
            let ghost base = (row * w + col) * 4;
            proof {
                lemma_pixel_index(row as int, col as int, w as int, 0);
                lemma_pixel_index(row as int, col as int, w as int, 1);
                lemma_pixel_index(row as int, col as int, w as int, 2);
                lemma_pixel_index(row as int, col as int, w as int, 3);
            }
            out.push(rgb.0);
            out.push(rgb.1);
            out.push(rgb.2);
            out.push(255u8);
            assert(out@.len() == (row * w + col + 1) * 4) by (nonlinear_arith)
                requires out@.len() == base + 4, base == (row * w + col) * 4;
            col = col + 1;
        }
        assert(out@.len() == (row + 1) * w * 4) by (nonlinear_arith)
            requires out@.len() == (row * w + w) * 4;
        row = row + 1;
    }
    assert(out@.len() == rgba_len(width, height)) by (nonlinear_arith)
        requires out@.len() == h * w * 4, w == width, h == height;
    assert forall|i: int| 0 <= i < out@.len() && i % 4 == 3 implies #[trigger] out@[i] == 255u8 by {
        assert(out@[i] == nv12_rgba_byte(y_plane@, uv_plane@, w as int, yp as int, uvp as int, i));
    }
    out
}


/// Bytes of an NV12 host copy: `pitch * height` of Y, then
/// `pitch * ceil(height / 2)` of interleaved UV.
pub open spec fn nv12_host_len(pitch: u32, height: u32) -> int {
    pitch * height + pitch * ((height + 1) / 2)
}

/// Size of the host buffer for an NV12 copy of a mapped frame.
pub fn nv12_host_size(pitch: u32, height: u32) -> (r: usize)
    requires
        nv12_host_len(pitch, height) <= usize::MAX,
    ensures
        r == nv12_host_len(pitch, height),
{
    proof {
        assert(pitch * height <= nv12_host_len(pitch, height)) by (nonlinear_arith)
            requires pitch >= 0, height >= 0, pitch * ((height + 1) / 2) >= 0;
        assert(pitch * ((height + 1) / 2) >= 0) by (nonlinear_arith)
            requires pitch >= 0, height >= 0;
        assert(pitch * ((height + 1) / 2) <= nv12_host_len(pitch, height));
        assert(pitch * height >= 0) by (nonlinear_arith)
            requires pitch >= 0, height >= 0;
    }
    let half: u32 = height / 2 + height % 2;
    assert(half == (height + 1) / 2);
    (pitch as usize) * (height as usize) + (pitch as usize) * (half as usize)
}

/// Converts an NV12 host copy (Y plane then UV plane, both with `pitch`)
/// into an RGBA frame stamped `pts_us`.
pub fn cpu_frame_from_nv12(host: &[u8], width: u32, height: u32, pitch: u32, pts_us: i64) -> (f: DecodedFrame)
    requires
        width <= pitch,
        2 * ((width + 1) / 2) <= pitch,
        host@.len() == nv12_host_len(pitch, height),
        rgba_len(width, height) <= usize::MAX,
    ensures
        f.wf(),
        f.width == width && f.height == height && f.pts_us == pts_us,
        all_opaque(f.rgba_data@),
        forall|k: int| 0 <= k < f.rgba_data@.len() ==> #[trigger] f.rgba_data@[k] == nv12_rgba_byte(
            host@.subrange(0, pitch * height),
            host@.subrange(pitch * height, host@.len() as int),
            width as int, pitch as int, pitch as int, k),
{
    proof {
        assert(pitch * height <= nv12_host_len(pitch, height)) by (nonlinear_arith)
            requires pitch >= 0, height >= 0, pitch * ((height + 1) / 2) >= 0;
        assert(pitch * ((height + 1) / 2) >= 0) by (nonlinear_arith)
            requires pitch >= 0, height >= 0;
        assert(pitch * height == height * pitch) by (nonlinear_arith);
        assert(pitch * height >= 0) by (nonlinear_arith)
            requires pitch >= 0, height >= 0;
        assert(pitch * height <= host@.len());
    }
    let n = host.len();
    assert(n == host@.len());
    let y_size = (pitch as usize) * (height as usize);
    let (y_plane, uv_plane) = host.split_at(y_size);
    let data = nv12_to_rgba(y_plane, uv_plane, width, height, pitch, pitch);
    DecodedFrame { rgba_data: data, width, height, pts_us }
}

/// The persistent device RGBA output buffer, sized for one frame.
#[derive(Clone, Copy, Debug, PartialEq, Eq, Structural)]
pub struct GpuRgbaBuffer {
    pub device_ptr: u64,
    pub width: u32,
    pub height: u32,
    /// `width * height * 4`.
    pub byte_size: usize,
}

/// Bytes of the RGBA output buffer.
pub fn rgba_byte_size(width: u32, height: u32) -> (r: usize)
    requires
        rgba_len(width, height) <= usize::MAX,
    ensures
        r == rgba_len(width, height),
{
    proof {
        assert(width * height <= width * height * 4) by (nonlinear_arith)
            requires width >= 0, height >= 0;
    }
    (width as usize) * (height as usize) * 4
}

impl GpuRgbaBuffer {
    pub open spec fn wf(&self) -> bool {
        self.byte_size == rgba_len(self.width, self.height)
    }

    /// Describes a freshly allocated buffer of `rgba_byte_size(width, height)` bytes.
    pub fn new(device_ptr: u64, width: u32, height: u32) -> (r: GpuRgbaBuffer)
        requires
            rgba_len(width, height) <= usize::MAX,
        ensures
            r.wf(),
            r.device_ptr == device_ptr && r.width == width && r.height == height,
    {
        GpuRgbaBuffer { device_ptr, width, height, byte_size: rgba_byte_size(width, height) }
    }

    /// Whether the buffer fits a frame of these dimensions.
    pub fn matches(&self, width: u32, height: u32) -> (r: bool)
        ensures
            r == (self.width == width && self.height == height),
    {
        self.width == width && self.height == height
    }
}

/// Whether a buffer must be (re)allocated before converting a frame: none
/// exists yet, or the frame's dimensions changed.
pub fn needs_allocation(buf: &Option<GpuRgbaBuffer>, width: u32, height: u32) -> (r: bool)
    ensures
        r == match *buf {
            None => true,
            Some(b) => !(b.width == width && b.height == height),
        },
{
    match buf {
        None => true,
        Some(b) => !b.matches(width, height),
    }
}

/// Wraps the host copy of the device buffer as an RGBA frame; absent when
/// the copy does not hold exactly the buffer's `width * height * 4` bytes.
pub fn gpu_frame_from_readback(data: Vec<u8>, buf: &GpuRgbaBuffer, pts_us: i64) -> (f: Option<DecodedFrame>)
    requires
        buf.wf(),
    ensures
        data@.len() == buf.byte_size ==> (f matches Some(fr) && fr.wf() && fr.rgba_data@ == data@
            && fr.width == buf.width && fr.height == buf.height && fr.pts_us == pts_us),
        data@.len() != buf.byte_size ==> f is None,
        f matches Some(fr) ==> fr.wf(),
{
    if data.len() != buf.byte_size {
        return None;
    }
    Some(DecodedFrame { rgba_data: data, width: buf.width, height: buf.height, pts_us })
}

/// Side of the square thread block of the conversion kernel.
pub const KERNEL_BLOCK: u32 = 16;

/// Arguments and launch shape of the NV12 to RGBA kernel, in the kernel's
/// argument order.
#[derive(Clone, Copy, Debug, PartialEq, Eq, Structural)]
pub struct Nv12KernelLaunch {
    pub y_ptr: u64,
    pub uv_ptr: u64,
    pub out_ptr: u64,
    pub width: i32,
    pub height: i32,
    pub y_pitch: i32,
    pub uv_pitch: i32,
    pub out_pitch: i32,
    pub grid_x: u32,
    pub grid_y: u32,
    pub block_x: u32,
    pub block_y: u32,
}

pub open spec fn ceil_div(a: int, b: int) -> int {
    (a + b - 1) / b
}

/// Launch parameters for converting a mapped frame into `buf`. The UV plane
/// is `uv_ptr` when the decoder reports one, else it follows the Y plane at
/// `height * pitch`. Output rows are tight (`width * 4`); the grid covers the
/// frame with 16x16 blocks.
pub fn nv12_kernel_launch(y_ptr: u64, uv_ptr: Option<u64>, pitch: u32, buf: &GpuRgbaBuffer) -> (r: Nv12KernelLaunch)
    requires
        buf.width * 4 <= i32::MAX,
        buf.height <= i32::MAX,
        pitch <= i32::MAX,
        uv_ptr is None ==> y_ptr + buf.height * pitch <= u64::MAX,
    ensures
        r.y_ptr == y_ptr,
        r.uv_ptr == match uv_ptr { Some(p) => p, None => (y_ptr + buf.height * pitch) as u64 },
        r.out_ptr == buf.device_ptr,
        r.width == buf.width && r.height == buf.height,
        r.y_pitch == pitch && r.uv_pitch == pitch,
        r.out_pitch == buf.width * 4,
        r.block_x == KERNEL_BLOCK && r.block_y == KERNEL_BLOCK,
        r.grid_x == ceil_div(buf.width as int, KERNEL_BLOCK as int),
        r.grid_y == ceil_div(buf.height as int, KERNEL_BLOCK as int),
{
    let uv = match uv_ptr {
        Some(p) => p,
        None => {
            proof {
                assert(0 <= buf.height * pitch) by (nonlinear_arith);
            }
            y_ptr + (buf.height as u64) * (pitch as u64)
        },
    };
    Nv12KernelLaunch {
        y_ptr,
        uv_ptr: uv,
        out_ptr: buf.device_ptr,
        width: buf.width as i32,
        height: buf.height as i32,
        y_pitch: pitch as i32,
        uv_pitch: pitch as i32,
        out_pitch: (buf.width * 4) as i32,
        grid_x: buf.width / KERNEL_BLOCK + if buf.width % KERNEL_BLOCK == 0 { 0 } else { 1 },
        grid_y: buf.height / KERNEL_BLOCK + if buf.height % KERNEL_BLOCK == 0 { 0 } else { 1 },
        block_x: KERNEL_BLOCK,
        block_y: KERNEL_BLOCK,
    }
}

} // verus!
