//! Resampling a pixel buffer to a target size through the image crate.

use vstd::prelude::*;

use crate::frame::RgbaBuffer;

verus! {

/// Which resampling filter to use.
#[derive(Debug, Clone, Copy, PartialEq, Eq, Structural)]
pub enum ResampleFilter {
    /// Linear interpolation; the Unicode compositor's filter.
    Triangle,
    /// High-quality antialiasing for the graphics paths.
    Lanczos3,
    /// Fast nearest-neighbor sampling, no antialiasing.
    Nearest,
}

/// A stable code for each filter, used to index the resampling function.
pub open spec fn filter_code(filter: ResampleFilter) -> int {
    match filter {
        ResampleFilter::Triangle => 0,
        ResampleFilter::Lanczos3 => 1,
        ResampleFilter::Nearest => 2,
    }
}

/// The bytes that resampling a `src_w` by `src_h` RGBA buffer to
/// `dst_w` by `dst_h` with the given filter produces.
pub uninterp spec fn resampled(
    data: Seq<u8>,
    src_w: int,
    src_h: int,
    dst_w: int,
    dst_h: int,
    filter: int,
) -> Seq<u8>;

/// Relies on image's `imageops::resize`: the result is an image of exactly
/// the requested dimensions and depends only on the source pixels, the
/// sizes and the filter.
#[verifier::external_body]
fn resize_raw(data: &Vec<u8>, src_w: u32, src_h: u32, dst_w: u32, dst_h: u32,
    filter: ResampleFilter) -> (r: Vec<u8>)
    requires
        data@.len() == 4 * src_w * src_h,
        src_w >= 1,
        src_h >= 1,
        dst_w >= 1,
        dst_h >= 1,
        4 * dst_w * dst_h <= usize::MAX,
    ensures
        r@.len() == 4 * dst_w * dst_h,
        r@ == resampled(data@, src_w as int, src_h as int, dst_w as int, dst_h as int,
            filter_code(filter)),
{
    let img = image::RgbaImage::from_raw(src_w, src_h, data.clone()).unwrap();
    let ft = match filter {
        ResampleFilter::Triangle => image::imageops::FilterType::Triangle,
        ResampleFilter::Lanczos3 => image::imageops::FilterType::Lanczos3,
        ResampleFilter::Nearest => image::imageops::FilterType::Nearest,
    };
    image::imageops::resize(&img, dst_w, dst_h, ft).into_raw()
}

/// A byte-for-byte copy of a vector.
fn clone_bytes(v: &Vec<u8>) -> (r: Vec<u8>)
    ensures
        r@ == v@,
{
    let mut out: Vec<u8> = Vec::new();
    let n = v.len();
    let mut i: usize = 0;
    while i < n
        invariant
            i <= n,
            n == v@.len(),
            out@ == v@.subrange(0, i as int),
        decreases n - i,
    {
        out.push(v[i]);
        proof {
            assert(out@ =~= v@.subrange(0, i + 1));
        }
        i = i + 1;
    }
    proof {
        assert(out@ =~= v@);
    }
    out
}

/// The data a frame carries after being brought to the target size: the
/// original bytes when the size already matches, else the resampled bytes.
pub open spec fn spec_scaled_data(
    data: Seq<u8>,
    src_w: int,
    src_h: int,
    dst_w: int,
    dst_h: int,
    filter: ResampleFilter,
) -> Seq<u8> {
    if dst_w == src_w && dst_h == src_h {
        data
    } else {
        resampled(data, src_w, src_h, dst_w, dst_h, filter_code(filter))
    }
}

/// Brings a buffer to the target size, resampling unless the size already
/// matches.
pub fn scale_to(buffer: &RgbaBuffer, dst_w: u32, dst_h: u32, filter: ResampleFilter) -> (r:
    RgbaBuffer)
    requires
        buffer.wf(),
        buffer.width >= 1,
        buffer.height >= 1,
        dst_w >= 1,
        dst_h >= 1,
        4 * dst_w * dst_h <= usize::MAX,
    ensures
        r.wf(),
        r.width == dst_w,
        r.height == dst_h,
        r.data@ == spec_scaled_data(buffer.data@, buffer.width as int, buffer.height as int,
            dst_w as int, dst_h as int, filter),
{
    if dst_w == buffer.width && dst_h == buffer.height {
        RgbaBuffer { width: dst_w, height: dst_h, data: clone_bytes(&buffer.data) }
    } else {
        let data = resize_raw(&buffer.data, buffer.width, buffer.height, dst_w, dst_h, filter);
        RgbaBuffer { width: dst_w, height: dst_h, data }
    }
}

} // verus!
