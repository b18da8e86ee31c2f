//! Owned RGBA pixel buffers and decoded frames.

use vstd::prelude::*;

verus! {

/// One RGBA pixel, 8 bits per channel.
#[derive(Debug, Clone, Copy, PartialEq, Eq, Structural)]
pub struct Rgba {
    pub r: u8,
    pub g: u8,
    pub b: u8,
    pub a: u8,
}

/// The pixel at `(x, y)` of a row-major RGBA byte sequence of width `width`.
pub open spec fn pixel_at(data: Seq<u8>, width: int, x: int, y: int) -> Rgba {
    let i = 4 * (y * width + x);
    Rgba { r: data[i], g: data[i + 1], b: data[i + 2], a: data[i + 3] }
}

/// An owned 2-D RGBA pixel buffer: `width * height` pixels, 4 bytes each,
/// in row-major order.
#[derive(Debug, Clone)]
pub struct RgbaBuffer {
    pub width: u32,
    pub height: u32,
    pub data: Vec<u8>,
}

impl RgbaBuffer {
    /// The byte length matches the dimensions.
    pub open spec fn wf(&self) -> bool {
        self.data@.len() == 4 * self.width * self.height
    }

    pub open spec fn spec_width(&self) -> u32 {
        self.width
    }

    pub open spec fn spec_height(&self) -> u32 {
        self.height
    }

    pub open spec fn spec_data(&self) -> Seq<u8> {
        self.data@
    }

    /// The pixel at `(x, y)`.
    pub open spec fn spec_pixel(&self, x: int, y: int) -> Rgba {
        pixel_at(self.data@, self.width as int, x, y)
    }

    /// A buffer filled with one pixel value.
    pub fn from_pixel(width: u32, height: u32, pixel: Rgba) -> (r: Self)
        requires
            4 * width * height <= usize::MAX,
        ensures
            r.wf(),
            r.spec_width() == width,
            r.spec_height() == height,
            forall|x: int, y: int|
                0 <= x < width && 0 <= y < height ==> r.spec_pixel(x, y) == pixel,
    {
        proof {
            assert((width as int) * (height as int) <= usize::MAX as int / 4) by (nonlinear_arith)
                requires 4 * (width as int) * (height as int) <= usize::MAX as int;
        }
        let count: usize = (width as usize) * (height as usize);
        let mut data: Vec<u8> = Vec::new();
        let mut p: usize = 0;
        while p < count
            invariant
                p <= count,
                count == width * height,
                count <= usize::MAX as int / 4,
                data@.len() == 4 * p,
                forall|k: int| 0 <= k < 4 * p ==> data@[k] == channel_of(pixel, k % 4),
            decreases count - p,
        {
            proof {
                let i = 4 * (p as int);
                assert(i % 4 == 0) by (nonlinear_arith)
                    requires i == 4 * (p as int) && p >= 0;
                assert((i + 1) % 4 == 1 && (i + 2) % 4 == 2 && (i + 3) % 4 == 3);
            }
            data.push(pixel.r);
            data.push(pixel.g);
            data.push(pixel.b);
            data.push(pixel.a);
            p = p + 1;
        }
        proof {
            assert(4 * (count as int) == 4 * (width as int) * (height as int)) by (nonlinear_arith)
                requires count == (width as int) * (height as int);
        }
        let r = RgbaBuffer { width, height, data };
        proof {
            assert forall|x: int, y: int|
                0 <= x < width && 0 <= y < height implies r.spec_pixel(x, y) == pixel by {
                lemma_pixel_index_bounds(width as int, height as int, x, y);
                let idx = 4 * (y * (width as int) + x);
                let m = y * (width as int) + x;
                assert(idx % 4 == 0) by (nonlinear_arith)
                    requires idx == 4 * m && m >= 0;
                assert((idx + 1) % 4 == 1 && (idx + 2) % 4 == 2 && (idx + 3) % 4 == 3);
            };
        }
        r
    }

    /// Wraps raw bytes as a buffer when the length matches the dimensions.
    pub fn from_raw(width: u32, height: u32, data: Vec<u8>) -> (r: Option<Self>)
        ensures
            r is Some <==> data@.len() == 4 * width * height,
            r is Some ==> {
                let b = r->0;
                &&& b.wf()
                &&& b.spec_width() == width
                &&& b.spec_height() == height
                &&& b.spec_data() == data@
            },
    {
        proof {
            assert((width as int) * (height as int) <= 0xffff_ffff * 0xffff_ffff)
                by (nonlinear_arith)
                requires width <= 0xffff_ffffu32 && height <= 0xffff_ffffu32;
        }
        let wh: u64 = (width as u64) * (height as u64);
        let n = data.len();
        if wh <= (usize::MAX as u64) / 4 && (n as u64) == 4 * wh {
            proof {
                assert(n as int == 4 * (width as int) * (height as int)) by (nonlinear_arith)
                    requires
                        n as int == 4 * ((width as int) * (height as int)),
            }
            Some(RgbaBuffer { width, height, data })
        } else {
            proof {
                if data@.len() == 4 * width * height {
                    assert(n as int == 4 * ((width as int) * (height as int))) by (nonlinear_arith)
                        requires n as int == 4 * (width as int) * (height as int);
                    assert((width as int) * (height as int) <= (usize::MAX as int) / 4)
                        by (nonlinear_arith)
                        requires 4 * ((width as int) * (height as int)) <= usize::MAX as int;
                    assert(false);
                }
            }
            None
        }
    }

    pub fn width(&self) -> (r: u32)
        ensures
            r == self.spec_width(),
    {
        self.width
    }

    pub fn height(&self) -> (r: u32)
        ensures
            r == self.spec_height(),
    {
        self.height
    }

    /// The raw bytes, row-major RGBA.
    pub fn as_raw(&self) -> (r: &Vec<u8>)
        ensures
            r@ == self.spec_data(),
    {
        &self.data
    }

    /// The pixel at `(x, y)`.
    pub fn get_pixel(&self, x: u32, y: u32) -> (r: Rgba)
        requires
            self.wf(),
            x < self.spec_width(),
            y < self.spec_height(),
        ensures
            r == self.spec_pixel(x as int, y as int),
    {
        let n = self.data.len();
        proof {
            lemma_pixel_index_bounds(self.width as int, self.height as int, x as int, y as int);
            assert(4 * ((y as int) * (self.width as int) + (x as int)) + 3 < n);
        }
        let i: usize = 4 * ((y as usize) * (self.width as usize) + (x as usize));
        Rgba { r: self.data[i], g: self.data[i + 1], b: self.data[i + 2], a: self.data[i + 3] }
    }

    /// An owned copy of this buffer.
    pub fn duplicate(&self) -> (r: Self)
        ensures
            r.width == self.width,
            r.height == self.height,
            r.data@ == self.data@,
    {
        let mut data: Vec<u8> = Vec::new();
        let n = self.data.len();
        let mut i: usize = 0;
        while i < n
            invariant
                i <= n,
                n == self.data@.len(),
                data@ == self.data@.subrange(0, i as int),
            decreases n - i,
        {
            data.push(self.data[i]);
            proof {
                assert(data@ =~= self.data@.subrange(0, i + 1));
            }
            i = i + 1;
        }
        proof {
            assert(data@ =~= self.data@);
        }
        RgbaBuffer { width: self.width, height: self.height, data }
    }

    /// Overwrites the pixel at `(x, y)`.
    pub fn put_pixel(&mut self, x: u32, y: u32, pixel: Rgba)
        requires
            old(self).wf(),
            x < old(self).spec_width(),
            y < old(self).spec_height(),
        ensures
            final(self).wf(),
            final(self).spec_width() == old(self).spec_width(),
            final(self).spec_height() == old(self).spec_height(),
            final(self).spec_pixel(x as int, y as int) == pixel,
            forall|i: int, j: int|
                0 <= i < old(self).spec_width() && 0 <= j < old(self).spec_height()
                    && (i != x || j != y)
                    ==> final(self).spec_pixel(i, j) == old(self).spec_pixel(i, j),
            final(self).spec_data().len() == old(self).spec_data().len(),
    {
        let n = self.data.len();
        proof {
            lemma_pixel_index_bounds(self.width as int, self.height as int, x as int, y as int);
            assert(4 * ((y as int) * (self.width as int) + (x as int)) + 3 < n);
        }
        let i: usize = 4 * ((y as usize) * (self.width as usize) + (x as usize));
        self.data.set(i, pixel.r);
        self.data.set(i + 1, pixel.g);
        self.data.set(i + 2, pixel.b);
        self.data.set(i + 3, pixel.a);
        proof {
            lemma_pixel_index_bounds(self.width as int, self.height as int, x as int, y as int);
            let w = self.width as int;
            assert forall|i2: int, j2: int|
                0 <= i2 < self.width && 0 <= j2 < self.height && (i2 != x || j2 != y)
                    implies self.spec_pixel(i2, j2) == old(self).spec_pixel(i2, j2) by {
                lemma_pixel_index_bounds(w, self.height as int, i2, j2);
                lemma_distinct_pixels(w, x as int, y as int, i2, j2);
                let a = j2 * w + i2;
                let b = (y as int) * w + (x as int);
                assert(a != b);
                assert(4 * a + 3 < 4 * b || 4 * b + 3 < 4 * a);
            };
        }
    }
}

/// Channel `c` (0..4) of a pixel.
pub open spec fn channel_of(p: Rgba, c: int) -> u8 {
    if c == 0 { p.r } else if c == 1 { p.g } else if c == 2 { p.b } else { p.a }
}

proof fn lemma_pixel_index_bounds(width: int, height: int, x: int, y: int)
    requires
        0 <= x < width,
        0 <= y < height,
    ensures
        0 <= 4 * (y * width + x),
        4 * (y * width + x) + 3 < 4 * width * height,
{
    assert(y * width + x < width * height) by (nonlinear_arith)
        requires 0 <= x < width && 0 <= y < height;
    assert(4 * (y * width + x) + 3 < 4 * (width * height));
    assert(4 * (width * height) == 4 * width * height) by (nonlinear_arith);
    assert(0 <= y * width) by (nonlinear_arith)
        requires 0 <= y && 0 < width;
}

proof fn lemma_distinct_pixels(width: int, x: int, y: int, i: int, j: int)
    requires
        0 <= x < width,
        0 <= i < width,
        0 <= y,
        0 <= j,
        i != x || j != y,
    ensures
        y * width + x != j * width + i,
{
    if j == y {
        assert(y * width + x != j * width + i);
    } else if j < y {
        assert((j + 1) * width <= y * width) by (nonlinear_arith)
            requires j + 1 <= y && width > 0;
        assert(j * width + width == (j + 1) * width) by (nonlinear_arith);
    } else {
        assert((y + 1) * width <= j * width) by (nonlinear_arith)
            requires y + 1 <= j && width > 0;
        assert(y * width + width == (y + 1) * width) by (nonlinear_arith);
    }
}

/// One decoded animation frame: a pixel buffer and its display delay
/// in milliseconds (zero for still images).
#[derive(Debug, Clone)]
pub struct Frame {
    pub pixels: RgbaBuffer,
    pub delay_ms: u64,
}

impl Frame {
    /// A still frame with no display delay.
    pub fn single(pixels: RgbaBuffer) -> (r: Self)
        ensures
            r.pixels == pixels,
            r.delay_ms == 0u64,
    {
        Frame { pixels, delay_ms: 0 }
    }
}

/// All frames decoded from one input, with the path they came from.
#[derive(Debug, Clone)]
pub struct ImageSequence {
    pub path: String,
    pub frames: Vec<Frame>,
}

impl ImageSequence {
    /// The first frame, if the sequence has any.
    pub fn first_frame(&self) -> (r: Option<&Frame>)
        ensures
            r is Some <==> self.frames@.len() > 0,
            r is Some ==> r->0 == &self.frames@[0],
    {
        if self.frames.len() > 0 {
            Some(&self.frames[0])
        } else {
            None
        }
    }
}

} // verus!
