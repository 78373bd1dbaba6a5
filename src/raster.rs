use vstd::prelude::*;

verus! {

/// `r` is the integer square root of `n`: the largest `r` with `r * r <= n`.
pub open spec fn is_isqrt(n: int, r: int) -> bool {
    0 <= r && r * r <= n && n < (r + 1) * (r + 1)
}

/// The integer square root of `n`: the side of the largest square grid of
/// sub-pixel samples that fits in `n` samples.
pub fn isqrt(n: u64) -> (r: u64)
    ensures
        is_isqrt(n as int, r as int),
{
    let mut lo: u64 = 0;
    let mut hi: u64 = 0x1_0000_0000;
    assert(n < 0x1_0000_0000 * 0x1_0000_0000) by (nonlinear_arith)
        requires n <= u64::MAX;
    while hi - lo > 1
        invariant
            lo < hi <= 0x1_0000_0000,
            lo * lo <= n,
            n < hi * hi,
        decreases hi - lo,
    {
        let mid: u64 = lo + (hi - lo) / 2;
        assert(mid * mid <= 0xFFFF_FFFE_0000_0001) by (nonlinear_arith)
            requires mid <= 0xFFFF_FFFF;
        if mid * mid <= n {
            lo = mid;
        } else {
            hi = mid;
        }
    }
    assert(hi == lo + 1);
    lo
}

/// The integer side of a render: image size, the stratified sample grid and the
/// recursion bound of the path integrator.
#[derive(Clone, Copy, Debug, PartialEq, Eq, Structural)]
pub struct RenderPlan {
    pub image_width: u64,
    pub image_height: u64,
    /// Side of the square grid of samples taken in each pixel.
    pub sqrt_spp: u64,
    pub max_depth: u64,
}

impl RenderPlan {
    /// Bytes in the pixel buffer: three per pixel.
    pub open spec fn buffer_size(self) -> int {
        self.image_width * self.image_height * 3
    }

    /// Where the red byte of pixel `(i, j)` stands: rows top to bottom, pixels left to right.
    pub open spec fn offset_of(self, i: int, j: int) -> int {
        3 * (j * self.image_width + i)
    }

    pub open spec fn wf(self) -> bool {
        &&& self.image_height >= 1
        &&& self.buffer_size() <= usize::MAX
        &&& self.sqrt_spp * self.sqrt_spp <= u64::MAX
    }

    /// Plans a render of `image_width` by `image_height` pixels (a height of 0 is
    /// raised to 1), with the largest square grid of samples that `samples_per_pixel`
    /// allows. `None` when the pixel buffer would not fit in memory's address range.
    pub fn new(image_width: u64, image_height: u64, samples_per_pixel: u64, max_depth: u64) -> (r:
        Option<RenderPlan>)
        ensures
            r is None <==> image_width * (if image_height == 0 { 1 } else { image_height as int })
                * 3 > usize::MAX,
            r matches Some(p) ==> {
                &&& p.wf()
                &&& p.image_width == image_width
                &&& p.image_height == if image_height == 0 { 1 } else { image_height }
                &&& is_isqrt(samples_per_pixel as int, p.sqrt_spp as int)
                &&& p.max_depth == max_depth
            },
    {
        let height: u64 = if image_height == 0 { 1 } else { image_height };
        let sqrt_spp = isqrt(samples_per_pixel);
        let pixels = image_width.checked_mul(height);
        match pixels {
            None => {
                assert(image_width * height * 3 > usize::MAX) by (nonlinear_arith)
                    requires image_width * height > u64::MAX, usize::MAX <= u64::MAX;
                None
            },
            Some(px) => {
                if px > (usize::MAX / 3) as u64 {
                    None
                } else {
                    Some(RenderPlan { image_width, image_height: height, sqrt_spp, max_depth })
                }
            },
        }
    }

    /// Number of pixels in the image.
    pub fn num_pixels(&self) -> (r: u64)
        requires
            self.wf(),
        ensures
            r == self.image_width * self.image_height,
    {
        self.image_width * self.image_height
    }

    /// Length of the pixel buffer.
    pub fn buffer_len(&self) -> (r: usize)
        requires
            self.wf(),
        ensures
            r == self.buffer_size(),
    {
        (self.image_width * self.image_height * 3) as usize
    }

    /// Samples taken in each pixel: the whole stratified grid.
    pub fn samples_per_pixel(&self) -> (r: u64)
        requires
            self.wf(),
        ensures
            r == self.sqrt_spp * self.sqrt_spp,
    {
        self.sqrt_spp * self.sqrt_spp
    }

    /// A buffer for the whole image, every byte zero.
    pub fn new_buffer(&self) -> (r: Vec<u8>)
        requires
            self.wf(),
        ensures
            r@.len() == self.buffer_size(),
            forall|k: int| 0 <= k < r@.len() ==> r@[k] == 0,
    {
        let n = self.buffer_len();
        let mut buf: Vec<u8> = Vec::new();
        while buf.len() < n
            invariant
                buf@.len() <= n,
                forall|k: int| 0 <= k < buf@.len() ==> buf@[k] == 0,
            decreases n - buf@.len(),
        {
            buf.push(0);
        }
        buf
    }

    /// Where the red byte of pixel `(i, j)` (column `i`, row `j`) stands in the buffer.
    pub fn pixel_offset(&self, i: u64, j: u64) -> (r: usize)
        requires
            self.wf(),
            i < self.image_width,
            j < self.image_height,
        ensures
            r == self.offset_of(i as int, j as int),
            r + 3 <= self.buffer_size(),
    {
        let w = self.image_width;
        let h = self.image_height;
        assert(j * w + i + 1 <= w * h) by (nonlinear_arith)
            requires i < w, j < h;
        assert(3 * (j * w + i) + 3 <= w * h * 3) by (nonlinear_arith)
            requires j * w + i + 1 <= w * h;
        (3 * (j * w + i)) as usize
    }

    /// Stores the bytes of pixel `(i, j)` and leaves every other byte as it was.
    pub fn write_pixel(&self, buf: &mut Vec<u8>, i: u64, j: u64, rgb: [u8; 3])
        requires
            self.wf(),
            i < self.image_width,
            j < self.image_height,
            old(buf)@.len() == self.buffer_size(),
        ensures
            final(buf)@ == old(buf)@.update(self.offset_of(i as int, j as int), rgb[0]).update(
                self.offset_of(i as int, j as int) + 1,
                rgb[1],
            ).update(self.offset_of(i as int, j as int) + 2, rgb[2]),
    {
        let o = self.pixel_offset(i, j);
        buf.set(o, rgb[0]);
        buf.set(o + 1, rgb[1]);
        buf.set(o + 2, rgb[2]);
    }
}

} // verus!
