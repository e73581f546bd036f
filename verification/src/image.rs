//! The quantized pixel store. The tracer produces linear floating radiance;
//! the driver gamma-encodes and quantizes each channel to a byte and hands
//! this buffer the result. Pixels live in row-major order, `y * res_x + x`,
//! and every pixel is written by exactly one task.

use vstd::prelude::*;

use vstd::assert_seqs_equal;

verus! {

/// One quantized pixel, a byte per channel.
#[derive(Clone, Copy, Debug, PartialEq, Eq, Structural)]
pub struct Pixel {
    pub r: u8,
    pub g: u8,
    pub b: u8,
}

impl Pixel {
    /// The initial fill of a fresh image.
    pub fn black() -> (p: Pixel)
        ensures
            p == (Pixel { r: 0, g: 0, b: 0 }),
    {
        Pixel { r: 0, g: 0, b: 0 }
    }
}

/// The image buffer: a row-major pixel vector whose length is always
/// exactly `res_x * res_y`.
pub struct Image {
    res_x: u32,
    res_y: u32,
    pixels: Vec<Pixel>,
}

impl View for Image {
    type V = Seq<Pixel>;

    closed spec fn view(&self) -> Seq<Pixel> {
        self.pixels@
    }
}

impl Image {
    /// The buffer length equals the configured resolution.
    pub open spec fn wf(&self) -> bool {
        self@.len() == self.spec_res_x() * self.spec_res_y()
    }

    pub closed spec fn spec_res_x(&self) -> u32 {
        self.res_x
    }

    pub closed spec fn spec_res_y(&self) -> u32 {
        self.res_y
    }

    /// The row-major position of pixel (x, y).
    pub open spec fn spec_index_of(&self, x: u32, y: u32) -> int {
        y * self.spec_res_x() + x
    }

    /// A fresh image of the given resolution, black everywhere.
    pub fn new(res_x: u32, res_y: u32) -> (img: Image)
        requires
            res_x * res_y <= usize::MAX,
        ensures
            img.wf(),
            img.spec_res_x() == res_x,
            img.spec_res_y() == res_y,
            img@.len() == res_x * res_y,
            forall|i: int| 0 <= i < img@.len() ==> img@[i] == (Pixel { r: 0, g: 0, b: 0 }),
    {
        let n: usize = (res_x as usize) * (res_y as usize);
        let mut pixels: Vec<Pixel> = Vec::new();
        let mut i: usize = 0;
        while i < n
            invariant
                i <= n,
                pixels@.len() == i,
                forall|k: int| 0 <= k < i ==> pixels@[k] == (Pixel { r: 0, g: 0, b: 0 }),
            decreases n - i,
        {
            pixels.push(Pixel { r: 0, g: 0, b: 0 });
            i = i + 1;
        }
        Image { res_x, res_y, pixels }
    }

    pub fn width(&self) -> (r: u32)
        ensures
            r == self.spec_res_x(),
    {
        self.res_x
    }

    pub fn height(&self) -> (r: u32)
        ensures
            r == self.spec_res_y(),
    {
        self.res_y
    }

    proof fn lemma_index_in_range(&self, x: u32, y: u32)
        requires
            self.wf(),
            x < self.spec_res_x(),
            y < self.spec_res_y(),
        ensures
            0 <= self.spec_index_of(x, y) < self@.len(),
    {
        let rx = self.spec_res_x() as int;
        let ry = self.spec_res_y() as int;
        assert(y * rx + x < rx * ry) by (nonlinear_arith)
            requires
                0 <= x < rx,
                0 <= y < ry,
        ;
    }

    /// Store the quantized color of pixel (x, y); no other pixel moves.
    pub fn push_pixel(&mut self, x: u32, y: u32, p: Pixel)
        requires
            old(self).wf(),
            x < old(self).spec_res_x(),
            y < old(self).spec_res_y(),
        ensures
            final(self).wf(),
            final(self).spec_res_x() == old(self).spec_res_x(),
            final(self).spec_res_y() == old(self).spec_res_y(),
            final(self)@ == old(self)@.update(old(self).spec_index_of(x, y), p),
    {
        proof {
            self.lemma_index_in_range(x, y);
        }
        // The length, a usize, bounds the row-major index computed below.
        let _len: usize = self.pixels.len();
        let idx: usize = (y as usize) * (self.res_x as usize) + (x as usize);
        self.pixels[idx] = p;
    }

    /// Read back the stored color of pixel (x, y).
    pub fn get_pixel(&self, x: u32, y: u32) -> (p: Pixel)
        requires
            self.wf(),
            x < self.spec_res_x(),
            y < self.spec_res_y(),
        ensures
            p == self@[self.spec_index_of(x, y)],
    {
        proof {
            self.lemma_index_in_range(x, y);
        }
        // The length, a usize, bounds the row-major index computed below.
        let _len: usize = self.pixels.len();
        let idx: usize = (y as usize) * (self.res_x as usize) + (x as usize);
        self.pixels[idx]
    }
}

/// Writes to different pixel addresses commute: each pixel is written by
/// exactly one task, so the order in which tasks finish leaves the same
/// image.
pub proof fn lemma_disjoint_writes_commute(s: Seq<Pixel>, i: int, j: int, p: Pixel, q: Pixel)
    requires
        0 <= i < s.len(),
        0 <= j < s.len(),
        i != j,
    ensures
        s.update(i, p).update(j, q) == s.update(j, q).update(i, p),
{
    assert_seqs_equal!(s.update(i, p).update(j, q) == s.update(j, q).update(i, p));
}

} // verus!
