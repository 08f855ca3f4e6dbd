use vstd::prelude::*;

verus! {

/// The texture families a scene can ask for.
#[derive(Clone, Copy, Debug, PartialEq, Eq, Structural)]
pub enum TextureType {
    Checkered,
    Constant,
    Image,
    Noise,
}

/// Row-major position of the texel that column `x` and row `y` land on in a
/// `width` by `height` grid; both wrap around, so the image tiles the plane.
pub open spec fn texel_index(width: int, height: int, x: int, y: int) -> int {
    x % width + width * (y % height)
}

/// A decoded bitmap: `width` by `height` texels stored row by row.
pub struct TexelGrid<T> {
    pub width: u32,
    pub height: u32,
    pub pixels: Vec<T>,
}

impl<T> TexelGrid<T> {
    pub open spec fn wf(&self) -> bool {
        &&& self.width > 0
        &&& self.height > 0
        &&& self.pixels@.len() == self.width * self.height
    }

    /// Takes a decoded bitmap; there is none when a side is zero or the buffer
    /// does not hold exactly `width * height` texels.
    pub fn new(width: u32, height: u32, pixels: Vec<T>) -> (r: Option<TexelGrid<T>>)
        ensures
            r is Some <==> (width > 0 && height > 0 && pixels@.len() == width * height),
            r is Some ==> {
                &&& r->0.wf()
                &&& r->0.width == width
                &&& r->0.height == height
                &&& r->0.pixels@ == pixels@
            },
    {
        if width == 0 || height == 0 {
            return None;
        }
        let (w, h) = (width as u64, height as u64);
        assert(w * h <= 0xffff_ffffu64 * 0xffff_ffffu64) by (nonlinear_arith)
            requires
                w <= 0xffff_ffffu64,
                h <= 0xffff_ffffu64,
        ;
        let area: u64 = w * h;
        if pixels.len() as u64 != area {
            return None;
        }
        Some(TexelGrid { width, height, pixels })
    }

    /// The texel at column `x`, row `y`, each taken modulo the grid's size.
    pub fn texel(&self, x: u32, y: u32) -> (r: &T)
        requires
            self.wf(),
        ensures
            *r == self.pixels@[texel_index(self.width as int, self.height as int, x as int, y as int)],
    {
        let n = self.pixels.len();
        let w = self.width as u64;
        let h = self.height as u64;
        let col = x as u64 % w;
        let row = y as u64 % h;
        proof {
            assert(w * h == n);
            assert(col + w * row < w * h && w * row <= w * h) by (nonlinear_arith)
                requires
                    0 <= col < w,
                    0 <= row < h,
            {
                assert(w * row <= w * (h - 1));
            }
        }
        let idx = col + w * row;
        &self.pixels[idx as usize]
    }
}

} // verus!
