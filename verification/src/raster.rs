use vstd::prelude::*;

verus! {

/// An 8-bit RGBA image stored row by row, four bytes per pixel.
pub struct RgbaImage {
    pub width: u32,
    pub height: u32,
    pub data: Vec<u8>,
}

/// Number of bytes an RGBA image of the given size occupies.
pub open spec fn rgba_len(width: int, height: int) -> int {
    width * height * 4
}

/// Byte offset of channel `c` of pixel `(x, y)` in a row-major RGBA buffer.
pub open spec fn rgba_index(width: int, x: int, y: int, c: int) -> int {
    (y * width + x) * 4 + c
}

impl RgbaImage {
    /// The buffer holds exactly `width * height` pixels.
    pub open spec fn wf(&self) -> bool {
        self.data@.len() == rgba_len(self.width as int, self.height as int)
    }

    /// Channel `c` (0 = red, 1 = green, 2 = blue, 3 = alpha) of pixel `(x, y)`.
    pub open spec fn channel(&self, x: int, y: int, c: int) -> u8 {
        self.data@[rgba_index(self.width as int, x, y, c)]
    }

    /// Builds an image from raw RGBA bytes; `None` when the buffer length does
    /// not match the size.
    pub fn from_raw(width: u32, height: u32, data: Vec<u8>) -> (res: Option<RgbaImage>)
        ensures
            match res {
                Some(img) => img.wf() && img.width == width && img.height == height && img.data@
                    == data@,
                None => data@.len() != rgba_len(width as int, height as int),
            },
    {
        let w = width as u64;
        let h = height as u64;
        assert(w * h <= u32::MAX * u32::MAX) by (nonlinear_arith)
            requires
                w <= u32::MAX,
                h <= u32::MAX,
        ;
        let pixels: u64 = w * h;
        let data_len = data.len();
        if pixels > u64::MAX / 4 {
            assert(rgba_len(width as int, height as int) > u64::MAX);
            assert(data_len as u64 == data_len);
            return None;
        }
        let len: u64 = pixels * 4;
        if data_len as u64 == len {
            Some(RgbaImage { width, height, data })
        } else {
            None
        }
    }
}

/// Index arithmetic for an in-bounds pixel of a well-formed buffer.
pub proof fn lemma_rgba_index_bounds(width: int, height: int, x: int, y: int, c: int)
    requires
        0 <= x < width,
        0 <= y < height,
        0 <= c < 4,
    ensures
        0 <= y * width + x < width * height,
        0 <= rgba_index(width, x, y, c) < rgba_len(width, height),
        rgba_index(width, x, y, c) == (y * width + x) * 4 + c,
{
    assert(0 <= y * width) by (nonlinear_arith)
        requires
            0 <= y,
            0 <= width,
    ;
    assert(y * width + x < width * height) by (nonlinear_arith)
        requires
            0 <= x < width,
            0 <= y < height,
    ;
}

} // verus!
