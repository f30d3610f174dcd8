use vstd::prelude::*;
use crate::raster::{rgba_index, rgba_len, RgbaImage};

verus! {

/// `data` with the red, green and blue byte of every four-byte group set to
/// `color` and each alpha byte kept.
pub open spec fn tinted(data: Seq<u8>, color: [u8; 3]) -> Seq<u8> {
    Seq::new(data.len(), |k: int| if k % 4 == 3 { data[k] } else { color[k % 4] })
}

/// Overwrites the red, green and blue bytes of every four-byte RGBA group with
/// `color`, keeping each alpha byte.
pub fn tint_rgb(data: &mut Vec<u8>, color: [u8; 3])
    requires
        old(data)@.len() % 4 == 0 || old(data)@.len() % 4 == 3,
    ensures
        final(data)@ == tinted(old(data)@, color),
        final(data)@.len() == old(data)@.len(),
        forall|k: int|
            0 <= k < final(data)@.len() ==> #[trigger] final(data)@[k] == if k % 4 == 3 {
                old(data)@[k]
            } else {
                color[k % 4]
            },
{
    let len = data.len();
    let groups: usize = if len % 4 == 3 {
        len / 4 + 1
    } else {
        len / 4
    };
    let mut g: usize = 0;
    while g < groups
        invariant
            len == data@.len(),
            len == old(data)@.len(),
            len % 4 == 0 || len % 4 == 3,
            len % 4 == 3 ==> groups == len / 4 + 1,
            len % 4 == 0 ==> groups == len / 4,
            g <= groups,
            forall|k: int|
                0 <= k < len ==> #[trigger] data@[k] == if k >= 4 * g || k % 4 == 3 {
                    old(data)@[k]
                } else {
                    color[k % 4]
                },
        decreases groups - g,
    {
        let i = 4 * g;
        assert(i + 2 < len);
        data.set(i, color[0]);
        data.set(i + 1, color[1]);
        data.set(i + 2, color[2]);
        g = g + 1;
    }
    assert(data@ =~= tinted(old(data)@, color));
}

/// The bytes of a `width` x `height` image whose every pixel is `color`.
pub open spec fn filled(width: u32, height: u32, color: [u8; 4]) -> Seq<u8> {
    Seq::new(rgba_len(width as int, height as int) as nat, |k: int| color[k % 4])
}

/// A `width` x `height` image whose every pixel is `color`.
pub fn create_image(width: u32, height: u32, color: [u8; 4]) -> (img: RgbaImage)
    requires
        rgba_len(width as int, height as int) <= usize::MAX,
    ensures
        img.wf(),
        img.width == width,
        img.height == height,
        img.data@ == filled(width, height, color),
        forall|k: int| 0 <= k < img.data@.len() ==> #[trigger] img.data@[k] == color[k % 4],
        forall|x: int, y: int, c: int|
            0 <= x < width && 0 <= y < height && 0 <= c < 4 ==> #[trigger] img.channel(x, y, c)
                == color[c],
{
    assert((width as int) * (height as int) <= usize::MAX) by (nonlinear_arith)
        requires
            (width as int) * (height as int) * 4 <= usize::MAX,
    ;
    let total: usize = (width as usize) * (height as usize) * 4;
    let mut data: Vec<u8> = Vec::new();
    let mut k: usize = 0;
    while k < total
        invariant
            k <= total,
            total == rgba_len(width as int, height as int),
            data@.len() == k,
            forall|j: int| 0 <= j < k ==> #[trigger] data@[j] == color[j % 4],
        decreases total - k,
    {
        data.push(color[k % 4]);
        k = k + 1;
    }
    assert(data@ =~= filled(width, height, color));
    let img = RgbaImage { width, height, data };
    assert forall|x: int, y: int, c: int|
        0 <= x < width && 0 <= y < height && 0 <= c < 4 implies #[trigger] img.channel(x, y, c)
        == color[c] by {
        crate::raster::lemma_rgba_index_bounds(width as int, height as int, x, y, c);
        let p = y * width + x;
        assert((p * 4 + c) % 4 == c) by (nonlinear_arith)
            requires
                0 <= c < 4,
                p >= 0,
        ;
    }
    img
}

} // verus!

verus! {

/// Recolouring keeps the alpha bytes, and only the last colour counts.
pub proof fn retint_last_color_wins(data: Seq<u8>, first: [u8; 3], second: [u8; 3])
    ensures
        tinted(tinted(data, first), second) == tinted(data, second),
        forall|k: int|
            0 <= k < data.len() && k % 4 == 3 ==> #[trigger] tinted(data, first)[k] == data[k],
{
    assert(tinted(tinted(data, first), second) =~= tinted(data, second));
}

} // verus!
