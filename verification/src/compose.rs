use vstd::prelude::*;
use crate::imaging::{
    crop_bounds, crop_imm, cut_out, overlaid, overlay, overlay_covers, overlay_result, resize, resized,
};
use crate::layers::{painted, vector_preview, ImageSource, SubImage};
use crate::raster::{rgba_len, RgbaImage};
use crate::svg::{pixmap_fits, render_tree};
use crate::tint::{create_image, filled};

verus! {

/// Where and how large a layer is drawn into the exported image, in pixels
/// of the exported image.
#[derive(Debug, Clone, Copy)]
pub struct Placement {
    pub width: u32,
    pub height: u32,
    pub x: i64,
    pub y: i64,
}

/// Raster layers hold well-formed images.
pub open spec fn layer_wf(layer: SubImage) -> bool {
    layer.source matches ImageSource::Raster(img) ==> img.wf()
}

/// `top` is how `layer` can be drawn at `width` x `height`: a vector layer
/// rendered at that size and painted in its foreground colour (its coverage is
/// resvg's), a raster layer resized by `image`.
pub open spec fn layer_drawn(layer: SubImage, width: u32, height: u32, top: RgbaImage) -> bool {
    &&& top.wf()
    &&& match layer.source {
        ImageSource::Vector { .. } => top.width == width && top.height == height && painted(
            top.data@,
            layer.foreground_color,
        ),
        ImageSource::Raster(img) => (top.width, top.height, top.data@) == resized(
            img.width,
            img.height,
            img.data@,
            width,
            height,
        ),
    }
}

/// `canvases[n]` (n layers) is `base`, and each `canvases[k]` is
/// `canvases[k + 1]` with `tops[k]`, a drawing of layer `k`, laid over it at the
/// layer's place: the last layer is drawn first, so earlier layers end up on
/// top.
pub open spec fn composed_from(
    base: RgbaImage,
    layers: Seq<SubImage>,
    places: Seq<Placement>,
    tops: Seq<RgbaImage>,
    canvases: Seq<RgbaImage>,
) -> bool {
    &&& tops.len() == layers.len()
    &&& canvases.len() == layers.len() + 1
    &&& canvases[layers.len() as int] == base
    &&& forall|k: int|
        #![trigger tops[k]]
        0 <= k < layers.len() ==> {
            &&& layer_drawn(layers[k], places[k].width, places[k].height, tops[k])
            &&& overlay_result(canvases[k + 1], tops[k], places[k].x, places[k].y, canvases[k])
        }
}

/// Whether every vector layer can be drawn at its placement size: a pixmap
/// of that size can be made.
pub open spec fn vector_places_fit(layers: Seq<SubImage>, places: Seq<Placement>) -> bool {
    forall|k: int|
        0 <= k < layers.len() && (#[trigger] layers[k]).source is Vector ==> pixmap_fits(
            places[k].width,
            places[k].height,
        )
}

/// Draws one layer at the given size.
fn render_layer(layer: &SubImage, width: u32, height: u32) -> (top: RgbaImage)
    requires
        layer_wf(*layer),
        layer.source is Vector ==> pixmap_fits(width, height),
    ensures
        layer_drawn(*layer, width, height, top),
{
    match &layer.source {
        ImageSource::Vector { tree, .. } => vector_preview(
            render_tree(tree, width, height),
            width,
            height,
            layer.foreground_color,
        ).unwrap(),
        ImageSource::Raster(img) => resize(img, width, height),
    }
}

/// Draws the layers over `base` for export, the last layer first so that the
/// first layer ends up on top. Every vector layer must fit a pixmap at its
/// placement size.
#[verifier::loop_isolation(false)]
pub fn compose_layers(base: RgbaImage, layers: &Vec<SubImage>, places: &Vec<Placement>) -> (res: RgbaImage)
    requires
        base.wf(),
        layers@.len() == places@.len(),
        forall|k: int| 0 <= k < layers@.len() ==> layer_wf(#[trigger] layers@[k]),
        vector_places_fit(layers@, places@),
    ensures
        res.width == base.width,
        res.height == base.height,
        exists|tops: Seq<RgbaImage>, canvases: Seq<RgbaImage>|
            #![trigger composed_from(base, layers@, places@, tops, canvases)]
            composed_from(base, layers@, places@, tops, canvases) && res == canvases[0],
{
    let ghost base0 = base;
    let ghost n = layers@.len() as int;
    let ghost mut tops: Seq<RgbaImage> = Seq::new(n as nat, |k: int| base0);
    let ghost mut canvases: Seq<RgbaImage> = Seq::new((n + 1) as nat, |k: int| base0);
    let mut canvas = base;
    let mut i: usize = layers.len();
    while i > 0
        invariant
            i <= n,
            n == layers@.len(),
            layers@.len() == places@.len(),
            forall|k: int| 0 <= k < layers@.len() ==> layer_wf(#[trigger] layers@[k]),
            vector_places_fit(layers@, places@),
            canvas.wf(),
            canvas.width == base0.width,
            canvas.height == base0.height,
            tops.len() == n,
            canvases.len() == n + 1,
            canvases[n] == base0,
            canvases[i as int] == canvas,
            forall|k: int|
                #![trigger tops[k]]
                i <= k < n ==> {
                    &&& layer_drawn(layers@[k], places@[k].width, places@[k].height, tops[k])
                    &&& overlay_result(
                        canvases[k + 1],
                        tops[k],
                        places@[k].x,
                        places@[k].y,
                        canvases[k],
                    )
                },
        decreases i,
    {
        let k = i - 1;
        let place = places[k];
        let top = render_layer(&layers[k], place.width, place.height);
        let ghost below = canvas;
        overlay(&mut canvas, &top, place.x, place.y);
        proof {
            tops = tops.update(k as int, top);
            canvases = canvases.update(k as int, canvas);
            assert(canvases[k as int + 1] == below);
        }
        i = k;
    }
    assert(composed_from(base0, layers@, places@, tops, canvases));
    canvas
}

} // verus!
verus! {

/// The size and bytes `crop_imm` gives for a cut-out of `img` at `(x, y)` of
/// size `w` x `h`, clamped to the image.
pub open spec fn cropped(img: RgbaImage, x: u32, y: u32, w: u32, h: u32) -> (u32, u32, Seq<u8>) {
    let b = crop_bounds(img.width, img.height, x, y, w, h);
    (b.2, b.3, cut_out(img, b.0 as int, b.1 as int, b.2 as int, b.3 as int))
}

/// Cuts the pixels from `(x, y)` up to `(x_end, y_end)` out of the image, for
/// a cropping that lies inside it.
pub fn crop_inside(img: &RgbaImage, x: u32, y: u32, x_end: u32, y_end: u32) -> (res: RgbaImage)
    requires
        img.wf(),
        x <= x_end,
        y <= y_end,
    ensures
        res.wf(),
        (res.width, res.height, res.data@) == cropped(
            *img,
            x,
            y,
            (x_end - x) as u32,
            (y_end - y) as u32,
        ),
{
    let w = x_end - x;
    let h = y_end - y;
    crop_imm(img, x, y, w, h)
}

/// Cutting out the whole image from its top-left corner gives the image back
/// unchanged: the default cropping exports the background as it is.
pub proof fn whole_image_crop_is_identity(img: RgbaImage)
    requires
        img.wf(),
    ensures
        cropped(img, 0, 0, img.width, img.height) == (img.width, img.height, img.data@),
{
    let w = img.width as int;
    let h = img.height as int;
    let s = cut_out(img, 0, 0, w, h);
    assert forall|k: int| 0 <= k < s.len() implies s[k] == img.data@[k] by {
        let p = k / 4;
        assert(w > 0) by (nonlinear_arith)
            requires
                0 <= k < w * h * 4,
                h >= 0,
        ;
        vstd::arithmetic::div_mod::lemma_fundamental_div_mod(p, w);
        vstd::arithmetic::div_mod::lemma_fundamental_div_mod(k, 4);
        assert(((p / w) * w + p % w) * 4 + k % 4 == k) by (nonlinear_arith)
            requires
                p == w * (p / w) + p % w,
                k == 4 * (k / 4) + k % 4,
                p == k / 4,
        ;
    }
    assert(s =~= img.data@);
}

/// The image a cropping that reaches past the background produces: a canvas
/// of the cropping's size filled with `background`, with the part of the
/// image that the cropping covers drawn over it at its place.
pub open spec fn padded_crop(
    img: RgbaImage,
    x: i32,
    y: i32,
    x_end: i32,
    y_end: i32,
    background: [u8; 4],
) -> (u32, u32, Seq<u8>) {
    let w = (x_end - x) as u32;
    let h = (y_end - y) as u32;
    let cx = if x > 0 {
        x
    } else {
        0
    };
    let cy = if y > 0 {
        y
    } else {
        0
    };
    let cw = if img.width < w {
        img.width
    } else {
        w
    };
    let ch = if img.height < h {
        img.height
    } else {
        h
    };
    let part = cropped(img, cx as u32, cy as u32, cw, ch);
    (
        w,
        h,
        overlaid(
            w,
            h,
            filled(w, h, background),
            part.0,
            part.1,
            part.2,
            (cx - x) as i64,
            (cy - y) as i64,
        ),
    )
}

/// Crops the background image to the pixels from `(x, y)` up to
/// `(x_end, y_end)` when the cropping reaches past the image: the area outside
/// the image shows `background`.
pub fn crop_padded(
    img: &RgbaImage,
    x: i32,
    y: i32,
    x_end: i32,
    y_end: i32,
    background: [u8; 4],
) -> (res: RgbaImage)
    requires
        img.wf(),
        i32::MIN <= x_end - x <= i32::MAX,
        i32::MIN <= y_end - y <= i32::MAX,
        x > i32::MIN,
        y > i32::MIN,
        rgba_len((x_end - x) as u32 as int, (y_end - y) as u32 as int) <= usize::MAX,
    ensures
        res.wf(),
        (res.width, res.height, res.data@) == padded_crop(*img, x, y, x_end, y_end, background),
        forall|i: int, j: int, c: int|
            #![trigger res.channel(i, j, c)]
            0 <= i < res.width && 0 <= j < res.height && 0 <= c < 4 ==> {
                let inside = 0 <= x + i < img.width && 0 <= y + j < img.height;
                &&& (!inside || img.channel(x + i, y + j, 3) == 0) ==> res.channel(i, j, c)
                    == background[c]
                &&& (inside && img.channel(x + i, y + j, 3) == 255) ==> res.channel(i, j, c)
                    == img.channel(x + i, y + j, c)
            },
{
    let w = x_end - x;
    let h = y_end - y;
    let mut canvas = create_image(w as u32, h as u32, background);
    let cx = if x > 0 {
        x
    } else {
        0
    };
    let cy = if y > 0 {
        y
    } else {
        0
    };
    let cw = if img.width < w as u32 {
        img.width
    } else {
        w as u32
    };
    let ch = if img.height < h as u32 {
        img.height
    } else {
        h as u32
    };
    let part = crop_imm(img, cx as u32, cy as u32, cw, ch);
    let ghost blank = canvas;
    let ox = (cx - x) as i64;
    let oy = (cy - y) as i64;
    overlay(&mut canvas, &part, ox, oy);
    proof {
        let b = crop_bounds(img.width, img.height, cx as u32, cy as u32, cw, ch);
        assert forall|i: int, j: int, c: int|
            #![trigger canvas.channel(i, j, c)]
            0 <= i < canvas.width && 0 <= j < canvas.height && 0 <= c < 4 implies {
                let inside = 0 <= x + i < img.width && 0 <= y + j < img.height;
                &&& (!inside || img.channel(x + i, y + j, 3) == 0) ==> canvas.channel(i, j, c)
                    == background[c]
                &&& (inside && img.channel(x + i, y + j, 3) == 255) ==> canvas.channel(i, j, c)
                    == img.channel(x + i, y + j, c)
            } by {
            let inside = 0 <= x + i < img.width && 0 <= y + j < img.height;
            let covered = overlay_covers(
                blank.width,
                blank.height,
                part.width,
                part.height,
                ox as int,
                oy as int,
                i,
                j,
            );
            assert(blank.channel(i, j, c) == background[c]);
            assert(covered == inside);
            if inside {
                assert(b.0 == cx && b.1 == cy);
                assert(part.channel(i - ox, j - oy, 3) == img.channel(x + i, y + j, 3));
                assert(part.channel(i - ox, j - oy, c) == img.channel(x + i, y + j, c));
            }
        }
    }
    canvas
}

} // verus!
