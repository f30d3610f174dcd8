use vstd::prelude::*;
use crate::raster::{rgba_len, RgbaImage};
use usvg::TreeParsing;

verus! {

/// A parsed SVG document. Opaque: the library carries it from parsing to
/// rendering and reads nothing inside it.
#[verifier::external_type_specification]
#[verifier::external_body]
pub struct ExTree(usvg::Tree);

/// What `usvg::Tree::from_data` makes of the bytes (with the default options
/// and geometric-precision text rendering), read off as the tree's size in
/// whole pixels (`Size::to_screen_size`), or the parse error's message.
pub uninterp spec fn svg_parsed(svg: Seq<u8>) -> Result<(u32, u32), Seq<char>>;

/// Calls `usvg::Tree::from_data` and reads the tree's size with
/// `Size::to_screen_size`. Claims that the size or the error message is
/// `svg_parsed` of the bytes, and that a screen size is at least one pixel
/// each way (the `max(1, ..)` in usvg's `to_screen_size`). The tree itself is
/// opaque.
#[verifier::external_body]
pub(crate) fn parse_svg(svg: &[u8]) -> (res: Result<(usvg::Tree, u32, u32), String>)
    ensures
        match res {
            Ok((_, w, h)) => svg_parsed(svg@) == Ok::<(u32, u32), Seq<char>>((w, h)) && w >= 1
                && h >= 1,
            Err(msg) => svg_parsed(svg@) == Err::<(u32, u32), Seq<char>>(msg@),
        },
{
    let opt = usvg::Options {
        text_rendering: usvg::TextRendering::GeometricPrecision,
        ..usvg::Options::default()
    };
    let tree = usvg::Tree::from_data(svg, &opt).map_err(|err| err.to_string())?;
    let size = tree.size.to_screen_size();
    Ok((tree, size.width(), size.height()))
}

/// Whether `tiny_skia::Pixmap::new` accepts the size: both sides non-zero
/// (`IntSize::from_wh`), a row of at most `i32::MAX` bytes (`min_row_bytes`)
/// and a buffer length that fits in `usize` (`compute_data_len`).
pub open spec fn pixmap_fits(width: u32, height: u32) -> bool {
    &&& width > 0
    &&& height > 0
    &&& 4 * width <= i32::MAX
    &&& rgba_len(width as int, height as int) <= usize::MAX
}

/// Whether a pixmap of this size can be made.
pub fn fits_pixmap(width: u32, height: u32) -> (ok: bool)
    ensures
        ok == pixmap_fits(width, height),
{
    if width == 0 || height == 0 || width > 0x1fff_ffff {
        return false;
    }
    let w = width as u64;
    let h = height as u64;
    assert(w * h <= u32::MAX * u32::MAX) by (nonlinear_arith)
        requires
            w <= u32::MAX,
            h <= u32::MAX,
    ;
    let pixels: u64 = w * h;
    if pixels > u64::MAX / 4 {
        return false;
    }
    let len: u64 = pixels * 4;
    if len > usize::MAX as u64 {
        return false;
    }
    true
}

/// Draws a parsed SVG scaled to `width` x `height`: makes a
/// `tiny_skia::Pixmap` of that size, renders into it with `resvg::render` and
/// `FitTo::Size`, and takes the pixmap's premultiplied RGBA bytes with its
/// size. The pixmap stays inside this item: it is opaque, so its size can only
/// be stated where it is made and read.
///
/// Claims: a result is `Some` exactly when `Pixmap::new` accepts the size
/// (`resvg::render` fails only for a zero side, which the pixmap already
/// refuses), and it is a `width` x `height` RGBA image. The pixel values are
/// not claimed: they are resvg's drawing of the tree, and the tree holds the
/// files its `<image>` elements named, as read from disk when it was parsed.
#[verifier::external_body]
pub(crate) fn render_tree(tree: &usvg::Tree, width: u32, height: u32) -> (res: Option<RgbaImage>)
    ensures
        res is Some <==> pixmap_fits(width, height),
        res matches Some(img) ==> img.wf() && img.width == width && img.height == height,
{
    let mut pixmap = tiny_skia::Pixmap::new(width, height)?;
    resvg::render(tree, resvg::FitTo::Size(width, height), Default::default(), pixmap.as_mut())?;
    let (w, h) = (pixmap.width(), pixmap.height());
    Some(RgbaImage { width: w, height: h, data: pixmap.take() })
}

} // verus!
