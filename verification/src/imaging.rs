use vstd::prelude::*;
use crate::raster::{rgba_len, RgbaImage};

verus! {

/// What `image` decodes the bytes to (format guessed from the content),
/// converted to 8-bit RGBA: `(width, height, pixels)`, or `None` when the bytes
/// are not an image the decoder accepts.
pub uninterp spec fn decoded_rgba(bytes: Seq<u8>) -> Option<(u32, u32, Seq<u8>)>;

/// Calls `image::load_from_memory` and converts the result with `to_rgba8`.
/// Claims that the result is `decoded_rgba` of the bytes, and that a decoded
/// buffer holds exactly `width * height` RGBA pixels (the invariant of
/// `image::ImageBuffer`).
#[verifier::external_body]
pub(crate) fn decode_rgba(bytes: &[u8]) -> (res: Option<RgbaImage>)
    ensures
        res is Some <==> decoded_rgba(bytes@) is Some,
        res matches Some(img) ==> img.wf() && decoded_rgba(bytes@) == Some(
            (img.width, img.height, img.data@),
        ),
{
    let img = image::load_from_memory(bytes).ok()?.to_rgba8();
    Some(RgbaImage { width: img.width(), height: img.height(), data: img.into_raw() })
}

/// The rectangle that `image::imageops::crop_imm` actually cuts from an image
/// of size `iw` x `ih`: the corner is clamped into the image and the size to
/// what remains right of and below it.
pub open spec fn crop_bounds(iw: u32, ih: u32, x: u32, y: u32, w: u32, h: u32) -> (
    u32,
    u32,
    u32,
    u32,
) {
    let cx = if x < iw {
        x
    } else {
        iw
    };
    let cy = if y < ih {
        y
    } else {
        ih
    };
    let cw = if w < iw - cx {
        w
    } else {
        (iw - cx) as u32
    };
    let ch = if h < ih - cy {
        h
    } else {
        (ih - cy) as u32
    };
    (cx, cy, cw, ch)
}

/// The bytes of the `w` x `h` cut-out whose top-left corner is source pixel
/// `(x, y)`: row by row, each pixel copied from the source.
pub open spec fn cut_out(img: RgbaImage, x: int, y: int, w: int, h: int) -> Seq<u8> {
    Seq::new(
        (w * h * 4) as nat,
        |k: int| img.channel(x + (k / 4) % w, y + (k / 4) / w, k % 4),
    )
}

/// Calls `image::imageops::crop_imm` on an RGBA buffer and copies the view
/// out with `to_image`. Claims what the crate's source shows: the cut-out has
/// the size given by `crop_bounds` and each of its pixels is the source pixel
/// at the clamped corner plus its position.
#[verifier::external_body]
pub(crate) fn crop_imm(img: &RgbaImage, x: u32, y: u32, w: u32, h: u32) -> (res: RgbaImage)
    requires
        img.wf(),
    ensures
        res.wf(),
        (res.width, res.height) == (crop_bounds(img.width, img.height, x, y, w, h).2,
        crop_bounds(img.width, img.height, x, y, w, h).3),
        res.data@ == cut_out(
            *img,
            crop_bounds(img.width, img.height, x, y, w, h).0 as int,
            crop_bounds(img.width, img.height, x, y, w, h).1 as int,
            res.width as int,
            res.height as int,
        ),
        forall|i: int, j: int, c: int|
            0 <= i < res.width && 0 <= j < res.height && 0 <= c < 4 ==> #[trigger] res.channel(
                i,
                j,
                c,
            ) == img.channel(
                crop_bounds(img.width, img.height, x, y, w, h).0 + i,
                crop_bounds(img.width, img.height, x, y, w, h).1 + j,
                c,
            ),
{
    let buf = image::RgbaImage::from_raw(img.width, img.height, img.data.clone()).unwrap();
    let out = image::imageops::crop_imm(&buf, x, y, w, h).to_image();
    RgbaImage { width: out.width(), height: out.height(), data: out.into_raw() }
}

/// Whether `image::imageops::overlay` of a `tw` x `th` image at `(x, y)` onto a
/// `bw` x `bh` image writes bottom pixel `(px, py)`.
pub open spec fn overlay_covers(
    bw: u32,
    bh: u32,
    tw: u32,
    th: u32,
    x: int,
    y: int,
    px: int,
    py: int,
) -> bool {
    0 <= px < bw && 0 <= py < bh && 0 <= px - x < tw && 0 <= py - y < th
}

/// The pixels `image::imageops::overlay` leaves in the bottom image: each
/// covered pixel is alpha-blended with the top pixel over it.
pub uninterp spec fn overlaid(
    bottom_width: u32,
    bottom_height: u32,
    bottom: Seq<u8>,
    top_width: u32,
    top_height: u32,
    top: Seq<u8>,
    x: i64,
    y: i64,
) -> Seq<u8>;

/// What `image::imageops::overlay` of `top` at `(x, y)` leaves in the bottom
/// image: `after` keeps the bottom's size and is `overlaid(..)`; uncovered
/// pixels and pixels under a fully transparent top pixel are kept, pixels under
/// a fully opaque top pixel are replaced by it (what `Rgba::blend` shows for
/// those cases). The blend of partly transparent pixels is left to the name.
pub open spec fn overlay_result(
    bottom: RgbaImage,
    top: RgbaImage,
    x: i64,
    y: i64,
    after: RgbaImage,
) -> bool {
    &&& after.wf()
    &&& after.width == bottom.width
    &&& after.height == bottom.height
    &&& after.data@ == overlaid(
        bottom.width,
        bottom.height,
        bottom.data@,
        top.width,
        top.height,
        top.data@,
        x,
        y,
    )
    &&& forall|px: int, py: int, c: int|
        #![trigger after.channel(px, py, c)]
        0 <= px < bottom.width && 0 <= py < bottom.height && 0 <= c < 4 ==> {
            let covered = overlay_covers(
                bottom.width,
                bottom.height,
                top.width,
                top.height,
                x as int,
                y as int,
                px,
                py,
            );
            &&& (!covered || top.channel(px - x, py - y, 3) == 0) ==> after.channel(px, py, c)
                == bottom.channel(px, py, c)
            &&& (covered && top.channel(px - x, py - y, 3) == 255) ==> after.channel(px, py, c)
                == top.channel(px - x, py - y, c)
        }
}

/// Calls `image::imageops::overlay` on two RGBA buffers. Claims
/// `overlay_result`: the bottom keeps its size and becomes `overlaid(..)`, and
/// the simple cases of `Rgba::blend` (uncovered and fully transparent pixels
/// kept, fully opaque ones copied).
#[verifier::external_body]
pub(crate) fn overlay(bottom: &mut RgbaImage, top: &RgbaImage, x: i64, y: i64)
    requires
        old(bottom).wf(),
        top.wf(),
    ensures
        overlay_result(*old(bottom), *top, x, y, *final(bottom)),
        final(bottom).data@ == overlaid(
            old(bottom).width,
            old(bottom).height,
            old(bottom).data@,
            top.width,
            top.height,
            top.data@,
            x,
            y,
        ),
{
    let data = std::mem::take(&mut bottom.data);
    let mut buf = image::RgbaImage::from_raw(bottom.width, bottom.height, data).unwrap();
    let top_buf = image::RgbaImage::from_raw(top.width, top.height, top.data.clone()).unwrap();
    image::imageops::overlay(&mut buf, &top_buf, x, y);
    bottom.data = buf.into_raw();
}

/// What `image::DynamicImage::resize` with the `Triangle` filter makes of an
/// RGBA image: scaled to fit `nw` x `nh` keeping its aspect ratio.
pub uninterp spec fn resized(
    width: u32,
    height: u32,
    data: Seq<u8>,
    nw: u32,
    nh: u32,
) -> (u32, u32, Seq<u8>);

/// Calls `image::DynamicImage::resize` with `FilterType::Triangle`. Claims
/// that the result is `resized(..)`, is a well-formed RGBA buffer, and is the
/// image itself when the requested size is its own (the early return in the
/// crate's source).
#[verifier::external_body]
pub(crate) fn resize(img: &RgbaImage, nw: u32, nh: u32) -> (res: RgbaImage)
    requires
        img.wf(),
    ensures
        res.wf(),
        (res.width, res.height, res.data@) == resized(img.width, img.height, img.data@, nw, nh),
        (nw, nh) == (img.width, img.height) ==> res.width == img.width && res.height
            == img.height && res.data@ == img.data@,
{
    let buf = image::RgbaImage::from_raw(img.width, img.height, img.data.clone()).unwrap();
    let dynamic = image::DynamicImage::ImageRgba8(buf);
    let out = dynamic.resize(nw, nh, image::imageops::FilterType::Triangle).to_rgba8();
    RgbaImage { width: out.width(), height: out.height(), data: out.into_raw() }
}

/// The file formats offered for export.
#[derive(Debug, Clone, Copy, PartialEq, Eq, Structural)]
pub enum ExportFormat {
    Png,
    Jpeg,
    Qoi,
}

/// The bytes `image::DynamicImage::write_to` produces for an RGBA image in the
/// given format, or `None` when the encoder reports an error.
pub uninterp spec fn encoded(
    width: u32,
    height: u32,
    data: Seq<u8>,
    format: ExportFormat,
) -> Option<Seq<u8>>;

/// Calls `image::DynamicImage::write_to` into an in-memory buffer. Claims only
/// that the result is `encoded(..)`.
#[verifier::external_body]
pub(crate) fn encode(img: &RgbaImage, format: ExportFormat) -> (res: Option<Vec<u8>>)
    requires
        img.wf(),
    ensures
        res is Some <==> encoded(img.width, img.height, img.data@, format) is Some,
        res matches Some(bytes) ==> encoded(img.width, img.height, img.data@, format) == Some(
            bytes@,
        ),
{
    let buf = image::RgbaImage::from_raw(img.width, img.height, img.data.clone()).unwrap();
    let fmt = match format {
        ExportFormat::Png => image::ImageFormat::Png,
        ExportFormat::Jpeg => image::ImageFormat::Jpeg,
        ExportFormat::Qoi => image::ImageFormat::Qoi,
    };
    let mut out: Vec<u8> = Vec::new();
    image::DynamicImage::ImageRgba8(buf).write_to(std::io::Cursor::new(&mut out), fmt).ok()?;
    Some(out)
}

/// Calls `image::ImageFormat::extensions_str` and takes the first entry.
/// Claims the table in the crate's source: `png`, `jpg`, `qoi`.
#[verifier::external_body]
pub(crate) fn first_extension(format: ExportFormat) -> (res: String)
    ensures
        res@ == match format {
            ExportFormat::Png => "png"@,
            ExportFormat::Jpeg => "jpg"@,
            ExportFormat::Qoi => "qoi"@,
        },
{
    let fmt = match format {
        ExportFormat::Png => image::ImageFormat::Png,
        ExportFormat::Jpeg => image::ImageFormat::Jpeg,
        ExportFormat::Qoi => image::ImageFormat::Qoi,
    };
    fmt.extensions_str()[0].to_string()
}

} // verus!
