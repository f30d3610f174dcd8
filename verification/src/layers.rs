use vstd::prelude::*;
use vstd::slice::slice_to_vec;
use vstd::string::StringExecFns;
use vstd::string::StringSliceAdditionalSpecFns;
use crate::imaging::{decode_rgba, decoded_rgba};
use crate::raster::RgbaImage;
use crate::svg::{parse_svg, pixmap_fits, render_tree, svg_parsed};
use crate::tint::{tint_rgb, tinted};

verus! {

/// Vector layers are rasterized at this many times their nominal size.
pub const SVG_OVERSAMPLING: u32 = 10;

/// Colour a freshly loaded vector layer is drawn in.
pub const WHITE: [u8; 3] = [255, 255, 255];

/// What a layer shows: a parsed SVG document with its own size in whole
/// pixels (rasterized on demand), or a decoded raster image.
pub enum ImageSource {
    Vector { tree: usvg::Tree, width: u32, height: u32 },
    Raster(RgbaImage),
}

/// A layer of the composition.
pub struct SubImage {
    pub name: String,
    pub source: ImageSource,
    /// Colour a vector layer is drawn in.
    pub foreground_color: [u8; 3],
    /// Whether corner drags keep the layer's aspect ratio.
    pub lock_aspectratio: bool,
}

/// A freshly loaded layer together with what the editor needs to place and
/// show it.
pub struct NewLayer {
    pub layer: SubImage,
    /// The pixels to show for the layer.
    pub preview: RgbaImage,
    /// The layer's nominal size: the far corner of its rectangle when placed at
    /// the origin.
    pub width: u32,
    pub height: u32,
    /// The layer's aspect ratio, as the pixel size it was first rasterized at.
    pub aspect_width: u32,
    pub aspect_height: u32,
}

/// Why a layer could not be created or redrawn.
#[derive(Debug)]
pub enum LayerError {
    /// usvg refused the document; its message.
    Svg(String),
    /// The oversampled size does not fit in 32 bits.
    SizeOverflow,
    /// No pixmap of this size could be made.
    Pixmap { width: u32, height: u32 },
}

/// Whether a file name ends in `svg` (compared byte by byte, as
/// `str::ends_with` does).
pub open spec fn is_svg_name(name: Seq<u8>) -> bool {
    &&& name.len() >= 3
    &&& name[name.len() - 3] == 0x73u8
    &&& name[name.len() - 2] == 0x76u8
    &&& name[name.len() - 1] == 0x67u8
}

/// Whether `name` ends in `svg`.
pub fn has_svg_suffix(name: &str) -> (b: bool)
    ensures
        b == is_svg_name(name.spec_bytes()),
{
    let bytes = name.as_bytes();
    let n = bytes.len();
    n >= 3 && bytes[n - 3] == 0x73u8 && bytes[n - 2] == 0x76u8 && bytes[n - 1] == 0x67u8
}

/// Every pixel of `data` has the red, green and blue of `color`; the alpha
/// bytes are not constrained.
pub open spec fn painted(data: Seq<u8>, color: [u8; 3]) -> bool {
    &&& data.len() % 4 == 0
    &&& forall|k: int| 0 <= k < data.len() && k % 4 != 3 ==> #[trigger] data[k] == color[k % 4]
}

/// The size a document of `sw` x `sh` pixels is rasterized at: ten times its
/// own, or `None` when that does not fit in 32 bits.
pub open spec fn oversampled(sw: u32, sh: u32) -> Option<(u32, u32)> {
    if sw * 10 > u32::MAX || sh * 10 > u32::MAX {
        None
    } else {
        Some(((sw * 10) as u32, (sh * 10) as u32))
    }
}

/// How drawing a document of `sw` x `sh` pixels in `color` at ten times its
/// size ends: the size overflows, or no pixmap of that size can be made, or
/// the drawing is an image of that size whose every pixel has the colour (its
/// alpha is the coverage resvg draws).
pub open spec fn drawn_tenfold(sw: u32, sh: u32, color: [u8; 3], res: Result<RgbaImage, LayerError>) -> bool {
    match oversampled(sw, sh) {
        None => res matches Err(LayerError::SizeOverflow),
        Some((w, h)) => if pixmap_fits(w, h) {
            res matches Ok(img) && img.wf() && img.width == w && img.height == h && painted(
                img.data@,
                color,
            )
        } else {
            res matches Err(LayerError::Pixmap { width, height }) && width == w && height == h
        },
    }
}

/// Turns what rendering an SVG at `width` x `height` returned into the layer's
/// pixels: the rendered pixels painted in `color` with their coverage kept as
/// alpha, or the pixmap error when no pixmap of that size could be made.
pub fn vector_preview(rendered: Option<RgbaImage>, width: u32, height: u32, color: [u8; 3]) -> (res:
    Result<RgbaImage, LayerError>)
    requires
        rendered matches Some(d) ==> d.wf() && d.width == width && d.height == height,
    ensures
        match rendered {
            Some(d) => res matches Ok(img) && img.wf() && img.width == width && img.height
                == height && img.data@ == tinted(d.data@, color),
            None => res matches Err(LayerError::Pixmap { width: w, height: h }) && w == width && h
                == height,
        },
        res matches Ok(img) ==> painted(img.data@, color),
{
    match rendered {
        Some(img) => {
            let mut data = img.data;
            assert(data@.len() % 4 == 0) by (nonlinear_arith)
                requires
                    data@.len() == (width as int) * (height as int) * 4,
            ;
            tint_rgb(&mut data, color);
            Ok(RgbaImage { width, height, data })
        },
        None => Err(LayerError::Pixmap { width, height }),
    }
}

/// Rasterizes a parsed SVG of `sw` x `sh` pixels at ten times that size and
/// paints every pixel in `color`, keeping the rendered coverage as alpha.
pub fn draw_vector(tree: &usvg::Tree, sw: u32, sh: u32, color: [u8; 3]) -> (res: Result<
    RgbaImage,
    LayerError,
>)
    ensures
        drawn_tenfold(sw, sh, color, res),
{
    let w = match sw.checked_mul(SVG_OVERSAMPLING) {
        Some(v) => v,
        None => {
            return Err(LayerError::SizeOverflow);
        },
    };
    let h = match sh.checked_mul(SVG_OVERSAMPLING) {
        Some(v) => v,
        None => {
            return Err(LayerError::SizeOverflow);
        },
    };
    vector_preview(render_tree(tree, w, h), w, h, color)
}

/// `l` is a new vector layer named `name` for a document of `sw` x `sh`
/// pixels: placed at that size, with the aspect ratio of its drawing, in
/// white and with a locked aspect ratio.
pub open spec fn vector_layer(l: NewLayer, name: Seq<char>, sw: u32, sh: u32) -> bool {
    &&& l.width == sw
    &&& l.height == sh
    &&& l.aspect_width == l.preview.width
    &&& l.aspect_height == l.preview.height
    &&& l.layer.source matches ImageSource::Vector { width, height, .. } && width == sw && height
        == sh
    &&& l.layer.name@ == name
    &&& l.layer.foreground_color == WHITE
    &&& l.layer.lock_aspectratio
}

/// `l` is a new raster layer named `name` holding and showing the `w` x `h`
/// image `pixels`, placed at its own size.
pub open spec fn raster_layer(l: NewLayer, name: Seq<char>, pixels: Seq<u8>, w: u32, h: u32) -> bool {
    &&& l.preview.wf()
    &&& l.preview.width == w
    &&& l.preview.height == h
    &&& l.preview.data@ == pixels
    &&& l.width == w
    &&& l.height == h
    &&& l.aspect_width == w
    &&& l.aspect_height == h
    &&& l.layer.source matches ImageSource::Raster(img) && img.wf() && img.width == w
        && img.height == h && img.data@ == pixels
    &&& l.layer.name@ == name
    &&& l.layer.foreground_color == WHITE
    &&& l.layer.lock_aspectratio
}

/// How loading the file `bytes` named `name` (as bytes `name_bytes` and as
/// text `name`) ends: an SVG (by the name's suffix) is parsed and drawn in
/// white at ten times its size, any other file is decoded as a raster image.
pub open spec fn created_as(
    bytes: Seq<u8>,
    name_bytes: Seq<u8>,
    name: Seq<char>,
    res: Result<NewLayer, LayerError>,
) -> bool {
    if is_svg_name(name_bytes) {
        match svg_parsed(bytes) {
            Err(msg) => res matches Err(LayerError::Svg(m)) && m@ == msg,
            Ok((sw, sh)) => {
                &&& drawn_tenfold(
                    sw,
                    sh,
                    WHITE,
                    match res {
                        Ok(l) => Ok(l.preview),
                        Err(e) => Err(e),
                    },
                )
                &&& res matches Ok(l) ==> vector_layer(l, name, sw, sh)
            },
        }
    } else {
        match decoded_rgba(bytes) {
            Some((w, h, pixels)) => res matches Ok(l) && raster_layer(l, name, pixels, w, h),
            None => false,
        }
    }
}

/// Loads a layer from a file's bytes: an SVG when the name ends in `svg`,
/// drawn in white, otherwise a raster image decoded by `image`, which must
/// accept the bytes.
pub fn create_sub_image(bytes: &[u8], name: &str) -> (res: Result<NewLayer, LayerError>)
    requires
        !is_svg_name(name.spec_bytes()) ==> decoded_rgba(bytes@) is Some,
    ensures
        created_as(bytes@, name.spec_bytes(), name@, res),
{
    if has_svg_suffix(name) {
        let (tree, sw, sh) = match parse_svg(bytes) {
            Ok(parsed) => parsed,
            Err(msg) => {
                return Err(LayerError::Svg(msg));
            },
        };
        let preview = match draw_vector(&tree, sw, sh, WHITE) {
            Ok(img) => img,
            Err(e) => {
                return Err(e);
            },
        };
        let aspect_width = preview.width;
        let aspect_height = preview.height;
        let layer = SubImage {
            name: String::from_str(name),
            source: ImageSource::Vector { tree, width: sw, height: sh },
            foreground_color: WHITE,
            lock_aspectratio: true,
        };
        Ok(NewLayer { layer, preview, width: sw, height: sh, aspect_width, aspect_height })
    } else {
        let image = decode_rgba(bytes).unwrap();
        let preview = RgbaImage {
            width: image.width,
            height: image.height,
            data: slice_to_vec(image.data.as_slice()),
        };
        let width = image.width;
        let height = image.height;
        let layer = SubImage {
            name: String::from_str(name),
            source: ImageSource::Raster(image),
            foreground_color: WHITE,
            lock_aspectratio: true,
        };
        Ok(
            NewLayer {
                layer,
                preview,
                width,
                height,
                aspect_width: width,
                aspect_height: height,
            },
        )
    }
}

/// Loads a layer as `create_sub_image` does, first checking that a file that
/// is not an SVG decodes; `None` when it does not.
pub fn open_layer_file(bytes: &[u8], name: &str) -> (res: Option<Result<NewLayer, LayerError>>)
    ensures
        res is None <==> (!is_svg_name(name.spec_bytes()) && decoded_rgba(bytes@) is None),
        res matches Some(r) ==> created_as(bytes@, name.spec_bytes(), name@, r),
{
    if !has_svg_suffix(name) && decode_rgba(bytes).is_none() {
        return None;
    }
    Some(create_sub_image(bytes, name))
}

/// Decodes an image file, such as the editor's background picture, to RGBA
/// pixels; `None` when the decoder does not accept the bytes.
pub fn load_image(bytes: &[u8]) -> (res: Option<RgbaImage>)
    ensures
        match decoded_rgba(bytes@) {
            None => res is None,
            Some((w, h, pixels)) => res matches Some(img) && img.wf() && img.width == w
                && img.height == h && img.data@ == pixels,
        },
{
    decode_rgba(bytes)
}

/// Recolours a vector layer: records `color` and redraws the layer in it at
/// ten times its document size. Returns the new pixels to show, or `None` for
/// a raster layer, which is left as it is.
pub fn change_foreground_color(layer: &mut SubImage, color: [u8; 3]) -> (res: Result<Option<RgbaImage>, LayerError>)
    ensures
        final(layer).name == old(layer).name,
        final(layer).lock_aspectratio == old(layer).lock_aspectratio,
        final(layer).source == old(layer).source,
        match old(layer).source {
            ImageSource::Vector { width, height, .. } => final(layer).foreground_color == color
                && !(res matches Ok(None)) && drawn_tenfold(
                width,
                height,
                color,
                match res {
                    Ok(Some(img)) => Ok(img),
                    Ok(None) => Err(LayerError::SizeOverflow),
                    Err(e) => Err(e),
                },
            ),
            ImageSource::Raster(_) => final(layer).foreground_color == old(layer).foreground_color
                && res matches Ok(None),
        },
{
    match &layer.source {
        ImageSource::Vector { tree, width, height } => {
            let drawn = draw_vector(tree, *width, *height, color);
            layer.foreground_color = color;
            match drawn {
                Ok(img) => Ok(Some(img)),
                Err(e) => Err(e),
            }
        },
        ImageSource::Raster(_) => Ok(None),
    }
}

} // verus!
