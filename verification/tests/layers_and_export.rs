use amv::compose::{compose_layers, crop_inside, crop_padded, Placement};
use amv::export::{default_formats, export_payload, format_extension, try_export_payload};
use amv::imaging::ExportFormat;
use amv::layers::{
    change_foreground_color, create_sub_image, draw_vector, load_image, open_layer_file,
    vector_preview, ImageSource, LayerError, SubImage,
};
use amv::svg::fits_pixmap;
use amv::raster::RgbaImage;
use amv::tint::create_image;
use base64::Engine;

const SQUARE_SVG: &str = "<svg xmlns=\"http://www.w3.org/2000/svg\" width=\"2\" height=\"3\">\
<rect x=\"0\" y=\"0\" width=\"2\" height=\"3\" fill=\"black\"/></svg>";

fn png_bytes(width: u32, height: u32, pixel: [u8; 4]) -> Vec<u8> {
    let buf = image::RgbaImage::from_pixel(width, height, image::Rgba(pixel));
    let mut out = Vec::new();
    image::DynamicImage::ImageRgba8(buf)
        .write_to(std::io::Cursor::new(&mut out), image::ImageFormat::Png)
        .unwrap();
    out
}

fn pixel(img: &RgbaImage, x: u32, y: u32) -> [u8; 4] {
    let i = ((y * img.width + x) * 4) as usize;
    [img.data[i], img.data[i + 1], img.data[i + 2], img.data[i + 3]]
}

#[test]
fn svg_layer_is_oversampled_and_white() {
    let layer = create_sub_image(SQUARE_SVG.as_bytes(), "square.svg").ok().unwrap();
    assert_eq!((layer.width, layer.height), (2, 3));
    assert_eq!((layer.aspect_width, layer.aspect_height), (20, 30));
    assert_eq!((layer.preview.width, layer.preview.height), (20, 30));
    assert_eq!(pixel(&layer.preview, 10, 15), [255, 255, 255, 255]);
    assert_eq!(layer.layer.name, "square.svg");
    assert_eq!(layer.layer.foreground_color, [255, 255, 255]);
    assert!(layer.layer.lock_aspectratio);
    assert!(matches!(layer.layer.source, ImageSource::Vector { width: 2, height: 3, .. }));
}

#[test]
fn broken_svg_reports_parser_message() {
    match create_sub_image(b"<svg", "broken.svg") {
        Err(LayerError::Svg(msg)) => assert!(!msg.is_empty()),
        _ => panic!("expected an SVG error"),
    }
}

#[test]
fn raster_layer_keeps_decoded_pixels() {
    let bytes = png_bytes(3, 2, [1, 2, 3, 255]);
    let layer = create_sub_image(&bytes, "photo.png").ok().unwrap();
    assert_eq!((layer.width, layer.height), (3, 2));
    assert_eq!(pixel(&layer.preview, 2, 1), [1, 2, 3, 255]);
    assert!(matches!(layer.layer.source, ImageSource::Raster(ref img) if img.width == 3));
}

#[test]
fn undecodable_raster_is_reported() {
    assert!(open_layer_file(b"not an image", "photo.jpg").is_none());
    assert!(open_layer_file(b"not an image", "logo.SVG").is_none());
    let bytes = png_bytes(1, 1, [4, 5, 6, 255]);
    let layer = open_layer_file(&bytes, "dot.png").unwrap().ok().unwrap();
    assert_eq!(pixel(&layer.preview, 0, 0), [4, 5, 6, 255]);
    assert!(matches!(open_layer_file(b"<svg", "bad.svg"), Some(Err(LayerError::Svg(_)))));
}

#[test]
fn vector_preview_paints_the_rendered_pixels() {
    let rendered = RgbaImage::from_raw(2, 1, vec![1, 2, 3, 0, 4, 5, 6, 128]).unwrap();
    let img = vector_preview(Some(rendered), 2, 1, [9, 8, 7]).ok().unwrap();
    assert_eq!((img.width, img.height), (2, 1));
    assert_eq!(img.data, vec![9, 8, 7, 0, 9, 8, 7, 128]);
    match vector_preview(None, 5, 6, [0, 0, 0]) {
        Err(LayerError::Pixmap { width, height }) => assert_eq!((width, height), (5, 6)),
        _ => panic!("expected a pixmap error"),
    }
}

#[test]
fn vector_is_drawn_at_ten_times_its_size() {
    let layer = create_sub_image(SQUARE_SVG.as_bytes(), "square.svg").ok().unwrap().layer;
    let ImageSource::Vector { tree, width, height } = &layer.source else {
        panic!("expected a vector layer");
    };
    let img = draw_vector(tree, *width, *height, [1, 2, 3]).ok().unwrap();
    assert_eq!((img.width, img.height), (20, 30));
    assert_eq!(pixel(&img, 19, 29), [1, 2, 3, 255]);
    assert!(matches!(draw_vector(tree, u32::MAX, 1, [0, 0, 0]), Err(LayerError::SizeOverflow)));
    match draw_vector(tree, 60_000_000, 1, [0, 0, 0]) {
        Err(LayerError::Pixmap { width, height }) => assert_eq!((width, height), (600_000_000, 10)),
        _ => panic!("expected a pixmap error"),
    }
}

#[test]
fn pixmap_sizes_that_fit() {
    assert!(fits_pixmap(1, 1));
    assert!(!fits_pixmap(0, 5));
    assert!(!fits_pixmap(5, 0));
    assert!(fits_pixmap(0x1fff_ffff, 1));
    assert!(!fits_pixmap(0x2000_0000, 1));
}

#[test]
fn recolouring_redraws_vector_layers_only() {
    let mut layer = create_sub_image(SQUARE_SVG.as_bytes(), "square.svg").ok().unwrap().layer;
    let img = change_foreground_color(&mut layer, [10, 20, 30]).ok().unwrap().unwrap();
    assert_eq!(layer.foreground_color, [10, 20, 30]);
    assert_eq!(pixel(&img, 5, 5), [10, 20, 30, 255]);

    let bytes = png_bytes(1, 1, [0, 0, 0, 255]);
    let mut raster = create_sub_image(&bytes, "dot.png").ok().unwrap().layer;
    assert!(change_foreground_color(&mut raster, [10, 20, 30]).ok().unwrap().is_none());
    assert_eq!(raster.foreground_color, [255, 255, 255]);
}

#[test]
fn crop_inside_cuts_the_rectangle() {
    let mut data = Vec::new();
    for i in 0..16u8 {
        data.extend_from_slice(&[i, 0, 0, 255]);
    }
    let img = RgbaImage::from_raw(4, 4, data).unwrap();
    let out = crop_inside(&img, 1, 2, 3, 4);
    assert_eq!((out.width, out.height), (2, 2));
    assert_eq!(pixel(&out, 0, 0)[0], 9);
    assert_eq!(pixel(&out, 1, 1)[0], 14);
    let clamped = crop_inside(&img, 3, 3, 9, 9);
    assert_eq!((clamped.width, clamped.height), (1, 1));
}

#[test]
fn crop_padded_fills_outside_with_background() {
    let img = create_image(2, 2, [9, 9, 9, 255]);
    let out = crop_padded(&img, -1, 0, 2, 3, [0, 0, 0, 255]);
    assert_eq!((out.width, out.height), (3, 3));
    assert_eq!(pixel(&out, 0, 0), [0, 0, 0, 255]);
    assert_eq!(pixel(&out, 1, 0), [9, 9, 9, 255]);
    assert_eq!(pixel(&out, 2, 1), [9, 9, 9, 255]);
    assert_eq!(pixel(&out, 1, 2), [0, 0, 0, 255]);
}

#[test]
fn padded_crop_left_of_a_red_image() {
    let img = create_image(2, 2, [255, 0, 0, 255]);
    let out = crop_padded(&img, -1, 0, 2, 2, [255, 255, 255, 255]);
    assert_eq!((out.width, out.height), (3, 2));
    assert_eq!(pixel(&out, 0, 0), [255, 255, 255, 255]);
    assert_eq!(pixel(&out, 0, 1), [255, 255, 255, 255]);
    for i in 1..3 {
        for j in 0..2 {
            assert_eq!(pixel(&out, i, j), [255, 0, 0, 255]);
        }
    }
}

#[test]
fn earlier_layers_end_up_on_top() {
    let base = create_image(4, 4, [255, 255, 255, 255]);
    let red = create_image(2, 2, [255, 0, 0, 255]);
    let blue = create_image(2, 2, [0, 0, 255, 255]);
    let layers = vec![
        SubImage {
            name: "red".to_string(),
            source: ImageSource::Raster(red),
            foreground_color: [255, 255, 255],
            lock_aspectratio: true,
        },
        SubImage {
            name: "blue".to_string(),
            source: ImageSource::Raster(blue),
            foreground_color: [255, 255, 255],
            lock_aspectratio: true,
        },
    ];
    let places = vec![
        Placement { width: 2, height: 2, x: 1, y: 1 },
        Placement { width: 2, height: 2, x: 2, y: 2 },
    ];
    let out = compose_layers(base, &layers, &places);
    assert_eq!(pixel(&out, 0, 0), [255, 255, 255, 255]);
    assert_eq!(pixel(&out, 2, 2), [255, 0, 0, 255]);
    assert_eq!(pixel(&out, 3, 3), [0, 0, 255, 255]);
}

#[test]
fn vector_layers_are_tinted_when_composed() {
    let base = create_image(4, 4, [0, 0, 0, 255]);
    let mut square = create_sub_image(SQUARE_SVG.as_bytes(), "square.svg").ok().unwrap().layer;
    square.foreground_color = [0, 255, 0];
    let layers = vec![square];
    let places = vec![Placement { width: 2, height: 3, x: 0, y: 0 }];
    let out = compose_layers(base, &layers, &places);
    assert_eq!(pixel(&out, 1, 1), [0, 255, 0, 255]);
    assert_eq!(pixel(&out, 3, 3), [0, 0, 0, 255]);
}

#[test]
fn export_names_file_after_format() {
    let img = create_image(2, 2, [1, 2, 3, 255]);
    let payload = export_payload(&img, ExportFormat::Png).ok().unwrap();
    assert_eq!(payload.file_name, "image.png");
    let bytes = base64::engine::general_purpose::STANDARD.decode(payload.base64).unwrap();
    assert_eq!(&bytes[1..4], b"PNG");
    let payload = export_payload(&img, ExportFormat::Jpeg).ok().unwrap();
    assert_eq!(payload.file_name, "image.jpg");
    let payload = export_payload(&img, ExportFormat::Qoi).ok().unwrap();
    assert_eq!(payload.file_name, "image.qoi");
    let checked = try_export_payload(&img, ExportFormat::Png).unwrap().ok().unwrap();
    assert_eq!(checked.file_name, "image.png");
    assert_eq!(checked.base64, export_payload(&img, ExportFormat::Png).ok().unwrap().base64);
}

#[test]
fn formats_and_extensions() {
    assert_eq!(default_formats(), vec![ExportFormat::Png, ExportFormat::Jpeg, ExportFormat::Qoi]);
    assert_eq!(format_extension(ExportFormat::Jpeg), "jpg");
    assert_eq!(format_extension(ExportFormat::Qoi), "qoi");
}

#[test]
fn whole_image_crop_keeps_every_pixel() {
    let mut data = Vec::new();
    for i in 0..12u8 {
        data.extend_from_slice(&[i, 2 * i, 3 * i, 255 - i]);
    }
    let img = RgbaImage::from_raw(4, 3, data.clone()).unwrap();
    let out = crop_inside(&img, 0, 0, 4, 3);
    assert_eq!((out.width, out.height), (4, 3));
    assert_eq!(out.data, data);
}

#[test]
fn background_picture_is_decoded_to_rgba() {
    let img = load_image(&png_bytes(3, 2, [7, 8, 9, 200])).unwrap();
    assert_eq!((img.width, img.height), (3, 2));
    assert_eq!(img.data.len(), 24);
    assert_eq!(pixel(&img, 2, 1), [7, 8, 9, 200]);
    assert!(load_image(b"not an image").is_none());
}
