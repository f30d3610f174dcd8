# amv

An image-overlay editor: a background picture that can be cropped (also past
its edges, padded with a background colour), with SVG and raster layers placed,
scaled, cropped and recoloured on top of it, and the result downloaded as PNG,
JPEG or QOI.

- `src/` is the verified library (Verus): RGBA images, colour sampling,
  tinting, loading and rasterizing layers, cropping, compositing, export
  payloads, and the decisions of the pointer interaction (which handle is
  grabbed, what a drag moves, what a poll of the file dialog yields). Calls
  into `image`, `usvg`, `resvg`, `tiny-skia` and `base64` stand behind small
  trusted wrappers whose contracts say what the library relies on.
- `app/` is the egui/eframe front end: windows, painting, float screen
  geometry, the file dialog and the download.
- `tests/` runs the library on concrete inputs.
