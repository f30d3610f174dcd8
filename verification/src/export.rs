use vstd::prelude::*;
use vstd::string::StringExecFns;
use crate::imaging::{encode, encoded, first_extension, ExportFormat};
use crate::raster::RgbaImage;

verus! {

/// The character the standard base64 alphabet (RFC 4648: `A`-`Z`, `a`-`z`,
/// `0`-`9`, `+`, `/`) gives a 6-bit value.
pub open spec fn base64_char(v: int) -> char {
    if v < 26 {
        (65 + v) as char
    } else if v < 52 {
        (97 + v - 26) as char
    } else if v < 62 {
        (48 + v - 52) as char
    } else if v == 62 {
        '+'
    } else {
        '/'
    }
}

/// The standard base64 text of the bytes: each group of three bytes becomes
/// four characters of six bits each, and a last group of one or two bytes is
/// padded with `=` to four characters.
pub open spec fn base64_standard(bytes: Seq<u8>) -> Seq<char>
    decreases bytes.len(),
{
    if bytes.len() == 0 {
        seq![]
    } else if bytes.len() == 1 {
        let a = bytes[0] as int;
        seq![base64_char(a / 4), base64_char((a % 4) * 16), '=', '=']
    } else if bytes.len() == 2 {
        let a = bytes[0] as int;
        let b = bytes[1] as int;
        seq![base64_char(a / 4), base64_char((a % 4) * 16 + b / 16), base64_char((b % 16) * 4), '=']
    } else {
        let a = bytes[0] as int;
        let b = bytes[1] as int;
        let c = bytes[2] as int;
        seq![
            base64_char(a / 4),
            base64_char((a % 4) * 16 + b / 16),
            base64_char((b % 16) * 4 + c / 64),
            base64_char(c % 64),
        ] + base64_standard(bytes.subrange(3, bytes.len() as int))
    }
}

/// Length of the padded base64 text of `n` bytes.
pub open spec fn base64_len(n: int) -> int {
    4 * ((n + 2) / 3)
}

/// Calls `base64::encode` (the crate's `STANDARD` engine: RFC 4648 alphabet,
/// padded). Claims the result is `base64_standard` of the bytes and has the
/// length `encoded_len` computes for padded output; the call panics when that
/// length overflows `usize`, so such inputs are left out.
#[verifier::external_body]
#[allow(deprecated)]
fn base64_encode(bytes: &[u8]) -> (text: String)
    requires
        base64_len(bytes@.len() as int) <= usize::MAX,
    ensures
        text@ == base64_standard(bytes@),
        text@.len() == base64_len(bytes@.len() as int),
{
    base64::encode(bytes)
}

/// The formats the export offers, in menu order.
pub fn default_formats() -> (formats: Vec<ExportFormat>)
    ensures
        formats@ == seq![ExportFormat::Png, ExportFormat::Jpeg, ExportFormat::Qoi],
{
    let mut formats = Vec::new();
    formats.push(ExportFormat::Png);
    formats.push(ExportFormat::Jpeg);
    formats.push(ExportFormat::Qoi);
    formats
}

/// The file extension a format is offered and saved under.
pub open spec fn extension_of(format: ExportFormat) -> Seq<char> {
    match format {
        ExportFormat::Png => "png"@,
        ExportFormat::Jpeg => "jpg"@,
        ExportFormat::Qoi => "qoi"@,
    }
}

/// The extension shown for and used by a format.
pub fn format_extension(format: ExportFormat) -> (ext: String)
    ensures
        ext@ == extension_of(format),
{
    first_extension(format)
}

/// Why an export could not be prepared.
#[derive(Debug, Clone, Copy, PartialEq, Eq, Structural)]
pub enum ExportError {
    /// The base64 text of the encoded file would not fit in memory.
    TooLarge,
}

/// What a download is made of: the file name and the file's bytes as
/// base64 text.
pub struct ExportPayload {
    pub file_name: String,
    pub base64: String,
}

/// How preparing the download of the encoded file `bytes` in `format` ends.
pub open spec fn payload_for(
    bytes: Seq<u8>,
    format: ExportFormat,
    res: Result<ExportPayload, ExportError>,
) -> bool {
    if base64_len(bytes.len() as int) > usize::MAX {
        res matches Err(ExportError::TooLarge)
    } else {
        res matches Ok(p) && p.file_name@ == "image."@ + extension_of(format) && p.base64@
            == base64_standard(bytes)
    }
}

/// Encodes the image in `format`, which the encoder must accept, and prepares
/// it for download as `image.<extension>`.
pub fn export_payload(img: &RgbaImage, format: ExportFormat) -> (res: Result<ExportPayload, ExportError>)
    requires
        img.wf(),
        encoded(img.width, img.height, img.data@, format) is Some,
    ensures
        payload_for(encoded(img.width, img.height, img.data@, format)->0, format, res),
{
    let bytes = encode(img, format).unwrap();
    let n = bytes.len();
    let groups: usize = if n % 3 == 0 {
        n / 3
    } else {
        n / 3 + 1
    };
    assert(groups == (n + 2) / 3);
    if groups > usize::MAX / 4 {
        return Err(ExportError::TooLarge);
    }
    let text = base64_encode(bytes.as_slice());
    let mut file_name = String::from_str("image.");
    let ext = format_extension(format);
    file_name.append(ext.as_str());
    Ok(ExportPayload { file_name, base64: text })
}

/// Prepares a download as `export_payload` does, first checking that the
/// encoder accepts the image; `None` when it refuses.
pub fn try_export_payload(img: &RgbaImage, format: ExportFormat) -> (res: Option<
    Result<ExportPayload, ExportError>,
>)
    requires
        img.wf(),
    ensures
        res is None <==> encoded(img.width, img.height, img.data@, format) is None,
        res matches Some(r) ==> payload_for(
            encoded(img.width, img.height, img.data@, format)->0,
            format,
            r,
        ),
{
    if encode(img, format).is_none() {
        return None;
    }
    Some(export_payload(img, format))
}

} // verus!
