//! Shapes of the photo endpoints, and the check of uploaded images.

use vstd::prelude::*;
use vstd::string::*;
use crate::error::AppError;

verus! {

/// How many photos are asked for.
#[derive(Debug)]
pub struct ListPhotosQuery {
    pub limit: Option<i32>,
}

/// One photo of a user.
#[derive(Debug)]
pub struct PhotoItemResponse {
    pub id: String,
    pub created_at: String,
    pub image_url: String,
}

/// The photos of a user.
#[derive(Debug)]
pub struct ListPhotosResponse {
    pub photos: Vec<PhotoItemResponse>,
}

/// The confirmation of an upload.
#[derive(Debug)]
pub struct UploadPhotoResponse {
    pub photo: PhotoItemResponse,
}

/// The confirmation of a deletion.
#[derive(Debug)]
pub struct DeletePhotoResponse {
    pub success: bool,
}


/// An image format that uploads are accepted in.
#[derive(Debug, Clone, Copy, PartialEq, Eq, Structural)]
pub enum ImageFormat {
    Jpeg,
    Png,
    WebP,
    Heic,
}

/// The format that the first twelve bytes of a file announce: the JPEG
/// marker, the two halves of the PNG signature, a RIFF container of type WEBP, or an `ftyp`
/// box of one of the brands `heic`, `heix`, `mif1`, `hevc`.
pub open spec fn magic_format(bytes: Seq<u8>) -> Option<ImageFormat> {
    if bytes.len() < 12 {
        None
    } else if bytes[0] == 0xFF && bytes[1] == 0xD8 && bytes[2] == 0xFF {
        Some(ImageFormat::Jpeg)
    } else if bytes.subrange(0, 4) == seq![0x89u8, 0x50, 0x4E, 0x47] && bytes.subrange(4, 8)
        == seq![0x0Du8, 0x0A, 0x1A, 0x0A] {
        Some(ImageFormat::Png)
    } else if bytes.subrange(0, 4) == seq![0x52u8, 0x49, 0x46, 0x46] && bytes.subrange(8, 12)
        == seq![0x57u8, 0x45, 0x42, 0x50] {
        Some(ImageFormat::WebP)
    } else if bytes.subrange(4, 8) == seq![0x66u8, 0x74, 0x79, 0x70] && (bytes.subrange(8, 12)
        == seq![0x68u8, 0x65, 0x69, 0x63] || bytes.subrange(8, 12) == seq![0x68u8, 0x65, 0x69, 0x78]
        || bytes.subrange(8, 12) == seq![0x6Du8, 0x69, 0x66, 0x31] || bytes.subrange(8, 12)
        == seq![0x68u8, 0x65, 0x76, 0x63]) {
        Some(ImageFormat::Heic)
    } else {
        None
    }
}

impl ImageFormat {
    /// The file extension of the format.
    pub open spec fn extension_spec(self) -> Seq<char> {
        match self {
            ImageFormat::Jpeg => "jpg"@,
            ImageFormat::Png => "png"@,
            ImageFormat::WebP => "webp"@,
            ImageFormat::Heic => "heic"@,
        }
    }

    /// The content type of the format.
    pub open spec fn content_type_spec(self) -> Seq<char> {
        match self {
            ImageFormat::Jpeg => "image/jpeg"@,
            ImageFormat::Png => "image/png"@,
            ImageFormat::WebP => "image/webp"@,
            ImageFormat::Heic => "image/heic"@,
        }
    }

    /// The file extension of the format.
    pub fn extension(self) -> (s: &'static str)
        ensures
            s@ == self.extension_spec(),
    {
        match self {
            ImageFormat::Jpeg => "jpg",
            ImageFormat::Png => "png",
            ImageFormat::WebP => "webp",
            ImageFormat::Heic => "heic",
        }
    }

    /// The content type of the format.
    pub fn content_type(self) -> (s: &'static str)
        ensures
            s@ == self.content_type_spec(),
    {
        match self {
            ImageFormat::Jpeg => "image/jpeg",
            ImageFormat::Png => "image/png",
            ImageFormat::WebP => "image/webp",
            ImageFormat::Heic => "image/heic",
        }
    }
}

/// Whether the four bytes from `at` on are `a`, `b`, `c`, `d`.
fn four_at(bytes: &[u8], at: usize, a: u8, b: u8, c: u8, d: u8) -> (r: bool)
    requires
        at + 4 <= bytes@.len(),
    ensures
        r == (bytes@.subrange(at as int, at + 4) == seq![a, b, c, d]),
{
    let r = bytes[at] == a && bytes[at + 1] == b && bytes[at + 2] == c && bytes[at + 3] == d;
    proof {
        let part = bytes@.subrange(at as int, at + 4);
        if r {
            assert(part =~= seq![a, b, c, d]);
        } else {
            assert(part[0] == bytes@[at as int] && part[1] == bytes@[at + 1] && part[2] == bytes@[at
                + 2] && part[3] == bytes@[at + 3]);
        }
    }
    r
}

/// Recognises the format of an uploaded image by its first bytes.
pub fn detect_image_format(bytes: &[u8]) -> (r: Option<ImageFormat>)
    ensures
        r == magic_format(bytes@),
{
    if bytes.len() < 12 {
        return None;
    }
    if bytes[0] == 0xFF && bytes[1] == 0xD8 && bytes[2] == 0xFF {
        return Some(ImageFormat::Jpeg);
    }
    if four_at(bytes, 0, 0x89, 0x50, 0x4E, 0x47) && four_at(bytes, 4, 0x0D, 0x0A, 0x1A, 0x0A) {
        return Some(ImageFormat::Png);
    }
    if four_at(bytes, 0, 0x52, 0x49, 0x46, 0x46) && four_at(bytes, 8, 0x57, 0x45, 0x42, 0x50) {
        return Some(ImageFormat::WebP);
    }
    if four_at(bytes, 4, 0x66, 0x74, 0x79, 0x70) && (four_at(bytes, 8, 0x68, 0x65, 0x69, 0x63)
        || four_at(bytes, 8, 0x68, 0x65, 0x69, 0x78) || four_at(bytes, 8, 0x6D, 0x69, 0x66, 0x31)
        || four_at(bytes, 8, 0x68, 0x65, 0x76, 0x63)) {
        return Some(ImageFormat::Heic);
    }
    None
}

/// Validates an uploaded image by its first bytes, and gives the file
/// extension and the content type of its format. A file of fewer than
/// twelve bytes is too small; one of no known format is not supported.
pub fn validate_image_magic_bytes(bytes: &[u8]) -> (r: Result<(&'static str, String), AppError>)
    ensures
        match r {
            Ok((extension, content_type)) => magic_format(bytes@) matches Some(format)
                && extension@ == format.extension_spec() && content_type@
                == format.content_type_spec(),
            Err(e) => magic_format(bytes@) is None && (e matches AppError::BadRequest(m) && m@ == if bytes@.len()
                < 12 {
                "ファイルが小さすぎます。有効な画像ファイルをアップロードしてください。"@
            } else {
                "サポートされていない画像形式です。JPEG、PNG、WebP、HEICのいずれかをアップロードしてください。"@
            }),
        },
{
    if bytes.len() < 12 {
        return Err(
            AppError::BadRequest(
                "ファイルが小さすぎます。有効な画像ファイルをアップロードしてください。".to_owned(),
            ),
        );
    }
    match detect_image_format(bytes) {
        Some(format) => Ok((format.extension(), format.content_type().to_owned())),
        None => Err(
            AppError::BadRequest(
                "サポートされていない画像形式です。JPEG、PNG、WebP、HEICのいずれかをアップロードしてください。".to_owned(),
            ),
        ),
    }
}

} // verus!
