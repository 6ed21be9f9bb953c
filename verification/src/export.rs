//! Export status and the 16-bit greyscale PNG encoding of heightmaps.
//!
//! Heights are normalised to `[0, 65535]` by the caller (real arithmetic);
//! this module encodes the resulting samples with the `image` crate and
//! turns the outcome of background export tasks into the status line the
//! Terraformer panel shows.
use vstd::prelude::*;

verus! {

/// Status message shown in the UI for exports.
pub enum ExportStatus {
    Idle,
    /// A heavy export (e.g. OBJ) is running on a background thread.
    Exporting,
    /// The named file was written.
    Done(String),
    /// The export failed with this message.
    Error(String),
}

impl ExportStatus {
    /// Whether an export is running (the OBJ button is disabled meanwhile).
    pub fn is_exporting(&self) -> (r: bool)
        ensures
            r == (*self is Exporting),
    {
        match self {
            ExportStatus::Exporting => true,
            _ => false,
        }
    }
}

/// The status after a background export task finished: the written file's
/// name, or the error message.
pub fn export_task_finished(result: Result<String, String>) -> (status: ExportStatus)
    ensures
        match result {
            Ok(name) => status == ExportStatus::Done(name),
            Err(e) => status == ExportStatus::Error(e),
        },
{
    match result {
        Ok(filename) => ExportStatus::Done(filename),
        Err(e) => ExportStatus::Error(e),
    }
}

/// The status after `filename` was saved in the foreground: done, or the
/// save error.
pub fn file_saved(filename: String, saved: Result<(), String>) -> (status: ExportStatus)
    ensures
        match saved {
            Ok(()) => status == ExportStatus::Done(filename),
            Err(e) => status == ExportStatus::Error(e),
        },
{
    match saved {
        Ok(()) => ExportStatus::Done(filename),
        Err(e) => ExportStatus::Error(e),
    }
}

/// Why a heightmap could not be encoded.
pub enum ExportError {
    /// The sample buffer does not hold exactly `width * height` samples.
    PixelCountMismatch,
    /// The PNG encoder could not reserve memory for its working buffer; its
    /// message.
    InsufficientMemory(String),
    /// The PNG encoder refused the image (a zero width or height); its
    /// message.
    Encode(String),
}

#[verifier::external_type_specification]
#[verifier::external_body]
pub struct ExImageError(image::ImageError);

/// A failure of the PNG encoder, told apart by the error's variant.
pub enum PngWriteError {
    /// An `ImageError::Limits`: the encoder hit a resource limit.
    Limits(image::ImageError),
    /// Any other `ImageError`.
    Other(image::ImageError),
}

/// The PNG file that the `image` crate writes for a 16-bit greyscale image
/// of `width × height` samples given row-major.
pub uninterp spec fn png_gray16(width: u32, height: u32, samples: Seq<u16>) -> Seq<u8>;

/// `image::write_buffer_with_format` with `ExtendedColorType::L16` and
/// `ImageFormat::Png`, writing into an in-memory cursor.  The samples are
/// handed over as their native-endian bytes, as the encoder expects (it
/// swaps them to PNG's big-endian order).  The encoder panics unless the
/// buffer holds exactly `2 * width * height` bytes, hence the requirement.
///
/// What is claimed, from the source of `image` and `png`: on success the
/// written bytes are the PNG encoding of the arguments; a zero width or
/// height is refused by the PNG writer with an error that is not a limit
/// error; otherwise the only error the encoder returns is a limit error,
/// which it raises when the allocator refuses the buffer in which the
/// samples are swapped to big-endian order.  When the allocator refuses
/// depends on the machine and is not stated.
#[verifier::external_body]
fn write_png_gray16(width: u32, height: u32, samples: &[u16]) -> (r: Result<Vec<u8>, PngWriteError>)
    requires
        samples@.len() == width * height,
    ensures
        r matches Ok(bytes) ==> bytes@ == png_gray16(width, height, samples@),
        width == 0 || height == 0 ==> r matches Err(PngWriteError::Other(_)),
        width > 0 && height > 0 ==> (r is Ok || r matches Err(PngWriteError::Limits(_))),
{
    let mut cursor = std::io::Cursor::new(Vec::new());
    let bytes = bytemuck::cast_slice::<u16, u8>(samples);
    let color = image::ExtendedColorType::L16;
    match image::write_buffer_with_format(&mut cursor, bytes, width, height, color, image::ImageFormat::Png) {
        Ok(()) => Ok(cursor.into_inner()),
        Err(image::ImageError::Limits(e)) => Err(PngWriteError::Limits(image::ImageError::Limits(e))),
        Err(e) => Err(PngWriteError::Other(e)),
    }
}

/// The human-readable message of an `image` error (its `Display` text).
#[verifier::external_body]
fn image_error_message(e: &image::ImageError) -> String {
    format!("{e}")
}

/// Maps the encoder's outcome to the library's error type: the bytes on
/// success, otherwise the encoder's message, as a memory failure for a
/// limit error and as an encoding failure for any other.
pub fn png_encoding_outcome(r: Result<Vec<u8>, PngWriteError>) -> (out: Result<Vec<u8>, ExportError>)
    ensures
        match r {
            Ok(bytes) => out == Ok::<Vec<u8>, ExportError>(bytes),
            Err(PngWriteError::Limits(_)) => out matches Err(ExportError::InsufficientMemory(_)),
            Err(PngWriteError::Other(_)) => out matches Err(ExportError::Encode(_)),
        },
{
    match r {
        Ok(bytes) => Ok(bytes),
        Err(PngWriteError::Limits(e)) => Err(ExportError::InsufficientMemory(image_error_message(&e))),
        Err(PngWriteError::Other(e)) => Err(ExportError::Encode(image_error_message(&e))),
    }
}

/// Encodes `width × height` normalised height samples (row-major, one
/// `u16` per sample) as a 16-bit greyscale PNG.  A buffer of the wrong size
/// is refused, and so is an image without pixels; otherwise the result is
/// the PNG encoding, unless the encoder runs out of memory.
pub fn encode_heightmap_png(width: u32, height: u32, samples: &[u16]) -> (r: Result<Vec<u8>, ExportError>)
    ensures
        samples@.len() != width * height <==> r matches Err(ExportError::PixelCountMismatch),
        r matches Ok(bytes) ==> bytes@ == png_gray16(width, height, samples@),
        samples@.len() == width * height && (width == 0 || height == 0) ==> r matches Err(
            ExportError::Encode(_),
        ),
        samples@.len() == width * height && width > 0 && height > 0 ==> (r is Ok || r matches Err(
            ExportError::InsufficientMemory(_),
        )),
{
    proof {
        assert(width * height <= u32::MAX * u32::MAX) by (nonlinear_arith)
            requires
                width <= u32::MAX,
                height <= u32::MAX,
        ;
    }
    let cells: u64 = width as u64 * height as u64;
    if samples.len() as u64 != cells {
        return Err(ExportError::PixelCountMismatch);
    }
    let encoded = write_png_gray16(width, height, samples);
    png_encoding_outcome(encoded)
}

} // verus!
