//! Screen capture: the choice of the display, and the packaging of a
//! captured frame for transport.

use vstd::prelude::*;
use crate::error::{CommandError, ErrorModel};
use crate::transport::{base64_text, encode_base64};

verus! {

/// The longest side, in pixels, of the image that a capture returns.
pub const MAX_SIDE: u32 = 1024;

/// The quality at which the returned image is encoded.
pub const JPEG_QUALITY: u8 = 75;

/// The largest bound that a frame may be fitted into.
const MAX_FIT: u32 = 16384;

/// What is known of a display before it is captured: its origin in the
/// virtual desktop and its scale factor, the latter as the bits of a
/// single-precision number.
#[derive(Clone, Copy, Debug, PartialEq, Eq, Structural)]
pub struct Display {
    pub x: i32,
    pub y: i32,
    pub scale_factor_bits: u32,
}

/// A raster frame of four bytes a pixel (red, green, blue, alpha), row by
/// row.
#[derive(Clone, Debug, PartialEq, Eq)]
pub struct Frame {
    pub width: u32,
    pub height: u32,
    pub pixels: Vec<u8>,
}

/// What a capture returns.
#[derive(Clone, Debug, PartialEq, Eq)]
pub struct CaptureResult {
    /// The encoded image, as transport text.
    pub image: String,
    pub original_width: u32,
    pub original_height: u32,
    pub logical_width: u32,
    pub logical_height: u32,
    pub scaled_width: u32,
    pub scaled_height: u32,
    pub scale_factor_bits: u32,
    pub x_offset: i32,
    pub y_offset: i32,
}

/// The measurements that go with a captured frame.
#[derive(Clone, Copy, Debug, PartialEq, Eq, Structural)]
pub struct Geometry {
    pub original_width: u32,
    pub original_height: u32,
    pub logical_width: u32,
    pub logical_height: u32,
}

/// The error type of the `image` crate. Its values are carried through
/// unread and written out in a failure's detail.
#[verifier::external_type_specification]
#[verifier::external_body]
pub struct ExImageError(image::ImageError);

/// The width and height of what `DynamicImage::resize` of the `image` crate
/// returns for an image of `width` by `height` and the bounds `max_width` by
/// `max_height`.
pub uninterp spec fn fitted_dimensions(width: u32, height: u32, max_width: u32, max_height: u32) -> (
    u32,
    u32,
);

/// The bytes that the `image` crate's JPEG encoder writes for a frame of
/// `width` by `height` with the given pixel bytes at the given quality, or
/// `None` where it refuses the frame.
pub uninterp spec fn jpeg_encoding(width: u32, height: u32, pixels: Seq<u8>, quality: u8) -> Option<
    Seq<u8>,
>;

/// The number of bytes of a frame of `width` by `height`: four a pixel.
pub open spec fn byte_count(width: u32, height: u32) -> int {
    4 * ((width as int) * (height as int))
}

impl Frame {
    /// A frame is well formed when it has at least one pixel and holds
    /// exactly four bytes for each.
    pub open spec fn wf(&self) -> bool {
        &&& self.width > 0
        &&& self.height > 0
        &&& self.pixels@.len() == byte_count(self.width, self.height)
    }

    /// A frame of `width` by `height` over `pixels`, if that is a well-formed
    /// frame.
    pub fn new(width: u32, height: u32, pixels: Vec<u8>) -> (frame: Option<Frame>)
        ensures
            frame is Some <==> (width > 0 && height > 0 && pixels@.len() == byte_count(width, height)),
            frame is Some ==> frame->Some_0.wf() && frame->Some_0.width == width
                && frame->Some_0.height == height && frame->Some_0.pixels == pixels,
    {
        if width == 0 || height == 0 {
            return None;
        }
        assert((width as int) * (height as int) <= 0xFFFF_FFFF * 0xFFFF_FFFF) by (nonlinear_arith)
            requires
                0 <= width <= 0xFFFF_FFFF,
                0 <= height <= 0xFFFF_FFFF,
        ;
        let area: u128 = (width as u128) * (height as u128);
        let wanted: u128 = 4u128 * area;
        if pixels.len() as u128 == wanted {
            Some(Frame { width, height, pixels })
        } else {
            None
        }
    }
}

/// Calls `DynamicImage::resize` of the `image` crate with the Lanczos filter
/// of window 3, on the frame as an RGBA image. Trusted: the result is a
/// well-formed frame whose dimensions are those the crate computes from the
/// frame's dimensions and the bounds, and which, as the crate documents,
/// fits within the bounds. Nothing is said of its pixels, which depend on the
/// machine's floating-point sine. The bounds are kept small enough for the
/// crate's buffers.
#[verifier::external_body]
fn resize_to_fit(frame: &Frame, max_width: u32, max_height: u32) -> (resized: Frame)
    requires
        frame.wf(),
        0 < max_width <= MAX_FIT,
        0 < max_height <= MAX_FIT,
    ensures
        resized.wf(),
        (resized.width, resized.height) == fitted_dimensions(
            frame.width,
            frame.height,
            max_width,
            max_height,
        ),
        resized.width <= max_width,
        resized.height <= max_height,
{
    let buffer = image::RgbaImage::from_raw(frame.width, frame.height, frame.pixels.clone()).unwrap();
    let resized = image::DynamicImage::ImageRgba8(buffer).resize(
        max_width,
        max_height,
        image::imageops::FilterType::Lanczos3,
    ).into_rgba8();
    Frame { width: resized.width(), height: resized.height(), pixels: resized.into_raw() }
}

/// Calls `DynamicImage::write_to` of the `image` crate with the JPEG output
/// format at `quality`, on the frame as an RGBA image. Trusted: the bytes
/// written, or the refusal, are a function of the frame and the quality
/// alone.
#[verifier::external_body]
fn encode_jpeg(frame: &Frame, quality: u8) -> (encoded: Result<Vec<u8>, image::ImageError>)
    requires
        frame.wf(),
    ensures
        match encoded {
            Ok(bytes) => jpeg_encoding(frame.width, frame.height, frame.pixels@, quality) == Some(
                bytes@,
            ),
            Err(_) => jpeg_encoding(frame.width, frame.height, frame.pixels@, quality) is None,
        },
{
    let buffer = image::RgbaImage::from_raw(frame.width, frame.height, frame.pixels.clone()).unwrap();
    let mut bytes: Vec<u8> = Vec::new();
    image::DynamicImage::ImageRgba8(buffer).write_to(
        &mut std::io::Cursor::new(&mut bytes),
        image::ImageOutputFormat::Jpeg(quality),
    )?;
    Ok(bytes)
}

/// Writes an `image::ImageError` out with its `Debug` form. Nothing is
/// claimed of the text.
#[verifier::external_body]
fn describe_image_error(error: &image::ImageError) -> (detail: String) {
    format!("{:?}", error)
}

/// Chooses the display to capture: the first of those enumerated, whatever
/// their number. With none there is nothing to capture.
pub fn select_display(displays: &Vec<Display>) -> (chosen: Result<usize, CommandError>)
    ensures
        displays@.len() == 0 <==> chosen is Err,
        chosen is Err ==> chosen->Err_0 == CommandError::NoDisplay,
        chosen is Ok ==> chosen->Ok_0 == 0,
{
    if displays.len() == 0 {
        Err(CommandError::NoDisplay)
    } else {
        Ok(0)
    }
}

/// What packaging a resized frame of `width` by `height` over `pixels`
/// comes to: where the encoder accepts the frame, the response with the
/// encoding as transport text and every measurement in its place; where it
/// refuses, the failure of the encoding.
pub open spec fn packaged_as(
    display: Display,
    geometry: Geometry,
    width: u32,
    height: u32,
    pixels: Seq<u8>,
    outcome: Result<CaptureResult, CommandError>,
) -> bool {
    match jpeg_encoding(width, height, pixels, JPEG_QUALITY) {
        Some(bytes) => {
            &&& outcome is Ok
            &&& outcome->Ok_0.image@ == base64_text(bytes)
            &&& outcome->Ok_0.original_width == geometry.original_width
            &&& outcome->Ok_0.original_height == geometry.original_height
            &&& outcome->Ok_0.logical_width == geometry.logical_width
            &&& outcome->Ok_0.logical_height == geometry.logical_height
            &&& outcome->Ok_0.scaled_width == width
            &&& outcome->Ok_0.scaled_height == height
            &&& outcome->Ok_0.scale_factor_bits == display.scale_factor_bits
            &&& outcome->Ok_0.x_offset == display.x
            &&& outcome->Ok_0.y_offset == display.y
        },
        None => {
            &&& outcome is Err
            &&& outcome->Err_0@ is ProviderOperation
            &&& outcome->Err_0@->ProviderOperation_action == "encode image"@
        },
    }
}

/// Packages a frame that is already resized: encodes it, turns the encoding
/// into transport text and sets the measurements beside it.
pub fn package_capture(display: &Display, geometry: &Geometry, resized: &Frame) -> (outcome: Result<
    CaptureResult,
    CommandError,
>)
    requires
        resized.wf(),
    ensures
        packaged_as(*display, *geometry, resized.width, resized.height, resized.pixels@, outcome),
{
    match encode_jpeg(resized, JPEG_QUALITY) {
        Ok(bytes) => Ok(
            CaptureResult {
                image: encode_base64(&bytes),
                original_width: geometry.original_width,
                original_height: geometry.original_height,
                logical_width: geometry.logical_width,
                logical_height: geometry.logical_height,
                scaled_width: resized.width,
                scaled_height: resized.height,
                scale_factor_bits: display.scale_factor_bits,
                x_offset: display.x,
                y_offset: display.y,
            },
        ),
        Err(error) => {
            let detail = describe_image_error(&error);
            Err(CommandError::operation("encode image", detail.as_str()))
        },
    }
}

/// What a capture of a frame of `width` by `height` comes to, if fitting
/// it left a frame with the bytes `pixels`: the fitted frame has the
/// dimensions that the fitting gives and is packaged, the size before
/// fitting being the frame's own.
pub open spec fn captured_as(
    display: Display,
    width: u32,
    height: u32,
    logical_width: u32,
    logical_height: u32,
    pixels: Seq<u8>,
    outcome: Result<CaptureResult, CommandError>,
) -> bool {
    let fitted = fitted_dimensions(width, height, MAX_SIDE, MAX_SIDE);
    let geometry = Geometry {
        original_width: width,
        original_height: height,
        logical_width,
        logical_height,
    };
    &&& 0 < fitted.0 <= MAX_SIDE
    &&& 0 < fitted.1 <= MAX_SIDE
    &&& pixels.len() == byte_count(fitted.0, fitted.1)
    &&& packaged_as(display, geometry, fitted.0, fitted.1, pixels, outcome)
}

/// Turns a captured frame into the response of a capture: the frame is
/// fitted into the square of `MAX_SIDE`, its proportions kept, then encoded
/// and packaged. The logical size is handed in, since it is derived from the
/// scale factor; the size before fitting is the frame's own. The bytes of the
/// fitted frame are not determined here, so the response is stated for
/// whichever bytes the fitting left.
pub fn capture_screen(display: &Display, frame: &Frame, logical_width: u32, logical_height: u32) -> (outcome:
    Result<CaptureResult, CommandError>)
    requires
        frame.wf(),
    ensures
        exists|pixels: Seq<u8>| #[trigger]
            captured_as(
                *display,
                frame.width,
                frame.height,
                logical_width,
                logical_height,
                pixels,
                outcome,
            ),
        outcome is Ok ==> {
            &&& outcome->Ok_0.original_width == frame.width
            &&& outcome->Ok_0.original_height == frame.height
            &&& outcome->Ok_0.logical_width == logical_width
            &&& outcome->Ok_0.logical_height == logical_height
            &&& (outcome->Ok_0.scaled_width, outcome->Ok_0.scaled_height) == fitted_dimensions(
                frame.width,
                frame.height,
                MAX_SIDE,
                MAX_SIDE,
            )
            &&& 0 < outcome->Ok_0.scaled_width <= MAX_SIDE
            &&& 0 < outcome->Ok_0.scaled_height <= MAX_SIDE
            &&& outcome->Ok_0.scale_factor_bits == display.scale_factor_bits
            &&& outcome->Ok_0.x_offset == display.x
            &&& outcome->Ok_0.y_offset == display.y
        },
{
    let geometry = Geometry {
        original_width: frame.width,
        original_height: frame.height,
        logical_width,
        logical_height,
    };
    let resized = resize_to_fit(frame, MAX_SIDE, MAX_SIDE);
    let outcome = package_capture(display, &geometry, &resized);
    proof {
        assert(captured_as(
            *display,
            frame.width,
            frame.height,
            logical_width,
            logical_height,
            resized.pixels@,
            outcome,
        ));
    }
    outcome
}

} // verus!
