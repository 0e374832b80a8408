//! Decisions of the high-level image operations: when to fall back to other
//! models and which, when a model may be used for an operation, retries of
//! a failed request, local upscaling, and where generated images are saved.

use vstd::prelude::*;
use crate::backoff::{backoff_base, jitter_bound};
use crate::image::client::{calculate_backoff, retryable, ImageError, MAX_RETRY_ATTEMPTS};
use crate::image::models::{
    catalogue, catalogue_index, fallback_model_ids, lemma_catalogue_capabilities, lemma_catalogue_ids_distinct, ImageModel,
};
use crate::image::types::{format_extension, ImageFormat, ImageResponse};
use crate::http::prefixed;
use image::imageops::FilterType;
use crate::text::{starts_with_text, contains_text, decimal, decimal_text, owned, push_str, str_contains, str_eq};

verus! {

// ---------------------------------------------------------------------------
// Fallback

/// Whether an error of the primary model is worth trying other models for:
/// an unavailable model, or a generation error that names a rate limit, an
/// overload or an unavailability.
pub open spec fn fallback_worthy(e: ImageError) -> bool {
    match e {
        ImageError::ModelNotAvailable(_) => true,
        ImageError::GenerationError(msg) => contains_text(msg@, "Rate limited"@) || contains_text(
            msg@,
            "overloaded"@,
        ) || contains_text(msg@, "unavailable"@),
        _ => false,
    }
}

/// When fallback models are worth trying: always for a model that is not
/// available; for a generation error exactly when its message mentions a
/// rate limit (`Rate limited`), an overload (`overloaded`) or an
/// unavailability (`unavailable`), whatever else it says; never for a
/// missing key, a network, read or save error.
pub proof fn lemma_fallback_worthy_errors(e: ImageError)
    ensures
        e is ModelNotAvailable ==> fallback_worthy(e),
        e matches ImageError::GenerationError(m) ==> (fallback_worthy(e) <==> (contains_text(m@, "Rate limited"@)
            || contains_text(m@, "overloaded"@) || contains_text(m@, "unavailable"@))),
        (e is ApiKeyMissing || e is NetworkError || e is ReadError || e is SaveError) ==> !fallback_worthy(e),
{
}

/// Check if we should try fallback models for this error.
pub fn should_try_fallback(error: &ImageError) -> (r: bool)
    ensures
        r == fallback_worthy(*error),
{
    match error {
        ImageError::ModelNotAvailable(_) => true,
        ImageError::GenerationError(msg) => str_contains(msg.as_str(), "Rate limited")
            || str_contains(msg.as_str(), "overloaded") || str_contains(msg.as_str(), "unavailable"),
        _ => false,
    }
}

/// The fallback identifiers, in order of preference.
pub open spec fn fallback_ids() -> Seq<Seq<char>> {
    seq!["nano-banana-pro"@, "openai/dall-e-3"@, "stabilityai/stable-diffusion-xl"@]
}

/// Whether an identifier is not the primary model's.
pub open spec fn other_than(primary: Seq<char>) -> spec_fn(Seq<char>) -> bool {
    |id: Seq<char>| id != primary
}

/// The models tried after the primary one fails: the fallback identifiers,
/// in order, without the primary model.
pub fn fallback_candidates(primary: &str) -> (r: Vec<&'static str>)
    ensures
        r@.map_values(|s: &'static str| s@) == fallback_ids().filter(other_than(primary@)),
{
    let ids = fallback_model_ids();
    let ghost all = ids@.map_values(|s: &'static str| s@);
    assert(all =~= fallback_ids());
    proof {
        reveal(Seq::filter);
        assert(all.take(0).filter(other_than(primary@)) =~= Seq::<Seq<char>>::empty());
    }
    let mut out: Vec<&'static str> = Vec::new();
    let mut i: usize = 0;
    while i < ids.len()
        invariant
            i <= ids@.len(),
            ids@.len() == 3,
            all == ids@.map_values(|s: &'static str| s@),
            all == fallback_ids(),
            out@.map_values(|s: &'static str| s@) == all.take(i as int).filter(other_than(primary@)),
        decreases ids@.len() - i,
    {
        let id = ids[i];
        proof {
            assert(all.take(i + 1).drop_last() =~= all.take(i as int));
            assert(all.take(i + 1).last() == id@);
            reveal(Seq::filter);
            assert(all.take(i + 1).filter(other_than(primary@)) == if id@ != primary@ {
                all.take(i as int).filter(other_than(primary@)).push(id@)
            } else {
                all.take(i as int).filter(other_than(primary@))
            });
        }
        if !str_eq(id, primary) {
            let ghost before = out@;
            out.push(id);
            assert(out@.map_values(|s: &'static str| s@) =~= before.map_values(|s: &'static str| s@).push(id@));
        }
        i = i + 1;
    }
    assert(all.take(3) =~= all);
    out
}

/// The error when every fallback model failed: the last model's error, or a
/// generation error when no model was tried.
pub fn fallback_exhausted(last: Option<ImageError>) -> (r: ImageError)
    ensures
        match last {
            Some(e) => r == e,
            None => r matches ImageError::GenerationError(m) && m@ == "All models failed"@,
        },
{
    match last {
        Some(e) => e,
        None => ImageError::GenerationError(owned("All models failed")),
    }
}

// ---------------------------------------------------------------------------
// Retry of a text-to-image request

/// What follows a failed attempt of a text-to-image request.
#[derive(Debug)]
pub enum ImageRetryStep {
    /// Return the error now
    Fail(ImageError),
    /// Wait `delay_ms`; then try again if `retry`, else return `error`
    Backoff { delay_ms: u64, error: ImageError, retry: bool },
}

/// Decide what follows the failure of attempt number `attempts` (counted
/// from 1) with `error`: a retryable error waits the backoff of that attempt
/// and is retried while fewer than `MAX_RETRY_ATTEMPTS` attempts were made;
/// any other error is returned at once.
pub fn after_failed_attempt(attempts: u32, error: ImageError) -> (r: ImageRetryStep)
    requires
        1 <= attempts <= MAX_RETRY_ATTEMPTS,
    ensures
        !retryable(error) ==> r == ImageRetryStep::Fail(error),
        retryable(error) ==> (r matches ImageRetryStep::Backoff { delay_ms, error: e, retry } && e == error
            && retry == (attempts < MAX_RETRY_ATTEMPTS) && backoff_base(attempts) <= delay_ms
            < backoff_base(attempts) + jitter_bound(backoff_base(attempts))),
{
    if crate::image::client::is_retryable_error(&error) {
        let delay_ms = calculate_backoff(attempts);
        ImageRetryStep::Backoff { delay_ms, error, retry: attempts < MAX_RETRY_ATTEMPTS }
    } else {
        ImageRetryStep::Fail(error)
    }
}

/// The error when every attempt failed with a retryable error: the last
/// error, or a generation error when there was none.
pub fn retries_exhausted(last: Option<ImageError>) -> (r: ImageError)
    ensures
        match last {
            Some(e) => r == e,
            None => r matches ImageError::GenerationError(m) && m@ == "Max retries exceeded"@,
        },
{
    match last {
        Some(e) => e,
        None => ImageError::GenerationError(owned("Max retries exceeded")),
    }
}

// ---------------------------------------------------------------------------
// Which model may serve an operation

/// Whether the catalogue entry of `model`, if there is one, refuses the
/// capability chosen by `pick`.
pub open spec fn known_and_refuses(model: Seq<char>, image_to_image: bool) -> bool {
    match catalogue_index(model) {
        Some(i) => if image_to_image {
            !catalogue()[i].3.image_to_image
        } else {
            !catalogue()[i].3.inpainting
        },
        None => false,
    }
}

/// Which models the capability checks refuse, over every identifier: image
/// transformation is refused for DALL-E 3 alone (Stable Diffusion XL and
/// every unknown model pass), inpainting for Gemini 2.0 Flash, DALL-E 3 and
/// Stable Diffusion XL alone.
pub proof fn lemma_capability_refusals(model: Seq<char>)
    ensures
        known_and_refuses(model, true) <==> model == "openai/dall-e-3"@,
        known_and_refuses(model, false) <==> (model == "google/gemini-2.0-flash-exp:image"@ || model
            == "openai/dall-e-3"@ || model == "stabilityai/stable-diffusion-xl"@),
{
    lemma_catalogue_capabilities();
    lemma_catalogue_ids_distinct();
    let c = catalogue();
    assert(c[0].0 == "google/gemini-2.0-flash-exp:image"@);
    assert(c[1].0 == "nano-banana-pro"@);
    assert(c[2].0 == "openai/dall-e-3"@);
    assert(c[3].0 == "openai/dall-e-2"@);
    assert(c[4].0 == "stabilityai/stable-diffusion-xl"@);
    let listed = model == c[0].0 || model == c[1].0 || model == c[2].0 || model == c[3].0 || model == c[4].0;
    if listed {
        if model == c[0].0 {
            assert(c[0].0 == model);
        } else if model == c[1].0 {
            assert(c[1].0 == model);
        } else if model == c[2].0 {
            assert(c[2].0 == model);
        } else if model == c[3].0 {
            assert(c[3].0 == model);
        } else {
            assert(c[4].0 == model);
        }
        let i = choose|i: int| 0 <= i < c.len() && (#[trigger] c[i]).0 == model;
        assert(catalogue_index(model) == Some(i));
        assert(c[i].0 == model);
    } else {
        assert forall|i: int| 0 <= i < c.len() implies (#[trigger] c[i]).0 != model by {
            if i == 0 {} else if i == 1 {} else if i == 2 {} else if i == 3 {} else {}
        }
        assert(catalogue_index(model).is_none());
        assert(model != "openai/dall-e-3"@);
    }
}

/// A model-not-available error whose message is `Model '`, the model and `tail`.
fn model_refuses(model: &str, tail: &str) -> (r: ImageError)
    ensures
        r matches ImageError::ModelNotAvailable(m) && m@ == "Model '"@ + model@ + tail@,
{
    let mut m = prefixed("Model '", model);
    push_str(&mut m, tail);
    ImageError::ModelNotAvailable(m)
}

/// Check that a model may transform images: a catalogued model must support
/// image-to-image; an unknown model is let through.
pub fn check_image_to_image(model: &str) -> (r: Result<(), ImageError>)
    ensures
        !known_and_refuses(model@, true) <==> r is Ok,
        r matches Err(e) ==> (e matches ImageError::ModelNotAvailable(m) && m@ == "Model '"@ + model@
            + "' does not support image-to-image transformation"@),
{
    match ImageModel::by_id(model) {
        Some(m) => {
            if !m.supports_image_to_image() {
                return Err(model_refuses(model, "' does not support image-to-image transformation"));
            }
            Ok(())
        },
        None => Ok(()),
    }
}

/// Check that a model may inpaint: a catalogued model must support
/// inpainting; an unknown model is let through.
pub fn check_inpainting(model: &str) -> (r: Result<(), ImageError>)
    ensures
        !known_and_refuses(model@, false) <==> r is Ok,
        r matches Err(e) ==> (e matches ImageError::ModelNotAvailable(m) && m@ == "Model '"@ + model@
            + "' does not support inpainting"@),
{
    match ImageModel::by_id(model) {
        Some(m) => {
            if !m.supports_inpainting() {
                return Err(model_refuses(model, "' does not support inpainting"));
            }
            Ok(())
        },
        None => Ok(()),
    }
}

/// Whether an upscale request is served by its model: a model is named, it
/// is catalogued, and it supports upscaling.
pub open spec fn upscales_with_model(model: Option<Seq<char>>) -> bool {
    match model {
        Some(id) => match catalogue_index(id) {
            Some(i) => catalogue()[i].3.upscaling,
            None => false,
        },
        None => false,
    }
}

/// Decide whether an upscale request uses its model rather than local interpolation.
pub fn uses_model_upscaler(model: &Option<String>) -> (r: bool)
    ensures
        r == upscales_with_model(
            match model {
                Some(m) => Some(m@),
                None => None,
            },
        ),
{
    match model {
        Some(id) => match ImageModel::by_id(id.as_str()) {
            Some(m) => m.supports_upscaling(),
            None => false,
        },
        None => false,
    }
}

/// The prompt that asks a model to upscale by `scale`.
pub fn upscale_prompt(scale: u32) -> (r: String)
    ensures
        r@ == "Upscale this image by "@ + decimal_text(scale as nat)
            + "x, maintaining all details and enhancing quality"@,
{
    let mut s = owned("Upscale this image by ");
    push_str(&mut s, decimal(scale as u128).as_str());
    push_str(&mut s, "x, maintaining all details and enhancing quality");
    s
}

// ---------------------------------------------------------------------------
// Local upscaling

/// Declares `std::time::Instant`, a reading of the monotonic clock.
#[verifier::external_type_specification]
#[verifier::external_body]
pub struct ExInstant(std::time::Instant);

/// Calls `std::time::Instant::now`; the reading depends on the clock, so
/// nothing is stated of it.
#[verifier::external_body]
fn instant_now() -> (r: std::time::Instant) {
    std::time::Instant::now()
}

/// Calls `Instant::elapsed` and gives the milliseconds, truncated to 64 bits;
/// the value depends on the clock, so nothing is stated of it.
#[verifier::external_body]
fn elapsed_ms(start: &std::time::Instant) -> (r: u64) {
    start.elapsed().as_millis() as u64
}

/// The width and height of the image that `image::load_from_memory` decodes
/// from bytes (guessing the format from them), or the text of its error.
pub uninterp spec fn decoded_dims(data: Seq<u8>) -> Result<(u32, u32), Seq<char>>;

/// A decode result with its error text as a sequence.
pub open spec fn dims_read(r: Result<(u32, u32), String>) -> Result<(u32, u32), Seq<char>> {
    match r {
        Ok(d) => Ok(d),
        Err(e) => Err(e@),
    }
}

/// The four bytes of a `u32`, most significant first.
pub open spec fn be_bytes(v: u32) -> Seq<u8> {
    seq![(v / 0x100_0000) as u8, ((v / 0x1_0000) % 0x100) as u8, ((v / 0x100) % 0x100) as u8, (v % 0x100) as u8]
}

/// Whether bytes begin as a PNG file of the given size: the PNG signature,
/// then an `IHDR` chunk of 13 bytes whose first fields are the width and
/// the height, most significant byte first.
pub open spec fn png_of_size(b: Seq<u8>, width: u32, height: u32) -> bool {
    &&& b.len() >= 24
    &&& b.subrange(0, 8) == seq![137u8, 80u8, 78u8, 71u8, 13u8, 10u8, 26u8, 10u8]
    &&& b.subrange(8, 16) == seq![0u8, 0u8, 0u8, 13u8, 73u8, 72u8, 68u8, 82u8]
    &&& b.subrange(16, 20) == be_bytes(width)
    &&& b.subrange(20, 24) == be_bytes(height)
}

/// Calls `image::load_from_memory` and, on success, `width` and `height` of
/// the decoded image; an error is given by its text. The contract claims
/// that the outcome is a function of the bytes alone (`decoded_dims`);
/// which bytes decode is not stated.
#[verifier::external_body]
fn decode_dimensions(data: &[u8]) -> (r: Result<(u32, u32), String>)
    ensures
        dims_read(r) == decoded_dims(data@),
{
    image::load_from_memory(data).map(|img| (img.width(), img.height())).map_err(|e| e.to_string())
}

/// The resampling filters that a resize can use.
#[derive(Debug, Clone, Copy, PartialEq, Eq, Structural)]
pub enum ResizeFilter {
    Nearest,
    Triangle,
    CatmullRom,
    Gaussian,
    Lanczos3,
}

/// Calls `image::load_from_memory`, `DynamicImage::resize_exact` with the
/// given filter and `DynamicImage::write_to` with the given format into an
/// in-memory cursor; an error is given by its text. Of PNG output the
/// contract claims that it is written exactly when both sides are non-zero,
/// and that it begins with the PNG signature and an `IHDR` chunk of the
/// requested size. Both hold in the sources: only the png codec is built
/// here, its decoder yields 8- and 16-bit colour types only, the png
/// encoder writes every one of them and refuses only a zero side, writes the
/// header first, and writing into a `Vec` does not fail. An allocation that
/// the machine cannot give is left aside, as it aborts elsewhere in the
/// resize. The pixels are not stated (the filter's floating-point sine may
/// differ between platforms), nor anything of the other formats. The resize
/// allocates `f32` buffers of four channels, of the old width by the new
/// height and of the new size: `requires` keeps both addressable.
#[verifier::external_body]
fn resized_encoding(data: &[u8], width: u32, height: u32, filter: ResizeFilter, format: ImageFormat) -> (r: Result<
    Vec<u8>,
    String,
>)
    requires
        decoded_dims(data@) matches Ok((w0, h0)) && (w0 as nat) * (height as nat) * 16 <= isize::MAX,
        (width as nat) * (height as nat) * 16 <= isize::MAX,
    ensures
        format == ImageFormat::Png && width > 0 && height > 0 ==> r is Ok,
        format == ImageFormat::Png && r is Ok ==> png_of_size(r->Ok_0@, width, height) && width > 0 && height > 0,
{
    let f = match filter { ResizeFilter::Nearest => FilterType::Nearest, ResizeFilter::Triangle => FilterType::Triangle,
        ResizeFilter::CatmullRom => FilterType::CatmullRom, ResizeFilter::Gaussian => FilterType::Gaussian,
        ResizeFilter::Lanczos3 => FilterType::Lanczos3 };
    let out_format = match format { ImageFormat::Png => image::ImageFormat::Png, ImageFormat::Jpeg => image::ImageFormat::Jpeg,
        ImageFormat::WebP => image::ImageFormat::WebP };
    let resized = image::load_from_memory(data).map_err(|e| e.to_string())?.resize_exact(width, height, f);
    let mut output = std::io::Cursor::new(Vec::new());
    match resized.write_to(&mut output, out_format) {
        Ok(()) => Ok(output.into_inner()),
        Err(e) => Err(e.to_string()),
    }
}

/// Whether an image of `width` by `height` can be enlarged `scale` times:
/// both new sides fit a `u32` and the resize buffers stay addressable.
pub open spec fn upscale_fits(width: u32, height: u32, scale: u32) -> bool {
    &&& width * scale <= u32::MAX
    &&& height * scale <= u32::MAX
    &&& (width * scale) * (height * scale) * 16 <= isize::MAX
}

/// The response of local upscaling from what the encoder gave: its PNG
/// bytes with the model `local/lanczos3` and the generation time, or its
/// error as a save error.
pub fn upscale_response(encoded: Result<Vec<u8>, String>, generation_time_ms: u64) -> (r: Result<
    ImageResponse,
    ImageError,
>)
    ensures
        match encoded {
            Ok(bytes) => r matches Ok(resp) && resp.image_data@ == bytes@ && resp.format == ImageFormat::Png
                && resp.model_used@ == "local/lanczos3"@ && resp.revised_prompt.is_none()
                && resp.generation_time_ms == generation_time_ms,
            Err(e) => r matches Err(ImageError::SaveError(m)) && m@ == "Failed to encode image: "@ + e@,
        },
{
    match encoded {
        Ok(bytes) => Ok(ImageResponse::new(bytes, ImageFormat::Png, owned("local/lanczos3"), generation_time_ms)),
        Err(e) => Err(ImageError::SaveError(prefixed("Failed to encode image: ", e.as_str()))),
    }
}

/// Local upscaling by interpolation, when no model serves the request: the
/// image is decoded, resized by `scale` in both dimensions and encoded as
/// PNG. A resized image too large to address is refused, and so is an
/// enlarged size with a zero side (the encoder's error). Otherwise the
/// result is a PNG of the enlarged size; its pixels are not stated.
pub fn local_upscale(input_data: &[u8], scale: u32) -> (r: Result<ImageResponse, ImageError>)
    ensures
        match decoded_dims(input_data@) {
            Err(e) => r matches Err(ImageError::ReadError(m)) && m@ == "Failed to decode image: "@ + e,
            Ok((w, h)) => if !upscale_fits(w, h, scale) {
                r matches Err(ImageError::SaveError(m)) && m@ == "Failed to encode image: "@
                    + "upscaled size too large"@
            } else if w * scale > 0 && h * scale > 0 {
                r matches Ok(resp) && png_of_size(resp.image_data@, (w * scale) as u32, (h * scale) as u32)
                    && resp.format == ImageFormat::Png && resp.model_used@ == "local/lanczos3"@
                    && resp.revised_prompt.is_none()
            } else {
                r matches Err(ImageError::SaveError(m)) && starts_with_text(m@, "Failed to encode image: "@)
            },
        },
{
    let start = instant_now();
    let (width, height) = match decode_dimensions(input_data) {
        Ok(d) => d,
        Err(e) => {
            return Err(ImageError::ReadError(prefixed("Failed to decode image: ", e.as_str())));
        },
    };
    assert((width as u64) * (scale as u64) <= 0xffff_ffff * 0xffff_ffff) by (nonlinear_arith);
    assert((height as u64) * (scale as u64) <= 0xffff_ffff * 0xffff_ffff) by (nonlinear_arith);
    let new_width = width as u64 * scale as u64;
    let new_height = height as u64 * scale as u64;
    if new_width > u32::MAX as u64 || new_height > u32::MAX as u64 {
        return Err(ImageError::SaveError(prefixed("Failed to encode image: ", "upscaled size too large")));
    }
    assert(new_width * new_height <= 0xffff_ffff * 0xffff_ffff) by (nonlinear_arith)
        requires
            new_width <= 0xffff_ffff,
            new_height <= 0xffff_ffff,
    ;
    if new_width * new_height > (isize::MAX as u64) / 16 {
        return Err(ImageError::SaveError(prefixed("Failed to encode image: ", "upscaled size too large")));
    }
    assert((new_width as nat) * (new_height as nat) * 16 <= isize::MAX) by (nonlinear_arith)
        requires
            new_width * new_height <= (isize::MAX as u64) / 16,
    ;
    assert((width as nat) * (new_height as nat) <= (new_width as nat) * (new_height as nat)) by (nonlinear_arith)
        requires
            new_width == width * scale,
            new_height == height * scale,
    ;
    let encoded = resized_encoding(input_data, new_width as u32, new_height as u32, ResizeFilter::Lanczos3, ImageFormat::Png);
    let generation_time = elapsed_ms(&start);
    let ghost encoded_view = encoded;
    let r = upscale_response(encoded, generation_time);
    proof {
        let p = "Failed to encode image: "@;
        if let Err(e) = encoded_view {
            assert((p + e@).take(p.len() as int) =~= p);
        }
        assert(new_width as u32 == (width * scale) as u32);
        assert(new_height as u32 == (height * scale) as u32);
    }
    r
}

// ---------------------------------------------------------------------------
// Output paths

/// Whether a character may appear in a formatted local time: a digit, the
/// `_` between date and time, or the sign of a year outside `0..=9999`.
pub open spec fn timestamp_char(c: char) -> bool {
    ('0' <= c && c <= '9') || c == '_' || c == '+' || c == '-'
}

/// The format of the time in the names of saved images.
pub const FILE_TIME_FORMAT: &'static str = "%Y%m%d_%H%M%S";

/// Calls `chrono::Local::now` and formats it with the given format, which
/// must be `FILE_TIME_FORMAT`. The time is the machine's, so which time is
/// not stated; the contract claims only what chrono's formatting writes for
/// every time in that format: digits, the `_`, and the sign it puts before
/// a year outside `0..=9999`.
#[verifier::external_body]
fn local_timestamp(format: &str) -> (r: String)
    requires
        format@ == FILE_TIME_FORMAT@,
    ensures
        forall|i: int| 0 <= i < r@.len() ==> timestamp_char(#[trigger] r@[i]),
{
    chrono::Local::now().format(format).to_string()
}

/// Whether a text is a single normal path component: not empty, not `.` or
/// `..`, and without a separator (`/`, `\`) or a drive colon.
pub open spec fn plain_component(name: Seq<char>) -> bool {
    &&& name.len() > 0
    &&& name != seq!['.']
    &&& name != seq!['.', '.']
    &&& forall|i: int| 0 <= i < name.len() ==> {
        let c = #[trigger] name[i];
        c != '/' && c != '\\' && c != ':'
    }
}

/// Whether `path` ends with `name`.
pub open spec fn ends_with_text(path: Seq<char>, name: Seq<char>) -> bool {
    name.len() <= path.len() && path.skip(path.len() - name.len()) == name
}

/// Whether `path` is `base` adjoined with `name`: the name right after the
/// base, or after one separator between them.
pub open spec fn adjoined(path: Seq<char>, base: Seq<char>, name: Seq<char>) -> bool {
    ||| path == base + name
    ||| path == base + seq!['/'] + name
    ||| path == base + seq!['\\'] + name
}

/// Calls `Path::join` on a base directory and a file name, and gives the
/// joined path as text. The contract claims that a single normal component
/// is adjoined to the base: `PathBuf::push` of a relative path keeps the
/// base and adds the platform's separator (`/` on Unix, `\` on Windows)
/// unless the base is empty, ends with a separator or, on Windows, is a bare
/// drive prefix; a `str` base converts back to text without loss. Which of
/// these the platform does is not stated.
#[verifier::external_body]
fn join_path(base: &str, name: &str) -> (r: String)
    requires
        plain_component(name@),
    ensures
        adjoined(r@, base@, name@),
{
    std::path::Path::new(base).join(name).to_string_lossy().into_owned()
}

/// The file name of a generated image: `image_`, the timestamp, a dot and
/// the format's extension.
pub fn output_file_name(timestamp: &str, format: ImageFormat) -> (r: String)
    ensures
        r@ == "image_"@ + timestamp@ + "."@ + format_extension(format),
{
    let mut s = owned("image_");
    push_str(&mut s, timestamp);
    push_str(&mut s, ".");
    push_str(&mut s, format.extension());
    s
}

/// Generate the default output path for an image: `base_dir` adjoined with
/// `image_<local time>.<extension>`, the local time written as
/// `%Y%m%d_%H%M%S`.
pub fn generate_output_path(base_dir: &str, format: ImageFormat) -> (r: String)
    ensures
        starts_with_text(r@, base_dir@),
        exists|t: Seq<char>|
            (forall|i: int| 0 <= i < t.len() ==> timestamp_char(#[trigger] t[i])) && adjoined(
                r@,
                base_dir@,
                "image_"@ + t + "."@ + format_extension(format),
            ),
{
    let timestamp = local_timestamp(FILE_TIME_FORMAT);
    let name = output_file_name(timestamp.as_str(), format);
    proof {
        reveal_strlit("image_");
        reveal_strlit(".");
        reveal_strlit("png");
        reveal_strlit("jpg");
        reveal_strlit("webp");
        let n = name@;
        let t = timestamp@;
        assert forall|i: int| 0 <= i < n.len() implies {
            let c = #[trigger] n[i];
            c != '/' && c != '\\' && c != ':'
        } by {
            if i >= 6 && i < 6 + t.len() {
                assert(n[i] == t[i - 6]);
                assert(timestamp_char(t[i - 6]));
            }
        }
        assert(n[0] == 'i');
        assert(seq!['.'][0] == '.');
        assert(seq!['.', '.'][0] == '.');
    }
    let path = join_path(base_dir, name.as_str());
    proof {
        let b = base_dir@;
        let n = name@;
        if path@ == b + n {
            assert((b + n).take(b.len() as int) =~= b);
        } else if path@ == b + seq!['/'] + n {
            assert((b + seq!['/'] + n).take(b.len() as int) =~= b);
        } else {
            assert((b + seq!['\\'] + n).take(b.len() as int) =~= b);
        }
    }
    assert(adjoined(path@, base_dir@, "image_"@ + timestamp@ + "."@ + format_extension(format)));
    path
}

} // verus!
