//! Rules of the image client that do not depend on the network: its
//! settings, how image bytes and image responses are recognised, which
//! errors are retried, and the backoff between attempts.

use vstd::prelude::*;
use crate::backoff::{
    backoff_base, backoff_base_ms, jitter_bound, lemma_backoff_base_bounds, rand_jitter,
};
use crate::image::types::{format_mime, ImageFormat};
use crate::http::{prefixed, status_text, status_text_of};
use crate::text::{
    chars_of, contains_chars, contains_text, owned, push_str, starts_with_chars,
    starts_with_text, str_contains, string_of, string_of_range, trim_chars, trim_text,
};

verus! {

/// The base URL of the OpenRouter API.
pub open spec fn openrouter_base_url() -> Seq<char> {
    "https://openrouter.ai/api/v1"@
}

/// Maximum attempts of a text-to-image request.
pub const MAX_RETRY_ATTEMPTS: u32 = 3;

/// Errors of image operations.
#[derive(Debug, Clone)]
pub enum ImageError {
    /// No API key was configured (or the API refused it)
    ApiKeyMissing,
    /// The request could not be sent or its response not received
    NetworkError(String),
    /// The API failed to generate, or its answer could not be used
    GenerationError(String),
    /// The model is not available or does not support the operation
    ModelNotAvailable(String),
    /// An input image could not be read
    ReadError(String),
    /// An output image could not be saved
    SaveError(String),
}

// ---------------------------------------------------------------------------
// Builder

/// Builder for the image client.
#[derive(Debug, Clone)]
pub struct ImageClientBuilder {
    pub api_key: Option<String>,
    pub base_url: Option<String>,
    pub timeout_secs: Option<u64>,
}

/// The settings of an image client: what a build resolves from its builder.
#[derive(Debug, Clone)]
pub struct ImageClientSettings {
    /// API key for authentication
    pub api_key: String,
    /// Base URL of the API
    pub base_url: String,
    /// Request timeout in seconds
    pub timeout_secs: u64,
}

impl ImageClientBuilder {
    /// Create a new builder.
    pub fn new() -> (r: ImageClientBuilder)
        ensures
            r.api_key.is_none(),
            r.base_url.is_none(),
            r.timeout_secs.is_none(),
    {
        ImageClientBuilder { api_key: None, base_url: None, timeout_secs: None }
    }

    /// Set the API key.
    pub fn api_key(self, key: String) -> (r: ImageClientBuilder)
        ensures
            r == (ImageClientBuilder { api_key: Some(key), ..self }),
    {
        ImageClientBuilder { api_key: Some(key), ..self }
    }

    /// Set the base URL (defaults to OpenRouter).
    pub fn base_url(self, url: String) -> (r: ImageClientBuilder)
        ensures
            r == (ImageClientBuilder { base_url: Some(url), ..self }),
    {
        ImageClientBuilder { base_url: Some(url), ..self }
    }

    /// Set the request timeout in seconds.
    pub fn timeout_secs(self, secs: u64) -> (r: ImageClientBuilder)
        ensures
            r == (ImageClientBuilder { timeout_secs: Some(secs), ..self }),
    {
        ImageClientBuilder { timeout_secs: Some(secs), ..self }
    }

    /// Resolve the settings of the client: an API key is required; the base
    /// URL defaults to OpenRouter and the timeout to 120 seconds.
    pub fn settings(self) -> (r: Result<ImageClientSettings, ImageError>)
        ensures
            match self.api_key {
                None => r matches Err(ImageError::ApiKeyMissing),
                Some(k) => r matches Ok(s) && s.api_key == k && s.base_url@ == (match self.base_url {
                    Some(u) => u@,
                    None => openrouter_base_url(),
                }) && s.timeout_secs == (match self.timeout_secs {
                    Some(t) => t,
                    None => 120,
                }),
            },
    {
        let api_key = match self.api_key {
            Some(k) => k,
            None => return Err(ImageError::ApiKeyMissing),
        };
        let timeout_secs = match self.timeout_secs {
            Some(t) => t,
            None => 120,
        };
        let base_url = match self.base_url {
            Some(u) => u,
            None => owned("https://openrouter.ai/api/v1"),
        };
        Ok(ImageClientSettings { api_key, base_url, timeout_secs })
    }
}

// ---------------------------------------------------------------------------
// Recognising image bytes

/// The bytes start with the PNG signature.
pub open spec fn is_png_bytes(d: Seq<u8>) -> bool {
    d.len() >= 4 && d[0] == 0x89 && d[1] == 0x50 && d[2] == 0x4E && d[3] == 0x47
}

/// The bytes start with the JPEG signature.
pub open spec fn is_jpeg_bytes(d: Seq<u8>) -> bool {
    d.len() >= 3 && d[0] == 0xFF && d[1] == 0xD8 && d[2] == 0xFF
}

/// The bytes are a RIFF container of WebP type.
pub open spec fn is_webp_bytes(d: Seq<u8>) -> bool {
    &&& d.len() >= 12
    &&& d[0] == 0x52 && d[1] == 0x49 && d[2] == 0x46 && d[3] == 0x46
    &&& d[8] == 0x57 && d[9] == 0x45 && d[10] == 0x42 && d[11] == 0x50
}

/// The MIME type detected from image bytes.
pub open spec fn detected_mime(d: Seq<u8>) -> Seq<char> {
    if is_png_bytes(d) {
        "image/png"@
    } else if is_jpeg_bytes(d) {
        "image/jpeg"@
    } else if is_webp_bytes(d) {
        "image/webp"@
    } else {
        "application/octet-stream"@
    }
}

/// The format detected from image bytes (PNG when unknown).
pub open spec fn detected_format(d: Seq<u8>) -> ImageFormat {
    if is_png_bytes(d) {
        ImageFormat::Png
    } else if is_jpeg_bytes(d) {
        ImageFormat::Jpeg
    } else if is_webp_bytes(d) {
        ImageFormat::WebP
    } else {
        ImageFormat::Png
    }
}

/// Whether the bytes are a PNG, JPEG or WebP image.
pub open spec fn valid_image_bytes(d: Seq<u8>) -> bool {
    is_png_bytes(d) || is_jpeg_bytes(d) || is_webp_bytes(d)
}

fn png_bytes(data: &[u8]) -> (r: bool)
    ensures
        r == is_png_bytes(data@),
{
    data.len() >= 4 && data[0] == 0x89 && data[1] == 0x50 && data[2] == 0x4E && data[3] == 0x47
}

fn jpeg_bytes(data: &[u8]) -> (r: bool)
    ensures
        r == is_jpeg_bytes(data@),
{
    data.len() >= 3 && data[0] == 0xFF && data[1] == 0xD8 && data[2] == 0xFF
}

fn webp_bytes(data: &[u8]) -> (r: bool)
    ensures
        r == is_webp_bytes(data@),
{
    data.len() >= 12 && data[0] == 0x52 && data[1] == 0x49 && data[2] == 0x46 && data[3] == 0x46
        && data[8] == 0x57 && data[9] == 0x45 && data[10] == 0x42 && data[11] == 0x50
}

/// Detect MIME type from image bytes.
pub fn detect_image_mime_type(data: &[u8]) -> (r: &'static str)
    ensures
        r@ == detected_mime(data@),
{
    if png_bytes(data) {
        "image/png"
    } else if jpeg_bytes(data) {
        "image/jpeg"
    } else if webp_bytes(data) {
        "image/webp"
    } else {
        "application/octet-stream"
    }
}

/// Detect image format from bytes.
pub fn detect_image_format(data: &[u8]) -> (r: ImageFormat)
    ensures
        r == detected_format(data@),
{
    if png_bytes(data) {
        ImageFormat::Png
    } else if jpeg_bytes(data) {
        ImageFormat::Jpeg
    } else if webp_bytes(data) {
        ImageFormat::WebP
    } else {
        ImageFormat::Png
    }
}

/// Check if bytes represent valid image data.
pub fn is_valid_image_data(data: &[u8]) -> (r: bool)
    ensures
        r == valid_image_bytes(data@),
{
    png_bytes(data) || jpeg_bytes(data) || webp_bytes(data)
}

/// The detectors agree: bytes are a valid image exactly when a MIME type
/// other than the generic one is detected, and then it is the MIME type of
/// the detected format.
pub proof fn lemma_detection_agrees(d: Seq<u8>)
    ensures
        valid_image_bytes(d) <==> detected_mime(d) != "application/octet-stream"@,
        valid_image_bytes(d) ==> detected_mime(d) == format_mime(detected_format(d)),
{
    reveal_strlit("image/png");
    reveal_strlit("image/jpeg");
    reveal_strlit("image/webp");
    reveal_strlit("application/octet-stream");
    assert("image/png"@[0] == 'i');
    assert("image/jpeg"@[0] == 'i');
    assert("image/webp"@[0] == 'i');
    assert("application/octet-stream"@[0] == 'a');
}

// ---------------------------------------------------------------------------
// Base64 and data URLs

/// What the standard base64 engine decodes a text into, or the text of its error.
pub uninterp spec fn base64_decoded(s: Seq<char>) -> Result<Seq<u8>, Seq<char>>;

/// Calls `base64::Engine::decode` with the standard engine; the error is
/// returned as its `Display` text.
/// The contract claims only that the outcome is a function of the text (`base64_decoded`).
#[verifier::external_body]
pub(crate) fn base64_decode(s: &str) -> (r: Result<Vec<u8>, String>)
    ensures
        match r {
            Ok(v) => base64_decoded(s@) == Ok::<Seq<u8>, Seq<char>>(v@),
            Err(e) => base64_decoded(s@) == Err::<Seq<u8>, Seq<char>>(e@),
        },
{
    match base64::Engine::decode(&base64::engine::general_purpose::STANDARD, s) {
        Ok(v) => Ok(v),
        Err(e) => Err(e.to_string()),
    }
}

/// The character of the standard base64 alphabet for a value below 64.
pub open spec fn base64_char(v: nat) -> char {
    if v < 26 {
        (65 + v) as char
    } else if v < 52 {
        (71 + v) as char
    } else if v < 62 {
        (v - 4) as char
    } else if v == 62 {
        '+'
    } else {
        '/'
    }
}

/// Standard base64 with `=` padding: each group of three bytes gives four
/// characters of six bits each, and a last group of one or two bytes is
/// padded with `=` to four characters.
pub open spec fn base64_encoded(b: Seq<u8>) -> Seq<char>
    decreases b.len(),
{
    if b.len() == 0 {
        Seq::empty()
    } else if b.len() == 1 {
        seq![base64_char((b[0] / 4) as nat), base64_char(((b[0] % 4) * 16) as nat), '=', '=']
    } else if b.len() == 2 {
        seq![
            base64_char((b[0] / 4) as nat),
            base64_char(((b[0] % 4) * 16 + b[1] / 16) as nat),
            base64_char(((b[1] % 16) * 4) as nat),
            '=',
        ]
    } else {
        seq![
            base64_char((b[0] / 4) as nat),
            base64_char(((b[0] % 4) * 16 + b[1] / 16) as nat),
            base64_char(((b[1] % 16) * 4 + b[2] / 64) as nat),
            base64_char((b[2] % 64) as nat),
        ] + base64_encoded(b.subrange(3, b.len() as int))
    }
}

/// Calls `base64::Engine::encode` with the standard engine. The contract
/// claims what that engine writes: the standard alphabet with `=` padding
/// (`base64_encoded`).
#[verifier::external_body]
pub(crate) fn base64_encode(data: &[u8]) -> (r: String)
    ensures
        r@ == base64_encoded(data@),
{
    base64::Engine::encode(&base64::engine::general_purpose::STANDARD, data)
}

/// The data URL of image bytes: `data:<mime>;base64,<base64>`.
pub open spec fn data_url_text(d: Seq<u8>) -> Seq<char> {
    "data:"@ + detected_mime(d) + ";base64,"@ + base64_encoded(d)
}

/// The data URL of image bytes, used to send images to the API.
pub fn image_data_url(data: &[u8]) -> (r: String)
    ensures
        r@ == data_url_text(data@),
{
    let mut s = String::new();
    push_str(&mut s, "data:");
    push_str(&mut s, detect_image_mime_type(data));
    push_str(&mut s, ";base64,");
    let encoded = base64_encode(data);
    push_str(&mut s, encoded.as_str());
    assert(s@ =~= data_url_text(data@));
    s
}

/// Image bytes parsed from an API response.
#[derive(Debug, Clone)]
pub struct ParsedImage {
    /// The image bytes
    pub image_data: Vec<u8>,
    /// Their format
    pub format: ImageFormat,
}

/// The position of the first comma, if any.
pub open spec fn first_comma(s: Seq<char>) -> Option<int> {
    if exists|i: int| 0 <= i < s.len() && s[i] == ',' {
        Some(choose|i: int| 0 <= i < s.len() && s[i] == ',' && forall|j: int| 0 <= j < i ==> s[j] != ',')
    } else {
        None
    }
}

/// The format named by the header of a data URL (PNG when none is named).
pub open spec fn header_format(h: Seq<char>) -> ImageFormat {
    if contains_text(h, "png"@) {
        ImageFormat::Png
    } else if contains_text(h, "jpeg"@) || contains_text(h, "jpg"@) {
        ImageFormat::Jpeg
    } else if contains_text(h, "webp"@) {
        ImageFormat::WebP
    } else {
        ImageFormat::Png
    }
}

/// What parsing image data from a response gives: a data URL is decoded by
/// its header's format; anything else is trimmed raw base64 whose format is
/// detected from the bytes.
pub open spec fn parsed_image_data(s: Seq<char>) -> Result<(Seq<u8>, ImageFormat), Seq<char>> {
    if starts_with_text(s, "data:image"@) && first_comma(s).is_some() {
        let i = first_comma(s)->0;
        match base64_decoded(s.skip(i + 1)) {
            Ok(bytes) => Ok((bytes, header_format(s.take(i)))),
            Err(e) => Err("Invalid base64: "@ + e),
        }
    } else {
        match base64_decoded(trim_text(s)) {
            Ok(bytes) => Ok((bytes, detected_format(bytes))),
            Err(e) => Err("Invalid base64: "@ + e),
        }
    }
}

/// Find the first position of `c` in `v`.
fn position_of(v: &Vec<char>, c: char) -> (r: Option<usize>)
    ensures
        match r {
            Some(i) => i < v@.len() && v@[i as int] == c && forall|j: int| 0 <= j < i ==> v@[j] != c,
            None => forall|j: int| 0 <= j < v@.len() ==> v@[j] != c,
        },
{
    let mut i: usize = 0;
    while i < v.len()
        invariant
            i <= v@.len(),
            forall|j: int| 0 <= j < i ==> v@[j] != c,
        decreases v@.len() - i,
    {
        if v[i] == c {
            return Some(i);
        }
        i = i + 1;
    }
    None
}

/// The format named by a data URL header.
fn format_of_header(h: &Vec<char>) -> (r: ImageFormat)
    ensures
        r == header_format(h@),
{
    if contains_chars(h, &chars_of("png")) {
        ImageFormat::Png
    } else if contains_chars(h, &chars_of("jpeg")) || contains_chars(h, &chars_of("jpg")) {
        ImageFormat::Jpeg
    } else if contains_chars(h, &chars_of("webp")) {
        ImageFormat::WebP
    } else {
        ImageFormat::Png
    }
}

/// An image error whose message is `prefix` followed by `detail`.
fn generation_error(prefix: &str, detail: &str) -> (r: ImageError)
    ensures
        r matches ImageError::GenerationError(m) && m@ == prefix@ + detail@,
{
    let mut s = String::new();
    push_str(&mut s, prefix);
    push_str(&mut s, detail);
    assert(s@ =~= prefix@ + detail@);
    ImageError::GenerationError(s)
}

/// Parse image data from a data URL or a base64 string.
pub fn parse_image_data(data: &str) -> (r: Result<ParsedImage, ImageError>)
    ensures
        match parsed_image_data(data@) {
            Ok((bytes, format)) => r matches Ok(p) && p.image_data@ == bytes && p.format == format,
            Err(msg) => r matches Err(ImageError::GenerationError(m)) && m@ == msg,
        },
{
    let v = chars_of(data);
    if starts_with_chars(&v, "data:image") {
        match position_of(&v, ',') {
            Some(i) => {
                proof {
                    let k = choose|k: int| 0 <= k < v@.len() && v@[k] == ',' && forall|j: int| 0 <= j < k ==> v@[j] != ',';
                    assert(k == i);
                    assert(v@.subrange(0, i as int) =~= data@.take(i as int));
                    assert(v@.subrange(i + 1, v@.len() as int) =~= data@.skip(i + 1));
                }
                let header = string_of_range(&v, 0, i);
                let hv = chars_of(header.as_str());
                let format = format_of_header(&hv);
                assert(i < v.len());
                let payload = string_of_range(&v, i + 1, v.len());
                return match base64_decode(payload.as_str()) {
                    Ok(image_data) => Ok(ParsedImage { image_data, format }),
                    Err(e) => Err(generation_error("Invalid base64: ", e.as_str())),
                };
            },
            None => {},
        }
    }
    let trimmed = string_of(&trim_chars(&v));
    match base64_decode(trimmed.as_str()) {
        Ok(image_data) => {
            let format = detect_image_format(image_data.as_slice());
            Ok(ParsedImage { image_data, format })
        },
        Err(e) => Err(generation_error("Invalid base64: ", e.as_str())),
    }
}

// ---------------------------------------------------------------------------
// Prompts of image-to-image requests

/// The text part of a transformation request.
pub fn transform_prompt(prompt: &str) -> (r: String)
    ensures
        r@ == "Transform this image: "@ + prompt@,
{
    prefixed("Transform this image: ", prompt)
}

/// The text part of an inpainting request.
pub fn inpaint_prompt(prompt: &str) -> (r: String)
    ensures
        r@ == "Inpaint the masked region with: "@ + prompt@
            + ". The second image is a mask where white areas should be edited."@,
{
    let mut s = prefixed("Inpaint the masked region with: ", prompt);
    push_str(&mut s, ". The second image is a mask where white areas should be edited.");
    s
}

// ---------------------------------------------------------------------------
// Error responses

/// The error an unsuccessful response status gives, with the response body:
/// its kind and its message.
pub open spec fn status_error(code: u16, body: Seq<char>) -> (ImageErrorKind, Seq<char>) {
    if code == 401 {
        (ImageErrorKind::ApiKeyMissing, Seq::empty())
    } else if code == 400 {
        (ImageErrorKind::Generation, "Bad request: "@ + body)
    } else if code == 402 {
        (ImageErrorKind::Generation, "Payment required: Insufficient credits"@)
    } else if code == 404 {
        (ImageErrorKind::ModelNotAvailable, "Model not found: "@ + body)
    } else if code == 429 {
        (ImageErrorKind::Generation, "Rate limited: "@ + body)
    } else if 500 <= code <= 599 {
        (ImageErrorKind::Generation, "Server error ("@ + status_text_of(code) + "): "@ + body)
    } else {
        (ImageErrorKind::Generation, "HTTP error "@ + status_text_of(code) + ": "@ + body)
    }
}

/// The kinds of image errors.
#[derive(Debug, Clone, Copy, PartialEq, Eq, Structural)]
pub enum ImageErrorKind {
    ApiKeyMissing,
    Network,
    Generation,
    ModelNotAvailable,
    Read,
    Save,
}

/// The kind and message of an image error (an empty message for a missing key).
pub open spec fn error_parts(e: ImageError) -> (ImageErrorKind, Seq<char>) {
    match e {
        ImageError::ApiKeyMissing => (ImageErrorKind::ApiKeyMissing, Seq::empty()),
        ImageError::NetworkError(m) => (ImageErrorKind::Network, m@),
        ImageError::GenerationError(m) => (ImageErrorKind::Generation, m@),
        ImageError::ModelNotAvailable(m) => (ImageErrorKind::ModelNotAvailable, m@),
        ImageError::ReadError(m) => (ImageErrorKind::Read, m@),
        ImageError::SaveError(m) => (ImageErrorKind::Save, m@),
    }
}

/// Handle an error response from the API: the error for its status code
/// (a code that a `StatusCode` can hold) and its body.
pub fn image_error_for_status(code: u16, body: &str) -> (r: ImageError)
    requires
        100 <= code <= 999,
    ensures
        error_parts(r) == status_error(code, body@),
{
    if code == 401 {
        ImageError::ApiKeyMissing
    } else if code == 400 {
        ImageError::GenerationError(prefixed("Bad request: ", body))
    } else if code == 402 {
        ImageError::GenerationError(owned("Payment required: Insufficient credits"))
    } else if code == 404 {
        ImageError::ModelNotAvailable(prefixed("Model not found: ", body))
    } else if code == 429 {
        ImageError::GenerationError(prefixed("Rate limited: ", body))
    } else if 500 <= code && code <= 599 {
        let mut m = prefixed("Server error (", status_text(code).as_str());
        push_str(&mut m, "): ");
        push_str(&mut m, body);
        assert(m@ =~= "Server error ("@ + status_text_of(code) + "): "@ + body@);
        ImageError::GenerationError(m)
    } else {
        let mut m = prefixed("HTTP error ", status_text(code).as_str());
        push_str(&mut m, ": ");
        push_str(&mut m, body);
        assert(m@ =~= "HTTP error "@ + status_text_of(code) + ": "@ + body@);
        ImageError::GenerationError(m)
    }
}

// ---------------------------------------------------------------------------
// Retry

/// Whether an image error is transient and the request is retried.
pub open spec fn retryable(e: ImageError) -> bool {
    match e {
        ImageError::NetworkError(_) => true,
        ImageError::GenerationError(msg) => contains_text(msg@, "Rate limited"@) || contains_text(
            msg@,
            "Server error"@,
        ),
        _ => false,
    }
}

/// Which errors are retried: every network error, and a generation error
/// exactly when its message mentions a rate limit (`Rate limited`) or a
/// server error (`Server error`), whatever else it says; never a missing
/// key, an unavailable model, or a read or save error.
pub proof fn lemma_retryable_errors(e: ImageError)
    ensures
        e is NetworkError ==> retryable(e),
        e matches ImageError::GenerationError(m) ==> (retryable(e) <==> (contains_text(m@, "Rate limited"@)
            || contains_text(m@, "Server error"@))),
        (e is ApiKeyMissing || e is ModelNotAvailable || e is ReadError || e is SaveError) ==> !retryable(e),
{
}

/// Check if an error is retryable.
pub fn is_retryable_error(error: &ImageError) -> (r: bool)
    ensures
        r == retryable(*error),
{
    match error {
        ImageError::NetworkError(_) => true,
        ImageError::GenerationError(msg) => str_contains(msg.as_str(), "Rate limited") || str_contains(
            msg.as_str(),
            "Server error",
        ),
        _ => false,
    }
}

/// The delay before retry `attempt` given a jitter source value.
pub open spec fn backoff_delay(attempt: u32, jitter: nat) -> nat {
    backoff_base(attempt) + jitter % jitter_bound(backoff_base(attempt))
}

/// The backoff delay before retry `attempt`, given a jitter source value:
/// the exponential base plus the jitter reduced below a tenth of the base.
pub fn calculate_backoff_with(attempt: u32, jitter: u64) -> (r: u64)
    requires
        1 <= attempt <= 55,
        backoff_delay(attempt, jitter as nat) <= u64::MAX,
    ensures
        r == backoff_delay(attempt, jitter as nat),
{
    let base = backoff_base_ms(attempt);
    let bound = if base / 10 == 0 { 1 } else { base / 10 };
    base + jitter % bound
}

/// Calculate exponential backoff delay with jitter: the base delay plus a
/// clock-derived jitter below both a tenth of the base and 1000.
pub fn calculate_backoff(attempt: u32) -> (r: u64)
    requires
        1 <= attempt <= 55,
    ensures
        exists|j: nat| j < 1000 && r == #[trigger] backoff_delay(attempt, j),
        backoff_base(attempt) <= r < backoff_base(attempt) + jitter_bound(backoff_base(attempt)),
{
    let j = rand_jitter();
    proof {
        lemma_backoff_base_bounds(attempt);
        let b = jitter_bound(backoff_base(attempt));
        let jn = j as nat;
        assert(jn % b <= jn) by (nonlinear_arith)
            requires
                b > 0,
        ;
    }
    let r = calculate_backoff_with(attempt, j);
    assert(r == backoff_delay(attempt, j as nat));
    r
}

// ---------------------------------------------------------------------------
// Responses

/// A part of a structured message content.
#[derive(Debug, Clone)]
pub struct ContentPart {
    /// The part's type, such as `text`, `image_url` or `image`
    pub part_type: String,
    /// The URL of an `image_url` part
    pub image_url: Option<String>,
    /// Inline data of an image part
    pub data: Option<String>,
}

/// The content of a chat message: plain text or structured parts.
#[derive(Debug, Clone)]
pub enum ChatMessageContent {
    /// Simple string content
    Simple(String),
    /// Structured content with parts
    Parts(Vec<ContentPart>),
}

/// The image source of a part: its URL, else its data, for image parts.
pub open spec fn part_source(p: ContentPart) -> Option<Seq<char>> {
    if p.part_type@ == "image_url"@ || p.part_type@ == "image"@ {
        match p.image_url {
            Some(u) => Some(u@),
            None => match p.data {
                Some(d) => Some(d@),
                None => None,
            },
        }
    } else {
        None
    }
}

/// The index of the first part with an image source, if any.
pub open spec fn first_image_part(parts: Seq<ContentPart>) -> Option<int> {
    if exists|i: int| 0 <= i < parts.len() && part_source(parts[i]).is_some() {
        Some(
            choose|i: int|
                0 <= i < parts.len() && part_source(parts[i]).is_some() && forall|j: int|
                    0 <= j < i ==> part_source(parts[j]).is_none(),
        )
    } else {
        None
    }
}

/// What extracting the image from the first choice of a response gives.
pub open spec fn extracted_image(first: Option<Option<ChatMessageContent>>) -> Result<(Seq<u8>, ImageFormat), Seq<char>> {
    match first {
        None => Err("No response choices"@),
        Some(None) => Err("No image data found in response"@),
        Some(Some(ChatMessageContent::Parts(parts))) => match first_image_part(parts@) {
            Some(i) => parsed_image_data(part_source(parts@[i])->0),
            None => Err("No image data found in response"@),
        },
        Some(Some(ChatMessageContent::Simple(content))) => if starts_with_text(
            content@,
            "data:image"@,
        ) {
            parsed_image_data(content@)
        } else {
            match base64_decoded(trim_text(content@)) {
                Ok(bytes) => if valid_image_bytes(bytes) {
                    Ok((bytes, detected_format(bytes)))
                } else {
                    Err("No image data found in response"@)
                },
                Err(_) => Err("No image data found in response"@),
            }
        },
    }
}

/// The image source of a part.
fn source_of(p: &ContentPart) -> (r: Option<String>)
    ensures
        match part_source(*p) {
            Some(s) => r.is_some() && r->0@ == s,
            None => r.is_none(),
        },
{
    if crate::text::str_eq(p.part_type.as_str(), "image_url") || crate::text::str_eq(p.part_type.as_str(), "image") {
        match &p.image_url {
            Some(u) => Some(u.clone()),
            None => match &p.data {
                Some(d) => Some(d.clone()),
                None => None,
            },
        }
    } else {
        None
    }
}

/// A generation error with a fixed message.
fn no_image_found() -> (r: ImageError)
    ensures
        r matches ImageError::GenerationError(m) && m@ == "No image data found in response"@,
{
    ImageError::GenerationError(owned("No image data found in response"))
}

/// Extract image data from the first choice of a chat completion response;
/// `first` is the content of the first choice's message, or `None` when the
/// response has no choice.
pub fn extract_image_from_response(first: Option<Option<ChatMessageContent>>) -> (r: Result<ParsedImage, ImageError>)
    ensures
        match extracted_image(first) {
            Ok((bytes, format)) => r matches Ok(p) && p.image_data@ == bytes && p.format == format,
            Err(msg) => r matches Err(ImageError::GenerationError(m)) && m@ == msg,
        },
{
    let content = match first {
        None => return Err(ImageError::GenerationError(owned("No response choices"))),
        Some(c) => c,
    };
    match content {
        Some(ChatMessageContent::Parts(parts)) => {
            let mut i: usize = 0;
            while i < parts.len()
                invariant
                    i <= parts@.len(),
                    first == Some(Some(ChatMessageContent::Parts(parts))),
                    forall|j: int| 0 <= j < i ==> part_source(#[trigger] parts@[j]).is_none(),
                decreases parts@.len() - i,
            {
                match source_of(&parts[i]) {
                    Some(src) => {
                        proof {
                            let ps = parts@;
                            assert(part_source(ps[i as int]).is_some());
                            let k = choose|k: int|
                                0 <= k < ps.len() && part_source(ps[k]).is_some() && forall|j: int|
                                    0 <= j < k ==> part_source(#[trigger] ps[j]).is_none();
                            if k < i {
                                assert(part_source(ps[k]).is_none());
                            } else if k > i {
                                assert(part_source(ps[i as int]).is_none());
                            }
                            assert(first_image_part(ps) == Some(i as int));
                            assert(part_source(ps[i as int])->0 == src@);
                        }
                        return parse_image_data(src.as_str());
                    },
                    None => {},
                }
                i = i + 1;
            }
            Err(no_image_found())
        },
        Some(ChatMessageContent::Simple(text)) => {
            let v = chars_of(text.as_str());
            if starts_with_chars(&v, "data:image") {
                return parse_image_data(text.as_str());
            }
            let trimmed = string_of(&trim_chars(&v));
            match base64_decode(trimmed.as_str()) {
                Ok(bytes) => {
                    if is_valid_image_data(bytes.as_slice()) {
                        let format = detect_image_format(bytes.as_slice());
                        Ok(ParsedImage { image_data: bytes, format })
                    } else {
                        Err(no_image_found())
                    }
                },
                Err(_) => Err(no_image_found()),
            }
        },
        None => Err(no_image_found()),
    }
}

} // verus!
