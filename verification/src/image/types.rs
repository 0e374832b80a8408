//! Request and response types for image generation operations.

use vstd::prelude::*;
use crate::text::{
    ascii_lower, is_ascii_text, chars_of, decimal_text, is_digit, lemma_decimal_text_digits, lowercase_of, owned, parse_u32, parse_u32_text, push_decimal,
    push_str, str_eq, to_lowercase,
};

verus! {

/// Image size presets.
#[derive(Debug, Clone, Copy, PartialEq, Eq, Structural)]
pub enum ImageSize {
    /// 1024x1024 square image
    Square1024,
    /// 1024x1536 portrait image
    Portrait,
    /// 1536x1024 landscape image
    Landscape,
    /// Custom dimensions
    Custom(u32, u32),
}

impl Default for ImageSize {
    /// The square preset.
    fn default() -> (r: Self)
        ensures
            r == ImageSize::Square1024,
    {
        ImageSize::Square1024
    }
}

/// Width and height of a size.
pub open spec fn size_dimensions(s: ImageSize) -> (u32, u32) {
    match s {
        ImageSize::Square1024 => (1024, 1024),
        ImageSize::Portrait => (1024, 1536),
        ImageSize::Landscape => (1536, 1024),
        ImageSize::Custom(w, h) => (w, h),
    }
}

/// The text of a size: width, `x`, height.
pub open spec fn size_text(s: ImageSize) -> Seq<char> {
    decimal_text(size_dimensions(s).0 as nat) + "x"@ + decimal_text(size_dimensions(s).1 as nat)
}

/// `s` holds exactly one `x`, at position `i`.
pub open spec fn single_x_at(s: Seq<char>, i: int) -> bool {
    &&& 0 <= i < s.len()
    &&& s[i] == 'x'
    &&& forall|j: int| 0 <= j < s.len() && j != i ==> s[j] != 'x'
}

/// The custom size written as `<width>x<height>`, if `s` is such a text.
pub open spec fn custom_size_from_text(s: Seq<char>) -> Option<ImageSize> {
    if exists|i: int| single_x_at(s, i) {
        let i = choose|i: int| single_x_at(s, i);
        match (parse_u32_text(s.take(i)), parse_u32_text(s.skip(i + 1))) {
            (Some(w), Some(h)) => Some(ImageSize::Custom(w, h)),
            _ => None,
        }
    } else {
        None
    }
}

/// The size named by lower-case text `s`, if any.
pub open spec fn size_from_text(s: Seq<char>) -> Option<ImageSize> {
    if s == "square"@ || s == "square1024"@ || s == "1024x1024"@ {
        Some(ImageSize::Square1024)
    } else if s == "portrait"@ || s == "1024x1536"@ {
        Some(ImageSize::Portrait)
    } else if s == "landscape"@ || s == "1536x1024"@ {
        Some(ImageSize::Landscape)
    } else {
        custom_size_from_text(s)
    }
}

impl ImageSize {
    /// Get width and height as a tuple.
    pub fn dimensions(&self) -> (r: (u32, u32))
        ensures
            r == size_dimensions(*self),
    {
        match self {
            ImageSize::Square1024 => (1024, 1024),
            ImageSize::Portrait => (1024, 1536),
            ImageSize::Landscape => (1536, 1024),
            ImageSize::Custom(w, h) => (*w, *h),
        }
    }

    /// The text of the size, `<width>x<height>`.
    pub fn to_string(&self) -> (r: String)
        ensures
            r@ == size_text(*self),
    {
        let (w, h) = self.dimensions();
        let mut s = String::new();
        push_decimal(&mut s, w as u128);
        push_str(&mut s, "x");
        push_decimal(&mut s, h as u128);
        assert(s@ =~= size_text(*self));
        s
    }

    /// Parse a custom size `<width>x<height>` from lower-case text.
    pub fn parse_custom(s: &str) -> (r: Option<ImageSize>)
        ensures
            r == custom_size_from_text(s@),
    {
        let v = chars_of(s);
        let mut count: usize = 0;
        let mut pos: usize = 0;
        let mut i: usize = 0;
        while i < v.len()
            invariant
                i <= v@.len(),
                v@ == s@,
                count <= i,
                count == 0 ==> forall|j: int| 0 <= j < i ==> v@[j] != 'x',
                count >= 1 ==> pos < i && v@[pos as int] == 'x',
                count == 1 ==> forall|j: int| 0 <= j < i && j != pos ==> v@[j] != 'x',
                count >= 2 ==> exists|j: int| 0 <= j < i && j != pos && v@[j] == 'x',
            decreases v@.len() - i,
        {
            if v[i] == 'x' {
                if count == 0 {
                    pos = i;
                }
                count = count + 1;
            }
            i = i + 1;
        }
        if count != 1 {
            proof {
                if exists|k: int| single_x_at(s@, k) {
                    let k = choose|k: int| single_x_at(s@, k);
                    if count >= 2 {
                        let j = choose|j: int| 0 <= j < v@.len() && j != pos && v@[j] == 'x';
                        assert(j == k && pos == k);
                    }
                }
            }
            return None;
        }
        proof {
            assert(single_x_at(s@, pos as int));
            let k = choose|k: int| single_x_at(s@, k);
            assert(k == pos);
            assert(v@.subrange(0, pos as int) =~= s@.take(pos as int));
            assert(v@.subrange(pos + 1, v@.len() as int) =~= s@.skip(pos + 1));
        }
        let w = parse_u32(&v, 0, pos);
        let h = parse_u32(&v, pos + 1, v.len());
        match (w, h) {
            (Some(w), Some(h)) => Some(ImageSize::Custom(w, h)),
            _ => None,
        }
    }

    /// Parse a size from text that is already in lower case.
    pub fn parse_lowercase(s: &str) -> (r: Option<ImageSize>)
        ensures
            r == size_from_text(s@),
    {
        if str_eq(s, "square") || str_eq(s, "square1024") || str_eq(s, "1024x1024") {
            Some(ImageSize::Square1024)
        } else if str_eq(s, "portrait") || str_eq(s, "1024x1536") {
            Some(ImageSize::Portrait)
        } else if str_eq(s, "landscape") || str_eq(s, "1536x1024") {
            Some(ImageSize::Landscape)
        } else {
            ImageSize::parse_custom(s)
        }
    }

    /// Parse from string (e.g., "square", "portrait", "landscape", "1024x768").
    pub fn parse(s: &str) -> (r: Option<ImageSize>)
        ensures
            r == size_from_text(lowercase_of(s@)),
            is_ascii_text(s@) ==> r == size_from_text(s@.map_values(|c: char| ascii_lower(c))),
    {
        let lower = to_lowercase(s);
        ImageSize::parse_lowercase(lower.as_str())
    }
}

/// A width and height written as `<width>x<height>` read back as that custom size.
pub proof fn lemma_custom_size_text(w: u32, h: u32)
    ensures
        custom_size_from_text(decimal_text(w as nat) + "x"@ + decimal_text(h as nat)) == Some(
            ImageSize::Custom(w, h),
        ),
{
    reveal_strlit("x");
    let a = decimal_text(w as nat);
    let b = decimal_text(h as nat);
    let t = a + "x"@ + b;
    lemma_decimal_text_digits(w as nat);
    lemma_decimal_text_digits(h as nat);
    let i = a.len() as int;
    assert(t[i] == 'x');
    assert forall|j: int| 0 <= j < t.len() && j != i implies t[j] != 'x' by {
        if j < i {
            assert(t[j] == a[j]);
            assert(is_digit(a[j]));
        } else {
            assert(t[j] == b[j - i - 1]);
            assert(is_digit(b[j - i - 1]));
        }
    }
    assert(single_x_at(t, i));
    let k = choose|k: int| single_x_at(t, k);
    assert(k == i);
    assert(t.take(i) =~= a);
    assert(t.skip(i + 1) =~= b);
    assert(is_digit(a[0]) && is_digit(b[0]));
}

/// Reading back the text of a size gives a size with the same width and
/// height (a custom size with a preset's dimensions reads back as that
/// preset).
pub proof fn lemma_size_text_round_trip(s: ImageSize)
    ensures
        size_from_text(size_text(s)) matches Some(t) && size_dimensions(t) == size_dimensions(s),
{
    let (w, h) = size_dimensions(s);
    let t = size_text(s);
    lemma_custom_size_text(w, h);
    lemma_decimal_text_digits(w as nat);
    assert(is_digit(t[0]));
    reveal_strlit("square");
    reveal_strlit("square1024");
    reveal_strlit("portrait");
    reveal_strlit("landscape");
    reveal_strlit("1024x1024");
    reveal_strlit("1024x1536");
    reveal_strlit("1536x1024");
    reveal_strlit("x");
    assert("square"@[0] == 's' && "square1024"@[0] == 's' && "portrait"@[0] == 'p' && "landscape"@[0] == 'l');
    reveal_with_fuel(decimal_text, 5);
    assert(decimal_text(1024) =~= seq!['1', '0', '2', '4']);
    assert(decimal_text(1536) =~= seq!['1', '5', '3', '6']);
    lemma_custom_size_text(1024, 1024);
    lemma_custom_size_text(1024, 1536);
    lemma_custom_size_text(1536, 1024);
    assert("1024x1024"@ =~= decimal_text(1024) + "x"@ + decimal_text(1024));
    assert("1024x1536"@ =~= decimal_text(1024) + "x"@ + decimal_text(1536));
    assert("1536x1024"@ =~= decimal_text(1536) + "x"@ + decimal_text(1024));
}

} // verus!

verus! {

/// Image style presets.
#[derive(Debug, Clone, Copy, PartialEq, Eq, Structural)]
pub enum ImageStyle {
    /// Vivid, colorful style
    Vivid,
    /// Natural, realistic style
    Natural,
    /// Photorealistic rendering
    Photorealistic,
    /// Artistic, creative style
    Artistic,
}

impl Default for ImageStyle {
    /// The vivid style.
    fn default() -> (r: Self)
        ensures
            r == ImageStyle::Vivid,
    {
        ImageStyle::Vivid
    }
}

/// The style named by lower-case text `s`, if any.
pub open spec fn style_from_text(s: Seq<char>) -> Option<ImageStyle> {
    if s == "vivid"@ {
        Some(ImageStyle::Vivid)
    } else if s == "natural"@ {
        Some(ImageStyle::Natural)
    } else if s == "photorealistic"@ || s == "photo"@ {
        Some(ImageStyle::Photorealistic)
    } else if s == "artistic"@ || s == "art"@ {
        Some(ImageStyle::Artistic)
    } else {
        None
    }
}

/// The text of a style.
pub open spec fn style_text(s: ImageStyle) -> Seq<char> {
    match s {
        ImageStyle::Vivid => "vivid"@,
        ImageStyle::Natural => "natural"@,
        ImageStyle::Photorealistic => "photorealistic"@,
        ImageStyle::Artistic => "artistic"@,
    }
}

/// The prompt modifier of a style.
pub open spec fn style_modifier(s: ImageStyle) -> Seq<char> {
    match s {
        ImageStyle::Vivid => "vibrant colors, high contrast, dynamic"@,
        ImageStyle::Natural => "natural lighting, realistic colors"@,
        ImageStyle::Photorealistic => "photorealistic, 4K, detailed, professional photography"@,
        ImageStyle::Artistic => "artistic, creative, stylized"@,
    }
}

impl ImageStyle {
    /// Parse a style from text that is already in lower case.
    pub fn parse_lowercase(s: &str) -> (r: Option<ImageStyle>)
        ensures
            r == style_from_text(s@),
    {
        if str_eq(s, "vivid") {
            Some(ImageStyle::Vivid)
        } else if str_eq(s, "natural") {
            Some(ImageStyle::Natural)
        } else if str_eq(s, "photorealistic") || str_eq(s, "photo") {
            Some(ImageStyle::Photorealistic)
        } else if str_eq(s, "artistic") || str_eq(s, "art") {
            Some(ImageStyle::Artistic)
        } else {
            None
        }
    }

    /// Parse from string (case-insensitive).
    pub fn parse(s: &str) -> (r: Option<ImageStyle>)
        ensures
            r == style_from_text(lowercase_of(s@)),
            is_ascii_text(s@) ==> r == style_from_text(s@.map_values(|c: char| ascii_lower(c))),
    {
        let lower = to_lowercase(s);
        ImageStyle::parse_lowercase(lower.as_str())
    }

    /// Get style description for prompt enhancement.
    pub fn prompt_modifier(&self) -> (r: &'static str)
        ensures
            r@ == style_modifier(*self),
    {
        match self {
            ImageStyle::Vivid => "vibrant colors, high contrast, dynamic",
            ImageStyle::Natural => "natural lighting, realistic colors",
            ImageStyle::Photorealistic => "photorealistic, 4K, detailed, professional photography",
            ImageStyle::Artistic => "artistic, creative, stylized",
        }
    }

    /// The text of the style.
    pub fn as_str(&self) -> (r: &'static str)
        ensures
            r@ == style_text(*self),
    {
        match self {
            ImageStyle::Vivid => "vivid",
            ImageStyle::Natural => "natural",
            ImageStyle::Photorealistic => "photorealistic",
            ImageStyle::Artistic => "artistic",
        }
    }
}

/// Parsing the text of a style gives that style back.
pub proof fn lemma_style_text_round_trip(s: ImageStyle)
    ensures
        style_from_text(style_text(s)) == Some(s),
{
    reveal_strlit("vivid");
    reveal_strlit("natural");
    reveal_strlit("photorealistic");
    reveal_strlit("photo");
    reveal_strlit("artistic");
    reveal_strlit("art");
    assert("vivid"@[0] == 'v');
    assert("natural"@[0] == 'n');
    assert("photorealistic"@[0] == 'p');
    assert("artistic"@[0] == 'a');
}

/// Image output format.
#[derive(Debug, Clone, Copy, PartialEq, Eq, Structural)]
pub enum ImageFormat {
    /// PNG format (lossless)
    Png,
    /// JPEG format (lossy, smaller)
    Jpeg,
    /// WebP format (modern, efficient)
    WebP,
}

impl Default for ImageFormat {
    /// The PNG format.
    fn default() -> (r: Self)
        ensures
            r == ImageFormat::Png,
    {
        ImageFormat::Png
    }
}

/// The file extension of a format.
pub open spec fn format_extension(f: ImageFormat) -> Seq<char> {
    match f {
        ImageFormat::Png => "png"@,
        ImageFormat::Jpeg => "jpg"@,
        ImageFormat::WebP => "webp"@,
    }
}

/// The MIME type of a format.
pub open spec fn format_mime(f: ImageFormat) -> Seq<char> {
    match f {
        ImageFormat::Png => "image/png"@,
        ImageFormat::Jpeg => "image/jpeg"@,
        ImageFormat::WebP => "image/webp"@,
    }
}

/// The format named by lower-case text `s` (a name or an extension), if any.
pub open spec fn format_from_text(s: Seq<char>) -> Option<ImageFormat> {
    if s == "png"@ {
        Some(ImageFormat::Png)
    } else if s == "jpg"@ || s == "jpeg"@ {
        Some(ImageFormat::Jpeg)
    } else if s == "webp"@ {
        Some(ImageFormat::WebP)
    } else {
        None
    }
}

/// What `std::path::Path::extension` gives for a path, as text (a path given
/// as a `str` is valid UTF-8, so its extension is too). It depends on the
/// target the crate is built for: on Windows `\` also separates components,
/// on Unix it does not; within one build it is a function of the text. The
/// name is for whichever target the crate is built for; it is built and
/// tested here on Linux, where only `/` separates.
pub uninterp spec fn path_extension(path: Seq<char>) -> Option<Seq<char>>;

/// Calls `std::path::Path::extension` on the path.
/// The contract claims only that the extension is a function of the path text (`path_extension`).
#[verifier::external_body]
pub(crate) fn extension_of(path: &str) -> (r: Option<String>)
    ensures
        match r {
            Some(e) => path_extension(path@) == Some(e@),
            None => path_extension(path@).is_none(),
        },
{
    match std::path::Path::new(path).extension() {
        Some(e) => match e.to_str() {
            Some(t) => Some(t.to_string()),
            None => None,
        },
        None => None,
    }
}

impl ImageFormat {
    /// Get file extension for this format.
    pub fn extension(&self) -> (r: &'static str)
        ensures
            r@ == format_extension(*self),
    {
        match self {
            ImageFormat::Png => "png",
            ImageFormat::Jpeg => "jpg",
            ImageFormat::WebP => "webp",
        }
    }

    /// Get MIME type for this format.
    pub fn mime_type(&self) -> (r: &'static str)
        ensures
            r@ == format_mime(*self),
    {
        match self {
            ImageFormat::Png => "image/png",
            ImageFormat::Jpeg => "image/jpeg",
            ImageFormat::WebP => "image/webp",
        }
    }

    /// Parse a format from text that is already in lower case.
    pub fn parse_lowercase(s: &str) -> (r: Option<ImageFormat>)
        ensures
            r == format_from_text(s@),
    {
        if str_eq(s, "png") {
            Some(ImageFormat::Png)
        } else if str_eq(s, "jpg") || str_eq(s, "jpeg") {
            Some(ImageFormat::Jpeg)
        } else if str_eq(s, "webp") {
            Some(ImageFormat::WebP)
        } else {
            None
        }
    }

    /// Parse from string or file extension (case-insensitive).
    pub fn parse(s: &str) -> (r: Option<ImageFormat>)
        ensures
            r == format_from_text(lowercase_of(s@)),
            is_ascii_text(s@) ==> r == format_from_text(s@.map_values(|c: char| ascii_lower(c))),
    {
        let lower = to_lowercase(s);
        ImageFormat::parse_lowercase(lower.as_str())
    }

    /// Detect format from the extension of a file path.
    pub fn from_path(path: &str) -> (r: Option<ImageFormat>)
        ensures
            r == (match path_extension(path@) {
                Some(e) => format_from_text(lowercase_of(e)),
                None => None,
            }),
    {
        match extension_of(path) {
            Some(e) => ImageFormat::parse(e.as_str()),
            None => None,
        }
    }

    /// The text of the format: its extension.
    pub fn to_string(&self) -> (r: String)
        ensures
            r@ == format_extension(*self),
    {
        owned(self.extension())
    }
}

/// Parsing the extension of a format gives that format back.
pub proof fn lemma_format_extension_round_trip(f: ImageFormat)
    ensures
        format_from_text(format_extension(f)) == Some(f),
{
    reveal_strlit("png");
    reveal_strlit("jpg");
    reveal_strlit("jpeg");
    reveal_strlit("webp");
    assert("png"@[0] == 'p');
    assert("jpg"@[0] == 'j');
    assert("webp"@[0] == 'w');
}

/// The default model of image requests.
pub open spec fn default_model_text() -> Seq<char> {
    "google/gemini-2.0-flash-exp:image"@
}

/// The default model of image requests.
pub fn default_model() -> (r: String)
    ensures
        r@ == default_model_text(),
{
    owned("google/gemini-2.0-flash-exp:image")
}

/// Request for text-to-image generation.
#[derive(Debug, Clone)]
pub struct ImageRequest {
    /// Text description of the image to generate
    pub prompt: String,
    /// Model to use for generation
    pub model: String,
    /// Desired image size
    pub size: ImageSize,
    /// Image style
    pub style: Option<ImageStyle>,
    /// Negative prompt (what to avoid)
    pub negative_prompt: Option<String>,
    /// Seed for reproducibility
    pub seed: Option<u64>,
}

/// The prompt of a request with its style modifier and what to avoid.
pub open spec fn built_prompt(r: ImageRequest) -> Seq<char> {
    let with_style = match r.style {
        Some(st) => r.prompt@ + ", "@ + style_modifier(st),
        None => r.prompt@,
    };
    match r.negative_prompt {
        Some(n) => with_style + ". Avoid: "@ + n@,
        None => with_style,
    }
}

impl ImageRequest {
    /// Create a new image request with the given prompt.
    pub fn new(prompt: String) -> (r: ImageRequest)
        ensures
            r.prompt == prompt,
            r.model@ == default_model_text(),
            r.size == ImageSize::Square1024,
            r.style.is_none(),
            r.negative_prompt.is_none(),
            r.seed.is_none(),
    {
        ImageRequest {
            prompt,
            model: default_model(),
            size: ImageSize::Square1024,
            style: None,
            negative_prompt: None,
            seed: None,
        }
    }

    /// Set the model.
    pub fn with_model(self, model: String) -> (r: ImageRequest)
        ensures
            r == (ImageRequest { model: model, ..self }),
    {
        ImageRequest { model, ..self }
    }

    /// Set the image size.
    pub fn with_size(self, size: ImageSize) -> (r: ImageRequest)
        ensures
            r == (ImageRequest { size: size, ..self }),
    {
        ImageRequest { size, ..self }
    }

    /// Set the image style.
    pub fn with_style(self, style: ImageStyle) -> (r: ImageRequest)
        ensures
            r == (ImageRequest { style: Some(style), ..self }),
    {
        ImageRequest { style: Some(style), ..self }
    }

    /// Set the negative prompt.
    pub fn with_negative_prompt(self, negative: String) -> (r: ImageRequest)
        ensures
            r == (ImageRequest { negative_prompt: Some(negative), ..self }),
    {
        ImageRequest { negative_prompt: Some(negative), ..self }
    }

    /// Set the seed for reproducibility.
    pub fn with_seed(self, seed: u64) -> (r: ImageRequest)
        ensures
            r == (ImageRequest { seed: Some(seed), ..self }),
    {
        ImageRequest { seed: Some(seed), ..self }
    }

    /// Build the enhanced prompt with style modifiers.
    pub fn build_prompt(&self) -> (r: String)
        ensures
            r@ == built_prompt(*self),
    {
        let mut prompt = String::new();
        push_str(&mut prompt, self.prompt.as_str());
        if let Some(style) = &self.style {
            push_str(&mut prompt, ", ");
            push_str(&mut prompt, style.prompt_modifier());
        }
        if let Some(negative) = &self.negative_prompt {
            push_str(&mut prompt, ". Avoid: ");
            push_str(&mut prompt, negative.as_str());
        }
        assert(prompt@ =~= built_prompt(*self));
        prompt
    }
}

/// Declares `std::path::PathBuf` so that requests can carry file paths.
#[verifier::external_type_specification]
#[verifier::external_body]
pub struct ExPathBuf(std::path::PathBuf);

/// The default upscale factor.
pub fn default_scale() -> (r: u32)
    ensures
        r == 2,
{
    2
}

/// The upscale factor that a requested scale comes to: the factor is 2 or 4,
/// so a scale of 2 or less (1 among them) gives 2 and a larger one (3 among
/// them) gives 4.
pub open spec fn upscale_factor(scale: u32) -> u32 {
    if scale <= 2 { 2 } else { 4 }
}

/// Request for image upscaling.
#[derive(Debug)]
pub struct UpscaleRequest {
    /// Path to the input image
    pub input_image: std::path::PathBuf,
    /// Scale factor (2 or 4)
    pub scale: u32,
    /// Model to use for upscaling (if available)
    pub model: Option<String>,
}

impl UpscaleRequest {
    /// Create a new upscale request.
    pub fn new(input_image: std::path::PathBuf) -> (r: UpscaleRequest)
        ensures
            r.input_image == input_image,
            r.scale == 2,
            r.model.is_none(),
    {
        UpscaleRequest { input_image, scale: default_scale(), model: None }
    }

    /// Set the scale factor: 2 for a scale of 2 or less, 4 for a larger one.
    pub fn with_scale(self, scale: u32) -> (r: UpscaleRequest)
        ensures
            r == (UpscaleRequest { scale: upscale_factor(scale), ..self }),
            r.scale == 2 || r.scale == 4,
    {
        let factor: u32 = if scale <= 2 { 2 } else { 4 };
        UpscaleRequest { scale: factor, ..self }
    }

    /// Set the model.
    pub fn with_model(self, model: String) -> (r: UpscaleRequest)
        ensures
            r == (UpscaleRequest { model: Some(model), ..self }),
    {
        UpscaleRequest { model: Some(model), ..self }
    }
}

/// Request for inpainting (masked image editing).
#[derive(Debug)]
pub struct InpaintRequest {
    /// Path to the input image
    pub input_image: std::path::PathBuf,
    /// Path to the mask image (white = edit, black = keep)
    pub mask_image: std::path::PathBuf,
    /// Text description of what to fill in the masked area
    pub prompt: String,
    /// Model to use for inpainting
    pub model: String,
}

impl InpaintRequest {
    /// Create a new inpaint request.
    pub fn new(input_image: std::path::PathBuf, mask_image: std::path::PathBuf, prompt: String) -> (r: InpaintRequest)
        ensures
            r.input_image == input_image,
            r.mask_image == mask_image,
            r.prompt == prompt,
            r.model@ == default_model_text(),
    {
        InpaintRequest { input_image, mask_image, prompt, model: default_model() }
    }

    /// Set the model.
    pub fn with_model(self, model: String) -> (r: InpaintRequest)
        ensures
            r == (InpaintRequest { model: model, ..self }),
    {
        InpaintRequest { model, ..self }
    }
}

/// Response from image generation.
#[derive(Debug, Clone)]
pub struct ImageResponse {
    /// Raw image bytes
    pub image_data: Vec<u8>,
    /// Image format
    pub format: ImageFormat,
    /// Model's interpretation of the prompt (if available)
    pub revised_prompt: Option<String>,
    /// Model that generated the image
    pub model_used: String,
    /// Generation time in milliseconds
    pub generation_time_ms: u64,
}

impl ImageResponse {
    /// Create a new image response.
    pub fn new(image_data: Vec<u8>, format: ImageFormat, model_used: String, generation_time_ms: u64) -> (r: ImageResponse)
        ensures
            r.image_data == image_data,
            r.format == format,
            r.revised_prompt.is_none(),
            r.model_used == model_used,
            r.generation_time_ms == generation_time_ms,
    {
        ImageResponse { image_data, format, revised_prompt: None, model_used, generation_time_ms }
    }

    /// Set the revised prompt.
    pub fn with_revised_prompt(self, prompt: String) -> (r: ImageResponse)
        ensures
            r == (ImageResponse { revised_prompt: Some(prompt), ..self }),
    {
        ImageResponse { revised_prompt: Some(prompt), ..self }
    }

    /// Get the image size in bytes.
    pub fn size_bytes(&self) -> (r: usize)
        ensures
            r == self.image_data@.len(),
    {
        self.image_data.len()
    }
}

} // verus!
