use demiarch_core::backoff::BACKOFF_BASE_MS;
use demiarch_core::image::client::{
    calculate_backoff, calculate_backoff_with, detect_image_format, detect_image_mime_type,
    extract_image_from_response, image_data_url, image_error_for_status, inpaint_prompt, is_retryable_error,
    is_valid_image_data, parse_image_data, transform_prompt, ChatMessageContent, ContentPart, ImageClientBuilder,
    ImageError,
};
use demiarch_core::image::models::{fallback_model_ids, ImageModel, ModelCapabilities};
use demiarch_core::image::operations::{
    after_failed_attempt, check_image_to_image, check_inpainting, fallback_candidates, fallback_exhausted,
    generate_output_path, local_upscale, output_file_name, should_try_fallback, upscale_prompt,
    upscale_response, uses_model_upscaler, ImageRetryStep,
};
use demiarch_core::image::types::{ImageFormat, ImageRequest, ImageSize, ImageStyle, UpscaleRequest};

fn base64_encode(data: &[u8]) -> String {
    base64::Engine::encode(&base64::engine::general_purpose::STANDARD, data)
}

const PNG_BYTES: [u8; 8] = [0x89, 0x50, 0x4E, 0x47, 0x0D, 0x0A, 0x1A, 0x0A];

fn webp_bytes() -> Vec<u8> {
    let mut webp_bytes = vec![0u8; 12];
    webp_bytes[0..4].copy_from_slice(b"RIFF");
    webp_bytes[8..12].copy_from_slice(b"WEBP");
    webp_bytes
}

#[test]
fn test_image_size_dimensions() {
    assert_eq!(ImageSize::Square1024.dimensions(), (1024, 1024));
    assert_eq!(ImageSize::Portrait.dimensions(), (1024, 1536));
    assert_eq!(ImageSize::Landscape.dimensions(), (1536, 1024));
    assert_eq!(ImageSize::Custom(800, 600).dimensions(), (800, 600));
}

#[test]
fn test_image_size_from_str() {
    assert_eq!(ImageSize::parse("square"), Some(ImageSize::Square1024));
    assert_eq!(ImageSize::parse("portrait"), Some(ImageSize::Portrait));
    assert_eq!(ImageSize::parse("landscape"), Some(ImageSize::Landscape));
    assert_eq!(ImageSize::parse("800x600"), Some(ImageSize::Custom(800, 600)));
    assert_eq!(ImageSize::parse("invalid"), None);
}

#[test]
fn test_image_style_from_str() {
    assert_eq!(ImageStyle::parse("vivid"), Some(ImageStyle::Vivid));
    assert_eq!(ImageStyle::parse("natural"), Some(ImageStyle::Natural));
    assert_eq!(ImageStyle::parse("photo"), Some(ImageStyle::Photorealistic));
    assert_eq!(ImageStyle::parse("art"), Some(ImageStyle::Artistic));
    assert_eq!(ImageStyle::parse("invalid"), None);
}

#[test]
fn test_image_format() {
    assert_eq!(ImageFormat::Png.extension(), "png");
    assert_eq!(ImageFormat::Jpeg.extension(), "jpg");
    assert_eq!(ImageFormat::WebP.extension(), "webp");

    assert_eq!(ImageFormat::parse("png"), Some(ImageFormat::Png));
    assert_eq!(ImageFormat::parse("jpeg"), Some(ImageFormat::Jpeg));
    assert_eq!(ImageFormat::parse("webp"), Some(ImageFormat::WebP));
}

#[test]
fn test_image_request_builder() {
    let request = ImageRequest::new("A sunset over mountains".to_string())
        .with_model("test-model".to_string())
        .with_size(ImageSize::Landscape)
        .with_style(ImageStyle::Vivid)
        .with_negative_prompt("blurry".to_string())
        .with_seed(42);

    assert_eq!(request.prompt, "A sunset over mountains");
    assert_eq!(request.model, "test-model");
    assert_eq!(request.size, ImageSize::Landscape);
    assert_eq!(request.style, Some(ImageStyle::Vivid));
    assert_eq!(request.negative_prompt, Some("blurry".to_string()));
    assert_eq!(request.seed, Some(42));
}

#[test]
fn test_build_prompt_with_style() {
    let request = ImageRequest::new("A cat".to_string()).with_style(ImageStyle::Vivid);

    let prompt = request.build_prompt();
    assert!(prompt.contains("A cat"));
    assert!(prompt.contains("vibrant colors"));
}

#[test]
fn test_builder_requires_api_key() {
    let result = ImageClientBuilder::new().settings();
    assert!(result.is_err());
}

#[test]
fn test_builder_with_api_key() {
    let result = ImageClientBuilder::new().api_key("test-key".to_string()).settings();
    assert!(result.is_ok());
}

#[test]
fn builder_settings_take_defaults() {
    let settings = ImageClientBuilder::new().api_key("k".to_string()).settings().unwrap();
    assert_eq!(settings.base_url, "https://openrouter.ai/api/v1");
    assert_eq!(settings.timeout_secs, 120);
    let settings = ImageClientBuilder::new()
        .api_key("k".to_string())
        .base_url("https://example.com".to_string())
        .timeout_secs(5)
        .settings()
        .unwrap();
    assert_eq!(settings.base_url, "https://example.com");
    assert_eq!(settings.timeout_secs, 5);
}

#[test]
fn test_detect_image_format() {
    assert!(matches!(detect_image_format(&PNG_BYTES), ImageFormat::Png));

    let jpeg_bytes = [0xFF, 0xD8, 0xFF, 0xE0];
    assert!(matches!(detect_image_format(&jpeg_bytes), ImageFormat::Jpeg));

    assert!(matches!(detect_image_format(&webp_bytes()), ImageFormat::WebP));
}

#[test]
fn test_is_valid_image_data() {
    assert!(is_valid_image_data(&PNG_BYTES));

    let random_bytes = [0x00, 0x01, 0x02, 0x03];
    assert!(!is_valid_image_data(&random_bytes));
}

#[test]
fn mime_types_of_image_bytes() {
    assert_eq!(detect_image_mime_type(&PNG_BYTES), "image/png");
    assert_eq!(detect_image_mime_type(&[0xFF, 0xD8, 0xFF]), "image/jpeg");
    assert_eq!(detect_image_mime_type(&webp_bytes()), "image/webp");
    assert_eq!(detect_image_mime_type(&[1, 2, 3]), "application/octet-stream");
}

#[test]
fn client_test_calculate_backoff() {
    let delay1 = calculate_backoff(1);
    assert!(delay1 >= BACKOFF_BASE_MS);

    let delay2 = calculate_backoff(2);
    assert!(delay2 >= BACKOFF_BASE_MS * 2);
}

#[test]
fn backoff_with_given_jitter() {
    assert_eq!(calculate_backoff_with(1, 0), 1000);
    assert_eq!(calculate_backoff_with(1, 150), 1050);
    assert_eq!(calculate_backoff_with(3, 999), 4000 + 999 % 400);
    let d = calculate_backoff(3);
    assert!((4000..4400).contains(&d));
}

#[test]
fn retryable_errors() {
    assert!(is_retryable_error(&ImageError::NetworkError("timeout".to_string())));
    assert!(is_retryable_error(&ImageError::GenerationError("Rate limited: slow down".to_string())));
    assert!(is_retryable_error(&ImageError::GenerationError("Server error (500 Internal Server Error): x".to_string())));
    assert!(!is_retryable_error(&ImageError::GenerationError("Bad request: x".to_string())));
    assert!(!is_retryable_error(&ImageError::ApiKeyMissing));
}

#[test]
fn base64_round_trip_through_data_urls() {
    let url = image_data_url(&PNG_BYTES);
    assert!(url.starts_with("data:image/png;base64,"));
    let parsed = parse_image_data(&url).unwrap();
    assert_eq!(parsed.image_data, PNG_BYTES.to_vec());
    assert!(matches!(parsed.format, ImageFormat::Png));
}

#[test]
fn parse_image_data_reads_header_and_raw_base64() {
    let encoded = base64_encode(&[1, 2, 3]);
    let parsed = parse_image_data(&format!("data:image/webp;base64,{}", encoded)).unwrap();
    assert!(matches!(parsed.format, ImageFormat::WebP));
    assert_eq!(parsed.image_data, vec![1, 2, 3]);

    let raw = parse_image_data(&format!("  {}  ", base64_encode(&PNG_BYTES))).unwrap();
    assert!(matches!(raw.format, ImageFormat::Png));

    match parse_image_data("data:image/png;base64,@@@") {
        Err(ImageError::GenerationError(m)) => assert!(m.starts_with("Invalid base64: ")),
        other => panic!("unexpected {:?}", other.map(|p| p.image_data)),
    }
}

#[test]
fn extract_image_from_parts_and_text() {
    let none = extract_image_from_response(None);
    assert!(matches!(none, Err(ImageError::GenerationError(ref m)) if m == "No response choices"));

    let parts = ChatMessageContent::Parts(vec![
        ContentPart { part_type: "text".to_string(), image_url: None, data: None },
        ContentPart { part_type: "image_url".to_string(), image_url: Some(image_data_url(&PNG_BYTES)), data: None },
    ]);
    let got = extract_image_from_response(Some(Some(parts))).unwrap();
    assert_eq!(got.image_data, PNG_BYTES.to_vec());

    let text = ChatMessageContent::Simple(base64_encode(&PNG_BYTES));
    assert!(extract_image_from_response(Some(Some(text))).is_ok());

    let not_image = ChatMessageContent::Simple(base64_encode(&[1, 2, 3]));
    assert!(matches!(
        extract_image_from_response(Some(Some(not_image))),
        Err(ImageError::GenerationError(ref m)) if m == "No image data found in response"
    ));
}

#[test]
fn error_responses_by_status() {
    assert!(matches!(image_error_for_status(401, "x"), ImageError::ApiKeyMissing));
    assert!(matches!(image_error_for_status(404, "gone"), ImageError::ModelNotAvailable(ref m) if m == "Model not found: gone"));
    assert!(matches!(image_error_for_status(429, "later"), ImageError::GenerationError(ref m) if m == "Rate limited: later"));
    assert!(matches!(
        image_error_for_status(503, "down"),
        ImageError::GenerationError(ref m) if m == "Server error (503 Service Unavailable): down"
    ));
    assert!(matches!(
        image_error_for_status(418, "tea"),
        ImageError::GenerationError(ref m) if m == "HTTP error 418 I'm a teapot: tea"
    ));
}

#[test]
fn prompts_of_image_to_image_requests() {
    assert_eq!(transform_prompt("make it blue"), "Transform this image: make it blue");
    assert_eq!(
        inpaint_prompt("a cat"),
        "Inpaint the masked region with: a cat. The second image is a mask where white areas should be edited."
    );
}

#[test]
fn test_model_lookup() {
    let model = ImageModel::by_id("google/gemini-2.0-flash-exp:image");
    assert!(model.is_some());
    assert_eq!(model.unwrap().name, "Gemini 2.0 Flash (Image)");

    let model = ImageModel::by_id("nonexistent");
    assert!(model.is_none());
}

#[test]
fn test_default_model() {
    let model = ImageModel::default_text_to_image();
    assert!(model.supports_text_to_image());
}

#[test]
fn test_capability_filter() {
    let inpainting_models: Vec<_> = ImageModel::with_capability(|c| c.inpainting).into_iter().collect();
    assert!(!inpainting_models.is_empty());
    for model in inpainting_models {
        assert!(model.supports_inpainting());
    }
}

#[test]
fn test_capabilities() {
    let full = ModelCapabilities::full();
    assert!(full.text_to_image);
    assert!(full.image_to_image);
    assert!(full.upscaling);
    assert!(full.inpainting);

    let text_only = ModelCapabilities::text_only();
    assert!(text_only.text_to_image);
    assert!(!text_only.image_to_image);
    assert!(!text_only.upscaling);
    assert!(!text_only.inpainting);
}

#[test]
fn capability_filter_keeps_catalogue_order() {
    let ids: Vec<&str> = ImageModel::with_capability(|c| c.inpainting).iter().map(|m| m.id).collect();
    assert_eq!(ids, vec!["nano-banana-pro", "openai/dall-e-2"]);
    assert_eq!(fallback_model_ids(), vec!["nano-banana-pro", "openai/dall-e-3", "stabilityai/stable-diffusion-xl"]);
}

#[test]
fn test_should_try_fallback() {
    let model_error = ImageError::ModelNotAvailable("test".to_string());
    assert!(should_try_fallback(&model_error));

    let rate_limit = ImageError::GenerationError("Rate limited".to_string());
    assert!(should_try_fallback(&rate_limit));

    let other_error = ImageError::ReadError("test".to_string());
    assert!(!should_try_fallback(&other_error));
}

#[test]
fn fallbacks_skip_the_primary_model() {
    assert_eq!(fallback_candidates("openai/dall-e-3"), vec!["nano-banana-pro", "stabilityai/stable-diffusion-xl"]);
    assert_eq!(fallback_candidates("other").len(), 3);
    assert!(matches!(fallback_exhausted(None), ImageError::GenerationError(ref m) if m == "All models failed"));
}

#[test]
fn retry_steps_follow_the_error() {
    match after_failed_attempt(1, ImageError::NetworkError("x".to_string())) {
        ImageRetryStep::Backoff { delay_ms, retry, .. } => {
            assert!(retry);
            assert!((1000..1100).contains(&delay_ms));
        }
        other => panic!("unexpected {:?}", other),
    }
    match after_failed_attempt(3, ImageError::NetworkError("x".to_string())) {
        ImageRetryStep::Backoff { retry, .. } => assert!(!retry),
        other => panic!("unexpected {:?}", other),
    }
    assert!(matches!(after_failed_attempt(1, ImageError::ApiKeyMissing), ImageRetryStep::Fail(ImageError::ApiKeyMissing)));
}

#[test]
fn model_support_checks() {
    assert!(check_image_to_image("nano-banana-pro").is_ok());
    assert!(check_image_to_image("unknown/model").is_ok());
    match check_image_to_image("openai/dall-e-3") {
        Err(ImageError::ModelNotAvailable(m)) => {
            assert_eq!(m, "Model 'openai/dall-e-3' does not support image-to-image transformation")
        }
        other => panic!("unexpected {:?}", other),
    }
    assert!(check_inpainting("openai/dall-e-2").is_ok());
    assert!(check_inpainting("stabilityai/stable-diffusion-xl").is_err());
    assert!(uses_model_upscaler(&Some("nano-banana-pro".to_string())));
    assert!(!uses_model_upscaler(&Some("openai/dall-e-3".to_string())));
    assert!(!uses_model_upscaler(&None));
    assert_eq!(upscale_prompt(4), "Upscale this image by 4x, maintaining all details and enhancing quality");
}

#[test]
fn output_paths_name_the_format() {
    assert_eq!(output_file_name("20240101_120000", ImageFormat::Png), "image_20240101_120000.png");
    let path = std::path::PathBuf::from(generate_output_path("/tmp/images", ImageFormat::Png));
    assert!(path.to_string_lossy().ends_with(".png"));
    assert!(path.starts_with("/tmp/images"));
    let name = path.file_name().unwrap().to_string_lossy().into_owned();
    assert!(name.starts_with("image_") && name.len() == "image_20240101_120000.png".len());
}

#[test]
fn output_path_keeps_the_base_directory() {
    let p = generate_output_path("out/", ImageFormat::Jpeg);
    assert!(p.starts_with("out/image_") && p.ends_with(".jpg"));
    let p = generate_output_path("out", ImageFormat::WebP);
    assert!(p.starts_with("out/image_") && p.ends_with(".webp"));
    let p = generate_output_path("", ImageFormat::Png);
    assert!(p.starts_with("image_") && p.ends_with(".png"));
}

#[test]
fn local_upscale_refuses_undecodable_bytes() {
    match local_upscale(&[1, 2, 3], 2) {
        Err(ImageError::ReadError(m)) => assert!(m.starts_with("Failed to decode image: ")),
        other => panic!("unexpected {:?}", other.map(|r| r.image_data.len())),
    }
}

#[test]
fn local_upscale_doubles_a_png() {
    let mut png = Vec::new();
    let img = image::DynamicImage::new_rgb8(2, 3);
    img.write_to(&mut std::io::Cursor::new(&mut png), image::ImageFormat::Png).unwrap();
    let resp = local_upscale(&png, 2).unwrap();
    assert_eq!(resp.model_used, "local/lanczos3");
    let out = image::load_from_memory(&resp.image_data).unwrap();
    assert_eq!((out.width(), out.height()), (4, 6));
    // The header that the contract speaks of: signature, IHDR, width 4, height 6.
    assert_eq!(&resp.image_data[0..8], &[137, 80, 78, 71, 13, 10, 26, 10]);
    assert_eq!(&resp.image_data[8..16], &[0, 0, 0, 13, b'I', b'H', b'D', b'R']);
    assert_eq!(&resp.image_data[16..24], &[0, 0, 0, 4, 0, 0, 0, 6]);
}

#[test]
fn local_upscale_by_zero_fails_to_encode() {
    let mut png = Vec::new();
    let img = image::DynamicImage::new_rgb8(2, 3);
    img.write_to(&mut std::io::Cursor::new(&mut png), image::ImageFormat::Png).unwrap();
    match local_upscale(&png, 0) {
        Err(ImageError::SaveError(m)) => assert!(m.starts_with("Failed to encode image: ")),
        other => panic!("unexpected {:?}", other.map(|r| r.image_data.len())),
    }
}

#[test]
fn upscale_response_wraps_the_encoder_outcome() {
    let ok = upscale_response(Ok(vec![1, 2, 3]), 42).unwrap();
    assert_eq!(ok.image_data, vec![1, 2, 3]);
    assert_eq!(ok.format, ImageFormat::Png);
    assert_eq!(ok.model_used, "local/lanczos3");
    assert_eq!(ok.generation_time_ms, 42);
    assert!(ok.revised_prompt.is_none());
    match upscale_response(Err("boom".to_string()), 1) {
        Err(ImageError::SaveError(m)) => assert_eq!(m, "Failed to encode image: boom"),
        other => panic!("unexpected {:?}", other.map(|r| r.image_data.len())),
    }
}

#[test]
fn image_size_text_reads_back_with_same_dimensions() {
    let sizes = [
        ImageSize::Square1024,
        ImageSize::Portrait,
        ImageSize::Landscape,
        ImageSize::Custom(800, 600),
        ImageSize::Custom(1024, 1024),
        ImageSize::Custom(0, 4294967295),
    ];
    for s in sizes {
        let back = ImageSize::parse(&s.to_string()).unwrap();
        assert_eq!(back.dimensions(), s.dimensions());
    }
    assert_eq!(ImageSize::parse("1024x1024"), Some(ImageSize::Square1024));
}

#[test]
fn formats_from_path_extensions() {
    assert_eq!(ImageFormat::from_path("out/photo.JPEG"), Some(ImageFormat::Jpeg));
    assert_eq!(ImageFormat::from_path("a.b/pic.webp"), Some(ImageFormat::WebP));
    assert_eq!(ImageFormat::from_path("image.png"), Some(ImageFormat::Png));
    assert_eq!(ImageFormat::from_path("archive.tar"), None);
    assert_eq!(ImageFormat::from_path("noext"), None);
    assert_eq!(ImageFormat::Jpeg.mime_type(), "image/jpeg");
}

#[test]
fn upscale_scale_is_two_or_four() {
    let request = UpscaleRequest::new(std::path::PathBuf::from("in.png"));
    assert_eq!(request.scale, 2);
    let expected = [(0u32, 2u32), (1, 2), (2, 2), (3, 4), (4, 4), (9, 4)];
    for (asked, factor) in expected {
        let r = UpscaleRequest::new(std::path::PathBuf::from("in.png")).with_scale(asked);
        assert_eq!(r.scale, factor);
        assert_eq!(r.input_image, std::path::PathBuf::from("in.png"));
        assert!(r.model.is_none());
    }
}
