//! The per-file pipeline exercised step by step: loading, skipping,
//! fetch judgement, filename resolution, data-URL construction and the
//! record rewrite, mirroring one file's journey through the processor.

use screenshot_processor::codec;
use screenshot_processor::fetch::{evaluate_fetch, FetchEvent};
use screenshot_processor::media;
use screenshot_processor::pipeline;
use screenshot_processor::resolve::{resolve_image_filename, ResolvedName};
use screenshot_processor::FileProcessResult;

fn png_bytes() -> Vec<u8> {
    let mut b = vec![0x89u8, 0x50, 0x4E, 0x47, 0x0D, 0x0A, 0x1A, 0x0A];
    b.extend_from_slice(&[0x00, 0x00, 0x00, 0x0D, 0x49, 0x48, 0x44, 0x52, 0x01, 0x02, 0x03]);
    b
}

fn jpg_bytes() -> Vec<u8> {
    vec![0xFFu8, 0xD8, 0xFF, 0xE0, 0x00, 0x10, 0x4A, 0x46, 0x49, 0x46, 0x00, 0x01]
}

/// Runs the verified steps of one file whose download yielded `bytes`,
/// exactly as the surrounding program chains them.
fn run_pipeline(record_text: &str, file_name: &str, event: FetchEvent) -> (FileProcessResult, Option<String>, Option<String>) {
    let read: Result<String, String> = Ok(record_text.to_string());
    let mut record = match codec::load_record(file_name, read) {
        Ok(v) => v,
        Err(out) => return (out, None, None),
    };
    let url = match codec::extract_or_skip(&record, file_name) {
        Ok(u) => u,
        Err(out) => return (out, None, None),
    };
    let bytes = match evaluate_fetch(file_name, &url, event) {
        Ok(b) => b,
        Err(out) => return (out, None, None),
    };
    let stem = Some(file_name.trim_end_matches(".json").to_string());
    let image_name = match resolve_image_filename(&url, &stem) {
        ResolvedName::FromUrl(n) => n,
        ResolvedName::Fallback { name, .. } => name,
        ResolvedName::NoStem { parse_failed } => {
            return (pipeline::no_stem_outcome(file_name, "\"<path>\"", parse_failed), None, None)
        }
    };
    let data_url = media::image_data_url(&bytes);
    let serialized = match codec::rewrite_and_serialize(&mut record, data_url, file_name) {
        Ok(s) => s,
        Err(out) => return (out, None, None),
    };
    let out = pipeline::record_write_outcome(file_name, "\"<path>\"", Ok(()));
    (out, Some(image_name), Some(serialized))
}

fn response(status: u16, body: Vec<u8>) -> FetchEvent {
    FetchEvent::Response { status, body: Ok(body) }
}

#[test]
fn test_process_json_file_success() {
    let record = "{\"id\": \"test-id\", \"screenshot\": \"http://127.0.0.1/test_image.png\"}";
    let (out, image_name, serialized) = run_pipeline(record, "test.json", response(200, png_bytes()));
    assert!(matches!(out, FileProcessResult::Success), "Expected Success but got: {:?}", out);
    assert_eq!(image_name.unwrap(), "test_image.png");
    let rewritten: serde_json::Value = serde_json::from_str(&serialized.unwrap()).unwrap();
    let data_url = rewritten.get("screenshot").and_then(|v| v.as_str()).unwrap();
    assert!(
        data_url.starts_with("data:image/png;base64,"),
        "Screenshot should be a PNG data URL"
    );
    let payload = &data_url["data:image/png;base64,".len()..];
    let decoded = base64::Engine::decode(&base64::engine::general_purpose::STANDARD, payload).unwrap();
    assert_eq!(decoded, png_bytes(), "Decoded image should match original");
    assert_eq!(rewritten.get("id").and_then(|v| v.as_str()), Some("test-id"));
}

#[test]
fn test_process_json_file_missing_screenshot() {
    let record = "{\"id\": \"test-id\", \"data\": \"some data\"}";
    let (out, _, _) = run_pipeline(record, "test_no_screenshot.json", response(200, png_bytes()));
    assert!(matches!(out, FileProcessResult::Skipped(_)), "Expected Skipped but got: {:?}", out);
}

#[test]
fn test_process_json_file_empty_screenshot() {
    let record = "{\"id\": \"test-id\", \"screenshot\": \"\"}";
    let (out, _, _) = run_pipeline(record, "test_empty_screenshot.json", response(200, png_bytes()));
    assert!(
        matches!(out, FileProcessResult::Skipped(_)),
        "Expected Skipped for empty URL but got: {:?}",
        out
    );
}

#[test]
fn test_process_json_file_null_screenshot() {
    let record = "{\"id\": \"test-id\", \"screenshot\": \"null\"}";
    let (out, _, _) = run_pipeline(record, "test_null_screenshot.json", response(200, png_bytes()));
    assert!(
        matches!(out, FileProcessResult::Skipped(_)),
        "Expected Skipped for 'null' URL but got: {:?}",
        out
    );
}

#[test]
fn test_process_json_file_invalid_url() {
    let record = "{\"id\": \"test-id\", \"screenshot\": \"not_a_valid_url\"}";
    let event = FetchEvent::TransportError("builder error".to_string());
    let (out, _, _) = run_pipeline(record, "test_invalid_url.json", event);
    assert!(
        matches!(out, FileProcessResult::Failed(_, _)),
        "Expected Failed for invalid URL but got: {:?}",
        out
    );
}

#[test]
fn test_process_json_file_server_error() {
    let record = "{\"id\": \"test-id\", \"screenshot\": \"http://127.0.0.1/non_existent.png\"}";
    let (out, _, _) = run_pipeline(record, "test_server_error.json", response(404, Vec::new()));
    match &out {
        FileProcessResult::Failed(name, reason) => {
            assert_eq!(name, "test_server_error.json");
            assert_eq!(
                reason,
                "HTTP error downloading http://127.0.0.1/non_existent.png: status 404"
            );
        }
        other => panic!("Expected Failed for server error but got: {:?}", other),
    }
}

#[test]
fn test_process_json_file_different_image_types() {
    let record_png = "{\"screenshot\": \"http://127.0.0.1/test_png.png\"}";
    let (out, name, serialized) = run_pipeline(record_png, "test_png.json", response(200, png_bytes()));
    assert!(
        matches!(out, FileProcessResult::Success),
        "Expected Success for PNG processing but got: {:?}",
        out
    );
    assert_eq!(name.unwrap(), "test_png.png");
    let v: serde_json::Value = serde_json::from_str(&serialized.unwrap()).unwrap();
    assert!(
        v.get("screenshot").and_then(|s| s.as_str()).unwrap().starts_with("data:image/png;base64,"),
        "Screenshot should be a PNG data URL"
    );

    let record_jpg = "{\"screenshot\": \"http://127.0.0.1/test_jpg.jpg\"}";
    let (out, name, serialized) = run_pipeline(record_jpg, "test_jpg.json", response(200, jpg_bytes()));
    assert!(
        matches!(out, FileProcessResult::Success),
        "Expected Success for JPEG processing but got: {:?}",
        out
    );
    assert_eq!(name.unwrap(), "test_jpg.jpg");
    let v: serde_json::Value = serde_json::from_str(&serialized.unwrap()).unwrap();
    assert!(
        v.get("screenshot").and_then(|s| s.as_str()).unwrap().starts_with("data:image/jpeg;base64,"),
        "Screenshot should be a JPEG data URL"
    );
}

#[test]
fn test_url_filename_extraction() {
    let record = "{\"screenshot\": \"http://127.0.0.1/path/to/complex_filename.png\"}";
    let (out, name, _) = run_pipeline(record, "test_complex_path.json", response(200, png_bytes()));
    assert!(matches!(out, FileProcessResult::Success), "Expected Success but got: {:?}", out);
    assert_eq!(
        name.unwrap(),
        "complex_filename.png",
        "Image file should exist with correct name extracted from URL"
    );
}

#[test]
fn test_url_with_query_params() {
    let record =
        "{\"screenshot\": \"http://127.0.0.1/image_with_params.png?width=800&height=600&token=abc123\"}";
    let (out, name, _) = run_pipeline(record, "test_query_params.json", response(200, png_bytes()));
    assert!(matches!(out, FileProcessResult::Success), "Expected Success but got: {:?}", out);
    assert_eq!(name.unwrap(), "image_with_params.png");
}

#[test]
fn test_malformed_json() {
    let record = "{ \"id\": \"test-id\", \"screenshot\": \"http://example.com/image.png\" ";
    let (out, _, _) = run_pipeline(record, "malformed.json", response(200, png_bytes()));
    match &out {
        FileProcessResult::Failed(_, reason) => {
            assert!(
                reason.contains("Failed to parse JSON"),
                "Error should indicate JSON parsing issue, but got: {}",
                reason
            );
        }
        other => panic!("Expected Failed for malformed JSON but got: {:?}", other),
    }
}

#[test]
fn test_non_utf8_filenames() {
    let name = "test_\u{7279}\u{6b8a}\u{5b57}\u{7b26}.json";
    assert!(screenshot_processor::strings::has_json_ext(name));
    let record = "{\"screenshot\": \"http://127.0.0.1/image.png\"}";
    let (out, image_name, _) = run_pipeline(record, name, response(200, png_bytes()));
    assert!(matches!(out, FileProcessResult::Success), "Expected Success but got: {:?}", out);
    assert_eq!(image_name.unwrap(), "image.png");
}
