//! Tests for the upload and OCR endpoint types.

use paperless_ngx_ocr2::auth::AuthHandler;
use paperless_ngx_ocr2::client::build_url;
use paperless_ngx_ocr2::files::{FileUploadRequest, FileUploadResponse};
use paperless_ngx_ocr2::ocr_api::{Dimensions, OCRRequest, OCRResponse, Page, UsageInfo};
use paperless_ngx_ocr2::APICredentials;

#[test]
fn test_file_upload_request_new() {
    let file_data = b"Test file content".to_vec();
    let filename = "test.pdf".to_string();

    let request = FileUploadRequest::new(file_data.clone(), filename.clone());

    assert_eq!(request.file_data, file_data);
    assert_eq!(request.filename, filename);
    assert_eq!(request.purpose, "ocr");
}

#[test]
fn test_file_upload_request_validation() {
    // Valid request
    let valid_request = FileUploadRequest {
        file_data: b"Valid data".to_vec(),
        filename: "test.pdf".to_string(),
        purpose: "ocr".to_string(),
    };
    assert!(valid_request.validate().is_ok());

    // Empty file data
    let empty_data_request = FileUploadRequest {
        file_data: vec![],
        filename: "test.pdf".to_string(),
        purpose: "ocr".to_string(),
    };
    assert!(empty_data_request.validate().is_err());

    // Empty filename
    let empty_filename_request = FileUploadRequest {
        file_data: b"Valid data".to_vec(),
        filename: "".to_string(),
        purpose: "ocr".to_string(),
    };
    assert!(empty_filename_request.validate().is_err());

    // Invalid purpose
    let invalid_purpose_request = FileUploadRequest {
        file_data: b"Valid data".to_vec(),
        filename: "test.pdf".to_string(),
        purpose: "invalid".to_string(),
    };
    assert!(invalid_purpose_request.validate().is_err());
}

#[test]
fn test_file_upload_response_validation() {
    // Valid response
    let valid_response = FileUploadResponse {
        id: "file-123".to_string(),
        object: "file".to_string(),
        bytes: 1024,
        created_at: 1640995200,
        filename: "test.pdf".to_string(),
        purpose: "ocr".to_string(),
        status: Some("uploaded".to_string()),
    };
    assert!(valid_response.validate().is_ok());

    // Empty ID
    let empty_id_response = FileUploadResponse {
        id: "".to_string(),
        object: "file".to_string(),
        bytes: 1024,
        created_at: 1640995200,
        filename: "test.pdf".to_string(),
        purpose: "ocr".to_string(),
        status: None,
    };
    assert!(empty_id_response.validate().is_err());

    // Invalid object type
    let invalid_object_response = FileUploadResponse {
        id: "file-123".to_string(),
        object: "invalid".to_string(),
        bytes: 1024,
        created_at: 1640995200,
        filename: "test.pdf".to_string(),
        purpose: "ocr".to_string(),
        status: None,
    };
    assert!(invalid_object_response.validate().is_err());
}

#[test]
fn test_upload_response_rejects_bad_fields() {
    let base = FileUploadResponse {
        id: "file-123".to_string(),
        object: "file".to_string(),
        bytes: 1024,
        created_at: 1640995200,
        filename: "test.pdf".to_string(),
        purpose: "ocr".to_string(),
        status: None,
    };

    let bad_id = FileUploadResponse { id: "file 123!".to_string(), ..clone_response(&base) };
    assert!(bad_id.validate().is_err());

    let bad_bytes = FileUploadResponse { bytes: 0, ..clone_response(&base) };
    assert!(bad_bytes.validate().is_err());

    let bad_created = FileUploadResponse { created_at: 0, ..clone_response(&base) };
    assert!(bad_created.validate().is_err());

    // More than one hour in the future of any plausible clock.
    let far_future = FileUploadResponse { created_at: i64::MAX - 10, ..clone_response(&base) };
    assert!(far_future.validate().is_err());

    let bad_filename = FileUploadResponse {
        filename: "a/b.pdf".to_string(),
        ..clone_response(&base)
    };
    assert!(bad_filename.validate().is_err());

    let bad_purpose = FileUploadResponse {
        purpose: "fine-tune".to_string(),
        ..clone_response(&base)
    };
    assert!(bad_purpose.validate().is_err());

    let bad_status = FileUploadResponse {
        status: Some("queued".to_string()),
        ..clone_response(&base)
    };
    assert!(bad_status.validate().is_err());
}

fn clone_response(r: &FileUploadResponse) -> FileUploadResponse {
    FileUploadResponse {
        id: r.id.clone(),
        object: r.object.clone(),
        bytes: r.bytes,
        created_at: r.created_at,
        filename: r.filename.clone(),
        purpose: r.purpose.clone(),
        status: r.status.clone(),
    }
}

#[test]
fn test_ocr_request_validation() {
    // Valid request
    let valid_request = OCRRequest::new("file-123".to_string());
    assert!(valid_request.validate().is_ok());

    // Empty file ID
    let empty_request = OCRRequest::new("".to_string());
    assert!(empty_request.validate().is_err());
}

#[test]
fn test_ocr_request_json_body_carries_id() {
    let request = OCRRequest::new("file-xyz_01".to_string());
    let body = request.to_json_body();
    assert_eq!(
        body,
        "{\"model\":\"mistral-ocr-latest\",\"document\":{\"type\":\"file\",\"file_id\":\"file-xyz_01\"}}"
    );
}

#[test]
fn test_ocr_response_get_extracted_text() {
    let response = OCRResponse {
        pages: vec![Page {
            index: 0,
            markdown: "Extracted text content".to_string(),
            images: vec![],
            dimensions: Dimensions { dpi: 200, height: 2200, width: 1700 },
        }],
        model: "mistral-ocr-2505-completion".to_string(),
        document_annotation: None,
        usage_info: UsageInfo { pages_processed: 1, doc_size_bytes: 469 },
    };

    assert_eq!(response.get_extracted_text(), "Extracted text content");
}

#[test]
fn test_ocr_response_joins_pages_with_blank_line() {
    let response = OCRResponse {
        pages: vec![
            Page {
                index: 0,
                markdown: "first".to_string(),
                images: vec![],
                dimensions: Dimensions { dpi: 200, height: 2200, width: 1700 },
            },
            Page {
                index: 1,
                markdown: "second".to_string(),
                images: vec![],
                dimensions: Dimensions { dpi: 200, height: 2200, width: 1700 },
            },
            Page {
                index: 2,
                markdown: "third".to_string(),
                images: vec![],
                dimensions: Dimensions { dpi: 200, height: 2200, width: 1700 },
            },
        ],
        model: "mistral-ocr-2505-completion".to_string(),
        document_annotation: None,
        usage_info: UsageInfo { pages_processed: 3, doc_size_bytes: 100 },
    };

    assert_eq!(response.get_extracted_text(), "first\n\nsecond\n\nthird");
}

#[test]
fn test_ocr_response_validation() {
    // Valid response
    let valid_response = OCRResponse {
        pages: vec![Page {
            index: 0,
            markdown: "Test content".to_string(),
            images: vec![],
            dimensions: Dimensions { dpi: 200, height: 2200, width: 1700 },
        }],
        model: "mistral-ocr-2505-completion".to_string(),
        document_annotation: None,
        usage_info: UsageInfo { pages_processed: 1, doc_size_bytes: 469 },
    };
    assert!(valid_response.validate().is_ok());

    // Empty pages
    let empty_pages_response = OCRResponse {
        pages: vec![],
        model: "mistral-ocr-2505-completion".to_string(),
        document_annotation: None,
        usage_info: UsageInfo { pages_processed: 0, doc_size_bytes: 0 },
    };
    assert!(empty_pages_response.validate().is_err());

    // Invalid page index
    let invalid_index_response = OCRResponse {
        pages: vec![Page {
            index: 1,
            markdown: "Test content".to_string(),
            images: vec![],
            dimensions: Dimensions { dpi: 200, height: 2200, width: 1700 },
        }],
        model: "mistral-ocr-2505-completion".to_string(),
        document_annotation: None,
        usage_info: UsageInfo { pages_processed: 1, doc_size_bytes: 469 },
    };
    assert!(invalid_index_response.validate().is_err());
}

#[test]
fn test_ocr_response_rejects_wrong_model_and_usage() {
    let page = Page {
        index: 0,
        markdown: "x".to_string(),
        images: vec![],
        dimensions: Dimensions { dpi: 200, height: 2200, width: 1700 },
    };
    let wrong_model = OCRResponse {
        pages: vec![page],
        model: "other-model".to_string(),
        document_annotation: None,
        usage_info: UsageInfo { pages_processed: 1, doc_size_bytes: 469 },
    };
    assert!(wrong_model.validate().is_err());

    let page2 = Page {
        index: 0,
        markdown: "x".to_string(),
        images: vec![],
        dimensions: Dimensions { dpi: 200, height: 2200, width: 1700 },
    };
    let wrong_usage = OCRResponse {
        pages: vec![page2],
        model: "mistral-ocr-latest".to_string(),
        document_annotation: None,
        usage_info: UsageInfo { pages_processed: 2, doc_size_bytes: 469 },
    };
    assert!(wrong_usage.validate().is_err());
}

#[test]
fn test_auth_handler_redacted_key() {
    let credentials = APICredentials::new(
        "sk-test123456789".to_string(),
        "https://api.mistral.ai".to_string(),
    )
    .expect("Should create credentials");

    let auth_handler = AuthHandler::new(credentials);
    let redacted = auth_handler.redacted_key();

    assert!(redacted.contains("sk-t***"));
    assert!(!redacted.contains("123456789"));
}

#[test]
fn test_auth_headers_carry_bearer_token() {
    let credentials = APICredentials::new(
        "sk-test123".to_string(),
        "https://api.mistral.ai".to_string(),
    )
    .expect("Should create credentials");

    let auth_handler = AuthHandler::new(credentials);
    let headers = auth_handler.get_auth_headers().expect("Should get auth headers");

    assert_eq!(headers.len(), 3);
    assert_eq!(headers[0].0, "authorization");
    assert_eq!(headers[0].1, "Bearer sk-test123");
    assert_eq!(headers[1].0, "content-type");
    assert_eq!(headers[1].1, "application/json");
    assert_eq!(headers[2].0, "accept-encoding");
    assert_eq!(headers[2].1, "gzip, deflate, br");

    let multipart = auth_handler.get_multipart_headers().expect("Should get headers");
    assert_eq!(multipart.len(), 2);
    assert_eq!(multipart[0].1, "Bearer sk-test123");
}

#[test]
fn test_build_url_joins_with_single_slash() {
    assert_eq!(build_url("https://api.mistral.ai", "v1/files"), "https://api.mistral.ai/v1/files");
    assert_eq!(build_url("https://api.mistral.ai/", "/v1/ocr"), "https://api.mistral.ai/v1/ocr");
    assert_eq!(build_url("https://api.mistral.ai//", "//v1/ocr"), "https://api.mistral.ai/v1/ocr");
}

#[test]
fn test_multipart_body_is_replayable_and_framed() {
    let request = FileUploadRequest::new(b"DATA-BYTES".to_vec(), "t.pdf".to_string());
    let first = request.to_multipart_form("boundary-123");
    let second = request.to_multipart_form("boundary-123");

    // Byte-identical on every attempt with the same boundary.
    assert_eq!(first, second);

    let text = String::from_utf8(first.clone()).unwrap();
    assert!(text.starts_with("--boundary-123\r\n"));
    assert!(text.contains("Content-Disposition: form-data; name=\"file\"; filename=\"t.pdf\""));
    assert!(text.contains("DATA-BYTES"));
    assert!(text.contains("Content-Disposition: form-data; name=\"purpose\"\r\n\r\nocr"));
    assert!(text.ends_with("--boundary-123--\r\n"));
}

#[test]
fn test_multipart_helpers() {
    let request = FileUploadRequest::new(b"x".to_vec(), "t.pdf".to_string());
    assert!(request.has_file_part());
    assert!(request.has_purpose_part());

    let empty = FileUploadRequest {
        file_data: vec![],
        filename: "t.pdf".to_string(),
        purpose: "ocr".to_string(),
    };
    assert!(!empty.has_file_part());
}

#[test]
fn test_file_upload_request_multipart_form() {
    let request = FileUploadRequest {
        file_data: b"Test content".to_vec(),
        filename: "test.pdf".to_string(),
        purpose: "ocr".to_string(),
    };

    let form = request.to_multipart_form("test-boundary");
    assert!(!form.is_empty());

    // Test helper methods
    assert!(request.has_file_part());
    assert!(request.has_purpose_part());
}

#[test]
fn test_auth_handler_get_auth_headers() {
    let credentials = APICredentials::new(
        "sk-test123".to_string(),
        "https://api.mistral.ai".to_string(),
    )
    .expect("Should create credentials");

    let auth_handler = AuthHandler::new(credentials);
    let headers = auth_handler.get_auth_headers().expect("Should get auth headers");

    assert!(headers.iter().any(|(name, _)| name == "authorization"));
    assert!(headers.iter().any(|(name, _)| name == "content-type"));
}

#[test]
fn test_mistral_client_build_url() {
    assert_eq!(
        build_url("https://api.mistral.ai", "v1/files"),
        "https://api.mistral.ai/v1/files"
    );
    assert_eq!(build_url("https://api.mistral.ai", "/v1/ocr"), "https://api.mistral.ai/v1/ocr");
}
