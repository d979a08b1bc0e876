//! Tests for file validation: magic bytes, the encryption probe, size
//! limits, filenames, and the content hash.

use std::io::Write;
use std::path::PathBuf;

use paperless_ngx_ocr2::{generate_file_hash, Error, FileUpload};

#[test]
fn test_file_hash_generation() {
    let data1 = b"test data";
    let data2 = b"test data";
    let data3 = b"different data";

    let hash1 = generate_file_hash(data1);
    let hash2 = generate_file_hash(data2);
    let hash3 = generate_file_hash(data3);

    assert_eq!(hash1, hash2); // Same data should produce same hash
    assert_ne!(hash1, hash3); // Different data should produce different hash
}

#[test]
fn test_file_size_boundary_conditions() {
    // Test exactly 100MB (should pass)
    let file_upload_100mb = FileUpload {
        file_path: "tests/fixtures/sample.pdf".to_string(),
        file_size: 100 * 1024 * 1024, // Exactly 100MB
        mime_type: "application/pdf".to_string(),
        file_id: None,
        upload_status: None,
        is_valid: false,
    };

    let result = file_upload_100mb.validate_file();
    // The error, if any, must not be about the size.
    if let Err(e) = result {
        assert!(!e.to_string().contains("exceeds maximum"));
    }

    // Test 100MB + 1 byte (should fail due to size)
    let file_upload_over = FileUpload {
        file_path: "tests/fixtures/sample.pdf".to_string(),
        file_size: (100 * 1024 * 1024) + 1, // 100MB + 1 byte
        mime_type: "application/pdf".to_string(),
        file_id: None,
        upload_status: None,
        is_valid: false,
    };

    let result = file_upload_over.validate_file();
    assert!(result.is_err());
    if let Err(e) = result {
        assert!(e.to_string().contains("exceeds maximum"));
    }
}

#[test]
fn test_file_size_limit_enforcement() {
    // Test that 100MB limit is properly enforced
    let file_upload = FileUpload {
        file_path: "test.pdf".to_string(),
        file_size: 101 * 1024 * 1024, // 101MB
        mime_type: "application/pdf".to_string(),
        file_id: None,
        upload_status: None,
        is_valid: false,
    };

    let result = file_upload.validate_file();
    assert!(result.is_err());
    assert!(matches!(result.unwrap_err(), Error::Validation(_)));
}

#[test]
fn test_magic_bytes_classification() {
    let pdf = FileUpload::from_parts("t.pdf".to_string(), 12, b"%PDF-1.4\nabc");
    assert!(pdf.is_ok());
    let pdf = pdf.unwrap();
    assert!(pdf.is_valid);
    assert_eq!(pdf.mime_type, "application/pdf");

    let png_head = [0x89u8, 0x50, 0x4E, 0x47, 0x0D, 0x0A, 0x1A, 0x0A];
    let png = FileUpload::from_parts("i.png".to_string(), 8, &png_head);
    assert!(png.is_ok());
    assert_eq!(png.unwrap().mime_type, "image/png");

    let jpg_head = [0xFFu8, 0xD8, 0xFF, 0xE0];
    let jpg = FileUpload::from_parts("i.jpg".to_string(), 4, &jpg_head);
    assert!(jpg.is_ok());

    // A renamed text file contradicts its extension's magic.
    let fake = FileUpload::from_parts("t.pdf".to_string(), 14, b"Not a PDF file");
    assert!(matches!(fake, Err(Error::Validation(_))));

    // Too small to classify.
    let tiny = FileUpload::from_parts("t.pdf".to_string(), 3, b"%PD");
    assert!(matches!(tiny, Err(Error::Validation(_))));
}

#[test]
fn test_unsupported_extension_is_validation_error() {
    let txt = FileUpload::from_parts("notes.txt".to_string(), 9, b"plaintext");
    let err = txt.unwrap_err();
    assert_eq!(err.error_type(), "validation");
    assert_eq!(err.exit_code(), 2);
}

#[test]
fn test_encrypted_pdf_is_rejected() {
    let mut head = b"%PDF-1.4\n".to_vec();
    head.extend_from_slice(b"1 0 obj << /Encrypt 2 0 R >>\n");
    let result = FileUpload::from_parts("locked.pdf".to_string(), head.len() as u64, &head);
    let err = result.unwrap_err();
    assert!(err.user_message().contains("Password-protected"));
    assert_eq!(err.error_type(), "validation");
    assert_eq!(err.exit_code(), 2);

    // Each marker triggers the probe on its own.
    for marker in [&b"/P -"[..], &b"/U "[..], &b"/O "[..], &b"/Filter/Standard"[..]] {
        let mut h = b"%PDF-1.4\n".to_vec();
        h.extend_from_slice(marker);
        assert!(
            FileUpload::from_parts("x.pdf".to_string(), h.len() as u64, &h).is_err(),
            "marker should be rejected"
        );
    }

    // A clean PDF head passes the probe.
    let clean = FileUpload::from_parts("clear.pdf".to_string(), 12, b"%PDF-1.4\nabc");
    assert!(clean.is_ok());
}

#[test]
fn test_set_file_id() {
    let mut file_upload = FileUpload::from_parts("t.pdf".to_string(), 12, b"%PDF-1.4\nabc")
        .expect("Should create FileUpload");

    assert!(file_upload.file_id.is_none());

    file_upload.set_file_id("file-123".to_string());
    assert_eq!(file_upload.file_id, Some("file-123".to_string()));
}

#[test]
fn test_set_upload_status() {
    let mut file_upload = FileUpload::from_parts("t.pdf".to_string(), 12, b"%PDF-1.4\nabc")
        .expect("Should create FileUpload");

    // Test valid status
    file_upload.set_upload_status("uploaded".to_string());
    assert_eq!(file_upload.upload_status, Some("uploaded".to_string()));

    // Test invalid status (should be ignored)
    file_upload.set_upload_status("invalid_status".to_string());
    assert_eq!(file_upload.upload_status, Some("uploaded".to_string()));
}

#[test]
fn test_get_filename() {
    let named = FileUpload {
        file_path: "some/dir/report.pdf".to_string(),
        file_size: 1,
        mime_type: "application/pdf".to_string(),
        file_id: None,
        upload_status: None,
        is_valid: true,
    };
    assert_eq!(named.get_filename(), "report.pdf");

    let bare = FileUpload { file_path: "report.pdf".to_string(), ..clone_upload(&named) };
    assert_eq!(bare.get_filename(), "report.pdf");

    let trailing = FileUpload { file_path: "some/dir/".to_string(), ..clone_upload(&named) };
    assert_eq!(trailing.get_filename(), "unknown");

    let empty = FileUpload { file_path: "".to_string(), ..clone_upload(&named) };
    assert_eq!(empty.get_filename(), "unknown");
}

fn clone_upload(f: &FileUpload) -> FileUpload {
    FileUpload {
        file_path: f.file_path.clone(),
        file_size: f.file_size,
        mime_type: f.mime_type.clone(),
        file_id: f.file_id.clone(),
        upload_status: f.upload_status.clone(),
        is_valid: f.is_valid,
    }
}

/// A test file that cleans up after itself.
struct TestFile {
    inner: tempfile::NamedTempFile,
}

impl TestFile {
    fn path(&self) -> &std::path::Path {
        self.inner.path()
    }
}

fn create_test_pdf(content: &str) -> TestFile {
    let mut f = tempfile::NamedTempFile::new().unwrap();
    f.write_all(b"%PDF-1.4\n").unwrap();
    f.write_all(content.as_bytes()).unwrap();
    f.flush().unwrap();
    TestFile { inner: f }
}

#[test]
fn test_auto_cleanup() {
    let temp_path: PathBuf = {
        let test_file = create_test_pdf("Temp content");
        test_file.path().to_path_buf()
    }; // test_file goes out of scope here

    // File should be cleaned up
    assert!(!temp_path.exists());
}

#[test]
fn test_file_upload_validate_file_size() {
    let file_upload = FileUpload::from_parts("t.pdf".to_string(), 19, b"%PDF-1.4\nSmall file")
        .expect("Should create FileUpload");

    // File should be valid (small size)
    assert!(file_upload.validate_file().is_ok());
}

#[test]
fn test_file_upload_magic_bytes_validation() {
    let pdf_upload = FileUpload::from_parts("t.pdf".to_string(), 18, b"%PDF-1.4\nValid PDF")
        .expect("Should validate PDF magic bytes");
    assert!(pdf_upload.is_valid);

    // Corrupted content under a PDF extension is rejected.
    let fake_result = FileUpload::from_parts("t.pdf".to_string(), 19, b"CORRUPTED_DATA_HERE");
    assert!(fake_result.is_err());
}

#[test]
fn test_file_upload_set_file_id() {
    let mut file_upload = FileUpload::from_parts("t.pdf".to_string(), 13, b"%PDF-1.4\nTest")
        .expect("Should create FileUpload");

    assert!(file_upload.file_id.is_none());

    file_upload.set_file_id("file-123".to_string());
    assert_eq!(file_upload.file_id, Some("file-123".to_string()));
}

#[test]
fn test_file_upload_set_upload_status() {
    let mut file_upload = FileUpload::from_parts("t.pdf".to_string(), 13, b"%PDF-1.4\nTest")
        .expect("Should create FileUpload");

    // Test valid status
    file_upload.set_upload_status("uploaded".to_string());
    assert_eq!(file_upload.upload_status, Some("uploaded".to_string()));

    // Test invalid status (should be ignored)
    file_upload.set_upload_status("invalid_status".to_string());
    assert_eq!(file_upload.upload_status, Some("uploaded".to_string())); // Should remain unchanged
}

#[test]
fn test_file_upload_get_filename() {
    let file_upload = FileUpload::from_parts(
        "tests/fixtures/sample.pdf".to_string(),
        12,
        b"%PDF-1.4\nabc",
    )
    .expect("Should create FileUpload");

    assert_eq!(file_upload.get_filename(), "sample.pdf");
}
