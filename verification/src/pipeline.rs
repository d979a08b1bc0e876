//! The run pipeline's decisions: the size gate, the interpretation of the
//! two endpoint responses, the assembly of the result, and the rendering of
//! stdout, stderr and the exit code.
//!
//! The shell around the library performs the reads and the network calls;
//! every choice between them is made here, under contract.

use vstd::prelude::*;

use crate::config::Config;
use crate::error::{redact_chars, redact_secrets, Error};
use crate::file::{spec_filename, FileUpload};
use crate::files::{upload_response_ok_at, FileUploadResponse};
use crate::ocr::{spec_human_readable, spec_success_envelope, OCRResult, UsageMetrics};
use crate::ocr_api::{joined_markdown, ocr_response_ok, OCRRequest, OCRResponse};

verus! {

/// Reject a file larger than the configured ceiling; this is the user's
/// configuration speaking, so the failure is a validation error.
pub fn check_file_against_config(file: &FileUpload, config: &Config) -> (r: Result<(), Error>)
    ensures
        r is Ok <==> file.file_size <= config.max_file_size_mb * 1048576,
        r matches Err(e) ==> e is Validation,
{
    let fits = if config.max_file_size_mb > u64::MAX / 1048576 {
        proof {
            assert(config.max_file_size_mb * 1048576 > u64::MAX) by (nonlinear_arith)
                requires
                    config.max_file_size_mb > u64::MAX as int / 1048576,
            ;
        }
        true
    } else {
        proof {
            assert(config.max_file_size_mb * 1048576 <= u64::MAX) by (nonlinear_arith)
                requires
                    config.max_file_size_mb <= u64::MAX as int / 1048576,
            ;
        }
        file.file_size <= config.max_file_size_mb * 1048576
    };
    if fits {
        Ok(())
    } else {
        let mut m = String::from_str("File size (");
        m.append(crate::text::u64_to_string(file.file_size).as_str());
        m.append(" bytes) exceeds maximum allowed size (");
        m.append(crate::text::u64_to_string(config.max_file_size_mb).as_str());
        m.append(" MB)");
        Err(Error::Validation(m))
    }
}

/// A receipt whose status field reports an error.
pub open spec fn receipt_reports_error(r: FileUploadResponse) -> bool {
    match r.status {
        Some(s) => s@ == "error"@,
        None => false,
    }
}

/// Interpret the parsed body of a successful upload response, as of the
/// given wall-clock second.  A body that did not parse, a receipt that
/// violates an invariant, and a receipt whose own status reports an error
/// are all the remote's fault: the step fails as an API error rather than
/// carrying a dubious receipt forward.
pub fn finish_upload(parsed: Option<FileUploadResponse>, now: i64) -> (r: Result<
    FileUploadResponse,
    Error,
>)
    ensures
        parsed is None ==> (r matches Err(e) && e is Api),
        parsed matches Some(resp) ==> (r is Ok <==> upload_response_ok_at(resp, now as int)
            && !receipt_reports_error(resp)),
        r matches Ok(o) ==> parsed == Some(o),
        r matches Err(e) ==> e is Api,
{
    match parsed {
        None => Err(Error::Api(String::from_str("Failed to parse upload response"))),
        Some(resp) => {
            if let Err(e) = resp.validate_at(now) {
                return Err(e);
            }
            if let Some(s) = &resp.status {
                if crate::text::str_eq(s.as_str(), "error") {
                    return Err(
                        Error::Api(String::from_str("File upload failed on the server")),
                    );
                }
            }
            Ok(resp)
        },
    }
}

/// The OCR request for an accepted receipt: it carries the receipt's
/// identifier exactly.
pub fn ocr_request_for_receipt(receipt: &FileUploadResponse) -> (r: OCRRequest)
    ensures
        r.document.file_id@ == receipt.id@,
        r.model@ == "mistral-ocr-latest"@,
        r.document.chunk_type@ == "file"@,
{
    OCRRequest::new(receipt.id.clone())
}

/// Interpret the parsed body of a successful OCR response.  A body that
/// did not parse, or a response violating an invariant of the data model,
/// is the remote's fault: an API error.
pub fn finish_ocr(parsed: Option<OCRResponse>) -> (r: Result<OCRResponse, Error>)
    ensures
        parsed is None ==> (r matches Err(e) && e is Api),
        parsed matches Some(resp) ==> (r is Ok <==> ocr_response_ok(resp)),
        r matches Ok(o) ==> parsed == Some(o),
        r matches Err(e) ==> e is Api,
{
    match parsed {
        None => Err(Error::Api(String::from_str("Failed to parse OCR response"))),
        Some(resp) => {
            if let Err(e) = resp.validate() {
                return Err(e);
            }
            Ok(resp)
        },
    }
}

/// Assemble the outcome of a successful run: the page texts joined in
/// order, under the identifier the upload returned, with the file's own
/// name and size.
pub fn assemble_result(
    ocr_response: OCRResponse,
    receipt: &FileUploadResponse,
    file: &FileUpload,
) -> (r: OCRResult)
    ensures
        r.extracted_text@ == joined_markdown(ocr_response.pages@),
        r.file_id@ == receipt.id@,
        r.model@ == ocr_response.model@,
        r.file_name@ == spec_filename(file.file_path@),
        r.file_size == file.file_size,
        r.usage matches Some(u) && u.pages_processed == ocr_response.usage_info.pages_processed
            as int && u.doc_size_bytes == ocr_response.usage_info.doc_size_bytes as int,
{
    let text = ocr_response.get_extracted_text();
    let usage = UsageMetrics {
        pages_processed: ocr_response.usage_info.pages_processed as i64,
        doc_size_bytes: ocr_response.usage_info.doc_size_bytes as i64,
    };
    OCRResult::from_extracted_text(
        text,
        receipt.id.clone(),
        ocr_response.model,
        file.get_filename(),
        file.file_size,
        Some(usage),
    )
}

/// What one run writes where, and how the process exits.
#[derive(Debug)]
pub struct RunRender {
    /// What goes to stdout, exactly.
    pub stdout_text: String,
    /// What goes to stderr, exactly.
    pub stderr_text: String,
    /// The process exit code.
    pub exit_code: i32,
}

/// Render a finished run.  Exactly one stream carries the report: in JSON
/// mode stdout carries a single envelope and stderr stays empty; in human
/// mode a success goes to stdout and a failure leaves stdout empty and
/// writes one line to stderr.  The exit code is zero on success and the
/// failure category's fixed code otherwise, and every failure message has
/// credential fragments masked.
pub fn render_outcome(outcome: Result<OCRResult, Error>, json_output: bool, processing_time_ms:
    u64) -> (r: RunRender)
    ensures
        outcome is Ok ==> r.exit_code == 0,
        outcome matches Err(e) ==> r.exit_code == e.spec_exit_code(),
        json_output ==> r.stderr_text@.len() == 0,
        json_output ==> (match outcome {
            Ok(res) => r.stdout_text@ == spec_success_envelope(res, processing_time_ms as nat),
            Err(e) => r.stdout_text@ == e.spec_json_output(),
        }),
        !json_output ==> (match outcome {
            Ok(res) => r.stdout_text@ == spec_human_readable(res) && r.stderr_text@.len() == 0,
            Err(e) => r.stdout_text@.len() == 0 && r.stderr_text@ == "Error: "@ + redact_chars(
                e.spec_user_message(),
            ),
        }),
{
    match outcome {
        Ok(res) => {
            let out = if json_output {
                res.to_json_output_with_time(processing_time_ms)
            } else {
                res.to_human_readable()
            };
            RunRender { stdout_text: out, stderr_text: String::new(), exit_code: 0 }
        },
        Err(e) => {
            let code = e.exit_code();
            if json_output {
                RunRender {
                    stdout_text: e.to_json_output(),
                    stderr_text: String::new(),
                    exit_code: code,
                }
            } else {
                let mut msg = String::from_str("Error: ");
                msg.append(redact_secrets(e.user_message().as_str()).as_str());
                RunRender { stdout_text: String::new(), stderr_text: msg, exit_code: code }
            }
        },
    }
}

} // verus!
