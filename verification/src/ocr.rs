//! The result of one run: the extracted text with its file metadata, and
//! its two renderings — the human-readable report and the JSON envelope.

use vstd::prelude::*;

use crate::credentials::is_space_char;
use crate::error::Error;
use crate::json::{json_quote, json_quoted};
use crate::text::{dec_chars, u64_to_string};

verus! {

/// The usage counters the OCR endpoint reports for a run.
#[derive(Debug)]
pub struct UsageMetrics {
    /// How many pages were processed.
    pub pages_processed: i64,
    /// The size of the processed document in bytes.
    pub doc_size_bytes: i64,
}

/// The outcome of a successful run.
#[derive(Debug)]
pub struct OCRResult {
    /// The extracted text.
    pub extracted_text: String,
    /// The remote file ID used for OCR.
    pub file_id: String,
    /// The model that performed the OCR.
    pub model: String,
    /// Usage counters, when the service reported them.
    pub usage: Option<UsageMetrics>,
    /// The original file name.
    pub file_name: String,
    /// The original file size in bytes.
    pub file_size: u64,
    /// When the OCR was performed, in Unix-epoch seconds.
    pub timestamp: i64,
}

/// A result whose required fields are all present.
pub open spec fn ocr_result_ok(r: OCRResult) -> bool {
    &&& r.file_id@.len() > 0
    &&& r.model@.len() > 0
    &&& r.file_name@.len() > 0
    &&& r.file_size > 0
}

/// A text with nothing to show: every character is whitespace.
pub open spec fn all_whitespace(s: Seq<char>) -> bool {
    forall|i: int| 0 <= i < s.len() ==> is_space_char(#[trigger] s[i])
}

/// The human-readable report for a result.
pub open spec fn spec_human_readable(r: OCRResult) -> Seq<char> {
    if all_whitespace(r.extracted_text@) {
        "Warning: No text could be extracted from "@ + r.file_name@ + " ("@ + dec_chars(
            r.file_size as nat,
        ) + " bytes). The file may contain only images without text, or the text may not be readable."@
    } else {
        "Extracted text from "@ + r.file_name@ + " ("@ + dec_chars(r.file_size as nat)
            + " bytes):\n\n"@ + r.extracted_text@
    }
}

/// The JSON success envelope for a result, rendered with the given
/// processing time.
pub open spec fn spec_success_envelope(r: OCRResult, processing_time_ms: nat) -> Seq<char> {
    "{\"success\":true,\"data\":{\"extracted_text\":"@ + json_quoted(r.extracted_text@)
        + ",\"file_name\":"@ + json_quoted(r.file_name@) + ",\"file_size\":"@ + dec_chars(
        r.file_size as nat,
    ) + ",\"processing_time_ms\":"@ + dec_chars(processing_time_ms) + ",\"confidence\":null}}"@
}

impl OCRResult {
    /// Create a new OCR result, stamped with the wall clock.
    pub fn new(
        extracted_text: String,
        file_id: String,
        model: String,
        file_name: String,
        file_size: u64,
    ) -> (r: OCRResult)
        ensures
            r.extracted_text@ == extracted_text@,
            r.file_id@ == file_id@,
            r.model@ == model@,
            r.usage is None,
            r.file_name@ == file_name@,
            r.file_size == file_size,
    {
        let timestamp = crate::files::unix_now_seconds();
        OCRResult { extracted_text, file_id, model, usage: None, file_name, file_size, timestamp }
    }

    /// Create an OCR result from extracted text and metadata, stamped with
    /// the wall clock.
    pub fn from_extracted_text(
        extracted_text: String,
        file_id: String,
        model: String,
        file_name: String,
        file_size: u64,
        usage: Option<UsageMetrics>,
    ) -> (r: OCRResult)
        ensures
            r.extracted_text@ == extracted_text@,
            r.file_id@ == file_id@,
            r.model@ == model@,
            r.usage == usage,
            r.file_name@ == file_name@,
            r.file_size == file_size,
    {
        let timestamp = crate::files::unix_now_seconds();
        OCRResult { extracted_text, file_id, model, usage, file_name, file_size, timestamp }
    }

    /// Validate the OCR result: the fields a rendering depends on are all
    /// present.
    pub fn validate(&self) -> (r: Result<(), Error>)
        ensures
            r is Ok <==> ocr_result_ok(*self),
            r matches Err(e) ==> e is Validation,
    {
        if self.file_id.as_str().unicode_len() == 0 {
            return Err(Error::Validation(String::from_str("File ID must not be empty")));
        }
        if self.model.as_str().unicode_len() == 0 {
            return Err(Error::Validation(String::from_str("Model must not be empty")));
        }
        if self.file_name.as_str().unicode_len() == 0 {
            return Err(Error::Validation(String::from_str("File name must not be empty")));
        }
        if self.file_size == 0 {
            return Err(Error::Validation(String::from_str("File size must be positive")));
        }
        Ok(())
    }

    /// The processing time reported when none was measured for this result.
    pub fn get_processing_time_ms(&self) -> (r: u64)
        ensures
            r == 2000,
    {
        2000
    }

    /// Whether the extracted text is empty once trimmed.
    pub fn is_empty_text(&self) -> (r: bool)
        ensures
            r == all_whitespace(self.extracted_text@),
    {
        let text = self.extracted_text.as_str();
        let len = text.unicode_len();
        let mut i: usize = 0;
        while i < len
            invariant
                i <= len,
                text@ == self.extracted_text@,
                len == text@.len(),
                forall|k: int| 0 <= k < i ==> is_space_char(#[trigger] text@[k]),
            decreases len - i,
        {
            let c = text.get_char(i);
            if !(c == ' ' || c == '\t' || c == '\n' || c == '\r' || c == (11u8 as char) || c == (
            12u8 as char)) {
                return false;
            }
            i += 1;
        }
        true
    }

    /// Format the result for human-readable output: a banner naming the
    /// file and its size, then the text; or a warning when there is no
    /// text to show.
    pub fn to_human_readable(&self) -> (r: String)
        ensures
            r@ == spec_human_readable(*self),
    {
        if self.is_empty_text() {
            let mut out = String::from_str("Warning: No text could be extracted from ");
            out.append(self.file_name.as_str());
            out.append(" (");
            out.append(u64_to_string(self.file_size).as_str());
            out.append(
                " bytes). The file may contain only images without text, or the text may not be readable.",
            );
            out
        } else {
            let mut out = String::from_str("Extracted text from ");
            out.append(self.file_name.as_str());
            out.append(" (");
            out.append(u64_to_string(self.file_size).as_str());
            out.append(" bytes):\n\n");
            out.append(self.extracted_text.as_str());
            out
        }
    }

    /// Format the result as the JSON success envelope, with the default
    /// processing time.
    pub fn to_json_output(&self) -> (r: String)
        ensures
            r@ == spec_success_envelope(*self, 2000),
    {
        let ms = self.get_processing_time_ms();
        self.to_json_output_with_time(ms)
    }

    /// Format the result as the JSON success envelope, reporting the given
    /// processing time.
    pub fn to_json_output_with_time(&self, processing_time_ms: u64) -> (r: String)
        ensures
            r@ == spec_success_envelope(*self, processing_time_ms as nat),
    {
        let mut out = String::from_str("{\"success\":true,\"data\":{\"extracted_text\":");
        out.append(json_quote(self.extracted_text.as_str()).as_str());
        out.append(",\"file_name\":");
        out.append(json_quote(self.file_name.as_str()).as_str());
        out.append(",\"file_size\":");
        out.append(u64_to_string(self.file_size).as_str());
        out.append(",\"processing_time_ms\":");
        out.append(u64_to_string(processing_time_ms).as_str());
        out.append(",\"confidence\":null}}");
        out
    }
}

} // verus!
