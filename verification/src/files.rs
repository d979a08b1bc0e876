//! The file-upload endpoint: the multipart request body and the validation
//! of the upload receipt.
//!
//! The multipart body is framed here, byte by byte, so that every attempt of
//! a retried upload sends exactly the same bytes for the same request and
//! boundary.

use vstd::prelude::*;
use vstd::utf8::encode_utf8;

use crate::error::Error;
use crate::text::push_bytes;

verus! {

/// File upload request structure.
#[derive(Debug)]
pub struct FileUploadRequest {
    pub file_data: Vec<u8>,
    pub filename: String,
    pub purpose: String,
}

/// A well-formed upload request: data and filename present, and the one
/// purpose the service accepts.
pub open spec fn upload_request_ok(r: FileUploadRequest) -> bool {
    &&& r.file_data@.len() > 0
    &&& r.filename@.len() > 0
    &&& r.purpose@ == "ocr"@
}

/// The multipart/form-data body for an upload: a `file` part holding the
/// document bytes under its filename, then a `purpose` part holding the
/// fixed purpose text.
pub open spec fn spec_multipart_body(
    boundary: Seq<char>,
    filename: Seq<char>,
    data: Seq<u8>,
    purpose: Seq<char>,
) -> Seq<u8> {
    encode_utf8("--"@) + encode_utf8(boundary) + encode_utf8("\r\n"@) + encode_utf8(
        "Content-Disposition: form-data; name=\"file\"; filename=\""@,
    ) + encode_utf8(filename) + encode_utf8("\"\r\n"@) + encode_utf8(
        "Content-Type: application/octet-stream\r\n\r\n"@,
    ) + data + encode_utf8("\r\n--"@) + encode_utf8(boundary) + encode_utf8("\r\n"@)
        + encode_utf8("Content-Disposition: form-data; name=\"purpose\"\r\n\r\n"@) + encode_utf8(
        purpose,
    ) + encode_utf8("\r\n--"@) + encode_utf8(boundary) + encode_utf8("--\r\n"@)
}

impl FileUploadRequest {
    /// Create a new file upload request.
    pub fn new(file_data: Vec<u8>, filename: String) -> (r: FileUploadRequest)
        ensures
            r.file_data@ == file_data@,
            r.filename@ == filename@,
            r.purpose@ == "ocr"@,
    {
        FileUploadRequest { file_data, filename, purpose: String::from_str("ocr") }
    }

    /// Validate the upload request.
    pub fn validate(&self) -> (r: Result<(), Error>)
        ensures
            r is Ok <==> upload_request_ok(*self),
            r matches Err(e) ==> e is Validation,
    {
        if self.file_data.len() == 0 {
            return Err(Error::Validation(String::from_str("File data cannot be empty")));
        }
        if self.filename.as_str().unicode_len() == 0 {
            return Err(Error::Validation(String::from_str("Filename cannot be empty")));
        }
        if !crate::text::str_eq(self.purpose.as_str(), "ocr") {
            return Err(Error::Validation(String::from_str("Purpose must be 'ocr'")));
        }
        Ok(())
    }

    /// Build the multipart body for this request with the given boundary.
    /// The result is a function of the request and the boundary alone, so a
    /// retry that rebuilds it sends identical bytes.
    pub fn to_multipart_form(&self, boundary: &str) -> (r: Vec<u8>)
        ensures
            r@ == spec_multipart_body(boundary@, self.filename@, self.file_data@, self.purpose@),
    {
        let mut out: Vec<u8> = Vec::new();
        push_bytes(&mut out, "--".as_bytes());
        push_bytes(&mut out, boundary.as_bytes());
        push_bytes(&mut out, "\r\n".as_bytes());
        push_bytes(&mut out, "Content-Disposition: form-data; name=\"file\"; filename=\"".as_bytes());
        push_bytes(&mut out, self.filename.as_str().as_bytes());
        push_bytes(&mut out, "\"\r\n".as_bytes());
        push_bytes(&mut out, "Content-Type: application/octet-stream\r\n\r\n".as_bytes());
        push_bytes(&mut out, self.file_data.as_slice());
        push_bytes(&mut out, "\r\n--".as_bytes());
        push_bytes(&mut out, boundary.as_bytes());
        push_bytes(&mut out, "\r\n".as_bytes());
        push_bytes(&mut out, "Content-Disposition: form-data; name=\"purpose\"\r\n\r\n".as_bytes());
        push_bytes(&mut out, self.purpose.as_str().as_bytes());
        push_bytes(&mut out, "\r\n--".as_bytes());
        push_bytes(&mut out, boundary.as_bytes());
        push_bytes(&mut out, "--\r\n".as_bytes());
        assert(out@ =~= spec_multipart_body(
            boundary@,
            self.filename@,
            self.file_data@,
            self.purpose@,
        ));
        out
    }

    /// Whether the multipart form will carry a file part with content.
    pub fn has_file_part(&self) -> (r: bool)
        ensures
            r == (self.file_data@.len() > 0),
    {
        self.file_data.len() > 0
    }

    /// Whether the multipart form will carry a purpose part with content.
    pub fn has_purpose_part(&self) -> (r: bool)
        ensures
            r == (self.purpose@.len() > 0),
    {
        self.purpose.as_str().unicode_len() > 0
    }
}

/// Two multipart bodies built from the same request and boundary are
/// byte-identical: a retried upload replays exactly the bytes of the first
/// attempt.
pub proof fn lemma_upload_body_replayable(
    first: Seq<u8>,
    later: Seq<u8>,
    req: FileUploadRequest,
    boundary: Seq<char>,
)
    requires
        first == spec_multipart_body(boundary, req.filename@, req.file_data@, req.purpose@),
        later == spec_multipart_body(boundary, req.filename@, req.file_data@, req.purpose@),
    ensures
        first == later,
{
}

// ---------------------------------------------------------------------------
// The upload receipt
// ---------------------------------------------------------------------------

/// File upload response structure.
#[derive(Debug)]
pub struct FileUploadResponse {
    pub id: String,
    pub object: String,
    pub bytes: i64,
    pub created_at: i64,
    pub filename: String,
    pub purpose: String,
    pub status: Option<String>,
}

/// A character the service may use in a file identifier.
pub open spec fn id_char_ok(c: char) -> bool {
    ('a' <= c && c <= 'z') || ('A' <= c && c <= 'Z') || ('0' <= c && c <= '9') || c == '-' || c
        == '_'
}

/// A status value the service may report.
pub open spec fn status_value_ok(s: Seq<char>) -> bool {
    s == "uploaded"@ || s == "processing"@ || s == "processed"@ || s == "error"@
}

/// The time-independent invariants of an upload receipt.
pub open spec fn upload_response_ok_base(r: FileUploadResponse) -> bool {
    &&& r.id@.len() > 0
    &&& forall|i: int| 0 <= i < r.id@.len() ==> id_char_ok(#[trigger] r.id@[i])
    &&& r.object@ == "file"@
    &&& r.bytes > 0
    &&& r.created_at > 0
    &&& r.filename@.len() > 0
    &&& !crate::text::contains_seq(r.filename@, seq!['/'])
    &&& !crate::text::contains_seq(r.filename@, seq!['\\'])
    &&& r.purpose@ == "ocr"@
    &&& (match r.status {
        Some(s) => status_value_ok(s@),
        None => true,
    })
}

/// A receipt valid at wall-clock second `now`: the base invariants, and a
/// creation time at most one hour in the future.
pub open spec fn upload_response_ok_at(r: FileUploadResponse, now: int) -> bool {
    upload_response_ok_base(r) && r.created_at <= now + 3600
}

/// Whether an upload of this size streams the file from disk instead of
/// buffering it: above 50 MiB the body is not held in memory, and a retry
/// must reopen the file.
pub fn uses_streaming_upload(file_size: u64) -> (r: bool)
    ensures
        r == (file_size > 52428800),
{
    file_size > 52428800
}

/// Relies on `chrono::Utc::now` and `timestamp`: the wall clock; nothing is
/// promised of its value.
#[verifier::external_body]
pub fn unix_now_seconds() -> (r: i64) {
    chrono::Utc::now().timestamp()
}

impl FileUploadResponse {
    /// Validate the upload response against the wall clock: every invariant
    /// of the receipt, with the clock read once.  Whatever the clock says,
    /// a receipt accepted here satisfies all time-independent invariants.
    pub fn validate(&self) -> (r: Result<(), Error>)
        ensures
            r is Ok ==> upload_response_ok_base(*self),
            !upload_response_ok_base(*self) ==> r is Err,
            r matches Err(e) ==> e is Api,
    {
        let now = unix_now_seconds();
        self.validate_at(now)
    }

    /// Validate the upload response as of the given wall-clock second.  A
    /// violation of any invariant is the remote's fault and is categorized
    /// as an API error.
    pub fn validate_at(&self, now: i64) -> (r: Result<(), Error>)
        ensures
            r is Ok <==> upload_response_ok_at(*self, now as int),
            r matches Err(e) ==> e is Api,
    {
        let id = self.id.as_str();
        let id_len = id.unicode_len();
        if id_len == 0 {
            return Err(Error::Api(String::from_str("File ID cannot be empty")));
        }
        let mut i: usize = 0;
        while i < id_len
            invariant
                i <= id_len,
                id@ == self.id@,
                id_len == self.id@.len(),
                forall|k: int| 0 <= k < i ==> id_char_ok(#[trigger] self.id@[k]),
            decreases id_len - i,
        {
            let c = id.get_char(i);
            if !(('a' <= c && c <= 'z') || ('A' <= c && c <= 'Z') || ('0' <= c && c <= '9') || c
                == '-' || c == '_') {
                return Err(
                    Error::Api(String::from_str("Invalid file ID format: unexpected character")),
                );
            }
            i += 1;
        }
        if !crate::text::str_eq(self.object.as_str(), "file") {
            return Err(Error::Api(String::from_str("Object must be 'file'")));
        }
        if self.bytes <= 0 {
            return Err(Error::Api(String::from_str("File size must be positive")));
        }
        if self.created_at <= 0 {
            return Err(Error::Api(String::from_str("Created timestamp must be positive")));
        }
        if (self.created_at as i128) > (now as i128) + 3600 {
            return Err(
                Error::Api(String::from_str("Created timestamp is too far in the future")),
            );
        }
        if self.filename.as_str().unicode_len() == 0 {
            return Err(Error::Api(String::from_str("Filename cannot be empty")));
        }
        if crate::text::str_contains(self.filename.as_str(), "/") || crate::text::str_contains(
            self.filename.as_str(),
            "\\",
        ) {
            proof {
                reveal_strlit("/");
                reveal_strlit("\\");
                assert("/"@ =~= seq!['/']);
                assert("\\"@ =~= seq!['\\']);
            }
            return Err(
                Error::Api(String::from_str("Filename cannot contain path separators")),
            );
        }
        proof {
            reveal_strlit("/");
            reveal_strlit("\\");
            assert("/"@ =~= seq!['/']);
            assert("\\"@ =~= seq!['\\']);
        }
        if !crate::text::str_eq(self.purpose.as_str(), "ocr") {
            return Err(Error::Api(String::from_str("Purpose must be 'ocr'")));
        }
        match &self.status {
            Some(s) => {
                let st = s.as_str();
                if !(crate::text::str_eq(st, "uploaded") || crate::text::str_eq(st, "processing")
                    || crate::text::str_eq(st, "processed") || crate::text::str_eq(st, "error")) {
                    return Err(Error::Api(String::from_str("Invalid status value")));
                }
            },
            None => {},
        }
        Ok(())
    }
}

} // verus!
