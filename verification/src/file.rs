//! The input file: its path, size and MIME type, and the validation that
//! gates every upload — size limit, supported type, magic bytes, and the
//! probe for password-protected PDFs.

use vstd::prelude::*;
use vstd::string::StringSliceAdditionalSpecFns;

use crate::error::Error;
use crate::text::{bytes_contain, contains_seq};

verus! {

/// The MIME type guessed for a path from its extension; the guess comes
/// from a fixed table and depends on the path alone.
pub uninterp spec fn mime_for_path(p: Seq<char>) -> Seq<char>;

/// Relies on `mime_guess::MimeGuess::from_path` and `first_or_octet_stream`:
/// the guess is read from a static extension table, so it is a function of
/// the path alone.
#[verifier::external_body]
pub fn guess_mime_type(path: &str) -> (r: String)
    ensures
        r@ == mime_for_path(path@),
{
    mime_guess::MimeGuess::from_path(path).first_or_octet_stream().to_string()
}

/// The MIME types the tool accepts.
pub open spec fn mime_supported(m: Seq<char>) -> bool {
    m == "application/pdf"@ || m == "image/png"@ || m == "image/jpeg"@ || m == "image/jpg"@
}

/// The file starts with the PDF magic `%PDF`.
pub open spec fn magic_is_pdf(b: Seq<u8>) -> bool {
    b.len() >= 4 && b[0] == 0x25 && b[1] == 0x50 && b[2] == 0x44 && b[3] == 0x46
}

/// The file starts with the PNG signature.
pub open spec fn magic_is_png(b: Seq<u8>) -> bool {
    b.len() >= 4 && b[0] == 0x89 && b[1] == 0x50 && b[2] == 0x4E && b[3] == 0x47
}

/// The file starts with a JPEG marker.
pub open spec fn magic_is_jpeg(b: Seq<u8>) -> bool {
    b.len() >= 4 && b[0] == 0xFF && b[1] == 0xD8 && b[2] == 0xFF
}

/// The head of a PDF holds one of the markers of an encryption dictionary.
pub open spec fn has_encryption_marker(b: Seq<u8>) -> bool {
    ||| contains_seq(b, ("/Encrypt").spec_bytes())
    ||| contains_seq(b, ("/P -").spec_bytes())
    ||| contains_seq(b, ("/U ").spec_bytes())
    ||| contains_seq(b, ("/O ").spec_bytes())
    ||| contains_seq(b, ("/Filter/Standard").spec_bytes())
}

/// The head bytes pass content validation: a recognized magic number, and
/// for a PDF no encryption marker.
pub open spec fn file_content_ok(b: Seq<u8>) -> bool {
    &&& b.len() >= 4
    &&& (magic_is_pdf(b) || magic_is_png(b) || magic_is_jpeg(b))
    &&& (magic_is_pdf(b) ==> !has_encryption_marker(b))
}

/// The hard ceiling on input files, in bytes.
pub open spec fn spec_max_file_bytes() -> int {
    104857600
}

/// The size and type of the file are acceptable.
pub open spec fn file_upload_basic_ok(f: FileUpload) -> bool {
    f.file_size <= spec_max_file_bytes() && mime_supported(f.mime_type@)
}

/// A file to be uploaded, as validated at pipeline start.
#[derive(Debug)]
pub struct FileUpload {
    /// Path to the file to upload.
    pub file_path: String,
    /// File size in bytes.
    pub file_size: u64,
    /// MIME type of the file.
    pub mime_type: String,
    /// Remote file ID after upload.
    pub file_id: Option<String>,
    /// File upload status.
    pub upload_status: Option<String>,
    /// Whether the file passed validation.
    pub is_valid: bool,
}

impl FileUpload {
    /// Build and validate a `FileUpload` from what was read off the disk:
    /// the path, the size, and the first bytes of the content (up to 8 KiB).
    /// The MIME type is guessed from the path.
    pub fn from_parts(file_path: String, file_size: u64, head: &[u8]) -> (r: Result<
        FileUpload,
        Error,
    >)
        ensures
            r matches Ok(f) ==> f.file_path@ == file_path@ && f.file_size == file_size
                && f.mime_type@ == mime_for_path(file_path@) && f.file_id is None
                && f.upload_status is None && f.is_valid,
            r is Ok <==> file_size <= spec_max_file_bytes() && mime_supported(
                mime_for_path(file_path@),
            ) && file_content_ok(head@),
            r matches Err(e) ==> e is Validation,
    {
        let mime_type = guess_mime_type(file_path.as_str());
        let candidate = FileUpload {
            file_path,
            file_size,
            mime_type,
            file_id: None,
            upload_status: None,
            is_valid: false,
        };
        if let Err(e) = candidate.validate_file() {
            return Err(e);
        }
        if let Err(e) = candidate.validate_file_content(head) {
            return Err(e);
        }
        Ok(
            FileUpload {
                file_path: candidate.file_path,
                file_size: candidate.file_size,
                mime_type: candidate.mime_type,
                file_id: None,
                upload_status: None,
                is_valid: true,
            },
        )
    }

    /// Validate the size and type of the file.
    pub fn validate_file(&self) -> (r: Result<(), Error>)
        ensures
            r is Ok <==> file_upload_basic_ok(*self),
            r matches Err(e) ==> e is Validation,
    {
        if self.file_size > 104857600 {
            let mut m = String::from_str("File size (");
            m.append(crate::text::u64_to_string(self.file_size).as_str());
            m.append(" bytes) exceeds maximum allowed size (100 MB)");
            return Err(Error::Validation(m));
        }
        let mime = self.mime_type.as_str();
        if !(crate::text::str_eq(mime, "application/pdf") || crate::text::str_eq(
            mime,
            "image/png",
        ) || crate::text::str_eq(mime, "image/jpeg") || crate::text::str_eq(mime, "image/jpg")) {
            let mut m = String::from_str("Unsupported file format: ");
            m.append(mime);
            m.append(". Supported: pdf, png, jpg, jpeg");
            return Err(Error::Validation(m));
        }
        Ok(())
    }

    /// Validate the content of the file from its first bytes: the magic
    /// number must be one of PDF, PNG or JPEG, and a PDF must not carry an
    /// encryption marker.
    pub fn validate_file_content(&self, head: &[u8]) -> (r: Result<(), Error>)
        ensures
            r is Ok <==> file_content_ok(head@),
            r matches Err(e) ==> e is Validation,
    {
        if head.len() < 4 {
            return Err(Error::Validation(String::from_str("File too small to determine format")));
        }
        let b0 = head[0];
        let b1 = head[1];
        let b2 = head[2];
        let b3 = head[3];
        if b0 == 0x25 && b1 == 0x50 && b2 == 0x44 && b3 == 0x46 {
            check_pdf_password_protection(head)
        } else if b0 == 0x89 && b1 == 0x50 && b2 == 0x4E && b3 == 0x47 {
            Ok(())
        } else if b0 == 0xFF && b1 == 0xD8 && b2 == 0xFF {
            Ok(())
        } else {
            let mut m = String::from_str("File does not appear to be a valid PDF, PNG, or JPEG file: ");
            m.append(self.file_path.as_str());
            Err(Error::Validation(m))
        }
    }

    /// Set the file ID after a successful upload.
    pub fn set_file_id(&mut self, file_id: String)
        ensures
            final(self).file_id == Some(file_id),
            final(self).file_path == old(self).file_path,
            final(self).file_size == old(self).file_size,
            final(self).mime_type == old(self).mime_type,
            final(self).upload_status == old(self).upload_status,
            final(self).is_valid == old(self).is_valid,
    {
        self.file_id = Some(file_id);
    }

    /// Set the upload status; a value outside the documented set is ignored.
    pub fn set_upload_status(&mut self, status: String)
        ensures
            crate::files::status_value_ok(status@) ==> final(self).upload_status == Some(status),
            !crate::files::status_value_ok(status@) ==> final(self).upload_status == old(
                self,
            ).upload_status,
            final(self).file_path == old(self).file_path,
            final(self).file_size == old(self).file_size,
            final(self).mime_type == old(self).mime_type,
            final(self).file_id == old(self).file_id,
            final(self).is_valid == old(self).is_valid,
    {
        let st = status.as_str();
        if crate::text::str_eq(st, "uploaded") || crate::text::str_eq(st, "processing")
            || crate::text::str_eq(st, "processed") || crate::text::str_eq(st, "error") {
            self.upload_status = Some(status);
        }
    }

    /// The filename: what follows the last path separator, or a placeholder
    /// when that is empty.
    pub fn get_filename(&self) -> (r: String)
        ensures
            r@ == spec_filename(self.file_path@),
    {
        let path = self.file_path.as_str();
        let len = path.unicode_len();
        let mut start: usize = 0;
        let mut i: usize = 0;
        while i < len
            invariant
                start <= i <= len,
                len == path@.len(),
                path@ == self.file_path@,
                start == last_sep_end(self.file_path@.subrange(0, i as int)),
            decreases len - i,
        {
            let c = path.get_char(i);
            proof {
                lemma_last_sep_end_step(self.file_path@, i as int);
            }
            if c == '/' {
                start = i + 1;
            }
            i += 1;
        }
        proof {
            assert(self.file_path@.subrange(0, len as int) =~= self.file_path@);
        }
        if start >= len {
            proof {
                reveal_strlit("unknown");
            }
            String::from_str("unknown")
        } else {
            let name = path.substring_char(start, len);
            String::from_str(name)
        }
    }
}

/// Where the basename starts: one past the last separator, or zero.
pub open spec fn last_sep_end(p: Seq<char>) -> int
    decreases p.len(),
{
    if p.len() == 0 {
        0
    } else if p[p.len() - 1] == '/' {
        p.len() as int
    } else {
        last_sep_end(p.drop_last())
    }
}

/// The filename under a path: what follows the last separator, or the
/// placeholder when nothing does.
pub open spec fn spec_filename(p: Seq<char>) -> Seq<char> {
    if last_sep_end(p) >= p.len() {
        "unknown"@
    } else {
        p.subrange(last_sep_end(p), p.len() as int)
    }
}

/// Scanning one more character moves the basename start to just past it
/// exactly when it is a separator.
pub proof fn lemma_last_sep_end_step(p: Seq<char>, i: int)
    requires
        0 <= i < p.len(),
    ensures
        last_sep_end(p.subrange(0, i + 1)) == if p[i] == '/' {
            i + 1
        } else {
            last_sep_end(p.subrange(0, i))
        },
{
    let q = p.subrange(0, i + 1);
    assert(q[q.len() - 1] == p[i]);
    if p[i] != '/' {
        assert(q.drop_last() =~= p.subrange(0, i));
    }
}

/// Check whether a PDF head carries an encryption marker; such a file is
/// password-protected and is rejected before any upload.
pub fn check_pdf_password_protection(head: &[u8]) -> (r: Result<(), Error>)
    ensures
        r is Ok <==> !has_encryption_marker(head@),
        r matches Err(e) ==> e is Validation,
{
    if bytes_contain(head, "/Encrypt".as_bytes()) || bytes_contain(head, "/P -".as_bytes())
        || bytes_contain(head, "/U ".as_bytes()) || bytes_contain(head, "/O ".as_bytes())
        || bytes_contain(head, "/Filter/Standard".as_bytes()) {
        return Err(
            Error::Validation(
                String::from_str(
                    "Password-protected PDF detected. Please provide an unprotected PDF file.",
                ),
            ),
        );
    }
    Ok(())
}

} // verus!
