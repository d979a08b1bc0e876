//! The error taxonomy: every failure of the tool falls into one of six
//! variants, each with a fixed exit code, a stable category name, and a
//! user-facing message from which credential fragments are redacted.

use vstd::prelude::*;

use crate::text::{contains_seq, matches_at};

verus! {

/// A failure, categorized.  The payload is the message carried upward.
#[derive(Debug)]
pub enum Error {
    Validation(String),
    Io(String),
    Config(String),
    Api(String),
    Network(String),
    Internal(String),
}

impl Error {
    /// The process exit code assigned to this category.
    pub open spec fn spec_exit_code(&self) -> i32 {
        match self {
            Error::Validation(_) => 2,
            Error::Io(_) => 3,
            Error::Config(_) => 4,
            Error::Api(_) => 5,
            Error::Network(_) => 5,
            Error::Internal(_) => 5,
        }
    }

    /// Get the appropriate exit code for this error.
    pub fn exit_code(&self) -> (r: i32)
        ensures
            r == self.spec_exit_code(),
    {
        match self {
            Error::Validation(_) => 2,
            Error::Io(_) => 3,
            Error::Config(_) => 4,
            Error::Api(_) | Error::Network(_) | Error::Internal(_) => 5,
        }
    }

    /// The category name used in structured output.
    pub open spec fn spec_error_type(&self) -> Seq<char> {
        match self {
            Error::Validation(_) => "validation"@,
            Error::Io(_) => "file_io"@,
            Error::Config(_) => "api"@,
            Error::Api(_) => "api"@,
            Error::Network(_) => "network"@,
            Error::Internal(_) => "internal"@,
        }
    }

    /// Get the error type as string for structured output.
    pub fn error_type(&self) -> (r: &'static str)
        ensures
            r@ == self.spec_error_type(),
    {
        match self {
            Error::Validation(_) => "validation",
            Error::Io(_) => "file_io",
            Error::Config(_) => "api",
            Error::Api(_) => "api",
            Error::Network(_) => "network",
            Error::Internal(_) => "internal",
        }
    }

    /// The message carried by this error, whatever the category.
    pub open spec fn spec_message(&self) -> Seq<char> {
        match self {
            Error::Validation(m) => m@,
            Error::Io(m) => m@,
            Error::Config(m) => m@,
            Error::Api(m) => m@,
            Error::Network(m) => m@,
            Error::Internal(m) => m@,
        }
    }

    /// The user-facing message: a category label followed by the payload.
    pub open spec fn spec_user_message(&self) -> Seq<char> {
        match self {
            Error::Validation(m) => "Validation error: "@ + m@,
            Error::Io(m) => "File error: "@ + m@,
            Error::Config(m) => "Configuration error: "@ + m@,
            Error::Api(m) => "API error: "@ + m@,
            Error::Network(m) => "Network error: "@ + m@,
            Error::Internal(m) => "Internal error: "@ + m@,
        }
    }

    /// Get user-friendly error message.
    pub fn user_message(&self) -> (r: String)
        ensures
            r@ == self.spec_user_message(),
    {
        match self {
            Error::Validation(m) => String::from_str("Validation error: ").concat(m.as_str()),
            Error::Io(m) => String::from_str("File error: ").concat(m.as_str()),
            Error::Config(m) => String::from_str("Configuration error: ").concat(m.as_str()),
            Error::Api(m) => String::from_str("API error: ").concat(m.as_str()),
            Error::Network(m) => String::from_str("Network error: ").concat(m.as_str()),
            Error::Internal(m) => String::from_str("Internal error: ").concat(m.as_str()),
        }
    }

    /// The detail line used where a display form of the error is needed;
    /// it matches the user-facing message.
    pub fn to_string(&self) -> (r: String)
        ensures
            r@ == self.spec_user_message(),
    {
        self.user_message()
    }

    /// The JSON failure envelope for this error: its category, its
    /// user-facing message and its detail line, both redacted.
    pub open spec fn spec_json_output(&self) -> Seq<char> {
        "{\"success\":false,\"error\":{\"type\":"@ + crate::json::json_quoted(
            self.spec_error_type(),
        ) + ",\"message\":"@ + crate::json::json_quoted(redact_chars(self.spec_user_message()))
            + ",\"details\":"@ + crate::json::json_quoted(redact_chars(self.spec_user_message()))
            + "}}"@
    }

    /// Format the error as the JSON failure envelope; credential fragments
    /// are masked before anything reaches the envelope.
    pub fn to_json_output(&self) -> (r: String)
        ensures
            r@ == self.spec_json_output(),
    {
        let mut out = String::from_str("{\"success\":false,\"error\":{\"type\":");
        out.append(crate::json::json_quote(self.error_type()).as_str());
        out.append(",\"message\":");
        let message = redact_secrets(self.user_message().as_str());
        out.append(crate::json::json_quote(message.as_str()).as_str());
        out.append(",\"details\":");
        out.append(crate::json::json_quote(message.as_str()).as_str());
        out.append("}}");
        out
    }

    /// Create an error from an HTTP status code: 400 is the caller's fault,
    /// other client and all server statuses are the API's, anything outside
    /// the error ranges is unexpected.
    pub fn from_http_status(status: u16, message: String) -> (r: Error)
        ensures
            400 == status ==> r is Validation,
            401 <= status <= 599 && status != 400 ==> r is Api,
            !(400 <= status <= 599) ==> r is Internal,
            r.spec_message() == spec_status_message(status as nat, message@),
    {
        let code = crate::text::u64_to_string(status as u64);
        if status == 400 {
            let m = String::from_str("Client error (").concat(code.as_str()).concat(
                "): ",
            ).concat(message.as_str());
            Error::Validation(m)
        } else if 401 <= status && status <= 499 {
            let m = String::from_str("Client error (").concat(code.as_str()).concat(
                "): ",
            ).concat(message.as_str());
            Error::Api(m)
        } else if 500 <= status && status <= 599 {
            let m = String::from_str("Server error (").concat(code.as_str()).concat(
                "): ",
            ).concat(message.as_str());
            Error::Api(m)
        } else {
            let m = String::from_str("Unexpected HTTP status (").concat(code.as_str()).concat(
                "): ",
            ).concat(message.as_str());
            Error::Internal(m)
        }
    }
}

/// The message text attached to an error built from an HTTP status.
pub open spec fn spec_status_message(status: nat, message: Seq<char>) -> Seq<char> {
    if status == 400 {
        "Client error ("@ + crate::text::dec_chars(status) + "): "@ + message
    } else if 401 <= status <= 499 {
        "Client error ("@ + crate::text::dec_chars(status) + "): "@ + message
    } else if 500 <= status <= 599 {
        "Server error ("@ + crate::text::dec_chars(status) + "): "@ + message
    } else {
        "Unexpected HTTP status ("@ + crate::text::dec_chars(status) + "): "@ + message
    }
}

// ---------------------------------------------------------------------------
// Redaction
// ---------------------------------------------------------------------------

/// The credential prefix that must never reach a sink unmasked.
pub open spec fn redact_marker() -> Seq<char> {
    seq!['s', 'k', '-']
}

/// What the prefix is replaced with: the prefix itself, then a mask in
/// place of whatever followed it.
pub open spec fn redact_mask() -> Seq<char> {
    seq!['s', 'k', '-', '*', '*', '*']
}

/// The redacted form of a text: every occurrence of the credential prefix
/// is followed by a mask, scanning left to right.
pub open spec fn redact_chars(s: Seq<char>) -> Seq<char>
    decreases s.len(),
{
    if s.len() >= 3 && s.subrange(0, 3) == redact_marker() {
        redact_mask() + redact_chars(s.skip(3))
    } else if s.len() == 0 {
        s
    } else {
        seq![s[0]] + redact_chars(s.skip(1))
    }
}

/// Mask every occurrence of the credential prefix in a text.
pub fn redact_secrets(s: &str) -> (r: String)
    ensures
        r@ == redact_chars(s@),
{
    proof {
        reveal_strlit("sk-***");
    }
    let len = s.unicode_len();
    let mut out = String::new();
    let mut i: usize = 0;
    proof {
        assert(s@.skip(0) =~= s@);
    }
    while i < len
        invariant
            i <= len,
            len == s@.len(),
            out@ + redact_chars(s@.skip(i as int)) == redact_chars(s@),
            "sk-***"@ =~= redact_mask(),
        decreases len - i,
    {
        let ghost tail = s@.skip(i as int);
        if len - i > 2 && s.get_char(i) == 's' && s.get_char(i + 1) == 'k' && s.get_char(i + 2)
            == '-' {
            proof {
                assert(tail.len() >= 3);
                assert(tail.subrange(0, 3) =~= redact_marker());
                assert(redact_chars(tail) == redact_mask() + redact_chars(tail.skip(3)));
                assert(tail.skip(3) =~= s@.skip(i + 3));
            }
            out.append("sk-***");
            i += 3;
        } else {
            proof {
                assert(tail.len() > 0);
                if tail.len() >= 3 && tail.subrange(0, 3) == redact_marker() {
                    assert(tail[0] == 's' && tail[1] == 'k' && tail[2] == '-');
                    assert(s@[i as int] == 's' && s@[i + 1] == 'k' && s@[i + 2] == '-');
                    assert(false);
                }
                assert(redact_chars(tail) == seq![tail[0]] + redact_chars(tail.skip(1)));
                assert(tail.skip(1) =~= s@.skip(i + 1));
            }
            let piece = s.substring_char(i, i + 1);
            assert(piece@ =~= seq![s@[i as int]]);
            out.append(piece);
            i += 1;
        }
    }
    proof {
        assert(s@.skip(len as int) =~= Seq::<char>::empty());
        assert(redact_chars(s@.skip(len as int)) =~= Seq::<char>::empty());
        assert(out@ =~= out@ + redact_chars(s@.skip(len as int)));
    }
    out
}

/// Redaction never shortens a text, and at most doubles it.
proof fn lemma_redact_len(s: Seq<char>)
    ensures
        s.len() <= redact_chars(s).len() <= 2 * s.len(),
    decreases s.len(),
{
    if s.len() >= 3 && s.subrange(0, 3) == redact_marker() {
        lemma_redact_len(s.skip(3));
    } else if s.len() > 0 {
        lemma_redact_len(s.skip(1));
    }
}

/// The first three characters of a redacted text are those of the text.
proof fn lemma_redact_prefix(s: Seq<char>)
    ensures
        forall|j: int| 0 <= j < 3 && j < s.len() ==> redact_chars(s)[j] == s[j],
    decreases s.len(),
{
    lemma_redact_len(s);
    if s.len() >= 3 && s.subrange(0, 3) == redact_marker() {
        assert forall|j: int| 0 <= j < 3 && j < s.len() implies redact_chars(s)[j] == s[j] by {
            assert(redact_chars(s)[j] == redact_mask()[j]);
            assert(s.subrange(0, 3)[j] == s[j]);
        };
    } else if s.len() > 0 {
        lemma_redact_prefix(s.skip(1));
        assert forall|j: int| 0 <= j < 3 && j < s.len() implies redact_chars(s)[j] == s[j] by {
            if j > 0 {
                assert(redact_chars(s)[j] == redact_chars(s.skip(1))[j - 1]);
                assert(s.skip(1)[j - 1] == s[j]);
            }
        };
    }
}

/// Wherever the credential prefix occurs in a redacted text, the mask
/// follows it immediately: nothing of what followed the prefix in the
/// original can be read off the redacted text.
pub proof fn lemma_redaction_marks(s: Seq<char>)
    ensures
        forall|i: int|
            matches_at(redact_chars(s), redact_marker(), i) ==> i + 6 <= redact_chars(s).len()
                && redact_chars(s).subrange(i + 3, i + 6) =~= seq!['*', '*', '*'],
    decreases s.len(),
{
    let out = redact_chars(s);
    if s.len() >= 3 && s.subrange(0, 3) == redact_marker() {
        let rest = redact_chars(s.skip(3));
        lemma_redaction_marks(s.skip(3));
        assert forall|i: int| matches_at(out, redact_marker(), i) implies i + 6 <= out.len()
            && out.subrange(i + 3, i + 6) =~= seq!['*', '*', '*'] by {
            assert(out == redact_mask() + rest);
            if i == 0 {
                assert(out.subrange(3, 6) =~= seq!['*', '*', '*']);
            } else if i <= 5 {
                assert(out.subrange(i, i + 3)[0] == out[i]);
                assert(out[i] != 's');
                assert(redact_marker()[0] == 's');
                assert(false);
            } else {
                assert(out.subrange(i, i + 3) =~= rest.subrange(i - 6, i - 3));
                assert(matches_at(rest, redact_marker(), i - 6));
                assert(out.subrange(i + 3, i + 6) =~= rest.subrange(i - 3, i));
                assert(rest.subrange(i - 3, i) =~= seq!['*', '*', '*']);
            }
        };
    } else if s.len() == 0 {
    } else {
        let tail = s.skip(1);
        let rest = redact_chars(tail);
        lemma_redaction_marks(tail);
        lemma_redact_len(tail);
        lemma_redact_prefix(tail);
        assert forall|i: int| matches_at(out, redact_marker(), i) implies i + 6 <= out.len()
            && out.subrange(i + 3, i + 6) =~= seq!['*', '*', '*'] by {
            assert(out == seq![s[0]] + rest);
            if i == 0 {
                assert(out[0] == 's' && out[1] == 'k' && out[2] == '-') by {
                    assert(out.subrange(0, 3)[0] == out[0]);
                    assert(out.subrange(0, 3)[1] == out[1]);
                    assert(out.subrange(0, 3)[2] == out[2]);
                };
                assert(s[0] == 's');
                assert(rest.len() >= 2);
                if tail.len() == 0 {
                    assert(false);
                }
                if tail.len() == 1 {
                    assert(rest == seq![tail[0]] + redact_chars(tail.skip(1)));
                    assert(tail.skip(1) =~= Seq::<char>::empty());
                    assert(rest.len() == 1);
                    assert(false);
                }
                assert(rest[0] == tail[0] && rest[1] == tail[1]);
                assert(s[1] == tail[0] && s[2] == tail[1]);
                assert(s[1] == 'k' && s[2] == '-');
                assert(s.subrange(0, 3) =~= redact_marker());
                assert(false);
            } else {
                assert(out.subrange(i, i + 3) =~= rest.subrange(i - 1, i + 2));
                assert(matches_at(rest, redact_marker(), i - 1));
                assert(out.subrange(i + 3, i + 6) =~= rest.subrange(i + 2, i + 5));
                assert(rest.subrange(i + 2, i + 5) =~= seq!['*', '*', '*']);
            }
        };
    }
}

/// A redacted text satisfies the mask-following property that the JSON
/// escaper preserves.
pub proof fn lemma_redacted_text_masked(s: Seq<char>)
    ensures
        crate::json::mask_follows_marker(redact_chars(s)),
{
    lemma_redaction_marks(s);
}

/// What the JSON failure envelope embeds for a message is masked all the
/// way to the emitted bytes: the field text is the escape of the redacted
/// message, and wherever the credential prefix occurs in it, the mask
/// follows.
pub proof fn lemma_envelope_field_masked(s: Seq<char>)
    ensures
        crate::json::mask_follows_marker(crate::json::json_escaped(redact_chars(s))),
{
    lemma_redacted_text_masked(s);
    crate::json::lemma_escape_keeps_mask(redact_chars(s));
}

/// The human-mode error line keeps the redaction guarantee: wherever the
/// credential prefix occurs in it, the mask follows.  The label ahead of
/// the message cannot take part in an occurrence, for it holds none of the
/// prefix's characters.
pub proof fn lemma_error_line_marks(message: Seq<char>)
    ensures
        forall|i: int|
            matches_at("Error: "@ + redact_chars(message), redact_marker(), i) ==> ("Error: "@
                + redact_chars(message)).subrange(i + 3, i + 6) =~= seq!['*', '*', '*'],
{
    reveal_strlit("Error: ");
    let line = "Error: "@ + redact_chars(message);
    let rest = redact_chars(message);
    lemma_redaction_marks(message);
    assert forall|i: int| matches_at(line, redact_marker(), i) implies line.subrange(i + 3, i + 6)
        =~= seq!['*', '*', '*'] by {
        if i < 7 {
            assert(line.subrange(i, i + 3)[0] == line[i]);
            assert(line[i] != 's');
            assert(redact_marker()[0] == 's');
            assert(false);
        } else {
            assert(line.subrange(i, i + 3) =~= rest.subrange(i - 7, i - 4));
            assert(matches_at(rest, redact_marker(), i - 7));
            assert(line.subrange(i + 3, i + 6) =~= rest.subrange(i - 4, i - 1));
            assert(rest.subrange(i - 4, i - 1) =~= seq!['*', '*', '*']);
        }
    };
}

} // verus!
