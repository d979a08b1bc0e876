//! The error payload of the remote API: what a non-2xx response carries,
//! and the internal error value built from it, with redaction applied to
//! everything that reaches a log or a user.

use vstd::prelude::*;

use crate::error::{redact_chars, redact_secrets, Error};

verus! {

/// API error response from the remote service.
#[derive(Debug)]
pub struct APIErrorResponse {
    pub error: String,
    pub code: Option<i32>,
    pub details: Option<String>,
}

impl APIErrorResponse {
    /// Validate the API error response.
    pub fn validate(&self) -> (r: Result<(), Error>)
        ensures
            r is Ok <==> self.error@.len() > 0,
            r matches Err(e) ==> e is Validation,
    {
        if self.error.as_str().unicode_len() == 0 {
            return Err(Error::Validation(String::from_str("Error message cannot be empty")));
        }
        Ok(())
    }
}

/// The category name assigned to a remote error code.
pub open spec fn spec_category_for_code(code: Option<i32>) -> Seq<char> {
    match code {
        Some(c) => if c == 400 {
            "validation"@
        } else if 401 <= c <= 404 {
            "api"@
        } else if c == 429 {
            "api"@
        } else if c == 500 {
            "api"@
        } else if 502 <= c <= 503 {
            "network"@
        } else {
            "api"@
        },
        None => "api"@,
    }
}

/// The exit code the tool assigns to a category name.
pub open spec fn spec_category_exit_code(t: Seq<char>) -> i32 {
    if t == "validation"@ {
        2
    } else if t == "file_io"@ {
        3
    } else if t == "api"@ {
        4
    } else {
        5
    }
}

/// Internal API error structure.
#[derive(Debug)]
pub struct APIError {
    error_type: String,
    message: String,
    details: Option<String>,
    code: Option<i32>,
}

impl APIError {
    /// The category name this error carries.
    pub closed spec fn spec_error_type(&self) -> Seq<char> {
        self.error_type@
    }

    /// The message this error carries.
    pub closed spec fn spec_message(&self) -> Seq<char> {
        self.message@
    }

    /// The details this error carries, as their text.
    pub closed spec fn spec_details(&self) -> Option<Seq<char>> {
        match self.details {
            Some(d) => Some(d@),
            None => None,
        }
    }

    /// The remote code this error carries.
    pub closed spec fn spec_code(&self) -> Option<i32> {
        self.code
    }

    /// Create a new API error.
    pub fn new(error_type: String, message: String, details: Option<String>) -> (r: APIError)
        ensures
            r.spec_error_type() == error_type@,
            r.spec_message() == message@,
            r.spec_details() == (match details {
                Some(d) => Some(d@),
                None => None::<Seq<char>>,
            }),
            r.spec_code() is None,
    {
        APIError { error_type, message, details, code: None }
    }

    /// Build the internal error from a remote error response, categorizing
    /// by its code.
    pub fn from_response(response: APIErrorResponse) -> (r: APIError)
        ensures
            r.spec_error_type() == spec_category_for_code(response.code),
            r.spec_message() == response.error@,
            r.spec_details() == (match response.details {
                Some(d) => Some(d@),
                None => None::<Seq<char>>,
            }),
            r.spec_code() == response.code,
    {
        let error_type = match response.code {
            Some(c) => {
                if c == 400 {
                    String::from_str("validation")
                } else if 401 <= c && c <= 404 {
                    String::from_str("api")
                } else if c == 429 {
                    String::from_str("api")
                } else if c == 500 {
                    String::from_str("api")
                } else if 502 <= c && c <= 503 {
                    String::from_str("network")
                } else {
                    String::from_str("api")
                }
            },
            None => String::from_str("api"),
        };
        APIError { error_type, message: response.error, details: response.details, code: response.code }
    }

    /// Get the error message.
    pub fn message(&self) -> (r: &str)
        ensures
            r@ == self.spec_message(),
    {
        self.message.as_str()
    }

    /// Get the error code.
    pub fn error_code(&self) -> (r: Option<i32>)
        ensures
            r == self.spec_code(),
    {
        self.code
    }

    /// Get the error details.
    pub fn details(&self) -> (r: Option<&str>)
        ensures
            (r is Some) == (self.spec_details() is Some),
            r matches Some(d) ==> (self.spec_details() matches Some(s) && d@ == s),
    {
        match &self.details {
            Some(d) => Some(d.as_str()),
            None => None,
        }
    }

    /// Get the error type.
    pub fn error_type(&self) -> (r: &str)
        ensures
            r@ == self.spec_error_type(),
    {
        self.error_type.as_str()
    }

    /// Get the exit code that this category carries.
    pub fn exit_code(&self) -> (r: i32)
        ensures
            r == spec_category_exit_code(self.spec_error_type()),
    {
        let t = self.error_type.as_str();
        if crate::text::str_eq(t, "validation") {
            2
        } else if crate::text::str_eq(t, "file_io") {
            3
        } else if crate::text::str_eq(t, "api") {
            4
        } else {
            5
        }
    }

    /// The log line for this error, with credential fragments masked.
    pub closed spec fn spec_log_string(&self) -> Seq<char> {
        redact_chars("["@ + self.error_type@ + "] "@ + self.message@) + (match self.details {
            Some(d) => " ("@ + redact_chars(d@) + ")"@,
            None => Seq::<char>::empty(),
        })
    }

    /// The log line, stated over the readable views of the error.
    pub open spec fn spec_log_string_of(
        error_type: Seq<char>,
        message: Seq<char>,
        details: Option<Seq<char>>,
    ) -> Seq<char> {
        redact_chars("["@ + error_type + "] "@ + message) + (match details {
            Some(d) => " ("@ + redact_chars(d) + ")"@,
            None => Seq::<char>::empty(),
        })
    }

    /// Format for logging; any credential fragment is masked first.
    pub fn to_log_string(&self) -> (r: String)
        ensures
            r@ == self.spec_log_string(),
            r@ == Self::spec_log_string_of(
                self.spec_error_type(),
                self.spec_message(),
                self.spec_details(),
            ),
    {
        let mut base = String::from_str("[");
        base.append(self.error_type.as_str());
        base.append("] ");
        base.append(self.message.as_str());
        let mut out = redact_secrets(base.as_str());
        match &self.details {
            Some(d) => {
                out.append(" (");
                out.append(redact_secrets(d.as_str()).as_str());
                out.append(")");
            },
            None => {},
        }
        out
    }

    /// Format for user display; any credential fragment is masked.
    pub fn to_user_string(&self) -> (r: String)
        ensures
            r@ == redact_chars(self.spec_message()),
    {
        redact_secrets(self.message.as_str())
    }
}

impl From<APIErrorResponse> for APIError {
    /// The conversion used by callers that hold a parsed error response;
    /// the categorization itself is `from_response`.
    fn from(response: APIErrorResponse) -> (r: Self) {
        Self::from_response(response)
    }
}

impl vstd::std_specs::convert::FromSpecImpl<APIErrorResponse> for APIError {
    /// The result holds freshly built strings, which a specification-level
    /// construction cannot name; the contract lives on `from_response`.
    open spec fn obeys_from_spec() -> bool {
        false
    }

    closed spec fn from_spec(v: APIErrorResponse) -> APIError {
        APIError { error_type: v.error, message: v.error, details: v.details, code: v.code }
    }
}

} // verus!
