//! API credentials: the bearer secret and the base URL of the service,
//! their validation, and the redacted form used whenever a credential is
//! shown to an operator.

use vstd::prelude::*;

use crate::error::Error;
use crate::text::{contains_seq, str_contains, str_eq};

verus! {

/// The scheme of `s` parsed as an absolute URL, lower-cased; `None` when
/// `s` does not parse as one.
pub uninterp spec fn url_scheme_of(s: Seq<char>) -> Option<Seq<char>>;

/// Relies on `url::Url::parse` and `url::Url::scheme`: whether a string
/// parses as an absolute URL, and its scheme, depend on the string alone.
#[verifier::external_body]
pub fn parse_url_scheme(s: &str) -> (r: Option<String>)
    ensures
        (r is Some) == (url_scheme_of(s@) is Some),
        r matches Some(t) ==> (url_scheme_of(s@) matches Some(u) && t@ == u),
{
    match url::Url::parse(s) {
        Ok(u) => Some(u.scheme().to_string()),
        Err(_) => None,
    }
}

/// A character of the ASCII whitespace class.
pub open spec fn is_space_char(c: char) -> bool {
    c == ' ' || c == '\t' || c == '\n' || c == '\r' || c == (11u8 as char) || c == (12u8 as char)
}

/// A usable secret: non-empty and free of whitespace.
pub open spec fn api_key_ok(k: Seq<char>) -> bool {
    k.len() > 0 && forall|i: int| 0 <= i < k.len() ==> !is_space_char(k[i])
}

/// A usable base URL: parses as an absolute URL whose scheme is https.
pub open spec fn base_url_ok(u: Seq<char>) -> bool {
    url_scheme_of(u) == Some("https"@)
}

/// API credentials: the key and base URL a run will use.
#[derive(Debug)]
pub struct APICredentials {
    /// The API key.
    pub api_key: String,
    /// The API base URL.
    pub api_base_url: String,
    /// Whether the credentials passed validation.
    pub is_valid: bool,
}

/// The redacted form of a key: its first four characters and a mask when it
/// is long enough to reveal that much, a bare mask otherwise.
pub open spec fn spec_redacted_key(k: Seq<char>) -> Seq<char> {
    if k.len() > 8 {
        k.subrange(0, 4) + "***"@
    } else {
        "***"@
    }
}

impl APICredentials {
    /// Create new API credentials; they are validated before use.
    pub fn new(api_key: String, api_base_url: String) -> (r: Result<APICredentials, Error>)
        ensures
            r is Ok <==> api_key_ok(api_key@) && base_url_ok(api_base_url@),
            r matches Ok(c) ==> c.api_key@ == api_key@ && c.api_base_url@ == api_base_url@
                && c.is_valid,
            r matches Err(e) ==> e is Config,
    {
        let credentials = APICredentials { api_key, api_base_url, is_valid: false };
        match credentials.validate() {
            Ok(()) => Ok(
                APICredentials {
                    api_key: credentials.api_key,
                    api_base_url: credentials.api_base_url,
                    is_valid: true,
                },
            ),
            Err(e) => Err(e),
        }
    }

    /// Validate credentials: the key is non-empty and free of whitespace,
    /// the base URL parses and uses https.
    pub fn validate(&self) -> (r: Result<(), Error>)
        ensures
            r is Ok <==> api_key_ok(self.api_key@) && base_url_ok(self.api_base_url@),
            r matches Err(e) ==> e is Config,
    {
        let key = self.api_key.as_str();
        let key_len = key.unicode_len();
        if key_len == 0 {
            return Err(Error::Config(String::from_str("API key must not be empty")));
        }
        let mut i: usize = 0;
        while i < key_len
            invariant
                i <= key_len,
                key@ == self.api_key@,
                key_len == self.api_key@.len(),
                forall|k: int| 0 <= k < i ==> !is_space_char(self.api_key@[k]),
            decreases key_len - i,
        {
            let c = key.get_char(i);
            if c == ' ' || c == '\t' || c == '\n' || c == '\r' || c == (11u8 as char) || c == (
            12u8 as char) {
                return Err(Error::Config(String::from_str("API key must not contain whitespace")));
            }
            i += 1;
        }
        match parse_url_scheme(self.api_base_url.as_str()) {
            None => Err(Error::Config(String::from_str("API base URL must be a valid URL"))),
            Some(scheme) => {
                if str_eq(scheme.as_str(), "https") {
                    Ok(())
                } else {
                    Err(Error::Config(String::from_str("API base URL must use HTTPS")))
                }
            },
        }
    }

    /// Get the authorization header value.
    pub fn get_auth_header(&self) -> (r: String)
        ensures
            r@ == "Bearer "@ + self.api_key@,
    {
        String::from_str("Bearer ").concat(self.api_key.as_str())
    }

    /// Check whether the credentials point at the expected OCR service.
    pub fn is_mistral_api(&self) -> (r: bool)
        ensures
            r == contains_seq(self.api_base_url@, "mistral"@),
    {
        str_contains(self.api_base_url.as_str(), "mistral")
    }

    /// Redact the API key for logging: at most its first four characters
    /// leave the process.
    pub fn redacted_key(&self) -> (r: String)
        ensures
            r@ == spec_redacted_key(self.api_key@),
    {
        let key = self.api_key.as_str();
        if key.unicode_len() > 8 {
            let prefix = key.substring_char(0, 4);
            String::from_str(prefix).concat("***")
        } else {
            String::from_str("***")
        }
    }

    /// Create credentials from a configuration.
    pub fn from_config(config: &crate::config::Config) -> (r: Result<APICredentials, Error>)
        ensures
            r is Ok <==> api_key_ok(config.api_key@) && base_url_ok(config.api_base_url@),
            r matches Ok(c) ==> c.api_key@ == config.api_key@ && c.api_base_url@
                == config.api_base_url@ && c.is_valid,
            r matches Err(e) ==> e is Config,
    {
        Self::new(config.api_key.clone(), config.api_base_url.clone())
    }
}

impl Clone for APICredentials {
    /// A field-for-field copy of the credentials.
    fn clone(&self) -> (r: Self)
        ensures
            r.api_key@ == self.api_key@,
            r.api_base_url@ == self.api_base_url@,
            r.is_valid == self.is_valid,
    {
        APICredentials {
            api_key: self.api_key.clone(),
            api_base_url: self.api_base_url.clone(),
            is_valid: self.is_valid,
        }
    }
}

/// The redacted key of a long secret is too short to contain the secret:
/// nothing that prints only the redacted form can leak the key.
pub proof fn lemma_redacted_key_hides_secret(k: Seq<char>)
    requires
        k.len() > 8,
    ensures
        !contains_seq(spec_redacted_key(k), k),
{
    reveal_strlit("***");
    assert(spec_redacted_key(k).len() == 7);
    assert forall|i: int| !crate::text::matches_at(spec_redacted_key(k), k, i) by {
        assert(k.len() > spec_redacted_key(k).len());
    };
}

} // verus!
