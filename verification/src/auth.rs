//! Authentication for the OCR service: the headers every request carries.
//!
//! Requests authenticate with a bearer token; the header set also announces
//! the accepted response encodings.  The header values are plain pairs here;
//! the network shell turns them into its wire representation.

use vstd::prelude::*;

use crate::credentials::APICredentials;
use crate::error::Error;

verus! {

/// A character that may stand in an HTTP header value.
pub open spec fn header_char_ok(c: char) -> bool {
    33 <= (c as u32) <= 126
}

/// A key whose bearer header is a valid header value.
pub open spec fn key_header_ok(k: Seq<char>) -> bool {
    forall|i: int| 0 <= i < k.len() ==> header_char_ok(#[trigger] k[i])
}

/// Authentication handler for the OCR service API.
#[derive(Debug)]
pub struct AuthHandler {
    credentials: APICredentials,
}

impl AuthHandler {
    /// The credentials this handler carries.
    pub closed spec fn spec_credentials(&self) -> APICredentials {
        self.credentials
    }

    /// Create a new authentication handler.
    pub fn new(credentials: APICredentials) -> (r: AuthHandler)
        ensures
            r.spec_credentials() == credentials,
    {
        AuthHandler { credentials }
    }

    /// Header pairs for JSON API requests: authorization, content type and
    /// the accepted response encodings.  A key that cannot stand in a
    /// header value is refused.
    pub fn get_auth_headers(&self) -> (r: Result<Vec<(String, String)>, Error>)
        ensures
            r is Ok <==> key_header_ok(self.spec_credentials().api_key@),
            r matches Ok(v) ==> v@.len() == 3 && v@[0].0@ == "authorization"@ && v@[0].1@
                == "Bearer "@ + self.spec_credentials().api_key@ && v@[1].0@ == "content-type"@
                && v@[1].1@ == "application/json"@ && v@[2].0@ == "accept-encoding"@ && v@[2].1@
                == "gzip, deflate, br"@,
            r matches Err(e) ==> e is Config,
    {
        if !self.key_fits_header() {
            return Err(Error::Config(String::from_str("Invalid API key format")));
        }
        let mut v: Vec<(String, String)> = Vec::new();
        v.push((String::from_str("authorization"), self.credentials.get_auth_header()));
        v.push((String::from_str("content-type"), String::from_str("application/json")));
        v.push((String::from_str("accept-encoding"), String::from_str("gzip, deflate, br")));
        Ok(v)
    }

    /// Header pairs for multipart uploads: authorization and the accepted
    /// response encodings; the content type carries the boundary and is set
    /// where the body is framed.
    pub fn get_multipart_headers(&self) -> (r: Result<Vec<(String, String)>, Error>)
        ensures
            r is Ok <==> key_header_ok(self.spec_credentials().api_key@),
            r matches Ok(v) ==> v@.len() == 2 && v@[0].0@ == "authorization"@ && v@[0].1@
                == "Bearer "@ + self.spec_credentials().api_key@ && v@[1].0@ == "accept-encoding"@
                && v@[1].1@ == "gzip, deflate, br"@,
            r matches Err(e) ==> e is Config,
    {
        if !self.key_fits_header() {
            return Err(Error::Config(String::from_str("Invalid API key format")));
        }
        let mut v: Vec<(String, String)> = Vec::new();
        v.push((String::from_str("authorization"), self.credentials.get_auth_header()));
        v.push((String::from_str("accept-encoding"), String::from_str("gzip, deflate, br")));
        Ok(v)
    }

    /// Whether every character of the key may stand in a header value.
    fn key_fits_header(&self) -> (r: bool)
        ensures
            r == key_header_ok(self.spec_credentials().api_key@),
    {
        let key = self.credentials.api_key.as_str();
        let len = key.unicode_len();
        let mut i: usize = 0;
        while i < len
            invariant
                i <= len,
                key@ == self.spec_credentials().api_key@,
                len == key@.len(),
                forall|k: int| 0 <= k < i ==> header_char_ok(#[trigger] key@[k]),
            decreases len - i,
        {
            let c = key.get_char(i);
            let cv = c as u32;
            if cv < 33 || cv > 126 {
                return false;
            }
            i += 1;
        }
        true
    }

    /// Validate the API key format.
    pub fn validate_api_key(&self) -> (r: Result<(), Error>)
        ensures
            r is Ok <==> crate::credentials::api_key_ok(self.spec_credentials().api_key@)
                && crate::credentials::base_url_ok(self.spec_credentials().api_base_url@),
            r matches Err(e) ==> e is Config,
    {
        self.credentials.validate()
    }

    /// Get the redacted key for logging.
    pub fn redacted_key(&self) -> (r: String)
        ensures
            r@ == crate::credentials::spec_redacted_key(self.spec_credentials().api_key@),
    {
        self.credentials.redacted_key()
    }

    /// Check whether this handler points at the expected OCR service.
    pub fn is_mistral_endpoint(&self) -> (r: bool)
        ensures
            r == crate::text::contains_seq(self.spec_credentials().api_base_url@, "mistral"@),
    {
        self.credentials.is_mistral_api()
    }
}

} // verus!
