//! The OCR endpoint: request building and response validation.
//!
//! A file that was uploaded is referenced by its identifier in a JSON body
//! posted to the OCR endpoint; the response carries one entry per page whose
//! markdown bodies, joined by a blank line, form the extracted text.

use vstd::prelude::*;

use crate::error::Error;
use crate::json::{json_quote, json_quoted};

verus! {

/// OCR request structure.
#[derive(Debug)]
pub struct OCRRequest {
    pub model: String,
    pub document: DocumentChunk,
}

/// Document chunk structure for OCR.
#[derive(Debug)]
pub struct DocumentChunk {
    pub chunk_type: String,
    pub file_id: String,
}

/// Page dimensions for OCR response.
#[derive(Debug)]
pub struct Dimensions {
    pub dpi: i32,
    pub height: i32,
    pub width: i32,
}

/// Page structure for OCR response.
#[derive(Debug)]
pub struct Page {
    pub index: i32,
    pub markdown: String,
    pub images: Vec<String>,
    pub dimensions: Dimensions,
}

/// Usage information for OCR response.
#[derive(Debug)]
pub struct UsageInfo {
    pub pages_processed: i32,
    pub doc_size_bytes: i32,
}

/// OCR response structure.
#[derive(Debug)]
pub struct OCRResponse {
    pub pages: Vec<Page>,
    pub model: String,
    pub document_annotation: Option<String>,
    pub usage_info: UsageInfo,
}

/// A well-formed OCR request: the fixed model name, the fixed document kind,
/// and a non-empty file identifier.
pub open spec fn ocr_request_ok(r: OCRRequest) -> bool {
    &&& r.document.file_id@.len() > 0
    &&& r.model@ == "mistral-ocr-latest"@
    &&& r.document.chunk_type@ == "file"@
}

impl OCRRequest {
    /// Create a new OCR request for an uploaded file.
    pub fn new(file_id: String) -> (r: OCRRequest)
        ensures
            r.document.file_id == file_id,
            r.model@ == "mistral-ocr-latest"@,
            r.document.chunk_type@ == "file"@,
    {
        OCRRequest {
            model: String::from_str("mistral-ocr-latest"),
            document: DocumentChunk { chunk_type: String::from_str("file"), file_id },
        }
    }

    /// Validate the OCR request.
    pub fn validate(&self) -> (r: Result<(), Error>)
        ensures
            r is Ok <==> ocr_request_ok(*self),
            r matches Err(e) ==> e is Validation,
    {
        if self.document.file_id.as_str().unicode_len() == 0 {
            return Err(Error::Validation(String::from_str("File ID cannot be empty")));
        }
        if !crate::text::str_eq(self.model.as_str(), "mistral-ocr-latest") {
            return Err(Error::Validation(String::from_str("Invalid model for OCR processing")));
        }
        if !crate::text::str_eq(self.document.chunk_type.as_str(), "file") {
            return Err(
                Error::Validation(String::from_str("Invalid document type for OCR processing")),
            );
        }
        Ok(())
    }

    /// The JSON body posted to the OCR endpoint.
    pub open spec fn spec_json_body(&self) -> Seq<char> {
        "{\"model\":"@ + json_quoted(self.model@) + ",\"document\":{\"type\":"@ + json_quoted(
            self.document.chunk_type@,
        ) + ",\"file_id\":"@ + json_quoted(self.document.file_id@) + "}}"@
    }

    /// Render the JSON body posted to the OCR endpoint.  The body carries the
    /// file identifier exactly as this request holds it.
    pub fn to_json_body(&self) -> (r: String)
        ensures
            r@ == self.spec_json_body(),
    {
        let mut out = String::from_str("{\"model\":");
        out.append(json_quote(self.model.as_str()).as_str());
        out.append(",\"document\":{\"type\":");
        out.append(json_quote(self.document.chunk_type.as_str()).as_str());
        out.append(",\"file_id\":");
        out.append(json_quote(self.document.file_id.as_str()).as_str());
        out.append("}}");
        out
    }
}

/// One page of the response is well-formed at its ordinal: the reported index
/// equals the position and both dimensions are positive.
pub open spec fn page_ok(p: Page, i: int) -> bool {
    &&& p.index == i
    &&& p.dimensions.width > 0
    &&& p.dimensions.height > 0
}

/// A well-formed OCR response, every invariant the remote must honour.
pub open spec fn ocr_response_ok(r: OCRResponse) -> bool {
    &&& r.model@.len() > 0
    &&& r.model@.len() >= 8 && r.model@.subrange(0, 8) == "mistral-"@
    &&& r.pages@.len() > 0
    &&& forall|i: int| 0 <= i < r.pages@.len() ==> page_ok(#[trigger] r.pages@[i], i)
    &&& r.usage_info.pages_processed == r.pages@.len()
    &&& r.usage_info.doc_size_bytes > 0
}

/// The markdown bodies of the pages joined by one blank line.
pub open spec fn joined_markdown(pages: Seq<Page>) -> Seq<char>
    decreases pages.len(),
{
    if pages.len() == 0 {
        Seq::empty()
    } else if pages.len() == 1 {
        pages[0].markdown@
    } else {
        pages[0].markdown@ + seq!['\n', '\n'] + joined_markdown(pages.skip(1))
    }
}

impl OCRResponse {
    /// Get extracted text from the response: the page markdowns in order,
    /// separated by a blank line.
    pub fn get_extracted_text(&self) -> (r: String)
        ensures
            r@ == joined_markdown(self.pages@),
    {
        proof {
            reveal_strlit("\n\n");
        }
        let mut out = String::new();
        let n = self.pages.len();
        let mut i: usize = 0;
        while i < n
            invariant
                i <= n,
                n == self.pages@.len(),
                "\n\n"@ =~= seq!['\n', '\n'],
                i == 0 ==> out@ == Seq::<char>::empty(),
                i > 0 ==> out@ + joined_rest(self.pages@, i as int) == joined_markdown(
                    self.pages@,
                ),
            decreases n - i,
        {
            if i > 0 {
                proof {
                    assert(self.pages@.skip(i as int).len() > 0);
                }
                out.append("\n\n");
            }
            let page = &self.pages[i];
            out.append(page.markdown.as_str());
            proof {
                let pages = self.pages@;
                if i == 0 {
                    if n == 1 {
                        assert(out@ + joined_rest(pages, 1) =~= joined_markdown(pages));
                    } else {
                        assert(joined_markdown(pages) == pages[0].markdown@ + seq!['\n', '\n']
                            + joined_markdown(pages.skip(1)));
                        assert(out@ + joined_rest(pages, 1) =~= joined_markdown(pages));
                    }
                } else {
                    lemma_joined_rest_step(pages, i as int);
                }
            }
            i += 1;
        }
        proof {
            if n == 0 {
                assert(out@ =~= joined_markdown(self.pages@));
            } else {
                assert(joined_rest(self.pages@, n as int) =~= Seq::<char>::empty());
                assert(out@ =~= out@ + joined_rest(self.pages@, n as int));
            }
        }
        out
    }

    /// Validate the OCR response: a violation of any invariant of the data
    /// model is the remote's fault and is categorized as an API error.
    pub fn validate(&self) -> (r: Result<(), Error>)
        ensures
            r is Ok <==> ocr_response_ok(*self),
            r matches Err(e) ==> e is Api,
    {
        if self.model.as_str().unicode_len() == 0 {
            return Err(Error::Api(String::from_str("Response model cannot be empty")));
        }
        if !crate::text::str_starts_with(self.model.as_str(), "mistral-") {
            proof {
                reveal_strlit("mistral-");
            }
            return Err(
                Error::Api(
                    String::from_str("Invalid model name format: expected a mistral model"),
                ),
            );
        }
        proof {
            reveal_strlit("mistral-");
        }
        let n = self.pages.len();
        if n == 0 {
            return Err(Error::Api(String::from_str("Response must contain at least one page")));
        }
        let mut i: usize = 0;
        while i < n
            invariant
                i <= n,
                n == self.pages@.len(),
                forall|k: int| 0 <= k < i ==> page_ok(#[trigger] self.pages@[k], k),
            decreases n - i,
        {
            let page = &self.pages[i];
            if page.index < 0 || page.index as usize != i {
                return Err(Error::Api(String::from_str("Page index mismatch")));
            }
            if page.dimensions.width <= 0 || page.dimensions.height <= 0 {
                return Err(Error::Api(String::from_str("Invalid page dimensions")));
            }
            i += 1;
        }
        if self.usage_info.pages_processed < 0 || self.usage_info.pages_processed as usize != n {
            return Err(
                Error::Api(
                    String::from_str(
                        "Usage info pages_processed doesn't match the number of pages",
                    ),
                ),
            );
        }
        if self.usage_info.doc_size_bytes <= 0 {
            return Err(Error::Api(String::from_str("Invalid document size in usage info")));
        }
        Ok(())
    }
}

/// What remains of the joined text after the first `i` pages were emitted:
/// a separator, then the join of the rest.  Empty when nothing remains.
pub open spec fn joined_rest(pages: Seq<Page>, i: int) -> Seq<char> {
    if i >= pages.len() {
        Seq::empty()
    } else {
        seq!['\n', '\n'] + joined_markdown(pages.skip(i))
    }
}

/// Emitting page `i` (with its separator) advances the remainder by one page.
proof fn lemma_joined_rest_step(pages: Seq<Page>, i: int)
    requires
        0 < i < pages.len(),
    ensures
        joined_rest(pages, i) =~= seq!['\n', '\n'] + pages[i].markdown@ + joined_rest(
            pages,
            i + 1,
        ),
{
    let t = pages.skip(i);
    assert(t.len() == pages.len() - i);
    assert(t[0] == pages[i]);
    if t.len() == 1 {
        assert(joined_markdown(t) == t[0].markdown@);
    } else {
        assert(joined_markdown(t) == t[0].markdown@ + seq!['\n', '\n'] + joined_markdown(
            t.skip(1),
        ));
        assert(t.skip(1) =~= pages.skip(i + 1));
    }
}

} // verus!
