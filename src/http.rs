//! The HTTP-shaped requests and responses exchanged with the host.
use vstd::prelude::*;
use vstd::utf8::encode_utf8;
use crate::text::{contains, lemma_contains_middle, utf8_bytes};

verus! {

/// A key-value pair for an HTTP header.
pub struct HeaderField(pub String, pub String);

/// The components of an HTTP request.
pub struct HttpRequest {
    /// The HTTP method string.
    pub method: String,
    /// The URL that was visited.
    pub url: String,
    /// The request headers.
    pub headers: Vec<HeaderField>,
    /// The request body.
    pub body: Vec<u8>,
}

/// An HTTP response.
pub struct HttpResponse {
    /// The HTTP status code.
    pub status_code: u16,
    /// The response headers, in order.
    pub headers: Vec<HeaderField>,
    /// The response body.
    pub body: Vec<u8>,
    /// Whether a read-only call is to be run again as a state-changing one.
    pub upgrade: Option<bool>,
}

/// A header as a pair of texts.
pub type HeaderModel = (Seq<char>, Seq<char>);

/// A response as status, headers, body bytes and upgrade flag.
pub type ResponseModel = (u16, Seq<HeaderModel>, Seq<u8>, Option<bool>);

impl View for HeaderField {
    type V = HeaderModel;

    open spec fn view(&self) -> HeaderModel {
        (self.0@, self.1@)
    }
}

impl View for HttpResponse {
    type V = ResponseModel;

    open spec fn view(&self) -> ResponseModel {
        (self.status_code, self.headers@.map_values(|h: HeaderField| h@), self.body@, self.upgrade)
    }
}

/// The single header giving the content type `ct`.
pub open spec fn content_type(ct: Seq<char>) -> Seq<HeaderModel> {
    seq![("content-type"@, ct)]
}

/// A response that changes nothing on the host, with the body text `body`.
pub open spec fn plain_response(status: u16, headers: Seq<HeaderModel>, body: Seq<char>) -> ResponseModel {
    (status, headers, encode_utf8(body), Some(false))
}

/// The text of the not-found page for `url`.
pub open spec fn not_found_text(url: Seq<char>) -> Seq<char> {
    "Nothing found at "@ + url + "\n(but still, you reached the internet computer!)"@
}

/// The header list holding the content type `ct` alone.
pub(crate) fn content_type_header(ct: &str) -> (r: Vec<HeaderField>)
    ensures
        r@.map_values(|h: HeaderField| h@) == content_type(ct@),
{
    let r = vec![HeaderField(String::from_str("content-type"), String::from_str(ct))];
    assert(r@.map_values(|h: HeaderField| h@) =~= content_type(ct@));
    r
}

/// A response with status `status`, headers `headers`, the UTF-8 text `body`,
/// and no upgrade.
pub(crate) fn text_response(status: u16, headers: Vec<HeaderField>, body: &str) -> (r: HttpResponse)
    ensures
        r@ == plain_response(status, headers@.map_values(|h: HeaderField| h@), body@),
{
    HttpResponse { status_code: status, headers, body: utf8_bytes(body), upgrade: Some(false) }
}

/// The generic acknowledgment: nothing to do.
pub fn ok200() -> (r: HttpResponse)
    ensures
        r@ == plain_response(200, content_type("text/html"@), "Nothing to do"@),
{
    text_response(200, content_type_header("text/html"), "Nothing to do")
}

/// The not-found page, which names the URL of `req`.
pub fn err404(req: &HttpRequest) -> (r: HttpResponse)
    ensures
        r@ == plain_response(404, Seq::empty(), not_found_text(req.url@)),
{
    let mut s = String::from_str("Nothing found at ");
    s.append(req.url.as_str());
    s.append("\n(but still, you reached the internet computer!)");
    let r = text_response(404, Vec::new(), s.as_str());
    assert(r@.1 =~= Seq::<HeaderModel>::empty());
    r
}

} // verus!

verus! {

/// The not-found text holds the requested path verbatim.
pub proof fn lemma_not_found_names_url(url: Seq<char>)
    ensures
        contains(not_found_text(url), url),
{
    lemma_contains_middle("Nothing found at "@, url, "\n(but still, you reached the internet computer!)"@);
}

} // verus!
