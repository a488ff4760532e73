//! The fetch adapter: the fixed request shape every outbound call uses,
//! the decoding of a response body, and the recovery of a transport
//! failure as document content.

use vstd::prelude::*;
use vstd::string::*;
use crate::output::{
    is_labeled_document, is_plain_document, labeled_document, plain_document, document_wf,
    OutputDocument,
};

verus! {

/// The one request method the pipeline issues.
#[derive(Debug)]
pub enum RequestMethod {
    Get,
}

/// The one redirect policy the pipeline uses: follow every redirect.
#[derive(Debug)]
pub enum RedirectRule {
    FollowAll,
}

/// An outbound request, handed to the host transport as-is.
#[derive(Debug)]
pub struct FetchRequest {
    pub method: RequestMethod,
    pub url: String,
    pub headers: Vec<(String, String)>,
    pub body: Option<Vec<u8>>,
    pub redirect: RedirectRule,
}

/// What one fetch produced: the raw response body, or the transport
/// error's description.
#[derive(Debug)]
pub enum FetchResult {
    Success(Vec<u8>),
    Failure(String),
}

/// The fixed request shape: GET, one identifying header, no body, follow
/// all redirects.
pub open spec fn is_standard_request(req: FetchRequest, url: Seq<char>) -> bool {
    &&& req.method is Get
    &&& req.url@ == url
    &&& req.headers@.len() == 1
    &&& req.headers@[0].0@ == "User-Agent"@
    &&& req.headers@[0].1@ == "Zed-Extension"@
    &&& req.body is None
    &&& req.redirect is FollowAll
}

/// Builds the fixed-shape request for a target URL.
pub fn fetch_request_for(url: String) -> (req: FetchRequest)
    ensures
        is_standard_request(req, url@),
{
    let mut headers: Vec<(String, String)> = Vec::new();
    headers.push((String::from_str("User-Agent"), String::from_str("Zed-Extension")));
    FetchRequest {
        method: RequestMethod::Get,
        url,
        headers,
        body: None,
        redirect: RedirectRule::FollowAll,
    }
}

/// The text a response body decodes to: UTF-8, with invalid byte
/// sequences replaced, never fatal.
pub uninterp spec fn lossy_decode(bytes: Seq<u8>) -> Seq<char>;

/// Relies on String::from_utf8_lossy: the decoding is a function of the
/// bytes alone.
#[verifier::external_body]
pub fn decode_response_body(bytes: &Vec<u8>) -> (r: String)
    ensures
        r@ == lossy_decode(bytes@),
{
    String::from_utf8_lossy(bytes).to_string()
}

/// The message a transport failure is rendered as.
pub open spec fn fetch_error_text(details: Seq<char>) -> Seq<char> {
    "API request failed. Error: "@ + details + "."@
}

/// Formats a transport failure's description.
pub fn format_fetch_error(details: &str) -> (r: String)
    ensures
        r@ == fetch_error_text(details@),
{
    String::from_str("API request failed. Error: ").concat(details).concat(".")
}

/// Turns a fetch outcome into the command's document: a success becomes
/// the decoded body with one section labeled `label` spanning it; a
/// failure is recovered as a plain document holding the formatted error
/// text, not propagated as a command error.
pub fn finish_fetch_command(label: &str, result: FetchResult) -> (doc: OutputDocument)
    ensures
        result matches FetchResult::Success(bytes) ==> is_labeled_document(
            doc,
            lossy_decode(bytes@),
            label@,
        ),
        result matches FetchResult::Failure(details) ==> is_plain_document(
            doc,
            fetch_error_text(details@),
        ),
        document_wf(doc),
{
    match result {
        FetchResult::Success(bytes) => labeled_document(
            decode_response_body(&bytes),
            String::from_str(label),
        ),
        FetchResult::Failure(details) => plain_document(format_fetch_error(details.as_str())),
    }
}

} // verus!
