//! Plain HTTP GET requests made through `minreq`, and the reply the plugin
//! hands back for them. The caller turns a `GetRequest` into a `minreq`
//! request and sends it, and hands back the body of the response, or the
//! `Debug` text of the error that stopped the send.
use vstd::prelude::*;
use vstd::string::*;
use vstd::utf8::{decode_utf8, valid_utf8};

verus! {

/// The `Debug` text of the `minreq::Error::InvalidUtf8InBody` that
/// `minreq::Response::as_str` returns for a response whose body is `body`.
pub uninterp spec fn invalid_body_debug(body: Seq<u8>) -> Seq<char>;

/// `minreq::Response::as_str` applied to a body held as bytes: `minreq`
/// decodes the body with `std::str::from_utf8`, which succeeds exactly on
/// valid UTF-8 and then gives the decoded text, and wraps its error in
/// `minreq::Error::InvalidUtf8InBody`, which is rendered here by `Debug`.
/// That text is named, not stated.
#[verifier::external_body]
fn body_as_str(body: &[u8]) -> (r: Result<&str, String>)
    ensures
        r is Ok <==> valid_utf8(body@),
        r matches Ok(s) ==> s@ == decode_utf8(body@),
        r matches Err(d) ==> d@ == invalid_body_debug(body@),
{
    match std::str::from_utf8(body) {
        Ok(s) => Ok(s),
        Err(e) => Err(format!("{:?}", minreq::Error::InvalidUtf8InBody(e))),
    }
}

/// A GET request as the plugin describes it: the URL, and the one header it
/// sets. The caller sends `minreq::get(url).with_header(header_name,
/// header_value)`.
pub struct GetRequest {
    pub url: String,
    pub header_name: String,
    pub header_value: String,
}

/// The GET request the plugin sends for `url`: with the header `UserAgent`
/// set to `smashnet.nro`.
pub fn user_request(url: &String) -> (r: GetRequest)
    ensures
        r.url@ == url@,
        r.header_name@ == "UserAgent"@,
        r.header_value@ == "smashnet.nro"@,
{
    GetRequest {
        url: url.clone(),
        header_name: String::from_str("UserAgent"),
        header_value: String::from_str("smashnet.nro"),
    }
}

/// `Error: ` followed by `detail`.
fn error_text(detail: &str) -> (r: String)
    ensures
        r@ == "Error: "@ + detail@,
{
    String::from_str("Error: ").concat(detail)
}

/// What the reply to a GET is: for a response whose body is valid UTF-8, its
/// text; for one whose body is not, `Error: ` and the `Debug` text of the
/// decoding error, still as a reply; for a request that could not be sent,
/// `Error: ` and the `Debug` text of the error, as an error.
pub open spec fn spec_reply(sent: Result<Seq<u8>, Seq<char>>) -> Result<Seq<char>, Seq<char>> {
    match sent {
        Ok(body) => if valid_utf8(body) {
            Ok(decode_utf8(body))
        } else {
            Ok("Error: "@ + invalid_body_debug(body))
        },
        Err(detail) => Err("Error: "@ + detail),
    }
}

/// The reply to a GET once it has been sent, given the body of the response
/// or the `Debug` text of the error that stopped the send.
pub fn reply(sent: Result<Vec<u8>, String>) -> (r: Result<String, String>)
    ensures
        r matches Ok(t) ==> sent matches Ok(body) && spec_reply(Ok(body@)) == Ok::<Seq<char>, Seq<char>>(t@),
        r matches Err(m) ==> sent matches Err(d) && spec_reply(Err(d@)) == Err::<Seq<char>, Seq<char>>(m@),
{
    match sent {
        Ok(body) => match body_as_str(body.as_slice()) {
            Ok(text) => Ok(String::from_str(text)),
            Err(d) => Ok(error_text(d.as_str())),
        },
        Err(d) => Err(error_text(d.as_str())),
    }
}

} // verus!
