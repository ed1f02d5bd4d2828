//! libcurl's result codes and the easy-handle options that a download sets,
//! with their numbers taken from `curl_sys`.
use vstd::prelude::*;

verus! {

/// `curl_sys::CURLE_OK`, the code of a libcurl call that succeeded; libcurl
/// defines it as 0.
#[verifier::external_body]
fn curle_ok() -> (r: u32)
    ensures
        r == 0,
{
    curl_sys::CURLE_OK
}

/// `curl_sys::CURLOPT_URL`: `CURLOPTTYPE_OBJECTPOINT` (10000) plus 2.
#[verifier::external_body]
fn curlopt_url() -> (r: u32)
    ensures
        r == 10002,
{
    curl_sys::CURLOPT_URL
}

/// `curl_sys::CURLOPT_FOLLOWLOCATION`: `CURLOPTTYPE_LONG` (0) plus 52.
#[verifier::external_body]
fn curlopt_followlocation() -> (r: u32)
    ensures
        r == 52,
{
    curl_sys::CURLOPT_FOLLOWLOCATION
}

/// `curl_sys::CURLOPT_WRITEDATA`, which `curl_sys` defines as `CURLOPT_FILE`:
/// `CURLOPTTYPE_OBJECTPOINT` (10000) plus 1.
#[verifier::external_body]
fn curlopt_writedata() -> (r: u32)
    ensures
        r == 10001,
{
    curl_sys::CURLOPT_WRITEDATA
}

/// `curl_sys::CURLOPT_WRITEFUNCTION`: `CURLOPTTYPE_FUNCTIONPOINT` (20000) plus 11.
#[verifier::external_body]
fn curlopt_writefunction() -> (r: u32)
    ensures
        r == 20011,
{
    curl_sys::CURLOPT_WRITEFUNCTION
}

/// `curl_sys::CURLOPT_FAILONERROR`: `CURLOPTTYPE_LONG` (0) plus 45.
#[verifier::external_body]
fn curlopt_failonerror() -> (r: u32)
    ensures
        r == 45,
{
    curl_sys::CURLOPT_FAILONERROR
}

/// `curl_sys::CURLOPT_NOPROGRESS`: `CURLOPTTYPE_LONG` (0) plus 43.
#[verifier::external_body]
fn curlopt_noprogress() -> (r: u32)
    ensures
        r == 43,
{
    curl_sys::CURLOPT_NOPROGRESS
}

/// `curl_sys::CURLOPT_PROGRESSDATA`: `CURLOPTTYPE_OBJECTPOINT` (10000) plus 57.
#[verifier::external_body]
fn curlopt_progressdata() -> (r: u32)
    ensures
        r == 10057,
{
    curl_sys::CURLOPT_PROGRESSDATA
}

/// `curl_sys::CURLOPT_PROGRESSFUNCTION`: `CURLOPTTYPE_FUNCTIONPOINT` (20000) plus 56.
#[verifier::external_body]
fn curlopt_progressfunction() -> (r: u32)
    ensures
        r == 20056,
{
    curl_sys::CURLOPT_PROGRESSFUNCTION
}

/// `curl_sys::CURLOPT_NOSIGNAL`: `CURLOPTTYPE_LONG` (0) plus 99.
#[verifier::external_body]
fn curlopt_nosignal() -> (r: u32)
    ensures
        r == 99,
{
    curl_sys::CURLOPT_NOSIGNAL
}

/// `curl_sys::CURLOPT_SSL_CTX_FUNCTION`: `CURLOPTTYPE_FUNCTIONPOINT` (20000) plus 108.
#[verifier::external_body]
fn curlopt_ssl_ctx_function() -> (r: u32)
    ensures
        r == 20108,
{
    curl_sys::CURLOPT_SSL_CTX_FUNCTION
}

/// `curl_sys::CURLOPT_USERAGENT`: `CURLOPTTYPE_OBJECTPOINT` (10000) plus 18.
#[verifier::external_body]
fn curlopt_useragent() -> (r: u32)
    ensures
        r == 10018,
{
    curl_sys::CURLOPT_USERAGENT
}

/// Turns a libcurl result code into a `Result`: `Ok` for `CURLE_OK`, the code
/// itself as the error for any other.
pub fn curle(code: u32) -> (r: Result<(), u32>)
    ensures
        code == 0 <==> r is Ok,
        code != 0 ==> r == Err::<(), u32>(code),
{
    if code != curle_ok() {
        Err(code)
    } else {
        Ok(())
    }
}

/// The easy-handle options that a download sets.
#[derive(Clone, Copy, Debug, PartialEq, Eq, Structural)]
pub enum CurlOption {
    Url,
    FollowLocation,
    WriteData,
    WriteFunction,
    FailOnError,
    NoProgress,
    ProgressData,
    ProgressFunction,
    NoSignal,
    SslCtxFunction,
    UserAgent,
}

impl CurlOption {
    /// The number by which libcurl knows the option.
    pub open spec fn spec_code(self) -> u32 {
        match self {
            CurlOption::Url => 10002,
            CurlOption::FollowLocation => 52,
            CurlOption::WriteData => 10001,
            CurlOption::WriteFunction => 20011,
            CurlOption::FailOnError => 45,
            CurlOption::NoProgress => 43,
            CurlOption::ProgressData => 10057,
            CurlOption::ProgressFunction => 20056,
            CurlOption::NoSignal => 99,
            CurlOption::SslCtxFunction => 20108,
            CurlOption::UserAgent => 10018,
        }
    }

    /// The number that `curl_easy_setopt` takes for this option.
    pub fn code(&self) -> (r: u32)
        ensures
            r == self.spec_code(),
    {
        match self {
            CurlOption::Url => curlopt_url(),
            CurlOption::FollowLocation => curlopt_followlocation(),
            CurlOption::WriteData => curlopt_writedata(),
            CurlOption::WriteFunction => curlopt_writefunction(),
            CurlOption::FailOnError => curlopt_failonerror(),
            CurlOption::NoProgress => curlopt_noprogress(),
            CurlOption::ProgressData => curlopt_progressdata(),
            CurlOption::ProgressFunction => curlopt_progressfunction(),
            CurlOption::NoSignal => curlopt_nosignal(),
            CurlOption::SslCtxFunction => curlopt_ssl_ctx_function(),
            CurlOption::UserAgent => curlopt_useragent(),
        }
    }
}

/// Why a smashnet curl operation did not succeed.
#[derive(Clone, Debug, PartialEq, Eq)]
pub enum HttpCurlError {
    /// A libcurl call returned this code (never `CURLE_OK`).
    Curl(u32),
    /// The downloaded file held fewer than 8 bytes.
    EmptyDownload,
    /// libcurl gave no easy handle.
    NoHandle,
    /// The downloaded text could not be read; the message says why.
    Read(String),
}

} // verus!
