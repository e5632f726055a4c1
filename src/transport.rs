//! What a request and its reply need computed around the HTTP exchange: the
//! URL with its query, the encoding of a JSON body, and the error for a reply
//! that is not a success.
use vstd::prelude::*;

use crate::errors::Error;

verus! {

/// Where the service answers unless told otherwise.
pub const DEFAULT_URL: &'static str = "http://api.bosonnlp.com";

/// Bodies longer than this many bytes are compressed, when compression is on.
pub const COMPRESS_THRESHOLD: usize = 10240;

/// What `url::Url::parse_with_params` makes of `url` and `params`, written out
/// as text; `None` where `url` is not an absolute URL.
pub uninterp spec fn url_with_query(url: Seq<char>, params: Seq<(Seq<char>, Seq<char>)>) -> Option<
    Seq<char>,
>;

/// The gzip stream that `flate2` writes for `data` at the default level.
pub uninterp spec fn gzip_of(data: Seq<u8>) -> Seq<u8>;

/// What the member "message" of a JSON text is, as `serde_json` reads it:
/// `None` where the text is not a JSON object holding that member,
/// `Some(None)` where the member is not a string, `Some(Some(m))` where it is
/// the string `m`.
pub uninterp spec fn json_message(text: Seq<char>) -> Option<Option<Seq<char>>>;

pub open spec fn pairs_view(params: Seq<(String, String)>) -> Seq<(Seq<char>, Seq<char>)> {
    params.map_values(|p: (String, String)| (p.0@, p.1@))
}

pub open spec fn text_view(s: Option<String>) -> Option<Seq<char>> {
    match s {
        Some(t) => Some(t@),
        None => None,
    }
}

pub open spec fn nested_text_view(s: Option<Option<String>>) -> Option<Option<Seq<char>>> {
    match s {
        Some(inner) => Some(text_view(inner)),
        None => None,
    }
}

/// Relies on `url::Url::parse_with_params`: parses `url` as an absolute URL,
/// appends `params` to its query, and gives the URL as text.
#[verifier::external_body]
fn parse_with_params(url: &str, params: &Vec<(String, String)>) -> (r: Option<String>)
    ensures
        text_view(r) == url_with_query(url@, pairs_view(params@)),
{
    url::Url::parse_with_params(url, params.iter()).ok().map(String::from)
}

/// Relies on `flate2::write::GzEncoder` (`new` at `Compression::default()`,
/// `write_all`, `finish`) writing into a `Vec`: one gzip stream of `data`.
#[verifier::external_body]
fn gzip(data: &[u8]) -> (r: Result<Vec<u8>, std::io::Error>)
    ensures
        r matches Ok(v) ==> v@ == gzip_of(data@),
{
    let mut encoder = flate2::write::GzEncoder::new(Vec::new(), flate2::Compression::default());
    std::io::Write::write_all(&mut encoder, data)?;
    encoder.finish()
}

/// Relies on `serde_json::from_str` into a `serde_json::Value`, then
/// `Value::get("message")` and `Value::as_str`: the member "message" of a JSON
/// object.
#[verifier::external_body]
fn message_member(text: &str) -> (r: Option<Option<String>>)
    ensures
        nested_text_view(r) == json_message(text@),
{
    match serde_json::from_str::<serde_json::Value>(text) {
        Ok(v) => v.get("message").map(|m| m.as_str().map(String::from)),
        Err(_) => None,
    }
}

/// The URL of a request: the service's address followed by `endpoint`, with
/// `params` appended to the query. `None` where that is not a URL.
pub fn request_url(base: &str, endpoint: &str, params: &Vec<(String, String)>) -> (r: Option<String>)
    ensures
        text_view(r) == url_with_query(base@ + endpoint@, pairs_view(params@)),
{
    let mut url = String::from_str(base);
    url.append(endpoint);
    parse_with_params(url.as_str(), params)
}

/// A request body ready to send.
#[derive(Debug)]
pub struct Body {
    pub bytes: Vec<u8>,
    /// The bytes are a gzip stream of the JSON text.
    pub gzipped: bool,
}

/// Whether a JSON body of `len` bytes is sent compressed.
pub open spec fn compresses(compress: bool, len: nat) -> bool {
    compress && len > COMPRESS_THRESHOLD
}

/// The body for the JSON text `json`: compressed where compression is on and
/// the text is longer than 10240 bytes, else the text as it is. Only the
/// compression can fail, with `Io`.
pub fn encode_body(compress: bool, json: Vec<u8>) -> (r: Result<Body, Error>)
    ensures
        !compresses(compress, json@.len()) ==> (r matches Ok(b) && b.bytes@ == json@ && !b.gzipped),
        compresses(compress, json@.len()) ==> match r {
            Ok(b) => b.gzipped && b.bytes@ == gzip_of(json@),
            Err(e) => e is Io,
        },
{
    if compress && json.len() > COMPRESS_THRESHOLD {
        match gzip(json.as_slice()) {
            Ok(bytes) => Ok(Body { bytes, gzipped: true }),
            Err(e) => Err(Error::Io(e)),
        }
    } else {
        Ok(Body { bytes: json, gzipped: false })
    }
}

/// The reason given for a failed request whose reply body is `body` and whose
/// "message" member reads as `message`: that member where it is a string, an
/// empty text where it is something else, the whole body where there is none.
pub open spec fn reason_text(body: Seq<char>, message: Option<Option<Seq<char>>>) -> Seq<char> {
    match message {
        Some(Some(m)) => m,
        Some(None) => Seq::empty(),
        None => body,
    }
}

/// The reason for a failed request, from its body `body` and the "message"
/// member read from it.
pub fn reason_from(body: &str, message: Option<Option<String>>) -> (r: String)
    ensures
        r@ == reason_text(body@, nested_text_view(message)),
{
    match message {
        Some(Some(m)) => m,
        Some(None) => String::new(),
        None => String::from_str(body),
    }
}

/// HTTP status codes 200 to 299.
pub open spec fn is_success(code: u16) -> bool {
    200 <= code <= 299
}

/// The outcome of a reply with status `code` and body `body`: the body where
/// the status is a success, else an `Api` error with the code and the reason
/// read from the body.
pub fn check_reply(code: u16, body: String) -> (r: Result<String, Error>)
    ensures
        is_success(code) ==> (r matches Ok(b) && b@ == body@),
        !is_success(code) ==> (r matches Err(Error::Api { code: c, reason }) && c == code
            && reason@ == reason_text(body@, json_message(body@))),
{
    if 200 <= code && code <= 299 {
        Ok(body)
    } else {
        let message = message_member(body.as_str());
        Err(Error::Api { code, reason: reason_from(body.as_str(), message) })
    }
}

} // verus!
