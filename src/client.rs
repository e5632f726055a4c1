//! The settings of a client of the service, and what each one-request
//! analysis sends besides its body: the endpoint and the query.
use vstd::prelude::*;

use crate::transport::{pairs_view, request_url, text_view, url_with_query, DEFAULT_URL};

verus! {

/// How to reach the service.
#[derive(Debug, Clone)]
pub struct BosonNLP {
    /// The API token sent with every request.
    pub token: String,
    /// Whether request bodies over 10240 bytes are compressed.
    pub compress: bool,
    /// The address of the service, `http://api.bosonnlp.com` by default.
    pub bosonnlp_url: String,
}

impl BosonNLP {
    /// A client of the service at its usual address, compressing large bodies.
    pub fn new(token: String) -> (r: Self)
        ensures
            r.token@ == token@,
            r.compress,
            r.bosonnlp_url@ == DEFAULT_URL@,
    {
        BosonNLP { token, compress: true, bosonnlp_url: String::from_str(DEFAULT_URL) }
    }

    /// A client of the service at `bosonnlp_url`.
    pub fn with_options(token: String, bosonnlp_url: String, compress: bool) -> (r: Self)
        ensures
            r.token@ == token@,
            r.compress == compress,
            r.bosonnlp_url@ == bosonnlp_url@,
    {
        BosonNLP { token, compress, bosonnlp_url }
    }

    /// The URL of a request to `endpoint` with the query `params`.
    pub fn url_for(&self, endpoint: &str, params: &Vec<(String, String)>) -> (r: Option<String>)
        ensures
            text_view(r) == url_with_query(self.bosonnlp_url@ + endpoint@, pairs_view(params@)),
    {
        request_url(self.bosonnlp_url.as_str(), endpoint, params)
    }
}

impl Default for BosonNLP {
    fn default() -> (r: Self)
        ensures
            r.token@.len() == 0,
            r.compress,
            r.bosonnlp_url@ == DEFAULT_URL@,
    {
        BosonNLP::new(String::new())
    }
}

/// The character of a decimal digit.
pub open spec fn digit_char(d: nat) -> char {
    if d == 0 {
        '0'
    } else if d == 1 {
        '1'
    } else if d == 2 {
        '2'
    } else if d == 3 {
        '3'
    } else if d == 4 {
        '4'
    } else if d == 5 {
        '5'
    } else if d == 6 {
        '6'
    } else if d == 7 {
        '7'
    } else if d == 8 {
        '8'
    } else {
        '9'
    }
}

/// `n` written in decimal, without leading zeros.
pub open spec fn decimal(n: nat) -> Seq<char>
    decreases n,
{
    if n < 10 {
        seq![digit_char(n)]
    } else {
        decimal(n / 10) + seq![digit_char(n % 10)]
    }
}

/// Relies on `usize::to_string`, which writes `n` in decimal.
#[verifier::external_body]
fn decimal_text(n: usize) -> (r: String)
    ensures
        r@ == decimal(n as nat),
{
    n.to_string()
}

/// "1" for true, "0" for false.
pub open spec fn flag_text(b: bool) -> Seq<char> {
    if b {
        "1"@
    } else {
        "0"@
    }
}

fn flag(b: bool) -> (r: String)
    ensures
        r@ == flag_text(b),
{
    if b {
        String::from_str("1")
    } else {
        String::from_str("0")
    }
}

fn param(key: &str, value: String) -> (r: (String, String))
    ensures
        r.0@ == key@,
        r.1@ == value@,
{
    (String::from_str(key), value)
}

/// The query of a request, as text pairs.
pub open spec fn query_is(params: Seq<(String, String)>, expected: Seq<(Seq<char>, Seq<char>)>) -> bool {
    pairs_view(params) == expected
}

/// The endpoint of a sentiment analysis with the model `model`: the model is
/// written after a `?`.
pub fn sentiment_endpoint(model: &str) -> (r: String)
    ensures
        r@ == "/sentiment/analysis?"@ + model@,
{
    let mut endpoint = String::from_str("/sentiment/analysis?");
    endpoint.append(model);
    endpoint
}

/// The query of a time normalisation: the pattern, then the base time if any.
pub fn convert_time_params(content: &str, basetime: Option<&str>) -> (r: Vec<(String, String)>)
    ensures
        basetime matches Some(b) ==> query_is(r@, seq![("pattern"@, content@), ("basetime"@, b@)]),
        basetime is None ==> query_is(r@, seq![("pattern"@, content@)]),
{
    let mut params: Vec<(String, String)> = Vec::new();
    params.push(param("pattern", String::from_str(content)));
    if let Some(b) = basetime {
        params.push(param("basetime", String::from_str(b)));
    }
    assert(pairs_view(params@) =~= match basetime {
        Some(b) => seq![("pattern"@, content@), ("basetime"@, b@)],
        None => seq![("pattern"@, content@)],
    });
    params
}

/// The query of a word suggestion: how many results to give.
pub fn suggest_params(top_k: usize) -> (r: Vec<(String, String)>)
    ensures
        query_is(r@, seq![("top_k"@, decimal(top_k as nat))]),
{
    let mut params: Vec<(String, String)> = Vec::new();
    params.push(param("top_k", decimal_text(top_k)));
    assert(pairs_view(params@) =~= seq![("top_k"@, decimal(top_k as nat))]);
    params
}

/// The query of a keyword extraction: how many keywords, and `segmented=1`
/// where the text is already split into words.
pub fn keywords_params(top_k: usize, segmented: bool) -> (r: Vec<(String, String)>)
    ensures
        segmented ==> query_is(r@, seq![("top_k"@, decimal(top_k as nat)), ("segmented"@, "1"@)]),
        !segmented ==> query_is(r@, seq![("top_k"@, decimal(top_k as nat))]),
{
    let mut params: Vec<(String, String)> = Vec::new();
    params.push(param("top_k", decimal_text(top_k)));
    if segmented {
        params.push(param("segmented", String::from_str("1")));
    }
    assert(pairs_view(params@) =~= if segmented {
        seq![("top_k"@, decimal(top_k as nat)), ("segmented"@, "1"@)]
    } else {
        seq![("top_k"@, decimal(top_k as nat))]
    });
    params
}

/// The query of a named entity recognition: the sensitivity, and
/// `segmented=1` where the texts are already split into words.
pub fn ner_params(sensitivity: usize, segmented: bool) -> (r: Vec<(String, String)>)
    ensures
        segmented ==> query_is(
            r@,
            seq![("sensitivity"@, decimal(sensitivity as nat)), ("segmented"@, "1"@)],
        ),
        !segmented ==> query_is(r@, seq![("sensitivity"@, decimal(sensitivity as nat))]),
{
    let mut params: Vec<(String, String)> = Vec::new();
    params.push(param("sensitivity", decimal_text(sensitivity)));
    if segmented {
        params.push(param("segmented", String::from_str("1")));
    }
    assert(pairs_view(params@) =~= if segmented {
        seq![("sensitivity"@, decimal(sensitivity as nat)), ("segmented"@, "1"@)]
    } else {
        seq![("sensitivity"@, decimal(sensitivity as nat))]
    });
    params
}

/// The query of a segmentation with tags: the space mode, the level for
/// unknown words, and the two switches as "1" or "0".
pub fn tag_params(space_mode: usize, oov_level: usize, t2s: bool, special_char_conv: bool) -> (r: Vec<
    (String, String),
>)
    ensures
        query_is(
            r@,
            seq![
                ("space_mode"@, decimal(space_mode as nat)),
                ("oov_level"@, decimal(oov_level as nat)),
                ("t2s"@, flag_text(t2s)),
                ("special_char_conv"@, flag_text(special_char_conv)),
            ],
        ),
{
    let mut params: Vec<(String, String)> = Vec::new();
    params.push(param("space_mode", decimal_text(space_mode)));
    params.push(param("oov_level", decimal_text(oov_level)));
    params.push(param("t2s", flag(t2s)));
    params.push(param("special_char_conv", flag(special_char_conv)));
    assert(pairs_view(params@) =~= seq![
        ("space_mode"@, decimal(space_mode as nat)),
        ("oov_level"@, decimal(oov_level as nat)),
        ("t2s"@, flag_text(t2s)),
        ("special_char_conv"@, flag_text(special_char_conv)),
    ]);
    params
}

} // verus!
