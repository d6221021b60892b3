//! Decoding a request body into a key/value object, chosen by the request's
//! `Content-Type` header.
use vstd::prelude::*;
use crate::router::CanisterRouterContext;
use crate::text::{lower_of, lowercase, pairs_view};

verus! {

#[verifier::external_type_specification]
#[verifier::external_body]
pub struct ExValue(serde_json::Value);

#[verifier::external_type_specification]
#[verifier::external_body]
#[verifier::reject_recursive_types(K)]
#[verifier::reject_recursive_types(V)]
pub struct ExJsonMap<K, V>(serde_json::Map<K, V>);

/// A decoded body: names mapped to JSON values.
pub type JsonObject = serde_json::Map<String, serde_json::Value>;

/// Why a body could not be extracted.
#[derive(Debug)]
pub enum ExtractionError {
    /// No header is named `Content-Type`.
    MissingContentType,
    /// The content type is neither form nor JSON; holds the header's value.
    UnsupportedContentType(String),
    /// The body does not decode under its content type; holds the decoder's message.
    DecodeFailed(String),
}

/// The two body encodings that can be extracted.
#[derive(PartialEq, Eq, Structural, Clone, Copy, Debug)]
pub enum BodyEncoding {
    Form,
    Json,
}

/// The encoding that a lowercased content type names, if it is one of the two.
pub open spec fn encoding_spec(lowered: Seq<char>) -> Option<BodyEncoding> {
    if lowered == "application/x-www-form-urlencoded"@ {
        Some(BodyEncoding::Form)
    } else if lowered == "application/json"@ {
        Some(BodyEncoding::Json)
    } else {
        None
    }
}

/// The encoding that a lowercased content type names, if it is one of the two.
pub fn encoding_of(lowered: &str) -> (r: Option<BodyEncoding>)
    ensures
        r == encoding_spec(lowered@),
{
    let s = lowered.to_owned();
    if s == "application/x-www-form-urlencoded".to_owned() {
        Some(BodyEncoding::Form)
    } else if s == "application/json".to_owned() {
        Some(BodyEncoding::Json)
    } else {
        None
    }
}

/// What `serde_urlencoded::from_bytes` makes of a form body: the decoded
/// object, or the error's message.
pub uninterp spec fn form_decoded(body: Seq<u8>) -> Result<JsonObject, Seq<char>>;

/// What `serde_json::from_slice` makes of a body that should hold a JSON
/// object: the decoded object, or the error's message.
pub uninterp spec fn json_decoded(body: Seq<u8>) -> Result<JsonObject, Seq<char>>;

/// Relies on `serde_urlencoded::from_bytes`: the decoded object, or the
/// error's message.
#[verifier::external_body]
fn decode_form(body: &[u8]) -> (r: Result<JsonObject, String>)
    ensures
        match r {
            Ok(m) => form_decoded(body@) == Ok::<_, Seq<char>>(m),
            Err(e) => form_decoded(body@) == Err::<JsonObject, _>(e@),
        },
{
    serde_urlencoded::from_bytes::<JsonObject>(body).map_err(|e| e.to_string())
}

/// Relies on `serde_json::from_slice`: the decoded object, or the error's message.
#[verifier::external_body]
fn decode_json(body: &[u8]) -> (r: Result<JsonObject, String>)
    ensures
        match r {
            Ok(m) => json_decoded(body@) == Ok::<_, Seq<char>>(m),
            Err(e) => json_decoded(body@) == Err::<JsonObject, _>(e@),
        },
{
    serde_json::from_slice::<JsonObject>(body).map_err(|e| e.to_string())
}

/// The decoding result of a body under an encoding.
pub open spec fn decoded_under(encoding: BodyEncoding, body: Seq<u8>) -> Result<JsonObject, Seq<char>> {
    match encoding {
        BodyEncoding::Form => form_decoded(body),
        BodyEncoding::Json => json_decoded(body),
    }
}

/// An extraction result with each message as its characters.
pub enum ExtractionView {
    Decoded(JsonObject),
    MissingContentType,
    UnsupportedContentType(Seq<char>),
    DecodeFailed(Seq<char>),
}

/// The characters of an extraction result.
pub open spec fn extraction_view(r: Result<JsonObject, ExtractionError>) -> ExtractionView {
    match r {
        Ok(m) => ExtractionView::Decoded(m),
        Err(ExtractionError::MissingContentType) => ExtractionView::MissingContentType,
        Err(ExtractionError::UnsupportedContentType(v)) => ExtractionView::UnsupportedContentType(v@),
        Err(ExtractionError::DecodeFailed(d)) => ExtractionView::DecodeFailed(d@),
    }
}

/// What extracting a body gives, from the first content-type header's value.
pub open spec fn expected_extraction(content_type: Option<Seq<char>>, body: Seq<u8>) -> ExtractionView {
    match content_type {
        None => ExtractionView::MissingContentType,
        Some(ct) => match encoding_spec(lower_of(ct)) {
            Some(e) => match decoded_under(e, body) {
                Ok(m) => ExtractionView::Decoded(m),
                Err(d) => ExtractionView::DecodeFailed(d),
            },
            None => ExtractionView::UnsupportedContentType(ct),
        },
    }
}

/// The value of the first header whose name, lowercased, is `content-type`.
pub open spec fn content_type_of(headers: Seq<(Seq<char>, Seq<char>)>) -> Option<Seq<char>>
    decreases headers.len(),
{
    if headers.len() == 0 {
        None
    } else if lower_of(headers[0].0) == "content-type"@ {
        Some(headers[0].1)
    } else {
        content_type_of(headers.drop_first())
    }
}

/// Whether a lowercased header name is `content-type`.
pub fn is_content_type_name(lowered: &str) -> (r: bool)
    ensures
        r == (lowered@ == "content-type"@),
{
    lowered.to_owned() == "content-type".to_owned()
}

fn find_content_type(headers: &Vec<(String, String)>) -> (r: Option<&String>)
    ensures
        content_type_of(pairs_view(headers@)) == match r {
            Some(v) => Some(v@),
            None => None,
        },
{
    let mut i: usize = 0;
    proof {
        assert(pairs_view(headers@).subrange(0, headers@.len() as int) =~= pairs_view(headers@));
    }
    while i < headers.len()
        invariant
            i <= headers.len(),
            content_type_of(pairs_view(headers@)) == content_type_of(
                pairs_view(headers@).subrange(i as int, headers@.len() as int),
            ),
        decreases headers.len() - i,
    {
        let ghost rest = pairs_view(headers@).subrange(i as int, headers@.len() as int);
        proof {
            assert(rest.drop_first() =~= pairs_view(headers@).subrange(i as int + 1, headers@.len() as int));
        }
        let name = lowercase(headers[i].0.as_str());
        if is_content_type_name(name.as_str()) {
            return Some(&headers[i].1);
        }
        i = i + 1;
    }
    None
}

/// Decodes the request body as a form or as a JSON object, as its
/// `Content-Type` header says.
pub fn extract_form_or_json_data(cntx: &CanisterRouterContext) -> (r: Result<JsonObject, ExtractionError>)
    ensures
        extraction_view(r) == expected_extraction(
            content_type_of(pairs_view(cntx.request.headers@)),
            cntx.request.body@,
        ),
{
    let ct = match find_content_type(&cntx.request.headers) {
        Some(v) => v,
        None => {
            return Err(ExtractionError::MissingContentType);
        },
    };
    let lowered = lowercase(ct.as_str());
    let decoded = match encoding_of(lowered.as_str()) {
        Some(BodyEncoding::Form) => decode_form(cntx.request.body.as_slice()),
        Some(BodyEncoding::Json) => decode_json(cntx.request.body.as_slice()),
        None => {
            return Err(ExtractionError::UnsupportedContentType(ct.clone()));
        },
    };
    match decoded {
        Ok(m) => Ok(m),
        Err(e) => Err(ExtractionError::DecodeFailed(e)),
    }
}

/// Extraction has no hidden state: two requests whose first content-type
/// header and body agree give the same result, message for message.
pub proof fn lemma_extraction_deterministic(
    c1: CanisterRouterContext,
    c2: CanisterRouterContext,
    r1: Result<JsonObject, ExtractionError>,
    r2: Result<JsonObject, ExtractionError>,
)
    requires
        content_type_of(pairs_view(c1.request.headers@)) == content_type_of(pairs_view(c2.request.headers@)),
        c1.request.body@ == c2.request.body@,
        extraction_view(r1) == expected_extraction(content_type_of(pairs_view(c1.request.headers@)), c1.request.body@),
        extraction_view(r2) == expected_extraction(content_type_of(pairs_view(c2.request.headers@)), c2.request.body@),
    ensures
        extraction_view(r1) == extraction_view(r2),
{
}

} // verus!
