//! Request and response values exchanged with the host.
use vstd::prelude::*;
use vstd::slice::slice_to_vec;
use vstd::utf8::encode_utf8;

verus! {

/// A header: name and value.
pub type HttpHeader = (String, String);

/// Marker token carried by a streaming callback.
pub struct TokenData<T>(pub T);

/// Reference to the remote query method that serves the next chunk of a body.
#[verifier::external_type_specification]
#[verifier::external_body]
pub struct ExFunc(candid::Func);

/// How a body is to be delivered progressively.
pub enum StreamingStrategy {
    Callback { callback: candid::Func, token: TokenData<()> },
}

/// One chunk of a streamed body, with the token for the next one.
pub struct StreamingCallbackHttpResponse<T> {
    body: Vec<u8>,
    token: Option<T>,
}

impl<T> StreamingCallbackHttpResponse<T> {
    /// A chunk of body bytes followed, when `token` is set, by more chunks.
    pub fn new(body: Vec<u8>, token: Option<T>) -> (r: Self)
        ensures
            r.body() == body@,
            r.token() == token,
    {
        StreamingCallbackHttpResponse { body, token }
    }

    pub closed spec fn body(&self) -> Seq<u8> {
        self.body@
    }

    pub closed spec fn token(&self) -> Option<T> {
        self.token
    }
}

/// An inbound request, as received.
pub struct HttpRequest {
    pub method: String,
    pub url: String,
    pub headers: Vec<HttpHeader>,
    pub body: Vec<u8>,
    pub certificate_version: Option<u16>,
}

/// The response handed back to the host.
pub struct HttpResponse {
    pub status_code: u16,
    pub headers: Vec<HttpHeader>,
    pub body: Vec<u8>,
    pub upgrade: Option<bool>,
    pub streaming_strategy: Option<StreamingStrategy>,
}

/// Builds an [`HttpResponse`] field by field, starting from status 200.
pub struct HttpResponseBuilder {
    pub status_code: u16,
    pub headers: Vec<HttpHeader>,
    pub body: Vec<u8>,
    pub upgrade: Option<bool>,
    pub streaming_strategy: Option<StreamingStrategy>,
}

/// A response with the given status and no headers, body, upgrade or streaming.
pub open spec fn is_plain_response(r: HttpResponse, status: u16, body: Seq<u8>) -> bool {
    &&& r.status_code == status
    &&& r.headers@.len() == 0
    &&& r.body@ == body
    &&& r.upgrade is None
    &&& r.streaming_strategy is None
}

impl HttpResponseBuilder {
    pub fn new() -> (r: Self)
        ensures
            r.status_code == 200,
            r.headers@.len() == 0,
            r.body@.len() == 0,
            r.upgrade is None,
            r.streaming_strategy is None,
    {
        HttpResponseBuilder {
            status_code: 200,
            headers: Vec::new(),
            body: Vec::new(),
            upgrade: None,
            streaming_strategy: None,
        }
    }

    pub fn set_status(self, code: u16) -> (r: Self)
        ensures
            r == (HttpResponseBuilder { status_code: code, ..self }),
    {
        let mut b = self;
        b.status_code = code;
        b
    }

    pub fn set_body(self, data: Vec<u8>) -> (r: Self)
        ensures
            r == (HttpResponseBuilder { body: data, ..self }),
    {
        let mut b = self;
        b.body = data;
        b
    }

    pub fn set_upgrade(self, upgrade: Option<bool>) -> (r: Self)
        ensures
            r == (HttpResponseBuilder { upgrade: upgrade, ..self }),
    {
        let mut b = self;
        b.upgrade = upgrade;
        b
    }

    pub fn set_headers(self, data: Vec<HttpHeader>) -> (r: Self)
        ensures
            r == (HttpResponseBuilder { headers: data, ..self }),
    {
        let mut b = self;
        b.headers = data;
        b
    }

    pub fn set_streaming_strategy(self, data: Option<StreamingStrategy>) -> (r: Self)
        ensures
            r == (HttpResponseBuilder { streaming_strategy: data, ..self }),
    {
        let mut b = self;
        b.streaming_strategy = data;
        b
    }

    pub fn build(self) -> (r: HttpResponse)
        ensures
            r.status_code == self.status_code,
            r.headers == self.headers,
            r.body == self.body,
            r.upgrade == self.upgrade,
            r.streaming_strategy == self.streaming_strategy,
    {
        HttpResponse {
            status_code: self.status_code,
            headers: self.headers,
            body: self.body,
            upgrade: self.upgrade,
            streaming_strategy: self.streaming_strategy,
        }
    }
}

impl HttpResponse {
    pub fn builder() -> (r: HttpResponseBuilder)
        ensures
            r.status_code == 200,
            r.headers@.len() == 0,
            r.body@.len() == 0,
            r.upgrade is None,
            r.streaming_strategy is None,
    {
        HttpResponseBuilder::new()
    }

    /// An empty 200 response.
    pub fn new() -> (r: Self)
        ensures
            is_plain_response(r, 200, Seq::empty()),
    {
        HttpResponse {
            status_code: 200,
            headers: Vec::new(),
            body: Vec::new(),
            upgrade: None,
            streaming_strategy: None,
        }
    }

    /// An empty 404 response.
    pub fn not_found() -> (r: Self)
        ensures
            is_plain_response(r, 404, Seq::empty()),
    {
        HttpResponse {
            status_code: 404,
            headers: Vec::new(),
            body: Vec::new(),
            upgrade: None,
            streaming_strategy: None,
        }
    }

    /// An empty 200 response that asks the host to dispatch the request again
    /// in mutating mode.
    pub fn upgrade() -> (r: Self)
        ensures
            r.status_code == 200,
            r.headers@.len() == 0,
            r.body@.len() == 0,
            r.upgrade == Some(true),
            r.streaming_strategy is None,
    {
        HttpResponse {
            status_code: 200,
            headers: Vec::new(),
            body: Vec::new(),
            upgrade: Some(true),
            streaming_strategy: None,
        }
    }

    /// A 400 response whose body is the UTF-8 text of `mssg`, or empty.
    pub fn bad_request(mssg: Option<&str>) -> (r: Self)
        ensures
            is_plain_response(
                r,
                400,
                match mssg {
                    Some(m) => encode_utf8(m@),
                    None => Seq::empty(),
                },
            ),
    {
        let body = match mssg {
            Some(m) => slice_to_vec(m.as_bytes()),
            None => Vec::new(),
        };
        HttpResponse { status_code: 400, headers: Vec::new(), body, upgrade: None, streaming_strategy: None }
    }

    pub fn status(&mut self, status: u16) -> (r: &mut Self)
        ensures
            *r == (HttpResponse { status_code: status, ..*old(self) }),
            *final(self) == *final(r),
    {
        self.status_code = status;
        self
    }

    /// Appends `header_vec` after the headers already present.
    pub fn add_headers(&mut self, header_vec: Vec<HttpHeader>) -> (r: &mut Self)
        ensures
            r.headers@ == old(self).headers@ + header_vec@,
            r.status_code == old(self).status_code,
            r.body == old(self).body,
            r.upgrade == old(self).upgrade,
            r.streaming_strategy == old(self).streaming_strategy,
            *final(self) == *final(r),
    {
        let mut extra = header_vec;
        self.headers.append(&mut extra);
        self
    }

    pub fn set_body(&mut self, body: Vec<u8>) -> (r: &mut Self)
        ensures
            *r == (HttpResponse { body: body, ..*old(self) }),
            *final(self) == *final(r),
    {
        self.body = body;
        self
    }
}

} // verus!
