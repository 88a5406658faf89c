//! The request model: a value built field by field and serialized to the
//! HTTP/1.1 wire text.
use vstd::prelude::*;
use vstd::string::*;
use vstd::utf8::encode_utf8;

use crate::decimal::{decimal, decimal_text, digits_value, is_digit, lemma_decimal_round_trip};

verus! {

/// Host name used when none is set.
pub const DEFAULT_URL: &'static str = "http://localhost";

/// Server port used when none is set.
pub const DEFAULT_PORT: u16 = 80;

/// Timeout used when none is set, in milliseconds.
pub const DEFAULT_TIMEOUT_MILLIS: u64 = 15000;

/// The abstract value of a request.
pub struct RequestView {
    pub ipv4: Seq<u8>,
    pub port: u16,
    pub url: Seq<char>,
    pub host: Seq<char>,
    pub method: Seq<char>,
    pub headers: Seq<Seq<char>>,
    pub body: Seq<char>,
    pub timeout: u64,
    pub basic_auth: Option<Seq<char>>,
}

/// An HTTP request to one server.
#[derive(Debug)]
pub struct HttpRequest {
    /// IPv4 address of the server.
    ipv4: [u8; 4],
    /// Port of the server.
    port: u16,
    /// Target path.
    url: String,
    /// Value of the `Host` header.
    host: String,
    /// HTTP method, e.g. "POST".
    method: String,
    /// Raw header lines, in insertion order.
    headers: Vec<String>,
    /// Body of the request.
    body: String,
    /// Timeout of the whole exchange, in milliseconds.
    timeout: u64,
    /// Pre-encoded value of the `Authorization: Basic` header.
    basic_auth: Option<String>,
}

/// The views of a sequence of strings.
pub open spec fn string_views(v: Seq<String>) -> Seq<Seq<char>> {
    v.map_values(|s: String| s@)
}

impl View for HttpRequest {
    type V = RequestView;

    closed spec fn view(&self) -> RequestView {
        RequestView {
            ipv4: self.ipv4@,
            port: self.port,
            url: self.url@,
            host: self.host@,
            method: self.method@,
            headers: string_views(self.headers@),
            body: self.body@,
            timeout: self.timeout,
            basic_auth: match self.basic_auth {
                Some(a) => Some(a@),
                None => None,
            },
        }
    }
}

/// The value of a request built without setting any field.
pub open spec fn default_request() -> RequestView {
    RequestView {
        ipv4: seq![192u8, 168u8, 42u8, 1u8],
        port: DEFAULT_PORT,
        url: "/"@,
        host: DEFAULT_URL@,
        method: "POST"@,
        headers: Seq::empty(),
        body: Seq::empty(),
        timeout: DEFAULT_TIMEOUT_MILLIS,
        basic_auth: None,
    }
}

/// The target path as sent: with a leading `/` added when missing.
pub open spec fn request_path(url: Seq<char>) -> Seq<char> {
    if url.len() > 0 && url[0] == '/' {
        url
    } else {
        seq!['/'] + url
    }
}

/// The caller's header lines, each ended by CRLF.
pub open spec fn header_lines(headers: Seq<Seq<char>>) -> Seq<char>
    decreases headers.len(),
{
    if headers.len() == 0 {
        Seq::empty()
    } else {
        header_lines(headers.drop_last()) + headers.last() + "\r\n"@
    }
}

/// The `Authorization` line, present only when a credential is set.
pub open spec fn auth_line(auth: Option<Seq<char>>) -> Seq<char> {
    match auth {
        Some(a) => "Authorization: Basic "@ + a + "\r\n"@,
        None => Seq::empty(),
    }
}

/// The length of a body in bytes.
pub open spec fn body_length(body: Seq<char>) -> nat {
    encode_utf8(body).len()
}

/// Everything before the `Content-Length` line.
pub open spec fn request_head(r: RequestView) -> Seq<char> {
    r.method + " "@ + request_path(r.url) + " HTTP/1.1\r\n"@ + "Host: "@ + r.host + "\r\n"@
        + header_lines(r.headers) + auth_line(r.basic_auth)
}

/// What follows the digits of the `Content-Length` line.
pub open spec fn request_tail(body: Seq<char>) -> Seq<char> {
    "\r\n"@ + "Connection: close\r\n"@ + "\r\n"@ + body
}

/// The wire text of a request.
pub open spec fn request_text(r: RequestView) -> Seq<char> {
    request_head(r) + "Content-Length: "@ + decimal(body_length(r.body)) + request_tail(r.body)
}

impl Default for HttpRequest {
    fn default() -> (r: Self)
        ensures
            r@ == default_request(),
    {
        let r = HttpRequest {
            ipv4: [192, 168, 42, 1],
            port: DEFAULT_PORT,
            url: "/".to_owned(),
            host: DEFAULT_URL.to_owned(),
            method: "POST".to_owned(),
            headers: Vec::new(),
            body: String::new(),
            timeout: DEFAULT_TIMEOUT_MILLIS,
            basic_auth: None,
        };
        assert(r.ipv4@ =~= seq![192u8, 168u8, 42u8, 1u8]);
        assert(string_views(r.headers@) =~= Seq::<Seq<char>>::empty());
        r
    }
}

impl Clone for HttpRequest {
    fn clone(&self) -> (r: Self)
        ensures
            r@ == self@,
    {
        let mut headers: Vec<String> = Vec::new();
        let mut k: usize = 0;
        while k < self.headers.len()
            invariant
                k <= self.headers.len(),
                string_views(headers@) == string_views(self.headers@).take(k as int),
            decreases self.headers.len() - k,
        {
            let ghost before = headers@;
            let h = self.headers[k].clone();
            headers.push(h);
            assert(headers@ == before.push(h));
            assert(h@ == string_views(self.headers@)[k as int]);
            assert(string_views(headers@) =~= string_views(before).push(h@));
            assert(string_views(self.headers@).take(k + 1) =~= string_views(self.headers@).take(
                k as int,
            ).push(h@));
            assert(string_views(headers@) =~= string_views(self.headers@).take(k + 1));
            k += 1;
        }
        assert(string_views(self.headers@).take(k as int) =~= string_views(self.headers@));
        let basic_auth = match &self.basic_auth {
            Some(a) => Some(a.clone()),
            None => None,
        };
        HttpRequest {
            ipv4: self.ipv4,
            port: self.port,
            url: self.url.clone(),
            host: self.host.clone(),
            method: self.method.clone(),
            headers,
            body: self.body.clone(),
            timeout: self.timeout,
            basic_auth,
        }
    }
}

impl HttpRequest {
    /// A request with the default fields.
    pub fn new() -> (r: Self)
        ensures
            r@ == default_request(),
    {
        HttpRequest::default()
    }

    /// Sets the IPv4 address of the server.
    pub fn ipv4(self, ip: [u8; 4]) -> (r: Self)
        ensures
            r@ == (RequestView { ipv4: ip@, ..self@ }),
    {
        let mut r = self;
        r.ipv4 = ip;
        r
    }

    /// Sets the port of the server.
    pub fn port(self, port: u16) -> (r: Self)
        ensures
            r@ == (RequestView { port, ..self@ }),
    {
        let mut r = self;
        r.port = port;
        r
    }

    /// Sets the target path.
    pub fn url(self, url: &str) -> (r: Self)
        ensures
            r@ == (RequestView { url: url@, ..self@ }),
    {
        let mut r = self;
        r.url = url.to_owned();
        r
    }

    /// Sets the value of the `Host` header.
    pub fn host(self, host: &str) -> (r: Self)
        ensures
            r@ == (RequestView { host: host@, ..self@ }),
    {
        let mut r = self;
        r.host = host.to_owned();
        r
    }

    /// Sets the HTTP method.
    pub fn method(self, method: &str) -> (r: Self)
        ensures
            r@ == (RequestView { method: method@, ..self@ }),
    {
        let mut r = self;
        r.method = method.to_owned();
        r
    }

    /// Adds a raw header line, after those added before.
    pub fn header(self, header: &str) -> (r: Self)
        ensures
            r@ == (RequestView { headers: self@.headers.push(header@), ..self@ }),
    {
        let mut r = self;
        r.headers.push(header.to_owned());
        assert(string_views(r.headers@) =~= string_views(self.headers@).push(header@));
        r
    }

    /// Sets the body.
    pub fn body(self, body: &str) -> (r: Self)
        ensures
            r@ == (RequestView { body: body@, ..self@ }),
    {
        let mut r = self;
        r.body = body.to_owned();
        r
    }

    /// Sets the timeout of the whole exchange, in milliseconds.
    pub fn timeout(self, millis: u64) -> (r: Self)
        ensures
            r@ == (RequestView { timeout: millis, ..self@ }),
    {
        let mut r = self;
        r.timeout = millis;
        r
    }

    /// Sets the pre-encoded credential of the `Authorization: Basic` header.
    pub fn basic_auth(self, credential: &str) -> (r: Self)
        ensures
            r@ == (RequestView { basic_auth: Some(credential@), ..self@ }),
    {
        let mut r = self;
        r.basic_auth = Some(credential.to_owned());
        r
    }

    /// The IPv4 address of the server.
    pub fn target_address(&self) -> (r: [u8; 4])
        ensures
            r@ == self@.ipv4,
    {
        self.ipv4
    }

    /// The port of the server.
    pub fn target_port(&self) -> (r: u16)
        ensures
            r == self@.port,
    {
        self.port
    }

    /// The timeout of the whole exchange, in milliseconds.
    pub fn timeout_millis(&self) -> (r: u64)
        ensures
            r == self@.timeout,
    {
        self.timeout
    }

    /// The wire text of the request: request line, `Host`, the caller's
    /// headers, `Authorization` when set, `Content-Length`,
    /// `Connection: close`, a blank line and the body.
    pub fn construct_http_request(&self) -> (r: String)
        ensures
            r@ == request_text(self@),
    {
        let mut request = String::new();
        request.append(self.method.as_str());
        request.append(" ");
        let ghost start = request@;
        if self.url.as_str().is_empty() || self.url.as_str().get_char(0) != '/' {
            request.push('/');
        }
        request.append(self.url.as_str());
        assert(request@ =~= start + request_path(self.url@));
        request.append(" HTTP/1.1\r\n");
        request.append("Host: ");
        request.append(self.host.as_str());
        request.append("\r\n");
        let ghost before_headers = request@;
        let mut k: usize = 0;
        while k < self.headers.len()
            invariant
                k <= self.headers.len(),
                request@ == before_headers + header_lines(string_views(self.headers@).take(k as int)),
            decreases self.headers.len() - k,
        {
            let ghost hs = string_views(self.headers@);
            request.append(self.headers[k].as_str());
            request.append("\r\n");
            assert(hs.take(k + 1).drop_last() =~= hs.take(k as int));
            assert(request@ =~= before_headers + header_lines(hs.take(k + 1)));
            k += 1;
        }
        assert(string_views(self.headers@).take(k as int) =~= string_views(self.headers@));
        match &self.basic_auth {
            Some(a) => {
                request.append("Authorization: Basic ");
                request.append(a.as_str());
                request.append("\r\n");
            },
            None => {},
        }
        assert(request@ =~= request_head(self@));
        request.append("Content-Length: ");
        let length = self.body.as_str().as_bytes().len();
        let digits = decimal_text(length as u64);
        request.append(digits.as_str());
        request.append("\r\n");
        request.append("Connection: close\r\n");
        request.append("\r\n");
        request.append(self.body.as_str());
        assert(request@ =~= request_text(self@));
        request
    }
}


/// Serialization is a function of the request's fields alone: two requests
/// with the same fields serialize to the same text.
pub proof fn lemma_serialization_deterministic(a: &HttpRequest, b: &HttpRequest)
    requires
        a@ == b@,
    ensures
        request_text(a@) == request_text(b@),
{
}

/// Normalizing a path twice changes nothing more than normalizing it once.
pub proof fn lemma_request_path_idempotent(url: Seq<char>)
    ensures
        request_path(request_path(url)) == request_path(url),
        request_path(url).len() > 0 && request_path(url)[0] == '/',
{
}

/// A request whose path lacks the leading `/` serializes exactly as the
/// same request with the `/` written out.
pub proof fn lemma_leading_slash_optional(r: RequestView, url: Seq<char>)
    requires
        !(url.len() > 0 && url[0] == '/'),
    ensures
        request_text(RequestView { url: url, ..r }) == request_text(
            RequestView { url: seq!['/'] + url, ..r },
        ),
{
    assert((seq!['/'] + url)[0] == '/');
}

/// The `Content-Length` value in the wire text is non-empty decimal text
/// that reads back as the byte length of the body.
pub proof fn lemma_content_length_round_trip(r: RequestView)
    ensures
        exists|digits: Seq<char>|
            {
                &&& request_text(r) == request_head(r) + "Content-Length: "@ + digits + request_tail(
                    r.body,
                )
                &&& digits.len() >= 1
                &&& forall|i: int| 0 <= i < digits.len() ==> is_digit(#[trigger] digits[i])
                &&& digits_value(digits) == body_length(r.body)
            },
{
    let digits = decimal(body_length(r.body));
    lemma_decimal_round_trip(body_length(r.body));
    assert(request_text(r) == request_head(r) + "Content-Length: "@ + digits + request_tail(r.body));
}

} // verus!
