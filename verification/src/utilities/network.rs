//! HTTP mock utilities.
//!
//! This module provides easy-to-use abstractions for describing the HTTP
//! response that a mocked socket hands to any HTTP client, so that the client
//! receives a predefined response without making actual network calls.
use vstd::prelude::*;
use vstd::string::*;

verus! {

/// HTTP status codes commonly used in testing
#[derive(Debug, Clone, Copy)]
pub enum HttpStatus {
    #[allow(non_camel_case_types)]
    OK,
    Created,
    NoContent,
    BadRequest,
    Unauthorized,
    Forbidden,
    NotFound,
    InternalServerError,
    BadGateway,
    ServiceUnavailable,
}

impl HttpStatus {
    /// The numeric code of the status.
    pub open spec fn code(self) -> u16 {
        match self {
            HttpStatus::OK => 200,
            HttpStatus::Created => 201,
            HttpStatus::NoContent => 204,
            HttpStatus::BadRequest => 400,
            HttpStatus::Unauthorized => 401,
            HttpStatus::Forbidden => 403,
            HttpStatus::NotFound => 404,
            HttpStatus::InternalServerError => 500,
            HttpStatus::BadGateway => 502,
            HttpStatus::ServiceUnavailable => 503,
        }
    }

    /// The phrase that follows the code in the status line.
    pub open spec fn phrase(self) -> Seq<char> {
        match self {
            HttpStatus::OK => "OK"@,
            HttpStatus::Created => "Created"@,
            HttpStatus::NoContent => "No Content"@,
            HttpStatus::BadRequest => "Bad Request"@,
            HttpStatus::Unauthorized => "Unauthorized"@,
            HttpStatus::Forbidden => "Forbidden"@,
            HttpStatus::NotFound => "Not Found"@,
            HttpStatus::InternalServerError => "Internal Server Error"@,
            HttpStatus::BadGateway => "Bad Gateway"@,
            HttpStatus::ServiceUnavailable => "Service Unavailable"@,
        }
    }

    pub fn as_u16(self) -> (code: u16)
        ensures
            code == self.code(),
    {
        match self {
            HttpStatus::OK => 200,
            HttpStatus::Created => 201,
            HttpStatus::NoContent => 204,
            HttpStatus::BadRequest => 400,
            HttpStatus::Unauthorized => 401,
            HttpStatus::Forbidden => 403,
            HttpStatus::NotFound => 404,
            HttpStatus::InternalServerError => 500,
            HttpStatus::BadGateway => 502,
            HttpStatus::ServiceUnavailable => 503,
        }
    }

    pub fn reason_phrase(self) -> (phrase: &'static str)
        ensures
            phrase@ == self.phrase(),
    {
        match self {
            HttpStatus::OK => "OK",
            HttpStatus::Created => "Created",
            HttpStatus::NoContent => "No Content",
            HttpStatus::BadRequest => "Bad Request",
            HttpStatus::Unauthorized => "Unauthorized",
            HttpStatus::Forbidden => "Forbidden",
            HttpStatus::NotFound => "Not Found",
            HttpStatus::InternalServerError => "Internal Server Error",
            HttpStatus::BadGateway => "Bad Gateway",
            HttpStatus::ServiceUnavailable => "Service Unavailable",
        }
    }
}

/// The character of a decimal digit.
pub open spec fn digit_char(digit: nat) -> char {
    if digit == 0 {
        '0'
    } else if digit == 1 {
        '1'
    } else if digit == 2 {
        '2'
    } else if digit == 3 {
        '3'
    } else if digit == 4 {
        '4'
    } else if digit == 5 {
        '5'
    } else if digit == 6 {
        '6'
    } else if digit == 7 {
        '7'
    } else if digit == 8 {
        '8'
    } else {
        '9'
    }
}

/// A number in decimal, without leading zeros.
pub open spec fn decimal_text(n: nat) -> Seq<char>
    decreases n,
{
    if n < 10 {
        seq![digit_char(n)]
    } else {
        decimal_text(n / 10).push(digit_char(n % 10))
    }
}

/// A decimal digit as a string.
fn digit_str(digit: usize) -> (text: &'static str)
    requires
        digit < 10,
    ensures
        text@ == seq![digit_char(digit as nat)],
{
    proof {
        reveal_strlit("0");
        reveal_strlit("1");
        reveal_strlit("2");
        reveal_strlit("3");
        reveal_strlit("4");
        reveal_strlit("5");
        reveal_strlit("6");
        reveal_strlit("7");
        reveal_strlit("8");
        reveal_strlit("9");
    }
    let text = if digit == 0 {
        "0"
    } else if digit == 1 {
        "1"
    } else if digit == 2 {
        "2"
    } else if digit == 3 {
        "3"
    } else if digit == 4 {
        "4"
    } else if digit == 5 {
        "5"
    } else if digit == 6 {
        "6"
    } else if digit == 7 {
        "7"
    } else if digit == 8 {
        "8"
    } else {
        "9"
    };
    assert(text@ =~= seq![digit_char(digit as nat)]);
    text
}

/// Appends `n` in decimal to `text`.
pub fn push_decimal(text: &mut String, n: usize)
    ensures
        final(text)@ == old(text)@ + decimal_text(n as nat),
    decreases n,
{
    if n >= 10 {
        push_decimal(text, n / 10);
    }
    text.append(digit_str(n % 10));
    assert(text@ =~= old(text)@ + decimal_text(n as nat));
}

/// The name for what `str::to_lowercase` makes of a text.
pub uninterp spec fn lowercase(text: Seq<char>) -> Seq<char>;

/// `str::to_lowercase`: the lowercase equivalent of `text` as a new string,
/// by the rules of Unicode. The contract only names the result.
#[verifier::external_body]
fn to_lowercase(text: &str) -> (lowered: String)
    ensures
        lowered@ == lowercase(text@),
{
    text.to_lowercase()
}

/// Whether a header name, already in lowercase, is the one called `header`.
pub fn names_header(lowered: &String, header: &str) -> (same: bool)
    ensures
        same == (lowered@ == header@),
{
    let wanted = header.to_owned();
    *lowered == wanted
}

/// A list of headers as plain values: name and value of each.
pub open spec fn header_views(headers: Seq<(String, String)>) -> Seq<(Seq<char>, Seq<char>)> {
    Seq::new(headers.len(), |i: int| (headers[i].0@, headers[i].1@))
}

/// Whether one of the headers goes by `name`, whatever its case; `name` is in
/// lowercase.
pub open spec fn has_header(headers: Seq<(Seq<char>, Seq<char>)>, name: Seq<char>) -> bool {
    exists|i: int| 0 <= i < headers.len() && lowercase(#[trigger] headers[i].0) == name
}

/// The headers that do not go by `name`, in their order.
pub open spec fn without_header(headers: Seq<(Seq<char>, Seq<char>)>, name: Seq<char>) -> Seq<
    (Seq<char>, Seq<char>),
>
    decreases headers.len(),
{
    if headers.len() == 0 {
        Seq::empty()
    } else if lowercase(headers.last().0) == name {
        without_header(headers.drop_last(), name)
    } else {
        without_header(headers.drop_last(), name).push(headers.last())
    }
}

/// None of the headers that are left goes by the name that was taken out, and
/// none was added.
pub proof fn lemma_without_header(headers: Seq<(Seq<char>, Seq<char>)>, name: Seq<char>)
    ensures
        !has_header(without_header(headers, name), name),
        without_header(headers, name).len() <= headers.len(),
        !has_header(headers, name) ==> without_header(headers, name) == headers,
    decreases headers.len(),
{
    if headers.len() > 0 {
        let rest = headers.drop_last();
        lemma_without_header(rest, name);
        let kept = without_header(rest, name);
        if lowercase(headers.last().0) != name {
            let all = kept.push(headers.last());
            assert forall|i: int| 0 <= i < all.len() implies lowercase(#[trigger] all[i].0)
                != name by {
                if i < kept.len() {
                    assert(all[i] == kept[i]);
                }
            }
            if !has_header(headers, name) {
                assert forall|i: int| 0 <= i < rest.len() implies lowercase(
                    #[trigger] rest[i].0,
                ) != name by {
                    assert(rest[i] == headers[i]);
                }
                assert(kept.push(headers.last()) =~= headers);
            }
        } else {
            assert(lowercase(headers[headers.len() - 1].0) == name);
        }
    } else {
        assert(without_header(headers, name) =~= headers);
    }
}

/// The header lines of a response: `name: value` and a line break for each.
pub open spec fn header_lines(headers: Seq<(Seq<char>, Seq<char>)>) -> Seq<char>
    decreases headers.len(),
{
    if headers.len() == 0 {
        Seq::empty()
    } else {
        header_lines(headers.drop_last()) + headers.last().0 + ": "@ + headers.last().1 + "\r\n"@
    }
}

/// A mock configuration as a plain value.
pub ghost struct HttpMockConfigView {
    pub status: HttpStatus,
    pub headers: Seq<(Seq<char>, Seq<char>)>,
    pub body: Seq<char>,
    pub delay_calls: usize,
}

impl HttpMockConfigView {
    /// The `Content-Length` line that is put in front of the headers, unless
    /// they bring one along: the length of the body in bytes.
    pub open spec fn content_length_line(self) -> Seq<char> {
        if has_header(self.headers, "content-length"@) {
            Seq::empty()
        } else {
            "Content-Length: "@ + decimal_text(vstd::utf8::encode_utf8(self.body).len()) + "\r\n"@
        }
    }

    /// The complete response: status line, headers, an empty line, the body.
    pub open spec fn response_text(self) -> Seq<char> {
        "HTTP/1.1 "@ + decimal_text(self.status.code() as nat) + " "@ + self.status.phrase()
            + "\r\n"@ + self.content_length_line() + header_lines(self.headers) + "\r\n"@
            + self.body
    }

    /// The configuration with `json` as its body, without the headers that
    /// went by `Content-Type` in any case, and with one that says JSON at the
    /// end.
    pub open spec fn with_json_body(self, json: Seq<char>) -> HttpMockConfigView {
        HttpMockConfigView {
            body: json,
            headers: without_header(self.headers, "content-type"@).push(
                ("Content-Type"@, "application/json"@),
            ),
            ..self
        }
    }
}

/// The configuration that a new mock starts from: 200 OK, a JSON body that
/// reports success, the headers of a small web server, and a delay of three
/// calls.
pub open spec fn default_config() -> HttpMockConfigView {
    HttpMockConfigView {
        status: HttpStatus::OK,
        headers: seq![
            ("Content-Type"@, "application/json"@),
            ("Server"@, "nginx/1.18.0"@),
            ("Date"@, "Tue, 01 Jul 2025 12:00:00 GMT"@),
            ("Connection"@, "close"@),
        ],
        body: "{\"status\": \"success\", \"message\": \"Mocked response\"}"@,
        delay_calls: 3,
    }
}

/// Configuration for HTTP response mocking
#[derive(Debug, Clone)]
pub struct HttpMockConfig {
    pub status: HttpStatus,
    pub headers: Vec<(String, String)>,
    pub body: String,
    pub delay_calls: usize,  // Number of socket calls before returning the response
}

impl View for HttpMockConfig {
    type V = HttpMockConfigView;

    open spec fn view(&self) -> HttpMockConfigView {
        HttpMockConfigView {
            status: self.status,
            headers: header_views(self.headers@),
            body: self.body@,
            delay_calls: self.delay_calls,
        }
    }
}

impl Default for HttpMockConfig {
    fn default() -> (config: Self)
        ensures
            config@ == default_config(),
    {
        let mut headers: Vec<(String, String)> = Vec::new();
        headers.push(("Content-Type".to_owned(), "application/json".to_owned()));
        headers.push(("Server".to_owned(), "nginx/1.18.0".to_owned()));
        headers.push(("Date".to_owned(), "Tue, 01 Jul 2025 12:00:00 GMT".to_owned()));
        headers.push(("Connection".to_owned(), "close".to_owned()));
        let config = Self {
            status: HttpStatus::OK,
            headers,
            body: "{\"status\": \"success\", \"message\": \"Mocked response\"}".to_owned(),
            delay_calls: 3,  // Default delay for TLS handshake simulation
        };
        assert(config@.headers =~= default_config().headers);
        config
    }
}

impl HttpMockConfig {
    /// Create a new HTTP mock configuration with 200 OK status
    pub fn new() -> (config: Self)
        ensures
            config@ == default_config(),
    {
        Self::default()
    }

    /// Set the HTTP status code
    pub fn with_status(self, status: HttpStatus) -> (config: Self)
        ensures
            config@ == (HttpMockConfigView { status, ..self@ }),
    {
        let mut config = self;
        config.status = status;
        config
    }

    /// Add a custom header
    pub fn with_header(self, name: &str, value: &str) -> (config: Self)
        ensures
            config@ == (HttpMockConfigView {
                headers: self@.headers.push((name@, value@)),
                ..self@
            }),
    {
        let mut config = self;
        config.headers.push((name.to_owned(), value.to_owned()));
        assert(config@.headers =~= self@.headers.push((name@, value@)));
        config
    }

    /// Set the response body
    pub fn with_body(self, body: &str) -> (config: Self)
        ensures
            config@ == (HttpMockConfigView { body: body@, ..self@ }),
    {
        let mut config = self;
        config.body = body.to_owned();
        config
    }

    /// Set JSON response body
    pub fn with_json_body(self, json: &str) -> (config: Self)
        ensures
            config@ == self@.with_json_body(json@),
    {
        // Ensure Content-Type is set to JSON
        let mut headers: Vec<(String, String)> = Vec::new();
        let mut i: usize = 0;
        while i < self.headers.len()
            invariant
                i <= self.headers.len(),
                header_views(headers@) == without_header(
                    header_views(self.headers@).subrange(0, i as int),
                    "content-type"@,
                ),
            decreases self.headers.len() - i,
        {
            let header = &self.headers[i];
            let lowered = to_lowercase(header.0.as_str());
            proof {
                let seen = header_views(self.headers@).subrange(0, i + 1);
                assert(seen.drop_last() =~= header_views(self.headers@).subrange(0, i as int));
                assert(seen.last() == (header.0@, header.1@));
            }
            if !names_header(&lowered, "content-type") {
                let ghost before = header_views(headers@);
                headers.push((header.0.clone(), header.1.clone()));
                assert(header_views(headers@) =~= before.push((header.0@, header.1@)));
            }
            i += 1;
        }
        let ghost kept = header_views(headers@);
        headers.push(("Content-Type".to_owned(), "application/json".to_owned()));
        proof {
            assert(header_views(self.headers@).subrange(0, self.headers.len() as int)
                =~= header_views(self.headers@));
            assert(header_views(headers@) =~= kept.push(("Content-Type"@, "application/json"@)));
        }
        Self {
            status: self.status,
            headers,
            body: json.to_owned(),
            delay_calls: self.delay_calls,
        }
    }

    /// Set the number of socket calls to delay before returning the response
    /// This is useful for simulating TLS handshakes
    pub fn with_delay_calls(self, delay: usize) -> (config: Self)
        ensures
            config@ == (HttpMockConfigView { delay_calls: delay, ..self@ }),
    {
        let mut config = self;
        config.delay_calls = delay;
        config
    }

    /// Whether the headers bring a `Content-Length` along.
    fn has_content_length(&self) -> (found: bool)
        ensures
            found == has_header(self@.headers, "content-length"@),
    {
        let mut i: usize = 0;
        while i < self.headers.len()
            invariant
                i <= self.headers.len(),
                forall|j: int|
                    0 <= j < i ==> lowercase(#[trigger] header_views(self.headers@)[j].0)
                        != "content-length"@,
            decreases self.headers.len() - i,
        {
            let lowered = to_lowercase(self.headers[i].0.as_str());
            if names_header(&lowered, "content-length") {
                assert(lowercase(header_views(self.headers@)[i as int].0) == "content-length"@);
                return true;
            }
            i += 1;
        }
        false
    }

    /// Generate the complete HTTP response as bytes
    pub fn to_response_bytes(&self) -> (bytes: Vec<u8>)
        ensures
            bytes@ == vstd::utf8::encode_utf8(self@.response_text()),
    {
        let mut response = "HTTP/1.1 ".to_owned();
        push_decimal(&mut response, self.status.as_u16() as usize);
        response.append(" ");
        response.append(self.status.reason_phrase());
        response.append("\r\n");

        // Add Content-Length header
        let ghost status_line = response@;
        let body_len = self.body.as_str().as_bytes().len();
        assert(body_len == vstd::utf8::encode_utf8(self.body@).len());
        if !self.has_content_length() {
            response.append("Content-Length: ");
            push_decimal(&mut response, body_len);
            response.append("\r\n");
            assert(response@ =~= status_line + self@.content_length_line());
        } else {
            assert(response@ =~= status_line + self@.content_length_line());
        }
        assert(response@ =~= "HTTP/1.1 "@ + decimal_text(self.status.code() as nat) + " "@
            + self.status.phrase() + "\r\n"@ + self@.content_length_line());
        let ghost head = response@;

        // Add all headers
        let mut i: usize = 0;
        while i < self.headers.len()
            invariant
                i <= self.headers.len(),
                response@ == head + header_lines(header_views(self.headers@).subrange(0, i as int)),
            decreases self.headers.len() - i,
        {
            proof {
                let seen = header_views(self.headers@).subrange(0, i + 1);
                assert(seen.drop_last() =~= header_views(self.headers@).subrange(0, i as int));
                assert(seen.last() == (self.headers[i as int].0@, self.headers[i as int].1@));
            }
            response.append(self.headers[i].0.as_str());
            response.append(": ");
            response.append(self.headers[i].1.as_str());
            response.append("\r\n");
            assert(response@ =~= head + header_lines(
                header_views(self.headers@).subrange(0, i + 1),
            ));
            i += 1;
        }
        assert(header_views(self.headers@).subrange(0, self.headers.len() as int) =~= header_views(
            self.headers@,
        ));

        // Add header/body separator and body
        response.append("\r\n");
        response.append(self.body.as_str());
        assert(response@ =~= self@.response_text());

        response.as_str().as_bytes_vec()
    }
}

/// The JSON body of an error response.
pub open spec fn error_body(status: HttpStatus, message: Seq<char>) -> Seq<char> {
    "{\"error\": \""@ + message + "\", \"status\": "@ + decimal_text(status.code() as nat) + "}"@
}

/// HTTP Mock Manager: a configuration together with the response it renders
/// to.
pub struct HttpMocker {
    config: HttpMockConfig,
    response_bytes: Vec<u8>,
}

impl View for HttpMocker {
    type V = HttpMockConfigView;

    closed spec fn view(&self) -> HttpMockConfigView {
        self.config@
    }
}

impl HttpMocker {
    #[verifier::type_invariant]
    spec fn rendered(self) -> bool {
        self.response_bytes@ == vstd::utf8::encode_utf8(self.config@.response_text())
    }

    /// Create a new HTTP mocker with the given configuration
    pub fn new(config: HttpMockConfig) -> (mocker: Self)
        ensures
            mocker@ == config@,
    {
        let response_bytes = config.to_response_bytes();
        Self { config, response_bytes }
    }

    /// Create a simple 200 OK mocker
    pub fn ok() -> (mocker: Self)
        ensures
            mocker@ == default_config(),
    {
        Self::new(HttpMockConfig::new())
    }

    /// Create a mocker that returns the specified status
    pub fn with_status(status: HttpStatus) -> (mocker: Self)
        ensures
            mocker@ == (HttpMockConfigView { status, ..default_config() }),
    {
        Self::new(HttpMockConfig::new().with_status(status))
    }

    /// Create a mocker with JSON response
    pub fn with_json(json: &str) -> (mocker: Self)
        ensures
            mocker@ == default_config().with_json_body(json@),
    {
        Self::new(HttpMockConfig::new().with_json_body(json))
    }

    /// Create a mocker for error responses
    pub fn error(status: HttpStatus, message: &str) -> (mocker: Self)
        ensures
            mocker@ == (HttpMockConfigView { status, ..default_config() }).with_json_body(
                error_body(status, message@),
            ),
    {
        let mut error_body = "{\"error\": \"".to_owned();
        error_body.append(message);
        error_body.append("\", \"status\": ");
        push_decimal(&mut error_body, status.as_u16() as usize);
        error_body.append("}");
        assert(error_body@ =~= self::error_body(status, message@));
        Self::new(HttpMockConfig::new().with_status(status).with_json_body(error_body.as_str()))
    }

    /// The configuration of the mock.
    pub fn config(&self) -> (config: &HttpMockConfig)
        ensures
            config@ == self@,
    {
        &self.config
    }

    /// The response that the mock hands out, as it goes over the wire.
    pub fn response_bytes(&self) -> (bytes: &Vec<u8>)
        ensures
            bytes@ == vstd::utf8::encode_utf8(self@.response_text()),
    {
        proof {
            use_type_invariant(self);
        }
        &self.response_bytes
    }
}

/// The number of bytes in the mock TLS handshake.
pub const MOCK_TLS_HANDSHAKE_LEN: usize = 19;

/// Simple TLS handshake simulation data: a record header (handshake, TLS 1.2,
/// length 122), the start of a server hello, and a few bytes that make it look
/// like a valid handshake.
pub fn mock_tls_handshake() -> (data: [u8; 19])
    ensures
        data@ == seq![
            0x16u8,
            0x03u8,
            0x03u8,
            0x00u8,
            0x7au8,
            0x02u8,
            0x00u8,
            0x00u8,
            0x76u8,
            0x03u8,
            0x03u8,
            0x01u8,
            0x02u8,
            0x03u8,
            0x04u8,
            0x05u8,
            0x06u8,
            0x07u8,
            0x08u8,
        ],
{
    let data: [u8; 19] = [
        0x16,
        0x03,
        0x03,
        0x00,
        0x7a,  // TLS Record Header (Handshake, TLS 1.2, Length 122)
        0x02,
        0x00,
        0x00,
        0x76,  // Server Hello message
        0x03,
        0x03,  // TLS 1.2 version
        // Additional mock data to make it look like a valid handshake
        0x01,
        0x02,
        0x03,
        0x04,
        0x05,
        0x06,
        0x07,
        0x08,
    ];
    assert(data@ =~= seq![
        0x16u8,
        0x03u8,
        0x03u8,
        0x00u8,
        0x7au8,
        0x02u8,
        0x00u8,
        0x00u8,
        0x76u8,
        0x03u8,
        0x03u8,
        0x01u8,
        0x02u8,
        0x03u8,
        0x04u8,
        0x05u8,
        0x06u8,
        0x07u8,
        0x08u8,
    ]);
    data
}

/// What a mocked `recv` takes its data from.
#[derive(Debug, Clone, Copy, PartialEq, Eq, Structural)]
pub enum RecvSource {
    /// The mock TLS handshake.
    Handshake,
    /// The HTTP response.
    Response,
}

/// What a mocked `recv` does: it copies the first `copy_len` bytes of
/// `source` into the caller's buffer and reports `reported_len` bytes as
/// received.
#[derive(Debug, Clone, Copy, PartialEq, Eq, Structural)]
pub struct RecvReply {
    pub source: RecvSource,
    pub copy_len: usize,
    pub reported_len: usize,
}

/// The reply to the `stage`-th `recv` (counted from 1) into a buffer of
/// `buffer_len` bytes, by a mock that answers its first `delay_calls` calls with
/// a handshake of `handshake_len` bytes and every later one with a response of
/// `response_len` bytes. As much as fits the buffer is copied; the length
/// reported is that of the whole source.
pub open spec fn recv_reply_of(
    stage: usize,
    delay_calls: usize,
    handshake_len: usize,
    response_len: usize,
    buffer_len: usize,
) -> RecvReply {
    let source = if stage <= delay_calls {
        RecvSource::Handshake
    } else {
        RecvSource::Response
    };
    let source_len = if stage <= delay_calls {
        handshake_len
    } else {
        response_len
    };
    RecvReply {
        source,
        copy_len: if source_len <= buffer_len {
            source_len
        } else {
            buffer_len
        },
        reported_len: source_len,
    }
}

/// The mock socket handle for the `count`-th socket that is opened, counted
/// from 1: handles start above 100, out of the way of real descriptors.
pub fn mock_socket_handle(count: usize) -> (handle: usize)
    requires
        count <= usize::MAX - 100,
    ensures
        handle == 100 + count,
{
    100 + count
}

impl HttpMocker {
    /// What the mocked `recv` does on its `stage`-th call (counted from 1) with
    /// a buffer of `buffer_len` bytes: initial calls get the TLS handshake, the
    /// others the HTTP response.
    pub fn recv_reply(&self, stage: usize, buffer_len: usize) -> (reply: RecvReply)
        ensures
            reply == recv_reply_of(
                stage,
                self@.delay_calls,
                MOCK_TLS_HANDSHAKE_LEN,
                vstd::utf8::encode_utf8(self@.response_text()).len() as usize,
                buffer_len,
            ),
    {
        proof {
            use_type_invariant(self);
        }
        if stage <= self.config.delay_calls {
            // Return TLS handshake data for initial calls
            RecvReply {
                source: RecvSource::Handshake,
                copy_len: if MOCK_TLS_HANDSHAKE_LEN <= buffer_len {
                    MOCK_TLS_HANDSHAKE_LEN
                } else {
                    buffer_len
                },
                reported_len: MOCK_TLS_HANDSHAKE_LEN,
            }
        } else {
            // Return HTTP response
            let response_len = self.response_bytes.len();
            RecvReply {
                source: RecvSource::Response,
                copy_len: if response_len <= buffer_len {
                    response_len
                } else {
                    buffer_len
                },
                reported_len: response_len,
            }
        }
    }
}

} // verus!
