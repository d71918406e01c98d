//! RTSP messages: requests and their wire form, responses and their
//! parsing, the requests of the RAOP and AirPlay handshakes, and the
//! reading of a SETUP reply.

use vstd::prelude::*;
use vstd::utf8::{encode_utf8, valid_utf8};

use crate::bytes::push_all;
use crate::codec::CodecDescription;
use crate::error::{protocol_error, AirPlayError};
use crate::model::{endpoint_text, SessionDescriptor, RAOP_STARTUP_LATENCY_FRAMES};
use crate::text::{
    ascii_lower_seq, chars_eq, chars_eq_ignore_ascii_case, decimal, decimal_string, eq_ignore_ascii_case, find_chars, find_from,
    lemma_find_from_bounds, parse_unsigned, parse_unsigned_range, push_decimal, push_str, split,
    split_from, split_once, split_ranges, str_chars, string_from_range, trim, trim_range,
};

verus! {

/// The method of an RTSP request.
#[derive(Debug, Clone, Copy, PartialEq, Eq, Structural)]
pub enum RtspMethod {
    Get,
    Post,
    Options,
    Announce,
    Setup,
    Record,
    Teardown,
}

/// The name of a method on the wire.
pub open spec fn method_name(m: RtspMethod) -> Seq<char> {
    match m {
        RtspMethod::Get => "GET"@,
        RtspMethod::Post => "POST"@,
        RtspMethod::Options => "OPTIONS"@,
        RtspMethod::Announce => "ANNOUNCE"@,
        RtspMethod::Setup => "SETUP"@,
        RtspMethod::Record => "RECORD"@,
        RtspMethod::Teardown => "TEARDOWN"@,
    }
}

impl RtspMethod {
    /// The name of the method on the wire.
    pub fn as_str(self) -> (r: &'static str)
        ensures
            r@ == method_name(self),
    {
        match self {
            RtspMethod::Get => "GET",
            RtspMethod::Post => "POST",
            RtspMethod::Options => "OPTIONS",
            RtspMethod::Announce => "ANNOUNCE",
            RtspMethod::Setup => "SETUP",
            RtspMethod::Record => "RECORD",
            RtspMethod::Teardown => "TEARDOWN",
        }
    }
}

/// Header entries as (name, value) pairs, in the order they were added.
pub type HeaderSeq = Seq<(Seq<char>, Seq<char>)>;

/// The value of the last header whose name equals `name` up to ASCII case.
pub open spec fn header_get(hs: HeaderSeq, name: Seq<char>) -> Option<Seq<char>>
    decreases hs.len(),
{
    if hs.len() == 0 {
        None
    } else if eq_ignore_ascii_case(hs.last().0, name) {
        Some(hs.last().1)
    } else {
        header_get(hs.drop_last(), name)
    }
}

/// The view of a list of string pairs.
pub open spec fn pairs_view(v: Seq<(String, String)>) -> HeaderSeq {
    v.map_values(|p: (String, String)| (p.0@, p.1@))
}

/// RTSP headers, kept in insertion order.
#[derive(Debug, Clone, PartialEq, Eq)]
pub struct RtspHeaders(Vec<(String, String)>);

impl View for RtspHeaders {
    type V = HeaderSeq;

    closed spec fn view(&self) -> HeaderSeq {
        pairs_view(self.0@)
    }
}

impl RtspHeaders {
    /// No headers.
    pub fn new() -> (r: Self)
        ensures
            r@ == Seq::<(Seq<char>, Seq<char>)>::empty(),
    {
        let r = RtspHeaders(Vec::new());
        assert(r@ =~= Seq::<(Seq<char>, Seq<char>)>::empty());
        r
    }

    /// Appends a header; earlier headers of the same name stay.
    pub fn insert(&mut self, name: &str, value: &str)
        ensures
            final(self)@ == old(self)@.push((name@, value@)),
    {
        self.0.push((String::from_str(name), String::from_str(value)));
        assert(pairs_view(self.0@) =~= pairs_view(old(self).0@).push((name@, value@)));
    }

    /// A field-by-field copy.
    pub fn duplicate(&self) -> (r: Self)
        ensures
            r@ == self@,
    {
        let mut v: Vec<(String, String)> = Vec::new();
        let mut i: usize = 0;
        while i < self.0.len()
            invariant
                i <= self.0@.len(),
                v@ == self.0@.subrange(0, i as int),
            decreases self.0@.len() - i,
        {
            let name = self.0[i].0.clone();
            let value = self.0[i].1.clone();
            v.push((name, value));
            i = i + 1;
            assert(v@ =~= self.0@.subrange(0, i as int));
        }
        assert(v@ =~= self.0@);
        RtspHeaders(v)
    }

    /// The value of the last header named `name`, compared up to ASCII case.
    pub fn get(&self, name: &str) -> (r: Option<&str>)
        ensures
            r matches Some(v) ==> header_get(self@, name@) == Some(v@),
            r is None ==> header_get(self@, name@) is None,
    {
        let wanted = str_chars(name);
        let mut i = self.0.len();
        assert(self.0@.subrange(0, i as int) =~= self.0@);
        while i > 0
            invariant
                i <= self.0@.len(),
                wanted@ == name@,
                header_get(self@, name@) == header_get(pairs_view(self.0@.subrange(0, i as int)), name@),
            decreases i,
        {
            let candidate = str_chars(self.0[i - 1].0.as_str());
            let ghost prefix = pairs_view(self.0@.subrange(0, i as int));
            assert(prefix.last() == (self.0@[i - 1].0@, self.0@[i - 1].1@));
            assert(prefix.drop_last() =~= pairs_view(self.0@.subrange(0, i - 1)));
            if chars_eq_ignore_ascii_case(&candidate, &wanted) {
                return Some(self.0[i - 1].1.as_str());
            }
            i = i - 1;
        }
        None
    }

    /// The headers as (name, value) pairs.
    pub fn as_slice(&self) -> (r: &[(String, String)])
        ensures
            pairs_view(r@) == self@,
    {
        self.0.as_slice()
    }

    /// The number of headers.
    pub fn len(&self) -> (r: usize)
        ensures
            r == self@.len(),
    {
        self.0.len()
    }
}

/// `str::from_utf8`: the text of `bytes` when they are valid UTF-8.
#[verifier::external_body]
pub(crate) fn utf8_text(bytes: &[u8]) -> (r: Option<&str>)
    ensures
        r is Some <==> valid_utf8(bytes@),
        r matches Some(s) ==> encode_utf8(s@) == bytes@,
{
    std::str::from_utf8(bytes).ok()
}

/// The text of the header block of a request, through the blank line.
pub open spec fn headers_text(hs: HeaderSeq) -> Seq<char>
    decreases hs.len(),
{
    if hs.len() == 0 {
        seq![]
    } else {
        headers_text(hs.drop_last()) + hs.last().0 + ": "@ + hs.last().1 + "\r\n"@
    }
}

/// The text of a request up to and including the blank line.
pub open spec fn request_head_text(method: RtspMethod, uri: Seq<char>, hs: HeaderSeq) -> Seq<char> {
    method_name(method).push(' ') + uri + " RTSP/1.0\r\n"@ + headers_text(hs) + "\r\n"@
}

/// A request to a receiver.
#[derive(Debug, Clone, PartialEq, Eq)]
pub struct RtspRequest {
    pub method: RtspMethod,
    pub uri: String,
    pub headers: RtspHeaders,
    pub body: Vec<u8>,
}

impl RtspRequest {
    /// A request with no headers and no body.
    pub fn new(method: RtspMethod, uri: &str) -> (r: Self)
        ensures
            r.method == method,
            r.uri@ == uri@,
            r.headers@ == Seq::<(Seq<char>, Seq<char>)>::empty(),
            r.body@ == Seq::<u8>::empty(),
    {
        RtspRequest { method, uri: String::from_str(uri), headers: RtspHeaders::new(), body: Vec::new() }
    }

    /// The same request with one more header.
    pub fn with_header(self, name: &str, value: &str) -> (r: Self)
        ensures
            r.method == self.method,
            r.uri@ == self.uri@,
            r.headers@ == self.headers@.push((name@, value@)),
            r.body@ == self.body@,
    {
        let mut r = self;
        r.headers.insert(name, value);
        r
    }

    /// The same request with `body` as its body.
    pub fn with_body(self, body: &[u8]) -> (r: Self)
        ensures
            r.method == self.method,
            r.uri@ == self.uri@,
            r.headers@ == self.headers@,
            r.body@ == body@,
    {
        let mut r = self;
        let mut b: Vec<u8> = Vec::new();
        push_all(&mut b, body);
        r.body = b;
        r
    }

    /// The body as text, when it is valid UTF-8.
    pub fn body_text(&self) -> (r: Option<&str>)
        ensures
            r is Some <==> valid_utf8(self.body@),
            r matches Some(s) ==> encode_utf8(s@) == self.body@,
    {
        utf8_text(self.body.as_slice())
    }

    /// The request on the wire: request line, headers, blank line, body.
    pub fn encode(&self) -> (r: Vec<u8>)
        ensures
            r@ == encode_utf8(request_head_text(self.method, self.uri@, self.headers@)) + self.body@,
    {
        let mut text = String::new();
        push_str(&mut text, self.method.as_str());
        text.push(' ');
        push_str(&mut text, self.uri.as_str());
        push_str(&mut text, " RTSP/1.0\r\n");
        let entries = self.headers.as_slice();
        let ghost hs = self.headers@;
        let mut i: usize = 0;
        while i < entries.len()
            invariant
                pairs_view(entries@) == hs,
                i <= entries@.len(),
                text@ == method_name(self.method).push(' ') + self.uri@ + " RTSP/1.0\r\n"@
                    + headers_text(hs.subrange(0, i as int)),
            decreases entries@.len() - i,
        {
            push_str(&mut text, entries[i].0.as_str());
            push_str(&mut text, ": ");
            push_str(&mut text, entries[i].1.as_str());
            push_str(&mut text, "\r\n");
            proof {
                let next = hs.subrange(0, i + 1);
                assert(next.drop_last() =~= hs.subrange(0, i as int));
                assert(next.last() == (entries@[i as int].0@, entries@[i as int].1@));
            }
            i = i + 1;
            proof {
                assert(text@ =~= method_name(self.method).push(' ') + self.uri@ + " RTSP/1.0\r\n"@
                    + headers_text(hs.subrange(0, i as int)));
            }
        }
        assert(hs.subrange(0, i as int) =~= hs);
        push_str(&mut text, "\r\n");
        assert(text@ =~= request_head_text(self.method, self.uri@, self.headers@));
        let mut out: Vec<u8> = Vec::new();
        push_all(&mut out, text.as_str().as_bytes());
        push_all(&mut out, self.body.as_slice());
        out
    }
}

/// The status line of a response.
#[derive(Debug, Clone, PartialEq, Eq)]
pub struct RtspStatus {
    pub code: u16,
    pub reason_phrase: String,
}

/// A response from a receiver.
#[derive(Debug, Clone, PartialEq, Eq)]
pub struct RtspResponse {
    pub status: RtspStatus,
    pub headers: RtspHeaders,
    pub body: Vec<u8>,
}

/// The line break of RTSP.
pub open spec fn crlf() -> Seq<char> {
    seq!['\r', '\n']
}

/// The blank line that ends the header block.
pub open spec fn blank_line() -> Seq<char> {
    seq!['\r', '\n', '\r', '\n']
}

/// The status line split at its first two spaces, as `splitn(3, ' ')` does.
pub open spec fn status_fields(line: Seq<char>) -> Seq<Seq<char>> {
    match find_from(line, seq![' '], 0) {
        None => seq![line],
        Some(a) => match find_from(line, seq![' '], a + 1) {
            None => seq![line.subrange(0, a), line.subrange(a + 1, line.len() as int)],
            Some(b) => seq![
                line.subrange(0, a),
                line.subrange(a + 1, b),
                line.subrange(b + 1, line.len() as int),
            ],
        },
    }
}

/// The headers of the header lines: empty lines are skipped, every other
/// line must hold a `:` and gives its trimmed name and value.
pub open spec fn parse_header_lines(lines: Seq<Seq<char>>) -> Option<HeaderSeq>
    decreases lines.len(),
{
    if lines.len() == 0 {
        Some(seq![])
    } else {
        match parse_header_lines(lines.drop_last()) {
            None => None,
            Some(hs) => if lines.last().len() == 0 {
                Some(hs)
            } else {
                match split_once(lines.last(), seq![':']) {
                    None => None,
                    Some(parts) => Some(hs.push((trim(parts.0), trim(parts.1)))),
                }
            },
        }
    }
}

/// Status code, reason phrase and headers of a response head, or `None`
/// when the head is malformed.
pub open spec fn parse_head(head: Seq<char>) -> Option<(u16, Seq<char>, HeaderSeq)> {
    let lines = split(head, crlf());
    let fields = status_fields(lines[0]);
    if fields.len() < 2 {
        None
    } else {
        match parse_unsigned(fields[1], 65535) {
            None => None,
            Some(code) => match parse_header_lines(lines.drop_first()) {
                None => None,
                Some(hs) => Some(
                    (
                        code as u16,
                        if fields.len() == 3 {
                            fields[2]
                        } else {
                            seq![]
                        },
                        hs,
                    ),
                ),
            },
        }
    }
}

/// A raw response split at the first blank line into head and body text.
pub open spec fn split_head_body(raw: Seq<char>) -> (Seq<char>, Seq<char>) {
    match split_once(raw, blank_line()) {
        Some(parts) => parts,
        None => (raw, seq![]),
    }
}

proof fn lemma_split_from_nonempty(s: Seq<char>, sep: Seq<char>, i: int)
    requires
        sep.len() > 0,
        0 <= i <= s.len(),
    ensures
        split_from(s, sep, i).len() >= 1,
{
    lemma_find_from_bounds(s, sep, i);
}

proof fn lemma_header_lines_none_extends(lines: Seq<Seq<char>>, k: int)
    requires
        0 <= k <= lines.len(),
        parse_header_lines(lines.subrange(0, k)) is None,
    ensures
        parse_header_lines(lines) is None,
    decreases lines.len() - k,
{
    if k < lines.len() {
        assert(lines.subrange(0, k + 1).drop_last() =~= lines.subrange(0, k));
        lemma_header_lines_none_extends(lines, k + 1);
    } else {
        assert(lines.subrange(0, k) =~= lines);
    }
}

/// A copy of `v[lo..hi]`.
pub fn chars_range(v: &Vec<char>, lo: usize, hi: usize) -> (r: Vec<char>)
    requires
        lo <= hi <= v@.len(),
    ensures
        r@ == v@.subrange(lo as int, hi as int),
{
    let mut r: Vec<char> = Vec::new();
    let mut i = lo;
    while i < hi
        invariant
            lo <= i <= hi <= v@.len(),
            r@ == v@.subrange(lo as int, i as int),
        decreases hi - i,
    {
        r.push(v[i]);
        i = i + 1;
        assert(r@ =~= v@.subrange(lo as int, i as int));
    }
    r
}

/// The characters of a short literal.
fn literal_chars(s: &str) -> (r: Vec<char>)
    ensures
        r@ == s@,
{
    str_chars(s)
}

impl RtspResponse {
    /// A `code OK` response with no headers and no body.
    pub fn success(code: u16) -> (r: Self)
        ensures
            r.status.code == code,
            r.status.reason_phrase@ == "OK"@,
            r.headers@ == Seq::<(Seq<char>, Seq<char>)>::empty(),
            r.body@ == Seq::<u8>::empty(),
    {
        RtspResponse {
            status: RtspStatus { code, reason_phrase: String::from_str("OK") },
            headers: RtspHeaders::new(),
            body: Vec::new(),
        }
    }

    /// Parses a whole response: the head ends at the first blank line and
    /// the rest is the body; without a blank line all of it is the head.
    pub fn parse(raw: &str) -> (r: Result<Self, AirPlayError>)
        ensures
            ({
                let (head, body) = split_head_body(raw@);
                match parse_head(head) {
                    Some((code, reason, hs)) => r matches Ok(resp) && resp.status.code == code
                        && resp.status.reason_phrase@ == reason && resp.headers@ == hs
                        && resp.body@ == encode_utf8(body),
                    None => r matches Err(AirPlayError::Protocol { .. }),
                }
            }),
    {
        let v = str_chars(raw);
        let sep = literal_chars("\r\n\r\n");
        proof {
            reveal_strlit("\r\n\r\n");
        }
        assert(sep@ =~= blank_line());
        let n = v.len();
        let (head_end, body_start) = match find_chars(&v, &sep, 0) {
            Some(j) => {
                proof {
                    lemma_find_from_bounds(v@, sep@, 0);
                }
                (j, j + 4)
            },
            None => (v.len(), v.len()),
        };
        let head = string_from_range(&v, 0, head_end);
        let body_text = string_from_range(&v, body_start, v.len());
        assert(v@.subrange(v@.len() as int, v@.len() as int) =~= Seq::<char>::empty());
        assert(v@.subrange(0, v@.len() as int) =~= v@);
        let mut body: Vec<u8> = Vec::new();
        push_all(&mut body, body_text.as_str().as_bytes());
        assert(body@ =~= encode_utf8(body_text@));
        Self::parse_parts(head.as_str(), body)
    }

    /// Parses a response head and attaches `body`. The first line is the
    /// status line `version code reason`; every later non-empty line must be
    /// a `name: value` header.
    pub fn parse_parts(head: &str, body: Vec<u8>) -> (r: Result<Self, AirPlayError>)
        ensures
            match parse_head(head@) {
                Some((code, reason, hs)) => r matches Ok(resp) && resp.status.code == code
                    && resp.status.reason_phrase@ == reason && resp.headers@ == hs && resp.body@
                    == body@,
                None => r matches Err(AirPlayError::Protocol { .. }),
            },
    {
        let v = str_chars(head);
        let mut sep: Vec<char> = Vec::new();
        sep.push('\r');
        sep.push('\n');
        assert(sep@ =~= crlf());
        let ranges = split_ranges(&v, &sep);
        let ghost lines = split(v@, crlf());
        proof {
            lemma_split_from_nonempty(v@, crlf(), 0);
        }
        let line = chars_range(&v, ranges[0].0, ranges[0].1);
        assert(line@ == lines[0]);
        let mut space: Vec<char> = Vec::new();
        space.push(' ');
        assert(space@ =~= seq![' ']);
        let first = find_chars(&line, &space, 0);
        let a = match first {
            None => {
                return Err(protocol_error("RTSP status line is missing the status code"));
            },
            Some(a) => a,
        };
        proof {
            lemma_find_from_bounds(line@, space@, 0);
        }
        let second = find_chars(&line, &space, a + 1);
        proof {
            lemma_find_from_bounds(line@, space@, a + 1);
        }
        let code_end = match second {
            Some(b) => b,
            None => line.len(),
        };
        let ghost fields = status_fields(line@);
        assert(fields[1] == line@.subrange(a + 1, code_end as int));
        let code = match parse_unsigned_range(&line, a + 1, code_end, 65535) {
            Some(c) => c as u16,
            None => {
                let mut message = String::from_str("invalid RTSP status code: ");
                let status_line = string_from_range(&line, 0, line.len());
                push_str(&mut message, status_line.as_str());
                return Err(AirPlayError::Protocol { message });
            },
        };
        let reason_phrase = match second {
            Some(b) => string_from_range(&line, b + 1, line.len()),
            None => String::new(),
        };
        assert(reason_phrase@ == (if fields.len() == 3 { fields[2] } else { seq![] }));
        let mut headers = RtspHeaders::new();
        let mut colon: Vec<char> = Vec::new();
        colon.push(':');
        assert(colon@ =~= seq![':']);
        let ghost rest = lines.drop_first();
        assert(v@ == head@);
        assert(parse_head(head@) == (match parse_header_lines(rest) {
            None => None,
            Some(hs) => Some((code, reason_phrase@, hs)),
        }));
        let mut k: usize = 1;
        assert(rest.subrange(0, 0) =~= Seq::<Seq<char>>::empty());
        while k < ranges.len()
            invariant
                1 <= k <= ranges@.len(),
                ranges@.len() == lines.len(),
                rest == lines.drop_first(),
                colon@ == seq![':'],
                forall|m: int|
                    0 <= m < ranges@.len() ==> {
                        &&& (#[trigger] ranges@[m]).0 <= ranges@[m].1 <= v@.len()
                        &&& v@.subrange(ranges@[m].0 as int, ranges@[m].1 as int) == lines[m]
                    },
                parse_header_lines(rest.subrange(0, k - 1)) == Some(headers@),
                lines == split(head@, crlf()),
                parse_head(head@) == (match parse_header_lines(rest) {
                    None => None,
                    Some(hs) => Some((code, reason_phrase@, hs)),
                }),
            decreases ranges@.len() - k,
        {
            let (lo, hi) = ranges[k];
            let text = chars_range(&v, lo, hi);
            assert(text@ == lines[k as int]);
            let ghost prefix = rest.subrange(0, k as int);
            assert(prefix.drop_last() =~= rest.subrange(0, k - 1));
            assert(prefix.last() == lines[k as int]);
            if text.len() != 0 {
                match find_chars(&text, &colon, 0) {
                    None => {
                        proof {
                            assert(split_once(prefix.last(), seq![':']) is None);
                            assert(parse_header_lines(prefix) is None);
                            lemma_header_lines_none_extends(rest, k as int);
                        }
                        let mut message = String::from_str("invalid RTSP header line: ");
                        let header_line = string_from_range(&text, 0, text.len());
                        push_str(&mut message, header_line.as_str());
                        return Err(AirPlayError::Protocol { message });
                    },
                    Some(c) => {
                        proof {
                            lemma_find_from_bounds(text@, colon@, 0);
                        }
                        let (n0, n1) = trim_range(&text, 0, c);
                        let (v0, v1) = trim_range(&text, c + 1, text.len());
                        let name = string_from_range(&text, n0, n1);
                        let value = string_from_range(&text, v0, v1);
                        headers.insert(name.as_str(), value.as_str());
                    },
                }
            }
            k = k + 1;
        }
        assert(rest.subrange(0, k - 1) =~= rest);
        Ok(RtspResponse { status: RtspStatus { code, reason_phrase }, headers, body })
    }

    /// The body as text, when it is valid UTF-8.
    pub fn body_text(&self) -> (r: Option<&str>)
        ensures
            r is Some <==> valid_utf8(self.body@),
            r matches Some(s) ==> encode_utf8(s@) == self.body@,
    {
        utf8_text(self.body.as_slice())
    }

    /// Whether the status code is 2xx.
    pub fn is_success(&self) -> (r: bool)
        ensures
            r == (200 <= self.status.code < 300),
    {
        200 <= self.status.code && self.status.code < 300
    }
}


// ---------------------------------------------------------------------------
// SETUP reply

/// The ports a sender offers in SETUP.
#[derive(Debug, Clone, Copy, PartialEq, Eq, Structural)]
pub struct SetupTransport {
    pub control_port: u16,
    pub timing_port: u16,
}

/// What a receiver's SETUP reply tells the sender.
#[derive(Debug, Clone, PartialEq, Eq)]
pub struct SetupReply {
    pub session_id: String,
    pub session_timeout_secs: Option<u64>,
    pub server_port: u16,
    pub control_port: u16,
    pub timing_port: u16,
}

impl SetupReply {
    /// A field-by-field copy.
    pub fn duplicate(&self) -> (r: Self)
        ensures
            r == *self,
    {
        SetupReply {
            session_id: self.session_id.clone(),
            session_timeout_secs: self.session_timeout_secs,
            server_port: self.server_port,
            control_port: self.control_port,
            timing_port: self.timing_port,
        }
    }
}

/// The trimmed value of the first `name=value` part whose trimmed name is
/// exactly `field`.
pub open spec fn first_field_value(parts: Seq<Seq<char>>, field: Seq<char>) -> Option<Seq<char>>
    decreases parts.len(),
{
    if parts.len() == 0 {
        None
    } else {
        match split_once(parts[0], seq!['=']) {
            Some(nv) => if trim(nv.0) == field {
                Some(trim(nv.1))
            } else {
                first_field_value(parts.drop_first(), field)
            },
            None => first_field_value(parts.drop_first(), field),
        }
    }
}

/// The port a `Transport` header gives for `field`, when present and valid.
pub open spec fn transport_port(transport: Seq<char>, field: Seq<char>) -> Option<u16> {
    match first_field_value(split(transport, seq![';']), field) {
        None => None,
        Some(value) => match parse_unsigned(value, 65535) {
            Some(p) => Some(p as u16),
            None => None,
        },
    }
}

/// The first `timeout=N` part (name compared up to ASCII case) whose value
/// is a valid 64-bit number.
pub open spec fn session_timeout(parts: Seq<Seq<char>>) -> Option<u64>
    decreases parts.len(),
{
    if parts.len() == 0 {
        None
    } else {
        match split_once(parts[0], seq!['=']) {
            Some(nv) => if eq_ignore_ascii_case(trim(nv.0), "timeout"@) && parse_unsigned(
                trim(nv.1),
                0xffff_ffff_ffff_ffff,
            ) is Some {
                Some(parse_unsigned(trim(nv.1), 0xffff_ffff_ffff_ffff).unwrap() as u64)
            } else {
                session_timeout(parts.drop_first())
            },
            None => session_timeout(parts.drop_first()),
        }
    }
}

/// The session id of a `Session` header: its text before the first `;`, trimmed.
pub open spec fn session_id_of(session_header: Seq<char>) -> Seq<char> {
    trim(split(session_header, seq![';'])[0])
}

/// Session id, timeout, and server, control and timing ports of a SETUP
/// reply, or `None` when the reply is unusable.
pub open spec fn setup_reply_fields(code: u16, hs: HeaderSeq) -> Option<
    (Seq<char>, Option<u64>, u16, u16, u16),
> {
    if !(200 <= code < 300) {
        None
    } else {
        match header_get(hs, "Session"@) {
            None => None,
            Some(sh) => if session_id_of(sh).len() == 0 {
                None
            } else {
                match header_get(hs, "Transport"@) {
                    None => None,
                    Some(t) => match (
                        transport_port(t, "server_port"@),
                        transport_port(t, "control_port"@),
                        transport_port(t, "timing_port"@),
                    ) {
                        (Some(a), Some(b), Some(c)) => Some(
                            (session_id_of(sh), session_timeout(split(sh, seq![';'])), a, b, c),
                        ),
                        _ => None,
                    },
                }
            },
        }
    }
}

/// The message of the error a SETUP reply that `setup_reply_fields`
/// refuses gives: the first thing found wrong.
pub open spec fn setup_reply_error(code: u16, hs: HeaderSeq) -> Seq<char> {
    if !(200 <= code < 300) {
        "SETUP returned failure status "@ + decimal(code as nat)
    } else {
        match header_get(hs, "Session"@) {
            None => "SETUP response is missing the Session header"@,
            Some(sh) => if session_id_of(sh).len() == 0 {
                "SETUP response contained an empty Session header"@
            } else {
                match header_get(hs, "Transport"@) {
                    None => "SETUP response is missing the Transport header"@,
                    Some(t) => if transport_port(t, "server_port"@) is None {
                        transport_port_error(t, "server_port"@)
                    } else if transport_port(t, "control_port"@) is None {
                        transport_port_error(t, "control_port"@)
                    } else {
                        transport_port_error(t, "timing_port"@)
                    },
                }
            },
        }
    }
}

fn semicolon() -> (r: Vec<char>)
    ensures
        r@ == seq![';'],
{
    let mut r: Vec<char> = Vec::new();
    r.push(';');
    assert(r@ =~= seq![';']);
    r
}

fn equals_sign() -> (r: Vec<char>)
    ensures
        r@ == seq!['='],
{
    let mut r: Vec<char> = Vec::new();
    r.push('=');
    assert(r@ =~= seq!['=']);
    r
}

/// The trimmed value of the first part of `t` (split at `;`) whose trimmed
/// name is `field`.
fn find_field_value(t: &Vec<char>, field: &Vec<char>) -> (r: Option<Vec<char>>)
    ensures
        r matches Some(v) ==> first_field_value(split(t@, seq![';']), field@) == Some(v@),
        r is None ==> first_field_value(split(t@, seq![';']), field@) is None,
{
    let semi = semicolon();
    let eq = equals_sign();
    let ranges = split_ranges(t, &semi);
    let ghost parts = split(t@, seq![';']);
    assert(parts.subrange(0, parts.len() as int) =~= parts);
    let mut k: usize = 0;
    while k < ranges.len()
        invariant
            k <= ranges@.len(),
            ranges@.len() == parts.len(),
            eq@ == seq!['='],
            parts == split(t@, seq![';']),
            forall|m: int|
                0 <= m < ranges@.len() ==> {
                    &&& (#[trigger] ranges@[m]).0 <= ranges@[m].1 <= t@.len()
                    &&& t@.subrange(ranges@[m].0 as int, ranges@[m].1 as int) == parts[m]
                },
            first_field_value(parts, field@) == first_field_value(
                parts.subrange(k as int, parts.len() as int),
                field@,
            ),
        decreases ranges@.len() - k,
    {
        let piece = chars_range(t, ranges[k].0, ranges[k].1);
        let ghost tail = parts.subrange(k as int, parts.len() as int);
        assert(tail[0] == piece@);
        assert(tail.drop_first() =~= parts.subrange(k + 1, parts.len() as int));
        match find_chars(&piece, &eq, 0) {
            Some(e) => {
                proof {
                    lemma_find_from_bounds(piece@, eq@, 0);
                }
                let (n0, n1) = trim_range(&piece, 0, e);
                let name = chars_range(&piece, n0, n1);
                if chars_eq(&name, field) {
                    let (v0, v1) = trim_range(&piece, e + 1, piece.len());
                    return Some(chars_range(&piece, v0, v1));
                }
            },
            None => {},
        }
        k = k + 1;
    }
    None
}

/// The message of the error for a `Transport` header without a valid
/// port for `field`.
pub open spec fn transport_port_error(transport: Seq<char>, field: Seq<char>) -> Seq<char> {
    match first_field_value(split(transport, seq![';']), field) {
        None => "Transport header is missing "@ + field,
        Some(value) => "Transport header field "@ + field + " is not a valid port: "@ + value,
    }
}

/// The port the `Transport` header gives for `field`.
pub fn parse_transport_port(transport: &str, field_name: &str) -> (r: Result<u16, AirPlayError>)
    ensures
        match transport_port(transport@, field_name@) {
            Some(p) => r == Ok::<u16, AirPlayError>(p),
            None => r matches Err(AirPlayError::Protocol { message }) && message@ == transport_port_error(
                transport@,
                field_name@,
            ),
        },
{
    let t = str_chars(transport);
    let field = str_chars(field_name);
    match find_field_value(&t, &field) {
        None => {
            let mut message = String::from_str("Transport header is missing ");
            push_str(&mut message, field_name);
            Err(AirPlayError::Protocol { message })
        },
        Some(value) => match parse_unsigned_range(&value, 0, value.len(), 65535) {
            Some(p) => {
                assert(value@.subrange(0, value@.len() as int) =~= value@);
                Ok(p as u16)
            },
            None => {
                assert(value@.subrange(0, value@.len() as int) =~= value@);
                let mut message = String::from_str("Transport header field ");
                push_str(&mut message, field_name);
                push_str(&mut message, " is not a valid port: ");
                let text = string_from_range(&value, 0, value.len());
                push_str(&mut message, text.as_str());
                Err(AirPlayError::Protocol { message })
            },
        },
    }
}

/// The `timeout` a `Session` header announces, if any.
pub fn parse_session_timeout_secs(session_header: &str) -> (r: Option<u64>)
    ensures
        r == session_timeout(split(session_header@, seq![';'])),
{
    let t = str_chars(session_header);
    let semi = semicolon();
    let eq = equals_sign();
    let timeout = literal_timeout();
    let ranges = split_ranges(&t, &semi);
    let ghost parts = split(t@, seq![';']);
    assert(parts.subrange(0, parts.len() as int) =~= parts);
    let mut k: usize = 0;
    while k < ranges.len()
        invariant
            k <= ranges@.len(),
            ranges@.len() == parts.len(),
            eq@ == seq!['='],
            timeout@ == "timeout"@,
            parts == split(session_header@, seq![';']),
            forall|m: int|
                0 <= m < ranges@.len() ==> {
                    &&& (#[trigger] ranges@[m]).0 <= ranges@[m].1 <= t@.len()
                    &&& t@.subrange(ranges@[m].0 as int, ranges@[m].1 as int) == parts[m]
                },
            session_timeout(parts) == session_timeout(parts.subrange(k as int, parts.len() as int)),
        decreases ranges@.len() - k,
    {
        let piece = chars_range(&t, ranges[k].0, ranges[k].1);
        let ghost tail = parts.subrange(k as int, parts.len() as int);
        assert(tail[0] == piece@);
        assert(tail.drop_first() =~= parts.subrange(k + 1, parts.len() as int));
        match find_chars(&piece, &eq, 0) {
            Some(e) => {
                proof {
                    lemma_find_from_bounds(piece@, eq@, 0);
                }
                let (n0, n1) = trim_range(&piece, 0, e);
                let name = chars_range(&piece, n0, n1);
                if chars_eq_ignore_ascii_case(&name, &timeout) {
                    let (v0, v1) = trim_range(&piece, e + 1, piece.len());
                    match parse_unsigned_range(&piece, v0, v1, 0xffff_ffff_ffff_ffff) {
                        Some(x) => {
                            return Some(x);
                        },
                        None => {},
                    }
                }
            },
            None => {},
        }
        k = k + 1;
    }
    None
}

fn literal_timeout() -> (r: Vec<char>)
    ensures
        r@ == "timeout"@,
{
    str_chars("timeout")
}

/// Reads a SETUP reply: it must be a success carrying a non-empty session
/// id in `Session` and the server, control and timing ports in `Transport`.
pub fn parse_setup_reply(response: &RtspResponse) -> (r: Result<SetupReply, AirPlayError>)
    ensures
        match setup_reply_fields(response.status.code, response.headers@) {
            Some((sid, timeout, server, control, timing)) => r matches Ok(reply)
                && reply.session_id@ == sid && reply.session_timeout_secs == timeout
                && reply.server_port == server && reply.control_port == control
                && reply.timing_port == timing,
            None => r matches Err(AirPlayError::Protocol { message }) && message@ == setup_reply_error(
                response.status.code,
                response.headers@,
            ),
        },
{
    if !response.is_success() {
        let mut message = String::from_str("SETUP returned failure status ");
        push_decimal(&mut message, response.status.code as u64);
        return Err(AirPlayError::Protocol { message });
    }
    let session_header = match response.headers.get("Session") {
        Some(h) => h,
        None => {
            return Err(protocol_error("SETUP response is missing the Session header"));
        },
    };
    let sh = str_chars(session_header);
    let semi = semicolon();
    let ranges = split_ranges(&sh, &semi);
    proof {
        lemma_split_from_nonempty(sh@, seq![';'], 0);
    }
    let (i0, i1) = trim_range(&sh, ranges[0].0, ranges[0].1);
    if i0 == i1 {
        return Err(protocol_error("SETUP response contained an empty Session header"));
    }
    let session_id = string_from_range(&sh, i0, i1);
    let transport = match response.headers.get("Transport") {
        Some(t) => t,
        None => {
            return Err(protocol_error("SETUP response is missing the Transport header"));
        },
    };
    let session_timeout_secs = parse_session_timeout_secs(session_header);
    let server_port = match parse_transport_port(transport, "server_port") {
        Ok(p) => p,
        Err(e) => {
            return Err(e);
        },
    };
    let control_port = match parse_transport_port(transport, "control_port") {
        Ok(p) => p,
        Err(e) => {
            return Err(e);
        },
    };
    let timing_port = match parse_transport_port(transport, "timing_port") {
        Ok(p) => p,
        Err(e) => {
            return Err(e);
        },
    };
    Ok(SetupReply { session_id, session_timeout_secs, server_port, control_port, timing_port })
}


// ---------------------------------------------------------------------------
// Request builders

/// The headers every request to a receiver carries, after its own.
pub open spec fn common_headers(d: SessionDescriptor) -> HeaderSeq {
    seq![
        ("User-Agent"@, "Rairstream/0.1"@),
        ("Client-Instance"@, d.client_instance@),
        ("DACP-ID"@, d.client_instance@),
        ("Active-Remote"@, d.active_remote@),
    ]
}

/// `rtsp://host:port/stream-id`.
pub open spec fn session_uri(d: SessionDescriptor) -> Seq<char> {
    ("rtsp://"@ + endpoint_text(d.device)).push('/') + decimal(d.stream_session_id as nat)
}

/// A request with only its `CSeq` header.
pub open spec fn has_cseq_only(r: RtspRequest, method: RtspMethod, uri: Seq<char>, cseq: u32) -> bool {
    &&& r.method == method
    &&& r.uri@ == uri
    &&& r.headers@ == seq![("CSeq"@, decimal(cseq as nat))]
    &&& r.body@ == Seq::<u8>::empty()
}

/// The request stream URI of the session.
pub fn build_session_uri(descriptor: &SessionDescriptor) -> (r: String)
    ensures
        r@ == session_uri(*descriptor),
{
    let mut s = String::from_str("rtsp://");
    let endpoint = descriptor.device.endpoint();
    push_str(&mut s, endpoint.as_str());
    s.push('/');
    push_decimal(&mut s, descriptor.stream_session_id as u64);
    s
}

fn cseq_request(method: RtspMethod, uri: &str, cseq: u32) -> (r: RtspRequest)
    ensures
        has_cseq_only(r, method, uri@, cseq),
{
    let value = decimal_string(cseq as u64);
    RtspRequest::new(method, uri).with_header("CSeq", value.as_str())
}

fn apply_common_headers(descriptor: &SessionDescriptor, request: RtspRequest) -> (r: RtspRequest)
    ensures
        r.method == request.method,
        r.uri@ == request.uri@,
        r.headers@ == request.headers@ + common_headers(*descriptor),
        r.body@ == request.body@,
{
    let r = request.with_header("User-Agent", "Rairstream/0.1").with_header(
        "Client-Instance",
        descriptor.client_instance.as_str(),
    ).with_header("DACP-ID", descriptor.client_instance.as_str()).with_header(
        "Active-Remote",
        descriptor.active_remote.as_str(),
    );
    assert(r.headers@ =~= request.headers@ + common_headers(*descriptor));
    r
}

/// Whether `r` is `OPTIONS *` with `CSeq` and the common headers.
pub open spec fn is_options_request(r: RtspRequest, d: SessionDescriptor, cseq: u32) -> bool {
    &&& r.method == RtspMethod::Options
    &&& r.uri@ == "*"@
    &&& r.headers@ == seq![("CSeq"@, decimal(cseq as nat))] + common_headers(d)
    &&& r.body@ == Seq::<u8>::empty()
}

/// `OPTIONS *` with `CSeq` and the common headers.
pub fn build_options_request(descriptor: &SessionDescriptor, cseq: u32) -> (r: RtspRequest)
    ensures
        is_options_request(r, *descriptor, cseq),
{
    apply_common_headers(descriptor, cseq_request(RtspMethod::Options, "*", cseq))
}

/// Whether `r` is a bodiless request to `uri` with `CSeq`, a zero
/// `Content-Length` and the common headers.
pub open spec fn is_empty_body_request(
    r: RtspRequest,
    d: SessionDescriptor,
    cseq: u32,
    method: RtspMethod,
    uri: Seq<char>,
) -> bool {
    &&& r.method == method
    &&& r.uri@ == uri
    &&& r.headers@ == seq![("CSeq"@, decimal(cseq as nat)), ("Content-Length"@, "0"@)]
        + common_headers(d)
    &&& r.body@ == Seq::<u8>::empty()
}

/// `GET /info` with an empty body.
pub fn build_info_request(descriptor: &SessionDescriptor, cseq: u32) -> (r: RtspRequest)
    ensures
        is_empty_body_request(r, *descriptor, cseq, RtspMethod::Get, "/info"@),
{
    let r = cseq_request(RtspMethod::Get, "/info", cseq).with_header("Content-Length", "0");
    assert(r.headers@ =~= seq![("CSeq"@, decimal(cseq as nat)), ("Content-Length"@, "0"@)]);
    apply_common_headers(descriptor, r)
}

/// `POST /pair-pin-start` with an empty body: asks the receiver to show a PIN.
pub fn build_pair_pin_start_request(descriptor: &SessionDescriptor, cseq: u32) -> (r: RtspRequest)
    ensures
        is_empty_body_request(r, *descriptor, cseq, RtspMethod::Post, "/pair-pin-start"@),
{
    let r = cseq_request(RtspMethod::Post, "/pair-pin-start", cseq).with_header("Content-Length", "0");
    assert(r.headers@ =~= seq![("CSeq"@, decimal(cseq as nat)), ("Content-Length"@, "0"@)]);
    apply_common_headers(descriptor, r)
}

/// The headers of a POST with a body.
pub open spec fn post_headers(cseq: u32, content_type: Seq<char>, body_len: nat) -> HeaderSeq {
    seq![
        ("CSeq"@, decimal(cseq as nat)),
        ("Content-Type"@, content_type),
        ("Content-Length"@, decimal(body_len)),
    ]
}

/// Whether `r` is a POST of `body` to `uri` for the session.
pub open spec fn is_post(
    r: RtspRequest,
    d: SessionDescriptor,
    cseq: u32,
    uri: Seq<char>,
    content_type: Seq<char>,
    body: Seq<u8>,
) -> bool {
    &&& r.method == RtspMethod::Post
    &&& r.uri@ == uri
    &&& r.headers@ == post_headers(cseq, content_type, body.len()) + common_headers(d)
    &&& r.body@ == body
}

fn build_post_request(
    descriptor: &SessionDescriptor,
    cseq: u32,
    uri: &str,
    content_type: &str,
    body: &[u8],
) -> (r: RtspRequest)
    ensures
        is_post(r, *descriptor, cseq, uri@, content_type@, body@),
{
    let length = decimal_string(body.len() as u64);
    let r = cseq_request(RtspMethod::Post, uri, cseq).with_header("Content-Type", content_type).with_header(
        "Content-Length",
        length.as_str(),
    ).with_body(body);
    assert(r.headers@ =~= post_headers(cseq, content_type@, body@.len()));
    apply_common_headers(descriptor, r)
}

/// `POST /pair-setup` with `body`.
pub fn build_pair_setup_request(
    descriptor: &SessionDescriptor,
    cseq: u32,
    content_type: &str,
    body: &[u8],
) -> (r: RtspRequest)
    ensures
        is_post(r, *descriptor, cseq, "/pair-setup"@, content_type@, body@),
{
    build_post_request(descriptor, cseq, "/pair-setup", content_type, body)
}

/// `POST /pair-setup-pin` with a binary plist `body`.
pub fn build_pair_setup_pin_request(descriptor: &SessionDescriptor, cseq: u32, body: &[u8]) -> (r:
    RtspRequest)
    ensures
        is_post(
            r,
            *descriptor,
            cseq,
            "/pair-setup-pin"@,
            "application/x-apple-binary-plist"@,
            body@,
        ),
{
    build_post_request(descriptor, cseq, "/pair-setup-pin", "application/x-apple-binary-plist", body)
}

/// `POST /pair-verify` with `body`.
pub fn build_pair_verify_request(
    descriptor: &SessionDescriptor,
    cseq: u32,
    content_type: &str,
    body: &[u8],
) -> (r: RtspRequest)
    ensures
        is_post(r, *descriptor, cseq, "/pair-verify"@, content_type@, body@),
{
    build_post_request(descriptor, cseq, "/pair-verify", content_type, body)
}

/// `POST /auth-setup` with a binary `body`.
pub fn build_auth_setup_request(descriptor: &SessionDescriptor, cseq: u32, body: &[u8]) -> (r:
    RtspRequest)
    ensures
        is_post(r, *descriptor, cseq, "/auth-setup"@, "application/octet-stream"@, body@),
{
    build_post_request(descriptor, cseq, "/auth-setup", "application/octet-stream", body)
}

/// The SDP body of ANNOUNCE for the session: 44.1 kHz stereo on payload
/// type 96, with the sender's address in the origin and connection lines.
pub open spec fn announce_sdp(d: SessionDescriptor, rtpmap: Seq<char>, sender_ip: Seq<char>) -> Seq<char> {
    "v=0\r\no=Rairstream "@ + decimal(d.stream_session_id as nat) + " 0 IN IP4 "@ + sender_ip
        + "\r\ns=Rairstream\r\nc=IN IP4 "@ + sender_ip + "\r\nt=0 0\r\nm=audio 0 RTP/AVP 96\r\na=rtpmap:96 "@
        + rtpmap + "\r\na=min-latency:"@ + decimal(RAOP_STARTUP_LATENCY_FRAMES as nat) + "\r\n"@
}

/// The address announced in SDP: the one given, else `0.0.0.0`.
pub open spec fn announced_ip(sender_ip: Option<&str>) -> Seq<char> {
    match sender_ip {
        Some(ip) => ip@,
        None => "0.0.0.0"@,
    }
}

/// Whether `r` is the ANNOUNCE of the session with the given codec map and
/// sender address.
pub open spec fn is_announce_request(
    r: RtspRequest,
    d: SessionDescriptor,
    cseq: u32,
    rtpmap: Seq<char>,
    ip: Seq<char>,
) -> bool {
    let body = encode_utf8(announce_sdp(d, rtpmap, ip));
    &&& r.method == RtspMethod::Announce
    &&& r.uri@ == session_uri(d)
    &&& r.headers@ == post_headers(cseq, "application/sdp"@, body.len()) + common_headers(d)
    &&& r.body@ == body
}

/// `ANNOUNCE` of the codec, with an SDP body. `sender_ip` is the local
/// address that reaches the receiver, when it could be found.
pub fn build_announce_request(
    descriptor: &SessionDescriptor,
    cseq: u32,
    codec: &CodecDescription,
    sender_ip: Option<&str>,
) -> (r: RtspRequest)
    ensures
        is_announce_request(r, *descriptor, cseq, codec.rtpmap@, announced_ip(sender_ip)),
{
    let ip: &str = match sender_ip {
        Some(ip) => ip,
        None => "0.0.0.0",
    };
    let mut sdp = String::from_str("v=0\r\no=Rairstream ");
    push_decimal(&mut sdp, descriptor.stream_session_id as u64);
    push_str(&mut sdp, " 0 IN IP4 ");
    push_str(&mut sdp, ip);
    push_str(&mut sdp, "\r\ns=Rairstream\r\nc=IN IP4 ");
    push_str(&mut sdp, ip);
    push_str(&mut sdp, "\r\nt=0 0\r\nm=audio 0 RTP/AVP 96\r\na=rtpmap:96 ");
    push_str(&mut sdp, codec.rtpmap);
    push_str(&mut sdp, "\r\na=min-latency:");
    push_decimal(&mut sdp, RAOP_STARTUP_LATENCY_FRAMES as u64);
    push_str(&mut sdp, "\r\n");
    assert(sdp@ =~= announce_sdp(*descriptor, codec.rtpmap@, announced_ip(sender_ip)));
    let body = sdp.as_str().as_bytes();
    let uri = build_session_uri(descriptor);
    let length = decimal_string(body.len() as u64);
    let r = cseq_request(RtspMethod::Announce, uri.as_str(), cseq).with_header(
        "Content-Type",
        "application/sdp",
    ).with_header("Content-Length", length.as_str()).with_body(body);
    assert(r.headers@ =~= post_headers(cseq, "application/sdp"@, body@.len()));
    apply_common_headers(descriptor, r)
}

/// The `Transport` header of SETUP.
pub open spec fn setup_transport_text(t: SetupTransport) -> Seq<char> {
    "RTP/AVP/UDP;unicast;interleaved=0-1;mode=record;control_port="@ + decimal(t.control_port as nat)
        + ";timing_port="@ + decimal(t.timing_port as nat)
}

/// Whether `r` is the SETUP of the session offering `transport`.
pub open spec fn is_setup_request(r: RtspRequest, d: SessionDescriptor, cseq: u32, transport: SetupTransport) -> bool {
    &&& r.method == RtspMethod::Setup
    &&& r.uri@ == session_uri(d)
    &&& r.headers@ == seq![
        ("CSeq"@, decimal(cseq as nat)),
        ("Transport"@, setup_transport_text(transport)),
    ] + common_headers(d)
    &&& r.body@ == Seq::<u8>::empty()
}

/// `SETUP` of the stream, offering the sender's control and timing ports.
pub fn build_setup_request(descriptor: &SessionDescriptor, cseq: u32, transport: SetupTransport) -> (r:
    RtspRequest)
    ensures
        is_setup_request(r, *descriptor, cseq, transport),
{
    let mut header = String::from_str("RTP/AVP/UDP;unicast;interleaved=0-1;mode=record;control_port=");
    push_decimal(&mut header, transport.control_port as u64);
    push_str(&mut header, ";timing_port=");
    push_decimal(&mut header, transport.timing_port as u64);
    let uri = build_session_uri(descriptor);
    let r = cseq_request(RtspMethod::Setup, uri.as_str(), cseq).with_header("Transport", header.as_str());
    assert(r.headers@ =~= seq![
        ("CSeq"@, decimal(cseq as nat)),
        ("Transport"@, setup_transport_text(transport)),
    ]);
    apply_common_headers(descriptor, r)
}

/// The `RTP-Info` header of RECORD.
pub open spec fn rtp_info_text(sequence: u16, rtp_timestamp: u32) -> Seq<char> {
    "seq="@ + decimal(sequence as nat) + ";rtptime="@ + decimal(rtp_timestamp as nat)
}

/// Whether `r` is the RECORD of session `session_id` starting at the given
/// sequence number and RTP timestamp.
pub open spec fn is_record_request(
    r: RtspRequest,
    d: SessionDescriptor,
    cseq: u32,
    session_id: Seq<char>,
    sequence: u16,
    rtp_timestamp: u32,
) -> bool {
    &&& r.method == RtspMethod::Record
    &&& r.uri@ == session_uri(d)
    &&& r.headers@ == seq![
        ("CSeq"@, decimal(cseq as nat)),
        ("Session"@, session_id),
        ("Range"@, "npt=0-"@),
        ("RTP-Info"@, rtp_info_text(sequence, rtp_timestamp)),
    ] + common_headers(d)
    &&& r.body@ == Seq::<u8>::empty()
}

/// Names of different lengths are different headers.
proof fn lemma_names_differ_by_length(a: Seq<char>, b: Seq<char>)
    requires
        a.len() != b.len(),
    ensures
        !eq_ignore_ascii_case(a, b),
{
    assert(ascii_lower_seq(a).len() == a.len());
    assert(ascii_lower_seq(b).len() == b.len());
}

/// Looking up the headers of a RECORD request gives its CSeq, its session
/// id and its RTP-Info.
pub proof fn lemma_record_request_headers(
    r: RtspRequest,
    d: SessionDescriptor,
    cseq: u32,
    session_id: Seq<char>,
    sequence: u16,
    rtp_timestamp: u32,
)
    requires
        is_record_request(r, d, cseq, session_id, sequence, rtp_timestamp),
    ensures
        header_get(r.headers@, "CSeq"@) == Some(decimal(cseq as nat)),
        header_get(r.headers@, "Session"@) == Some(session_id),
        header_get(r.headers@, "RTP-Info"@) == Some(rtp_info_text(sequence, rtp_timestamp)),
{
    reveal_strlit("CSeq");
    reveal_strlit("Session");
    reveal_strlit("Range");
    reveal_strlit("RTP-Info");
    reveal_strlit("User-Agent");
    reveal_strlit("Client-Instance");
    reveal_strlit("DACP-ID");
    reveal_strlit("Active-Remote");
    let hs = r.headers@;
    assert(hs.len() == 8);
    assert(hs[7].0 == "Active-Remote"@ && hs[6].0 == "DACP-ID"@ && hs[5].0 == "Client-Instance"@);
    assert(hs[4].0 == "User-Agent"@ && hs[3].0 == "RTP-Info"@ && hs[2].0 == "Range"@);
    assert(hs[1].0 == "Session"@ && hs[0].0 == "CSeq"@);
    // Every later name differs from CSeq, Session and RTP-Info.
    lemma_names_differ_by_length("Active-Remote"@, "CSeq"@);
    lemma_names_differ_by_length("DACP-ID"@, "CSeq"@);
    lemma_names_differ_by_length("Client-Instance"@, "CSeq"@);
    lemma_names_differ_by_length("User-Agent"@, "CSeq"@);
    lemma_names_differ_by_length("RTP-Info"@, "CSeq"@);
    lemma_names_differ_by_length("Range"@, "CSeq"@);
    lemma_names_differ_by_length("Session"@, "CSeq"@);
    lemma_names_differ_by_length("Active-Remote"@, "Session"@);
    lemma_names_differ_by_length("Client-Instance"@, "Session"@);
    lemma_names_differ_by_length("User-Agent"@, "Session"@);
    lemma_names_differ_by_length("RTP-Info"@, "Session"@);
    lemma_names_differ_by_length("Range"@, "Session"@);
    lemma_names_differ_by_length("Active-Remote"@, "RTP-Info"@);
    lemma_names_differ_by_length("DACP-ID"@, "RTP-Info"@);
    lemma_names_differ_by_length("Client-Instance"@, "RTP-Info"@);
    lemma_names_differ_by_length("User-Agent"@, "RTP-Info"@);
    assert(ascii_lower_seq("DACP-ID"@)[0] == 'd');
    assert(ascii_lower_seq("Session"@)[0] == 's');
    assert(!eq_ignore_ascii_case("DACP-ID"@, "Session"@));
    assert(eq_ignore_ascii_case("Session"@, "Session"@));
    assert(eq_ignore_ascii_case("RTP-Info"@, "RTP-Info"@));
    assert(eq_ignore_ascii_case("CSeq"@, "CSeq"@));
    let h8 = hs;
    let h7 = hs.subrange(0, 7);
    let h6 = hs.subrange(0, 6);
    let h5 = hs.subrange(0, 5);
    let h4 = hs.subrange(0, 4);
    let h3 = hs.subrange(0, 3);
    let h2 = hs.subrange(0, 2);
    let h1 = hs.subrange(0, 1);
    assert(h8.drop_last() =~= h7 && h8.last() == hs[7]);
    assert(h7.drop_last() =~= h6 && h7.last() == hs[6]);
    assert(h6.drop_last() =~= h5 && h6.last() == hs[5]);
    assert(h5.drop_last() =~= h4 && h5.last() == hs[4]);
    assert(h4.drop_last() =~= h3 && h4.last() == hs[3]);
    assert(h3.drop_last() =~= h2 && h3.last() == hs[2]);
    assert(h2.drop_last() =~= h1 && h2.last() == hs[1]);
    assert(h1.drop_last() =~= Seq::<(Seq<char>, Seq<char>)>::empty() && h1.last() == hs[0]);
    assert(header_get(h4, "RTP-Info"@) == Some(rtp_info_text(sequence, rtp_timestamp)));
    assert(header_get(h2, "Session"@) == Some(session_id));
    assert(header_get(h1, "CSeq"@) == Some(decimal(cseq as nat)));
    assert(header_get(h2, "CSeq"@) == header_get(h1, "CSeq"@));
    assert(header_get(h3, "CSeq"@) == header_get(h2, "CSeq"@));
    assert(header_get(h3, "Session"@) == header_get(h2, "Session"@));
    assert(header_get(h4, "CSeq"@) == header_get(h3, "CSeq"@));
    assert(header_get(h4, "Session"@) == header_get(h3, "Session"@));
    assert(header_get(h5, "CSeq"@) == header_get(h4, "CSeq"@));
    assert(header_get(h5, "Session"@) == header_get(h4, "Session"@));
    assert(header_get(h5, "RTP-Info"@) == header_get(h4, "RTP-Info"@));
    assert(header_get(h6, "CSeq"@) == header_get(h5, "CSeq"@));
    assert(header_get(h6, "Session"@) == header_get(h5, "Session"@));
    assert(header_get(h6, "RTP-Info"@) == header_get(h5, "RTP-Info"@));
    assert(header_get(h7, "CSeq"@) == header_get(h6, "CSeq"@));
    assert(header_get(h7, "Session"@) == header_get(h6, "Session"@));
    assert(header_get(h7, "RTP-Info"@) == header_get(h6, "RTP-Info"@));
}

/// `RECORD` of the set-up session, starting at `sequence` / `rtp_timestamp`.
pub fn build_record_request(
    descriptor: &SessionDescriptor,
    cseq: u32,
    session_id: &str,
    sequence: u16,
    rtp_timestamp: u32,
) -> (r: RtspRequest)
    ensures
        is_record_request(r, *descriptor, cseq, session_id@, sequence, rtp_timestamp),
{
    let mut info = String::from_str("seq=");
    push_decimal(&mut info, sequence as u64);
    push_str(&mut info, ";rtptime=");
    push_decimal(&mut info, rtp_timestamp as u64);
    let uri = build_session_uri(descriptor);
    let r = cseq_request(RtspMethod::Record, uri.as_str(), cseq).with_header("Session", session_id).with_header(
        "Range",
        "npt=0-",
    ).with_header("RTP-Info", info.as_str());
    assert(r.headers@ =~= seq![
        ("CSeq"@, decimal(cseq as nat)),
        ("Session"@, session_id@),
        ("Range"@, "npt=0-"@),
        ("RTP-Info"@, rtp_info_text(sequence, rtp_timestamp)),
    ]);
    apply_common_headers(descriptor, r)
}

/// Whether `r` carries `CSeq` and `Session` and the common headers.
pub open spec fn is_session_request(
    r: RtspRequest,
    d: SessionDescriptor,
    cseq: u32,
    method: RtspMethod,
    uri: Seq<char>,
    session_id: Seq<char>,
) -> bool {
    &&& r.method == method
    &&& r.uri@ == uri
    &&& r.headers@ == seq![("CSeq"@, decimal(cseq as nat)), ("Session"@, session_id)]
        + common_headers(d)
    &&& r.body@ == Seq::<u8>::empty()
}

/// `TEARDOWN` of the session.
pub fn build_teardown_request(descriptor: &SessionDescriptor, cseq: u32, session_id: &str) -> (r:
    RtspRequest)
    ensures
        is_session_request(r, *descriptor, cseq, RtspMethod::Teardown, session_uri(*descriptor), session_id@),
{
    let uri = build_session_uri(descriptor);
    let r = cseq_request(RtspMethod::Teardown, uri.as_str(), cseq).with_header("Session", session_id);
    assert(r.headers@ =~= seq![("CSeq"@, decimal(cseq as nat)), ("Session"@, session_id@)]);
    apply_common_headers(descriptor, r)
}

/// `OPTIONS *` within the session, to keep it alive.
pub fn build_keepalive_request(descriptor: &SessionDescriptor, cseq: u32, session_id: &str) -> (r:
    RtspRequest)
    ensures
        is_session_request(r, *descriptor, cseq, RtspMethod::Options, "*"@, session_id@),
{
    let r = cseq_request(RtspMethod::Options, "*", cseq).with_header("Session", session_id);
    assert(r.headers@ =~= seq![("CSeq"@, decimal(cseq as nat)), ("Session"@, session_id@)]);
    apply_common_headers(descriptor, r)
}

} // verus!
