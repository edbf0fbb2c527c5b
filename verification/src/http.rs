//! Requests and answers of the web interface.

use vstd::prelude::*;
use vstd::utf8::{decode_utf8, encode_utf8, valid_utf8};

use crate::text::{
    chars_of, lower, lowered, number, read_usize, same_ignoring_case, show, split_first, split_on,
    split_once, string_of, trim, trimmed, views, words, words_of,
};
use crate::text_table::TextMap;

verus! {

/// The text that bytes stand for, what is no UTF-8 in them replaced.
pub uninterp spec fn lossy_text(bytes: Seq<u8>) -> Seq<char>;

/// Reads bytes as text by `String::from_utf8_lossy`, whose result depends on the bytes
/// alone: bytes that are UTF-8 are decoded, others are replaced as its documentation says.
#[verifier::external_body]
pub(crate) fn text_of_bytes(bytes: &[u8]) -> (r: String)
    ensures
        r@ == lossy_text(bytes@),
        valid_utf8(bytes@) ==> r@ == decode_utf8(bytes@),
{
    String::from_utf8_lossy(bytes).into_owned()
}

/// A request.
pub struct HttpRequest {
    pub method: String,
    pub path: String,
    pub query: TextMap,
    pub headers: TextMap,
    pub body: String,
}

/// The value under a name, if there is one.
pub open spec fn looked_up(m: Map<Seq<char>, Seq<char>>, k: Seq<char>) -> Option<Seq<char>> {
    if m.dom().contains(k) {
        Some(m[k])
    } else {
        None
    }
}

/// The contents of an optional text.
pub open spec fn opt_text(s: Option<String>) -> Option<Seq<char>> {
    match s {
        Some(s) => Some(s@),
        None => None,
    }
}

impl HttpRequest {
    pub open spec fn well_formed(&self) -> bool {
        self.query.well_formed() && self.headers.well_formed()
    }

    /// The value of a header; its name is given in lower case.
    pub open spec fn header_text(&self, key: Seq<char>) -> Option<Seq<char>> {
        looked_up(self.headers@, lower(key))
    }

    /// The value of a query parameter.
    pub open spec fn query_text(&self, key: Seq<char>) -> Option<Seq<char>> {
        looked_up(self.query@, key)
    }

    /// The value of a query parameter.
    pub fn query_value(&self, key: &str) -> (r: Option<String>)
        requires
            self.well_formed(),
        ensures
            opt_text(r) == self.query_text(key@),
    {
        match self.query.get(key) {
            Some(v) => Some(v.to_owned()),
            None => None,
        }
    }

    /// The value of a header.
    pub fn header(&self, key: &str) -> (r: Option<String>)
        requires
            self.well_formed(),
        ensures
            opt_text(r) == self.header_text(key@),
    {
        match self.headers.get(lowered(key).as_str()) {
            Some(v) => Some(v.to_owned()),
            None => None,
        }
    }
}

/// An answer.
pub struct HttpResponse {
    pub status: u16,
    pub reason: &'static str,
    pub content_type: &'static str,
    pub body: String,
}

/// The contents of an answer.
pub struct Answer {
    pub status: nat,
    pub reason: Seq<char>,
    pub content_type: Seq<char>,
    pub body: Seq<char>,
}

/// The words that go with a status.
pub open spec fn status_reason(status: nat) -> Seq<char> {
    if status == 400 {
        "Bad Request"@
    } else if status == 401 {
        "Unauthorized"@
    } else if status == 403 {
        "Forbidden"@
    } else if status == 404 {
        "Not Found"@
    } else if status == 503 {
        "Service Unavailable"@
    } else if status == 500 {
        "Internal Server Error"@
    } else {
        "OK"@
    }
}

/// An answer in JSON.
pub open spec fn json_answer(status: nat, body: Seq<char>) -> Answer {
    Answer {
        status,
        reason: status_reason(status),
        content_type: "application/json; charset=utf-8"@,
        body,
    }
}

/// A page.
pub open spec fn html_answer(body: Seq<char>) -> Answer {
    Answer { status: 200, reason: "OK"@, content_type: "text/html; charset=utf-8"@, body }
}

/// An answer in the text format of metrics.
pub open spec fn text_answer(body: Seq<char>) -> Answer {
    Answer {
        status: 200,
        reason: "OK"@,
        content_type: "text/plain; version=0.0.4; charset=utf-8"@,
        body,
    }
}

impl HttpResponse {
    pub open spec fn view(&self) -> Answer {
        Answer {
            status: self.status as nat,
            reason: self.reason@,
            content_type: self.content_type@,
            body: self.body@,
        }
    }

    /// A page.
    pub fn html(body: &str) -> (r: Self)
        ensures
            r@ == html_answer(body@),
    {
        HttpResponse {
            status: 200,
            reason: "OK",
            content_type: "text/html; charset=utf-8",
            body: body.to_owned(),
        }
    }

    /// An answer in JSON.
    pub fn json(body: String) -> (r: Self)
        ensures
            r@ == json_answer(200, body@),
    {
        Self::json_status(200, body)
    }

    /// An answer in JSON with a status.
    pub fn json_status(status: u16, body: String) -> (r: Self)
        ensures
            r@ == json_answer(status as nat, body@),
    {
        let reason = if status == 400 {
            "Bad Request"
        } else if status == 401 {
            "Unauthorized"
        } else if status == 403 {
            "Forbidden"
        } else if status == 404 {
            "Not Found"
        } else if status == 503 {
            "Service Unavailable"
        } else if status == 500 {
            "Internal Server Error"
        } else {
            "OK"
        };
        HttpResponse { status, reason, content_type: "application/json; charset=utf-8", body }
    }

    /// An answer in the text format of metrics.
    pub fn text(body: String) -> (r: Self)
        ensures
            r@ == text_answer(body@),
    {
        HttpResponse {
            status: 200,
            reason: "OK",
            content_type: "text/plain; version=0.0.4; charset=utf-8",
            body,
        }
    }
}

/// What is sent before the body of an answer.
pub open spec fn answer_head(a: Answer) -> Seq<char> {
    "HTTP/1.1 "@ + crate::text::dec(a.status) + " "@ + a.reason + "\r\ncontent-type: "@
        + a.content_type + "\r\ncontent-length: "@ + crate::text::dec(encode_utf8(a.body).len())
        + "\r\ncache-control: no-store\r\nconnection: close\r\n\r\n"@
}

/// Writes what is sent before the body of an answer.
pub fn http_response_head(response: &HttpResponse) -> (r: String)
    ensures
        r@ == answer_head(response@),
{
    let mut r = "HTTP/1.1 ".to_owned();
    r.append(show(response.status as u128).as_str());
    r.append(" ");
    r.append(response.reason);
    r.append("\r\ncontent-type: ");
    r.append(response.content_type);
    r.append("\r\ncontent-length: ");
    r.append(show(response.body.as_str().as_bytes().len() as u128).as_str());
    r.append("\r\ncache-control: no-store\r\nconnection: close\r\n\r\n");
    r
}

/// The value of a hexadecimal digit.
pub open spec fn hex_digit_value(b: u8) -> Option<u8> {
    if 48 <= b <= 57 {
        Some((b - 48) as u8)
    } else if 97 <= b <= 102 {
        Some((b - 87) as u8)
    } else if 65 <= b <= 70 {
        Some((b - 55) as u8)
    } else {
        None
    }
}

/// Reads a hexadecimal digit.
pub fn hex_value(byte: u8) -> (r: Option<u8>)
    ensures
        r == hex_digit_value(byte),
{
    if 48 <= byte && byte <= 57 {
        Some(byte - 48)
    } else if 97 <= byte && byte <= 102 {
        Some(byte - 87)
    } else if 65 <= byte && byte <= 70 {
        Some(byte - 55)
    } else {
        None
    }
}

/// The bytes that percent encoded bytes stand for from the `i`-th on: a plus sign is a
/// space, and a percent sign takes the next two bytes with it, which are dropped where
/// they are no hexadecimal digits.
pub open spec fn percent_bytes(s: Seq<u8>, i: int, out: Seq<u8>) -> Seq<u8>
    decreases s.len() - i,
{
    if i < 0 || i >= s.len() {
        out
    } else if s[i] == 43 {
        percent_bytes(s, i + 1, out.push(32))
    } else if s[i] != 37 {
        percent_bytes(s, i + 1, out.push(s[i]))
    } else if i + 2 >= s.len() {
        out
    } else {
        match (hex_digit_value(s[i + 1]), hex_digit_value(s[i + 2])) {
            (Some(high), Some(low)) => percent_bytes(
                s,
                i + 3,
                out.push((high * 16 + low) as u8),
            ),
            _ => percent_bytes(s, i + 3, out),
        }
    }
}

/// A percent encoded text, decoded.
pub open spec fn percent_decoded(s: Seq<char>) -> Seq<char> {
    lossy_text(percent_bytes(encode_utf8(s), 0, Seq::<u8>::empty()))
}

/// Decodes percent encoded bytes.
pub fn percent_decode_bytes(bytes: &[u8]) -> (out: Vec<u8>)
    ensures
        out@ == percent_bytes(bytes@, 0, Seq::<u8>::empty()),
{
    let mut out: Vec<u8> = Vec::new();
    let n: usize = bytes.len();
    let mut i: usize = 0;
    assert(out@ =~= Seq::<u8>::empty());
    while i < n
        invariant
            0 <= i <= n,
            n == bytes@.len(),
            percent_bytes(bytes@, 0, Seq::<u8>::empty()) == percent_bytes(
                bytes@,
                i as int,
                out@,
            ),
        decreases n - i,
    {
        let byte = bytes[i];
        if byte == 43 {
            out.push(32);
            i = i + 1;
        } else if byte != 37 {
            out.push(byte);
            i = i + 1;
        } else if n - i <= 2 {
            i = n;
        } else {
            if let (Some(high), Some(low)) = (hex_value(bytes[i + 1]), hex_value(bytes[i + 2])) {
                out.push(high * 16 + low);
            }
            i = i + 3;
        }
    }
    out
}

/// Decodes a percent encoded text.
pub fn percent_decode(input: &str) -> (r: String)
    ensures
        r@ == percent_decoded(input@),
{
    let bytes = percent_decode_bytes(input.as_bytes());
    text_of_bytes(bytes.as_slice())
}

/// The two sides of the first `sep`, or the whole and nothing.
pub open spec fn sides(s: Seq<char>, sep: Seq<char>) -> (Seq<char>, Seq<char>) {
    match split_once(s, sep) {
        Some((a, b)) => (a, b),
        None => (s, Seq::<char>::empty()),
    }
}

fn sides_of(s: &str, sep: &str) -> (r: (String, String))
    ensures
        (r.0@, r.1@) == sides(s@, sep@),
{
    match split_first(s, sep) {
        Some((a, b)) => (a, b),
        None => {
            let none = String::new();
            assert(none@ =~= Seq::<char>::empty());
            (s.to_owned(), none)
        },
    }
}

/// The query parameters that pairs give, the later one where two have one name; empty
/// pairs give none.
pub open spec fn query_pairs(pairs: Seq<Seq<char>>) -> Map<Seq<char>, Seq<char>>
    decreases pairs.len(),
{
    if pairs.len() == 0 {
        Map::empty()
    } else {
        let before = query_pairs(pairs.drop_last());
        let pair = pairs.last();
        if pair.len() == 0 {
            before
        } else {
            before.insert(
                percent_decoded(sides(pair, "="@).0),
                percent_decoded(sides(pair, "="@).1),
            )
        }
    }
}

/// Splits the target of a request into its path and its query parameters.
pub fn parse_http_target(target: &str) -> (r: (String, TextMap))
    ensures
        r.0@ == sides(target@, "?"@).0,
        r.1.well_formed(),
        r.1@ == query_pairs(crate::text::split(sides(target@, "?"@).1, '&')),
{
    let (path, query) = sides_of(target, "?");
    let pairs = split_on(query.as_str(), '&');
    let mut values = TextMap::new();
    let mut i: usize = 0;
    let ghost all = views(pairs@);
    assert(all.take(0) =~= Seq::<Seq<char>>::empty());
    while i < pairs.len()
        invariant
            0 <= i <= pairs@.len(),
            all == views(pairs@),
            values.well_formed(),
            values@ == query_pairs(all.take(i as int)),
        decreases pairs@.len() - i,
    {
        assert(all.take(i + 1).drop_last() =~= all.take(i as int));
        assert(all.take(i + 1).last() == pairs@[i as int]@);
        if !pairs[i].as_str().is_empty() {
            let (key, value) = sides_of(pairs[i].as_str(), "=");
            values.insert(percent_decode(key.as_str()), percent_decode(value.as_str()));
        }
        i = i + 1;
    }
    assert(all.take(all.len() as int) =~= all);
    (path, values)
}

/// A text without the line ends at its end.
pub open spec fn without_line_end(s: Seq<char>) -> Seq<char>
    decreases s.len(),
{
    if s.len() > 0 && (s.last() == '\r' || s.last() == '\n') {
        without_line_end(s.drop_last())
    } else {
        s
    }
}

fn drop_line_end(s: &str) -> (r: String)
    ensures
        r@ == without_line_end(s@),
{
    let v = chars_of(s);
    let mut n: usize = v.len();
    assert(s@.take(n as int) =~= s@);
    while n > 0 && (v[n - 1] == '\r' || v[n - 1] == '\n')
        invariant
            0 <= n <= v@.len(),
            v@ == s@,
            without_line_end(s@) == without_line_end(s@.take(n as int)),
        decreases n,
    {
        assert(s@.take(n as int).drop_last() =~= s@.take(n - 1));
        n = n - 1;
    }
    let r = string_of(v.as_slice(), 0, n);
    assert(r@ =~= s@.take(n as int));
    proof {
        if n > 0 {
            assert(s@.take(n as int).last() == v@[n - 1]);
        }
    }
    r
}

/// What has been read of a request before its body.
pub struct HttpHead {
    pub method: String,
    pub path: String,
    pub query: TextMap,
    pub headers: TextMap,
    pub content_length: usize,
}

/// The method that a request line names.
pub open spec fn line_method(line: Seq<char>) -> Seq<char> {
    if words(line).len() > 0 {
        words(line)[0]
    } else {
        Seq::<char>::empty()
    }
}

/// The target that a request line names.
pub open spec fn line_target(line: Seq<char>) -> Seq<char> {
    if words(line).len() > 1 {
        words(line)[1]
    } else {
        "/"@
    }
}

/// The headers after a header line.
pub open spec fn headers_after(
    headers: Map<Seq<char>, Seq<char>>,
    line: Seq<char>,
) -> Map<Seq<char>, Seq<char>> {
    match split_once(without_line_end(line), ":"@) {
        Some((name, value)) => headers.insert(lower(trim(name)), trim(value)),
        None => headers,
    }
}

/// The length of the body after a header line.
pub open spec fn length_after(length: nat, line: Seq<char>) -> nat {
    match split_once(without_line_end(line), ":"@) {
        Some((name, value)) => if lower(name) == lower("content-length"@) {
            match number(trim(value), usize::MAX as nat) {
                Some(n) => n,
                None => 0,
            }
        } else {
            length
        },
        None => length,
    }
}

impl HttpHead {
    pub open spec fn well_formed(&self) -> bool {
        self.query.well_formed() && self.headers.well_formed()
    }

    /// Begins a request with its request line.
    pub fn start(request_line: &str) -> (r: Self)
        ensures
            r.well_formed(),
            r.method@ == line_method(request_line@),
            r.path@ == sides(line_target(request_line@), "?"@).0,
            r.query@ == query_pairs(
                crate::text::split(sides(line_target(request_line@), "?"@).1, '&'),
            ),
            r.headers@ == Map::<Seq<char>, Seq<char>>::empty(),
            r.content_length == 0,
    {
        let parts = words_of(request_line);
        let method = if parts.len() > 0 {
            parts[0].as_str().to_owned()
        } else {
            String::new()
        };
        let target = if parts.len() > 1 {
            parts[1].as_str().to_owned()
        } else {
            "/".to_owned()
        };
        proof {
            let w = words(request_line@);
            assert(views(parts@) == w);
            if parts@.len() > 0 {
                assert(w[0] == parts@[0]@);
            }
            if parts@.len() > 1 {
                assert(w[1] == parts@[1]@);
            }
            assert(method@ =~= line_method(request_line@));
        }
        let (path, query) = parse_http_target(target.as_str());
        HttpHead { method, path, query, headers: TextMap::new(), content_length: 0 }
    }

    /// Takes a header line. The answer tells whether it was the empty line that ends the
    /// headers.
    pub fn add_line(&mut self, line: &str) -> (ended: bool)
        requires
            old(self).well_formed(),
        ensures
            final(self).well_formed(),
            ended == (without_line_end(line@).len() == 0),
            final(self).method == old(self).method,
            final(self).path == old(self).path,
            final(self).query == old(self).query,
            ended ==> *final(self) == *old(self),
            !ended ==> final(self).headers@ == headers_after(old(self).headers@, line@),
            !ended ==> final(self).content_length == length_after(
                old(self).content_length as nat,
                line@,
            ),
    {
        let header = drop_line_end(line);
        if header.as_str().is_empty() {
            return true;
        }
        if let Some((name, value)) = split_first(header.as_str(), ":") {
            self.headers.insert(
                lowered(trimmed(name.as_str()).as_str()),
                trimmed(value.as_str()),
            );
            if same_ignoring_case(name.as_str(), "content-length") {
                self.content_length =
                match read_usize(trimmed(value.as_str()).as_str()) {
                    Some(n) => n,
                    None => 0,
                };
            }
        }
        false
    }

    /// The request with its body.
    pub fn with_body(self, body: &[u8]) -> (r: HttpRequest)
        requires
            self.well_formed(),
        ensures
            r.well_formed(),
            r.method@ == self.method@,
            r.path@ == self.path@,
            r.query@ == self.query@,
            r.headers@ == self.headers@,
            r.body@ == lossy_text(body@),
            valid_utf8(body@) ==> r.body@ == decode_utf8(body@),
    {
        HttpRequest {
            method: self.method,
            path: self.path,
            query: self.query,
            headers: self.headers,
            body: text_of_bytes(body),
        }
    }
}

} // verus!
