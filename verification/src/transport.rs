use vstd::prelude::*;

use vstd::utf8::encode_utf8;

verus! {

/// The mathematical value of an [`HttpRequest`].
pub ghost struct RequestView {
    pub method: Seq<char>,
    pub uri: Seq<char>,
    pub headers: Seq<(Seq<char>, Seq<char>)>,
    pub body: Seq<u8>,
}

/// The mathematical value of an [`HttpResponse`].
pub ghost struct ResponseView {
    pub status: u16,
    pub headers: Seq<(Seq<char>, Seq<char>)>,
    pub body: Seq<u8>,
}

/// The header pairs of a request or response as character sequences.
pub open spec fn headers_view(hs: Seq<(String, String)>) -> Seq<(Seq<char>, Seq<char>)> {
    hs.map_values(|p: (String, String)| (p.0@, p.1@))
}

/// A fully built HTTP request, as plain data: the caller hands it unmodified
/// to whatever HTTP client it uses. The broker itself never performs I/O.
pub struct HttpRequest {
    /// The HTTP method, `POST` for every request this crate builds.
    pub method: String,
    /// The absolute URI of the endpoint.
    pub uri: String,
    /// Header name/value pairs; the names this crate emits are lower-case.
    pub headers: Vec<(String, String)>,
    /// The raw body bytes.
    pub body: Vec<u8>,
}

impl View for HttpRequest {
    type V = RequestView;

    open spec fn view(&self) -> RequestView {
        RequestView {
            method: self.method@,
            uri: self.uri@,
            headers: headers_view(self.headers@),
            body: self.body@,
        }
    }
}

/// An HTTP response, as plain data: the status code, the header pairs (at
/// least `Content-Type`, when the remote sent one), and the raw body bytes.
pub struct HttpResponse {
    pub status: u16,
    pub headers: Vec<(String, String)>,
    pub body: Vec<u8>,
}

impl View for HttpResponse {
    type V = ResponseView;

    open spec fn view(&self) -> ResponseView {
        ResponseView {
            status: self.status,
            headers: headers_view(self.headers@),
            body: self.body@,
        }
    }
}

/// Whether an HTTP status code reports success.
pub open spec fn status_success(status: u16) -> bool {
    200 <= status < 300
}

/// An upper-case ASCII letter mapped to its lower-case form; every other
/// byte unchanged. Header names compare without regard to ASCII case.
pub open spec fn ascii_lower(b: u8) -> u8 {
    if 65 <= b <= 90 {
        (b + 32) as u8
    } else {
        b
    }
}

/// Byte sequences equal up to ASCII case.
pub open spec fn ci_eq(a: Seq<u8>, b: Seq<u8>) -> bool {
    a.len() == b.len() && forall|i: int| 0 <= i < a.len() ==> ascii_lower(a[i]) == ascii_lower(b[i])
}

/// The value of the first header whose name equals `name` up to ASCII case,
/// comparing the UTF-8 bytes of the names.
pub open spec fn find_header(hs: Seq<(Seq<char>, Seq<char>)>, name: Seq<u8>) -> Option<Seq<char>>
    decreases hs.len(),
{
    if hs.len() == 0 {
        None
    } else if ci_eq(encode_utf8(hs[0].0), name) {
        Some(hs[0].1)
    } else {
        find_header(hs.drop_first(), name)
    }
}

fn ascii_lower_exec(b: u8) -> (r: u8)
    ensures
        r == ascii_lower(b),
{
    if 65 <= b && b <= 90 {
        b + 32
    } else {
        b
    }
}

/// Whether two byte slices are equal up to ASCII case.
fn bytes_ci_eq(a: &[u8], b: &[u8]) -> (r: bool)
    ensures
        r == ci_eq(a@, b@),
{
    if a.len() != b.len() {
        return false;
    }
    let mut i: usize = 0;
    while i < a.len()
        invariant
            a@.len() == b@.len(),
            0 <= i <= a@.len(),
            forall|j: int| 0 <= j < i ==> ascii_lower(a@[j]) == ascii_lower(b@[j]),
        decreases a@.len() - i,
    {
        if ascii_lower_exec(a[i]) != ascii_lower_exec(b[i]) {
            return false;
        }
        i = i + 1;
    }
    true
}

/// The value of the first header named `name` (compared without regard to
/// ASCII case), if any.
pub fn header_value<'a>(headers: &'a Vec<(String, String)>, name: &str) -> (r: Option<&'a String>)
    ensures
        match r {
            Some(v) => find_header(headers_view(headers@), encode_utf8(name@)) == Some(v@),
            None => find_header(headers_view(headers@), encode_utf8(name@)) is None,
        },
{
    let ghost hv = headers_view(headers@);
    let ghost nb = encode_utf8(name@);
    proof {
        assert(hv.skip(0) =~= hv);
    }
    let mut i: usize = 0;
    while i < headers.len()
        invariant
            hv == headers_view(headers@),
            nb == encode_utf8(name@),
            hv.len() == headers@.len(),
            0 <= i <= headers@.len(),
            find_header(hv, nb) == find_header(hv.skip(i as int), nb),
        decreases headers@.len() - i,
    {
        proof {
            assert(hv.skip(i as int)[0] == hv[i as int]);
            assert(hv.skip(i as int).drop_first() =~= hv.skip(i as int + 1));
        }
        let name_matches = bytes_ci_eq(headers[i].0.as_str().as_bytes(), name.as_bytes());
        if name_matches {
            return Some(&headers[i].1);
        }
        i = i + 1;
    }
    proof {
        assert(hv.skip(headers@.len() as int) =~= Seq::<(Seq<char>, Seq<char>)>::empty());
    }
    None
}

/// Whether a byte may stand in an HTTP header value: horizontal tab, any
/// visible ASCII byte or space, or any byte at 128 and above.
pub open spec fn valid_header_byte(b: u8) -> bool {
    b == 9 || (32 <= b && b != 127)
}

/// Whether every byte of `s` may stand in an HTTP header value.
pub open spec fn valid_header_value(s: Seq<u8>) -> bool {
    forall|i: int| 0 <= i < s.len() ==> valid_header_byte(s[i])
}

/// Whether the UTF-8 bytes of `s` form a well-formed HTTP header value.
pub fn check_header_value(s: &str) -> (r: bool)
    ensures
        r == valid_header_value(encode_utf8(s@)),
{
    let bytes = s.as_bytes();
    let mut i: usize = 0;
    while i < bytes.len()
        invariant
            bytes@ == encode_utf8(s@),
            0 <= i <= bytes@.len(),
            forall|j: int| 0 <= j < i ==> valid_header_byte(bytes@[j]),
        decreases bytes@.len() - i,
    {
        let b = bytes[i];
        if !(b == 9 || (32 <= b && b != 127)) {
            return false;
        }
        i = i + 1;
    }
    true
}

} // verus!
