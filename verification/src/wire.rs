use vstd::prelude::*;

use vstd::utf8::encode_utf8;

verus! {

/// The low hex digit for `n < 16`, lower-case, as JSON control-character
/// escapes spell it.
pub open spec fn hex_digit(n: u8) -> u8 {
    if n < 10 {
        (48 + n) as u8
    } else {
        (87 + n) as u8
    }
}

/// How one byte of a string appears inside a JSON string literal: quote and
/// backslash escaped, the named control characters shortened, every other
/// control character written `\u00XX` with lower-case hex, everything else
/// verbatim.
pub open spec fn esc_byte(b: u8) -> Seq<u8> {
    if b == 34 {
        seq![92u8, 34u8]
    } else if b == 92 {
        seq![92u8, 92u8]
    } else if b == 8 {
        seq![92u8, 98u8]
    } else if b == 9 {
        seq![92u8, 116u8]
    } else if b == 10 {
        seq![92u8, 110u8]
    } else if b == 12 {
        seq![92u8, 102u8]
    } else if b == 13 {
        seq![92u8, 114u8]
    } else if b < 32 {
        seq![92u8, 117u8, 48u8, 48u8, hex_digit(b / 16), hex_digit(b % 16)]
    } else {
        seq![b]
    }
}

/// A byte sequence escaped for use inside a JSON string literal.
pub open spec fn json_escaped(s: Seq<u8>) -> Seq<u8>
    decreases s.len(),
{
    if s.len() == 0 {
        Seq::empty()
    } else {
        json_escaped(s.drop_last()) + esc_byte(s.last())
    }
}

/// A byte sequence as a JSON string literal: escaped and quoted.
pub open spec fn quoted(s: Seq<u8>) -> Seq<u8> {
    seq![34u8] + json_escaped(s) + seq![34u8]
}

/// The inside of a JSON array of string literals: the quoted elements joined
/// by commas.
pub open spec fn joined_quoted(ss: Seq<Seq<u8>>) -> Seq<u8>
    decreases ss.len(),
{
    if ss.len() == 0 {
        Seq::empty()
    } else if ss.len() == 1 {
        quoted(ss[0])
    } else {
        joined_quoted(ss.drop_last()) + seq![44u8] + quoted(ss.last())
    }
}

/// The bytes of `{"scope":[`.
pub open spec fn body_prefix() -> Seq<u8> {
    seq![123u8, 34u8, 115u8, 99u8, 111u8, 112u8, 101u8, 34u8, 58u8, 91u8]
}

/// The bytes of `],"lifetime":"3600s"}`. The requested lifetime is fixed at
/// 3600 seconds; it is not caller-configurable.
pub open spec fn body_suffix() -> Seq<u8> {
    seq![
        93u8,
        44u8,
        34u8,
        108u8,
        105u8,
        102u8,
        101u8,
        116u8,
        105u8,
        109u8,
        101u8,
        34u8,
        58u8,
        34u8,
        51u8,
        54u8,
        48u8,
        48u8,
        115u8,
        34u8,
        125u8,
    ]
}

/// The UTF-8 bytes of each scope string.
pub open spec fn scopes_utf8(scopes: Seq<Seq<char>>) -> Seq<Seq<u8>> {
    scopes.map_values(|s: Seq<char>| encode_utf8(s))
}

/// The exact exchange request body: the JSON object
/// `{"scope":[...],"lifetime":"3600s"}` with the scopes as a JSON string
/// array in caller order.
pub open spec fn request_body_bytes(scopes: Seq<Seq<char>>) -> Seq<u8> {
    body_prefix() + joined_quoted(scopes_utf8(scopes)) + body_suffix()
}

fn hex_digit_exec(n: u8) -> (r: u8)
    requires
        n < 16,
    ensures
        r == hex_digit(n),
{
    if n < 10 {
        48 + n
    } else {
        87 + n
    }
}

/// Append the bytes of `bytes`, escaped for a JSON string literal, to `out`.
fn push_escaped(out: &mut Vec<u8>, bytes: &[u8])
    ensures
        final(out)@ == old(out)@ + json_escaped(bytes@),
{
    let mut i: usize = 0;
    while i < bytes.len()
        invariant
            0 <= i <= bytes@.len(),
            out@ == old(out)@ + json_escaped(bytes@.subrange(0, i as int)),
        decreases bytes@.len() - i,
    {
        let b = bytes[i];
        if b == 34 {
            out.push(92);
            out.push(34);
        } else if b == 92 {
            out.push(92);
            out.push(92);
        } else if b == 8 {
            out.push(92);
            out.push(98);
        } else if b == 9 {
            out.push(92);
            out.push(116);
        } else if b == 10 {
            out.push(92);
            out.push(110);
        } else if b == 12 {
            out.push(92);
            out.push(102);
        } else if b == 13 {
            out.push(92);
            out.push(114);
        } else if b < 32 {
            out.push(92);
            out.push(117);
            out.push(48);
            out.push(48);
            out.push(hex_digit_exec(b / 16));
            out.push(hex_digit_exec(b % 16));
        } else {
            out.push(b);
        }
        proof {
            let part = bytes@.subrange(0, i + 1);
            assert(part.drop_last() =~= bytes@.subrange(0, i as int));
            assert(part.last() == bytes@[i as int]);
            assert(out@ =~= old(out)@ + json_escaped(part));
        }
        i = i + 1;
    }
    proof {
        assert(bytes@.subrange(0, bytes@.len() as int) =~= bytes@);
    }
}

#[verifier::rlimit(50)]
fn push_body_prefix(out: &mut Vec<u8>)
    ensures
        final(out)@ == old(out)@ + body_prefix(),
{
    out.push(123);
    out.push(34);
    out.push(115);
    out.push(99);
    out.push(111);
    out.push(112);
    out.push(101);
    out.push(34);
    out.push(58);
    out.push(91);
    proof {
        assert(out@ =~= old(out)@ + body_prefix());
    }
}

#[verifier::rlimit(50)]
fn push_body_suffix(out: &mut Vec<u8>)
    ensures
        final(out)@ == old(out)@ + body_suffix(),
{
    out.push(93);
    out.push(44);
    out.push(34);
    out.push(108);
    out.push(105);
    out.push(102);
    out.push(101);
    out.push(116);
    out.push(105);
    out.push(109);
    out.push(101);
    out.push(34);
    out.push(58);
    out.push(34);
    out.push(51);
    out.push(54);
    out.push(48);
    out.push(48);
    out.push(115);
    out.push(34);
    out.push(125);
    proof {
        assert(out@ =~= old(out)@ + body_suffix());
    }
}

/// Build the exchange request body for the given scopes: exactly the bytes
/// of [`request_body_bytes`].
pub fn build_request_body(scopes: &Vec<String>) -> (r: Vec<u8>)
    ensures
        r@ == request_body_bytes(scopes.deep_view()),
{
    let ghost ss = scopes_utf8(scopes.deep_view());
    let mut out: Vec<u8> = Vec::new();
    push_body_prefix(&mut out);
    proof {
        assert(out@ =~= body_prefix());
    }
    let mut i: usize = 0;
    while i < scopes.len()
        invariant
            ss == scopes_utf8(scopes.deep_view()),
            ss.len() == scopes@.len(),
            0 <= i <= scopes@.len(),
            out@ == body_prefix() + joined_quoted(ss.subrange(0, i as int)),
        decreases scopes@.len() - i,
    {
        if i > 0 {
            out.push(44);
        }
        out.push(34);
        push_escaped(&mut out, scopes[i].as_str().as_bytes());
        out.push(34);
        proof {
            let part = ss.subrange(0, i + 1);
            assert(part.drop_last() =~= ss.subrange(0, i as int));
            assert(part.last() == ss[i as int]);
            assert(ss[i as int] == encode_utf8(scopes.deep_view()[i as int]));
            assert(out@ =~= body_prefix() + joined_quoted(part));
        }
        i = i + 1;
    }
    proof {
        assert(ss.subrange(0, ss.len() as int) =~= ss);
    }
    push_body_suffix(&mut out);
    proof {
        assert(out@ =~= request_body_bytes(scopes.deep_view()));
    }
    out
}

/// What the success-body decoder yields on a byte sequence: the
/// `accessToken` and `expireTime` strings where the bytes are a JSON object
/// carrying both as strings, and nothing otherwise. A function of the bytes
/// alone.
pub uninterp spec fn token_fields_of(body: Seq<u8>) -> Option<(Seq<char>, Seq<char>)>;

/// What the error-body decoder yields on a byte sequence: the `error` and
/// `error_description` strings where the bytes are a JSON object carrying
/// both as strings, and nothing otherwise. A function of the bytes alone.
pub uninterp spec fn auth_fields_of(body: Seq<u8>) -> Option<(Seq<char>, Seq<char>)>;

/// Relies on serde_json::from_slice to parse the bytes as JSON, and on
/// serde_json::Value::get and Value::as_str to read the `accessToken` and
/// `expireTime` string fields out of the parsed object.
#[verifier::external_body]
pub fn decode_token_fields(body: &[u8]) -> (r: Option<(String, String)>)
    ensures
        match r {
            Some(p) => token_fields_of(body@) == Some((p.0@, p.1@)),
            None => token_fields_of(body@) is None,
        },
{
    let v: serde_json::Value = serde_json::from_slice(body).ok()?;
    let access = v.get("accessToken")?.as_str()?;
    let expire = v.get("expireTime")?.as_str()?;
    Some((access.to_owned(), expire.to_owned()))
}

/// Relies on serde_json::from_slice to parse the bytes as JSON, and on
/// serde_json::Value::get and Value::as_str to read the `error` and
/// `error_description` string fields out of the parsed object.
#[verifier::external_body]
pub fn decode_auth_fields(body: &[u8]) -> (r: Option<(String, String)>)
    ensures
        match r {
            Some(p) => auth_fields_of(body@) == Some((p.0@, p.1@)),
            None => auth_fields_of(body@) is None,
        },
{
    let v: serde_json::Value = serde_json::from_slice(body).ok()?;
    let error = v.get("error")?.as_str()?;
    let description = v.get("error_description")?.as_str()?;
    Some((error.to_owned(), description.to_owned()))
}

} // verus!
