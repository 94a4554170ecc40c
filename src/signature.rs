use crate::model::NetworkRequest;
use vstd::prelude::*;

verus! {

/// Bodies longer than this many characters are shortened in a signature.
pub const FINGERPRINT_LIMIT: usize = 100;

/// How many characters of each end of a long body a signature keeps.
pub const FINGERPRINT_EDGE: usize = 50;

/// A body as it enters a signature: whole when short, otherwise its first and
/// last fifty characters joined by an ellipsis.
pub open spec fn body_fingerprint(body: Seq<char>) -> Seq<char> {
    if body.len() > FINGERPRINT_LIMIT {
        body.subrange(0, FINGERPRINT_EDGE as int) + "..."@ + body.subrange(
            body.len() - FINGERPRINT_EDGE,
            body.len() as int,
        )
    } else {
        body
    }
}

/// The decimal digits of `n`, most significant first.
pub open spec fn decimal(n: nat) -> Seq<char>
    decreases n,
{
    let digit = (('0' as u8) + (n % 10) as u8) as char;
    if n < 10 {
        seq![digit]
    } else {
        decimal(n / 10).push(digit)
    }
}

/// The status part of a signature: the response's status code, or "pending".
pub open spec fn status_part(req: NetworkRequest) -> Seq<char> {
    match req.response {
        Some(resp) => decimal(resp.status as nat),
        None => "pending"@,
    }
}

/// The signature of a request: method, URL, body fingerprint and status,
/// separated by colons.
pub open spec fn request_signature(req: NetworkRequest) -> Seq<char> {
    let body = match req.body {
        Some(b) => body_fingerprint(b@),
        None => Seq::empty(),
    };
    req.method@ + ":"@ + req.url@ + ":"@ + body + ":"@ + status_part(req)
}

/// Relies on the `Display` impl of `u16` (through `ToString`): plain decimal
/// digits, no sign, no padding.
#[verifier::external_body]
fn u16_to_decimal(n: u16) -> (r: String)
    ensures
        r@ == decimal(n as nat),
{
    n.to_string()
}

fn fingerprint(body: &String) -> (r: String)
    ensures
        r@ == body_fingerprint(body@),
{
    let s = body.as_str();
    let n = s.unicode_len();
    if n > FINGERPRINT_LIMIT {
        let mut r = String::from_str(s.substring_char(0, FINGERPRINT_EDGE));
        r.append("...");
        r.append(s.substring_char(n - FINGERPRINT_EDGE, n));
        r
    } else {
        body.clone()
    }
}

/// Builds the key under which near-duplicate requests are recognised.
pub fn create_request_signature(request: &NetworkRequest) -> (r: String)
    ensures
        r@ == request_signature(*request),
{
    let mut r = request.method.clone();
    r.append(":");
    r.append(request.url.as_str());
    r.append(":");
    match &request.body {
        Some(b) => {
            let f = fingerprint(b);
            r.append(f.as_str());
        },
        None => {},
    }
    r.append(":");
    match &request.response {
        Some(resp) => {
            let d = u16_to_decimal(resp.status);
            r.append(d.as_str());
        },
        None => {
            r.append("pending");
        },
    }
    assert(r@ =~= request_signature(*request));
    r
}

} // verus!
