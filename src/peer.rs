//! Framing of requests from peers that push entropy to this node.
use crate::digest::{from_hex, hex_decoded, is_hex};
use crate::health::{healthy, passes_health_checks};
use vstd::prelude::*;
use vstd::utf8::encode_utf8;

verus! {

/// The blank line that ends a request's header: CR LF CR LF.
pub open spec fn header_end_at(s: Seq<u8>, i: int) -> bool {
    &&& 0 <= i
    &&& i + 4 <= s.len()
    &&& s[i] == 13u8
    &&& s[i + 1] == 10u8
    &&& s[i + 2] == 13u8
    &&& s[i + 3] == 10u8
}

/// The request has a header terminator.
pub open spec fn has_header_end(s: Seq<u8>) -> bool {
    exists|i: int| header_end_at(s, i)
}

/// Position of the first header terminator of `request`, if any.
pub fn find_header_end(request: &[u8]) -> (r: Option<usize>)
    ensures
        r.is_none() == !has_header_end(request@),
        r matches Some(i) ==> header_end_at(request@, i as int) && forall|j: int|
            0 <= j < i ==> !header_end_at(request@, j),
{
    let n = request.len();
    if n < 4 {
        return None;
    }
    let mut i: usize = 0;
    while i <= n - 4
        invariant
            n == request@.len(),
            n >= 4,
            i <= n - 3,
            forall|j: int| 0 <= j < i ==> !header_end_at(request@, j),
        decreases n - i,
    {
        if request[i] == 13 && request[i + 1] == 10 && request[i + 2] == 13 && request[i + 3]
            == 10 {
            assert(header_end_at(request@, i as int));
            return Some(i);
        }
        i += 1;
    }
    assert forall|j: int| !header_end_at(request@, j) by {
        if 0 <= j && j >= i {
            assert(j + 4 > n);
        }
        if 0 <= j < i {
            assert(!header_end_at(request@, j));
        }
    }
    None
}

/// The body of a request: what follows its first header terminator.
pub fn http_body(request: &[u8]) -> (r: Option<Vec<u8>>)
    ensures
        r.is_none() == !has_header_end(request@),
        r matches Some(b) ==> exists|i: int|
            header_end_at(request@, i) && (forall|j: int| 0 <= j < i ==> !header_end_at(request@, j))
                && b@ == request@.subrange(i + 4, request@.len() as int),
{
    match find_header_end(request) {
        None => None,
        Some(i) => {
            let n = request.len();
            assert(header_end_at(request@, i as int));
            let mut body: Vec<u8> = Vec::new();
            let mut k: usize = i + 4;
            while k < request.len()
                invariant
                    i + 4 <= k <= request@.len(),
                    body@ == request@.subrange(i + 4, k as int),
                decreases request@.len() - k,
            {
                body.push(request[k]);
                k += 1;
                assert(body@ =~= request@.subrange(i + 4, k as int));
            }
            Some(body)
        },
    }
}

/// What a peer's hexadecimal payload admits into the pipeline: its bytes when they
/// decode and pass the health checks.
pub open spec fn admitted_payload(payload_hex: Seq<u8>) -> Option<Seq<u8>> {
    if is_hex(payload_hex) && healthy(hex_decoded(payload_hex)) {
        Some(hex_decoded(payload_hex))
    } else {
        None
    }
}

/// Decodes a peer's hexadecimal payload and keeps it only if it passes the health
/// checks.
pub fn accept_peer_payload(payload_hex: &str) -> (r: Option<Vec<u8>>)
    ensures
        r.is_some() == admitted_payload(encode_utf8(payload_hex@)).is_some(),
        r matches Some(b) ==> admitted_payload(encode_utf8(payload_hex@)) == Some(b@),
{
    match from_hex(payload_hex.as_bytes()) {
        None => None,
        Some(bytes) => {
            if passes_health_checks(bytes.as_slice()) {
                Some(bytes)
            } else {
                None
            }
        },
    }
}

} // verus!
