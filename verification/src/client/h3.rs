//! HTTP/3 request decisions: the address to connect to and the ordered
//! request headers.
use vstd::prelude::*;
use crate::client::h2::headers_view;
use crate::json::{decimal, u64_to_string};
use crate::text::join;

verus! {

/// The address to connect to among resolved addresses, given whether each
/// is IPv6: the first IPv6 address, else the first address.
pub open spec fn preferred_address_spec(is_ipv6: Seq<bool>) -> Option<int> {
    if exists|i: int| 0 <= i < is_ipv6.len() && is_ipv6[i] {
        Some(choose|i: int| 0 <= i < is_ipv6.len() && is_ipv6[i] && forall|j: int| 0 <= j < i ==> !is_ipv6[j])
    } else if is_ipv6.len() > 0 {
        Some(0)
    } else {
        None
    }
}

/// The address to connect to (see [`preferred_address_spec`]).
pub fn preferred_address(is_ipv6: &[bool]) -> (r: Option<usize>)
    ensures
        match r {
            Some(i) => preferred_address_spec(is_ipv6@) == Some(i as int),
            None => preferred_address_spec(is_ipv6@) is None,
        },
{
    let mut i: usize = 0;
    while i < is_ipv6.len()
        invariant
            i <= is_ipv6@.len(),
            forall|j: int| 0 <= j < i ==> !is_ipv6@[j],
        decreases is_ipv6.len() - i,
    {
        if is_ipv6[i] {
            proof {
                let c = choose|c: int| 0 <= c < is_ipv6@.len() && is_ipv6@[c] && forall|j: int| 0 <= j < c ==> !is_ipv6@[j];
                assert(0 <= i < is_ipv6@.len() && is_ipv6@[i as int] && forall|j: int| 0 <= j < i ==> !is_ipv6@[j]);
                if c < i {
                    assert(!is_ipv6@[c]);
                } else if c > i {
                    assert(!is_ipv6@[i as int]);
                }
            }
            return Some(i);
        }
        i = i + 1;
    }
    if is_ipv6.len() > 0 {
        Some(0)
    } else {
        None
    }
}

/// The pseudo-headers of a request in Chrome's order, and a `range` header
/// from `resume_offset` on when the download resumes.
pub open spec fn request_headers_spec(
    method: Seq<char>,
    authority: Seq<char>,
    scheme: Seq<char>,
    path: Seq<char>,
    resume_offset: Option<u64>,
) -> Seq<(Seq<char>, Seq<char>)> {
    let base = seq![(":method"@, method), (":authority"@, authority), (":scheme"@, scheme), (":path"@, path)];
    match resume_offset {
        Some(offset) => base.push(("range"@, "bytes="@ + decimal(offset as nat) + "-"@)),
        None => base,
    }
}

/// The request headers (see [`request_headers_spec`]).
pub fn format_request_headers(
    method: &str,
    authority: &str,
    scheme: &str,
    path: &str,
    resume_offset: Option<u64>,
) -> (h: Vec<(String, String)>)
    ensures
        headers_view(h@) == request_headers_spec(method@, authority@, scheme@, path@, resume_offset),
{
    let mut h: Vec<(String, String)> = Vec::new();
    h.push((String::from_str(":method"), String::from_str(method)));
    h.push((String::from_str(":authority"), String::from_str(authority)));
    h.push((String::from_str(":scheme"), String::from_str(scheme)));
    h.push((String::from_str(":path"), String::from_str(path)));
    match resume_offset {
        Some(offset) => {
            let o = u64_to_string(offset);
            h.push((String::from_str("range"), join("bytes=", o.as_str()).concat("-")));
        },
        None => {},
    }
    assert(headers_view(h@) =~= request_headers_spec(method@, authority@, scheme@, path@, resume_offset));
    h
}

} // verus!
