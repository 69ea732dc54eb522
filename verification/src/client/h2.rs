//! The request headers of a desktop Chrome browser.
use vstd::prelude::*;
use crate::text::join;

verus! {

/// The headers a Chrome of version `v` sends for a page, in order.
pub open spec fn browser_headers_spec(v: Seq<char>) -> Seq<(Seq<char>, Seq<char>)> {
    seq![
        ("Host"@, "www.youtube.com"@),
        ("Connection"@, "keep-alive"@),
        ("sec-ch-ua"@, "\"Chromium\";v=\""@ + v + "\", \"Google Chrome\";v=\""@ + v + "\""@),
        ("sec-ch-ua-mobile"@, "?0"@),
        ("sec-ch-ua-platform"@, "\"Windows\""@),
        ("DNT"@, "1"@),
        ("Upgrade-Insecure-Requests"@, "1"@),
        (
            "User-Agent"@,
            "Mozilla/5.0 (Windows NT 10.0; Win64; x64) AppleWebKit/537.36 (KHTML, like Gecko) Chrome/"@
                + v + ".0.0.0 Safari/537.36"@,
        ),
        (
            "Accept"@,
            "text/html,application/xhtml+xml,application/xml;q=0.9,image/avif,image/webp,*/*;q=0.8"@,
        ),
        ("Sec-Fetch-Site"@, "none"@),
        ("Sec-Fetch-Mode"@, "navigate"@),
        ("Sec-Fetch-User"@, "?1"@),
        ("Sec-Fetch-Dest"@, "document"@),
        ("Accept-Language"@, "en-US,en;q=0.9"@),
    ]
}

/// The plain content of a list of headers.
pub open spec fn headers_view(h: Seq<(String, String)>) -> Seq<(Seq<char>, Seq<char>)> {
    h.map_values(|p: (String, String)| (p.0@, p.1@))
}

/// Appends one header.
fn push_header(headers: &mut Vec<(String, String)>, name: &str, value: String)
    ensures
        headers_view(final(headers)@) == headers_view(old(headers)@).push((name@, value@)),
{
    let ghost before = headers_view(headers@);
    headers.push((String::from_str(name), value));
    assert(headers_view(headers@) =~= before.push((name@, headers@.last().1@)));
}

/// The headers a Chrome of version `chrome_version` sends (see
/// [`browser_headers_spec`]).
pub fn build_browser_headers(chrome_version: &str) -> (h: Vec<(String, String)>)
    ensures
        headers_view(h@) == browser_headers_spec(chrome_version@),
{
    let v = chrome_version;
    let mut h: Vec<(String, String)> = Vec::new();
    push_header(&mut h, "Host", String::from_str("www.youtube.com"));
    push_header(&mut h, "Connection", String::from_str("keep-alive"));
    push_header(
        &mut h,
        "sec-ch-ua",
        join("\"Chromium\";v=\"", v).concat("\", \"Google Chrome\";v=\"").concat(v).concat("\""),
    );
    push_header(&mut h, "sec-ch-ua-mobile", String::from_str("?0"));
    push_header(&mut h, "sec-ch-ua-platform", String::from_str("\"Windows\""));
    push_header(&mut h, "DNT", String::from_str("1"));
    push_header(&mut h, "Upgrade-Insecure-Requests", String::from_str("1"));
    push_header(
        &mut h,
        "User-Agent",
        join(
            "Mozilla/5.0 (Windows NT 10.0; Win64; x64) AppleWebKit/537.36 (KHTML, like Gecko) Chrome/",
            v,
        ).concat(".0.0.0 Safari/537.36"),
    );
    push_header(
        &mut h,
        "Accept",
        String::from_str(
            "text/html,application/xhtml+xml,application/xml;q=0.9,image/avif,image/webp,*/*;q=0.8",
        ),
    );
    push_header(&mut h, "Sec-Fetch-Site", String::from_str("none"));
    push_header(&mut h, "Sec-Fetch-Mode", String::from_str("navigate"));
    push_header(&mut h, "Sec-Fetch-User", String::from_str("?1"));
    push_header(&mut h, "Sec-Fetch-Dest", String::from_str("document"));
    push_header(&mut h, "Accept-Language", String::from_str("en-US,en;q=0.9"));
    assert(headers_view(h@) =~= browser_headers_spec(chrome_version@));
    h
}

} // verus!
