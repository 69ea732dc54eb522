use mm_dlp_core::client::cookies::{dpapi_blob, CookieExtractor};
use mm_dlp_core::client::h2::build_browser_headers;
use mm_dlp_core::client::h3::{format_request_headers, preferred_address};
use mm_dlp_core::client::EngineError as ClientError;
use mm_dlp_core::downloader::fetch::http_failure;
use mm_dlp_core::downloader::flusher::SequentialFlusher;
use mm_dlp_core::downloader::manifest::{parse_dash, parse_m3u8};
use mm_dlp_core::downloader::mmap::MemoryMappedFileWriter;
use mm_dlp_core::downloader::parallel::SequencedChunk;
use mm_dlp_core::error::EngineError;
use mm_dlp_core::plugin::host_imports::{bytes_to_write, check_memory_bounds, network_request_in_bounds, guest_bytes, write_response};
use mm_dlp_core::pool::worker_limit;

#[test]
fn m3u8_segments_resolve_against_base() {
    let m = "#EXTM3U\n#EXTINF:10,\nseg0.ts\n#EXTINF:10,\nhttps://cdn/seg1.ts\n\nseg2.ts\r\n";
    let segs = parse_m3u8(m, "https://host/path").unwrap();
    let urls: Vec<&str> = segs.iter().map(|s| s.url.as_str()).collect();
    assert_eq!(urls, vec!["https://host/path/seg0.ts", "https://cdn/seg1.ts", "https://host/path/seg2.ts"]);
    assert_eq!(segs.iter().map(|s| s.index).collect::<Vec<_>>(), vec![0, 1, 2]);
}

#[test]
fn dash_media_attributes() {
    let m = "<SegmentURL media=\"a.m4s\"/>\n<SegmentURL media=\"http://x/b.m4s\"/>\n<Other/>";
    let segs = parse_dash(m, "https://h/").unwrap();
    assert_eq!(segs.len(), 2);
    assert_eq!(segs[0].url, "https://h/a.m4s");
    assert_eq!(segs[1].url, "http://x/b.m4s");
}

#[test]
fn flusher_releases_in_order() {
    let mut f = SequentialFlusher::new();
    assert!(f.accept(SequencedChunk { index: 1, data: vec![1] }).is_empty());
    assert!(f.accept(SequencedChunk { index: 2, data: vec![2] }).is_empty());
    let out = f.accept(SequencedChunk { index: 0, data: vec![0] });
    assert_eq!(out.iter().map(|c| c.index).collect::<Vec<_>>(), vec![0, 1, 2]);
    assert_eq!(out[2].data, vec![2]);
    assert_eq!(f.next_expected_index(), 3);
    assert!(f.is_complete(3));
    assert!(f.finish(3).is_ok());
    match f.finish(4) {
        Err(ClientError::OsApiError(m)) => assert_eq!(m, "Channel closed before all segments were received"),
        _ => panic!(),
    }
}

#[test]
fn mapped_writes_are_bounded() {
    let map = memmap2::MmapMut::map_anon(8).unwrap();
    let mut w = MemoryMappedFileWriter::from_mapping(map);
    assert_eq!(w.len(), 8);
    assert!(w.write_at_offset(5, b"abc").is_ok());
    match w.write_at_offset(6, b"abc") {
        Err(ClientError::FileSystemError(m)) => assert_eq!(m, "Write out of bounds"),
        _ => panic!(),
    }
    assert!(w.flush_mmap().is_ok());
}

#[test]
fn cookie_store_paths() {
    let c = CookieExtractor::new("/home/u/.config/chromium/Default");
    assert_eq!(c.cookies_db_path(), "/home/u/.config/chromium/Default/Network/Cookies");
    assert_eq!(c.local_state_path(), "/home/u/.config/chromium/Default/Local State");
    match c.open_failure(true, "ignored".to_string()) {
        ClientError::FileSystemError(m) => assert_eq!(m, "Cookies database is locked by a running browser instance."),
        _ => panic!(),
    }
    match c.open_failure(false, "No such file".to_string()) {
        ClientError::FileSystemError(m) => assert_eq!(m, "No such file"),
        _ => panic!(),
    }
    assert_eq!(dpapi_blob(b"DPAPIkey"), b"key".to_vec());
    assert_eq!(dpapi_blob(b"DPAPI"), b"DPAPI".to_vec());
}

#[test]
fn browser_and_request_headers() {
    let h = build_browser_headers("120");
    assert_eq!(h.len(), 14);
    assert_eq!(h[2], ("sec-ch-ua".to_string(), "\"Chromium\";v=\"120\", \"Google Chrome\";v=\"120\"".to_string()));
    assert!(h[7].1.contains("Chrome/120.0.0.0 Safari/537.36"));
    let r = format_request_headers("GET", "host", "https", "/a", Some(42));
    assert_eq!(r.len(), 5);
    assert_eq!(r[0], (":method".to_string(), "GET".to_string()));
    assert_eq!(r[4], ("range".to_string(), "bytes=42-".to_string()));
    assert_eq!(format_request_headers("GET", "h", "https", "/", None).len(), 4);
}

#[test]
fn ipv6_is_preferred() {
    assert_eq!(preferred_address(&[false, true, true]), Some(1));
    assert_eq!(preferred_address(&[false, false]), Some(0));
    assert_eq!(preferred_address(&[]), None);
}

#[test]
fn plugin_memory_bounds() {
    assert!(check_memory_bounds(100, 90, 10));
    assert!(!check_memory_bounds(100, 90, 11));
    assert!(!check_memory_bounds(100, u32::MAX, u32::MAX));
    assert!(network_request_in_bounds(100, 0, 10, 50, 50));
    assert!(!network_request_in_bounds(100, 0, 10, 50, 51));
    assert_eq!(bytes_to_write(10, 4), 4);
    assert_eq!(bytes_to_write(3, 4), 3);
}

#[test]
fn pool_limits_are_clamped() {
    assert_eq!(worker_limit(0), 1);
    assert_eq!(worker_limit(8), 8);
    assert_eq!(worker_limit(10_000), 512);
}

#[test]
fn http_failures_quote_the_status() {
    match http_failure("404 Not Found") {
        EngineError::Network(m) => assert_eq!(m, "HTTP download failed with status code: 404 Not Found"),
        _ => panic!(),
    }
    assert_eq!(http_failure("500").message(), "Network error: HTTP download failed with status code: 500");
}

#[test]
fn shuffled_arrivals_are_written_in_order() {
    let mut f = SequentialFlusher::default();
    let mut written = Vec::new();
    for i in [3usize, 0, 5, 1, 4, 2] {
        for c in f.accept(SequencedChunk { index: i, data: vec![i as u8] }) {
            written.push(c.index);
        }
    }
    assert_eq!(written, vec![0, 1, 2, 3, 4, 5]);
    assert_eq!(f.next_expected_index(), 6);
    assert!(f.finish(6).is_ok());
}

#[test]
fn guest_memory_reads_and_response_writes() {
    let memory = b"..http://x..".to_vec();
    assert_eq!(guest_bytes(&memory, 2, 8), b"http://x".to_vec());
    assert_eq!(guest_bytes(&memory, 0, 0), Vec::<u8>::new());

    let mut out = vec![0u8; 8];
    write_response(&mut out, 2, b"hello", 3);
    assert_eq!(out, vec![0, 0, b'h', b'e', b'l', 0, 0, 0]);
    write_response(&mut out, 0, b"", 0);
    assert_eq!(out, vec![0, 0, b'h', b'e', b'l', 0, 0, 0]);
}
