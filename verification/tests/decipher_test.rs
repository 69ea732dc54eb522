use mm_dlp_core::client::EngineError;
use mm_dlp_core::extractor::registry::{route_url, RegisteredExtractor, VimeoExtractor, YouTubeExtractor};
use mm_dlp_core::js::decipher::{execution_call, helper_definition_pattern, JsDecipher};
use mm_dlp_core::js::engine::{JsEngineError, SandboxJsEngine};

#[test]
fn decipher_pattern_is_refused_by_the_regex_engine() {
    // The decipher function pattern uses back-references, which the regex
    // crate does not support; every plan is refused with its error.
    let d = JsDecipher::new();
    match d.decipher_plan("a=function(b){b=b.split(\"\");X.r(b);return b.join(\"\")}") {
        Err(EngineError::OsApiError(m)) => assert!(!m.is_empty()),
        _ => panic!("expected an OS API error"),
    }
}

#[test]
fn sandbox_call() {
    assert_eq!(execution_call("fn", "sig"), "fn(\"sig\");");
}

#[test]
fn registry_routes_by_pattern() {
    assert!(matches!(route_url("https://www.youtube.com/watch?v=dQw4w9WgXcQ"), Some(RegisteredExtractor::YouTube(_))));
    assert!(matches!(route_url("youtu.be/dQw4w9WgXcQ"), Some(RegisteredExtractor::YouTube(_))));
    assert!(matches!(route_url("https://vimeo.com/1234"), Some(RegisteredExtractor::Vimeo(_))));
    assert!(route_url("https://www.youtube.com/watch?v=short").is_none());
    assert!(route_url("https://example.com").is_none());
}

#[test]
fn registry_youtube_metadata() {
    let yt = YouTubeExtractor::new();
    let info = yt.extract_metadata("https://youtube.com/watch?v=dQw4w9WgXcQ").unwrap();
    assert_eq!(info.id, "dQw4w9WgXcQ");
    assert_eq!(info.title, "YouTube Video dQw4w9WgXcQ");
    assert_eq!(info.duration, Some(240));
    assert_eq!(info.formats.len(), 1);
    assert_eq!(info.formats[0].url, "https://rr1.sn-ab5l.googlevideo.com/videoplayback?id=dQw4w9WgXcQ");
    assert_eq!(info.formats[0].height, Some(1080));
    match yt.extract_metadata("https://vimeo.com/1") {
        Err(EngineError::OsApiError(m)) => assert_eq!(m, "Failed to extract YouTube Video ID from matching URL"),
        _ => panic!(),
    }
    match VimeoExtractor::new().extract_metadata("https://vimeo.com/1") {
        Err(EngineError::OsApiError(m)) => assert_eq!(m, "Vimeo extraction logic not yet hooked up to client"),
        _ => panic!(),
    }
    assert!(VimeoExtractor::new().matches_url("vimeo.com/99"));
    assert!(!YouTubeExtractor::new().matches_url("vimeo.com/99"));
}

#[test]
fn helper_names_are_escaped_in_their_pattern() {
    let p = helper_definition_pattern("a$b.c");
    assert!(p.contains("var\\s+a\\$b\\.c=\\{"));
    assert!(p.starts_with("(?x)\n"));
    let plain = helper_definition_pattern("Xy1");
    assert!(plain.contains("var\\s+Xy1=\\{"));
}

#[test]
fn sandbox_runs_a_deciphering_function() {
    let engine = SandboxJsEngine::new().unwrap();
    let script = "function rev(a) { return a.split('').reverse().join(''); }";
    assert_eq!(engine.execute_decipher(script, "abc", "rev"), Ok("cba".to_string()));
    // The sandbox's globals are there for the script to use.
    let uses_window = "function w(a) { window.k = a; return window.k + global.x; }";
    assert_eq!(engine.execute_decipher(uses_window, "q", "w"), Ok("qundefined".to_string()));
}

#[test]
fn sandbox_reports_script_and_call_failures() {
    let engine = SandboxJsEngine::new().unwrap();
    match engine.execute_decipher("function (", "a", "f") {
        Err(JsEngineError::ExtractorBanned { reason }) => assert!(reason.starts_with("Compilation failed: ")),
        other => panic!("{:?}", other),
    }
    match engine.execute_decipher("var x = 1;", "a", "missing_function") {
        Err(JsEngineError::ExtractorBanned { reason }) => assert!(reason.starts_with("Execution failed: ")),
        other => panic!("{:?}", other),
    }
}
