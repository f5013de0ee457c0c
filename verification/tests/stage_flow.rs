//! End-to-end behavior of the response stage: early exits, cache population
//! and hits, codec choice, failure deferral, and round-trips through the
//! real decoders.

use async_compression::futures::bufread::{BrotliDecoder, GzipDecoder};
use futures::io::AsyncReadExt;
use response_compression::{
    compress_body, default_exclusions, BodyError, BodyErrorKind, CachedCompression, CachedEncoding,
    Compress, Compression, Level, MediaType, ProbeOutcome, ResponseCache, StageOutcome,
};

fn strings(v: &[&str]) -> Vec<String> {
    v.iter().map(|s| (*s).to_owned()).collect()
}

fn gunzip(data: &[u8]) -> Vec<u8> {
    let mut dec = GzipDecoder::new(data);
    let mut out = Vec::new();
    futures::executor::block_on(dec.read_to_end(&mut out)).unwrap();
    out
}

fn unbrotli(data: &[u8]) -> Vec<u8> {
    let mut dec = BrotliDecoder::new(data);
    let mut out = Vec::new();
    futures::executor::block_on(dec.read_to_end(&mut out)).unwrap();
    out
}

fn js_policy() -> CachedCompression {
    CachedCompression {
        cached_paths: Vec::new(),
        cached_path_prefixes: Vec::new(),
        cached_path_suffixes: strings(&[".js"]),
        excluded_path_prefixes: Vec::new(),
        level: None,
    }
}

fn run(
    policy: &CachedCompression,
    cache: &mut ResponseCache,
    path: &str,
    accept: &[&str],
    already_encoded: bool,
    content_type: Option<&str>,
    body: Result<Vec<u8>, BodyError>,
) -> StageOutcome {
    let ct = content_type.map(|s| MediaType::parse(s).unwrap());
    policy.on_response(
        cache,
        path,
        &strings(accept),
        already_encoded,
        &ct,
        &default_exclusions(),
        body,
    )
}

#[test]
fn eligible_path_is_compressed_cached_and_then_served_from_cache() {
    let policy = js_policy();
    let mut cache = ResponseCache::new();
    let original = b"function main() { return 42; } // the app".to_vec();

    let first = run(
        &policy,
        &mut cache,
        "/app.js",
        &["gzip, br"],
        false,
        Some("text/javascript"),
        Ok(original.clone()),
    );
    let (first_header, first_body) = match first {
        StageOutcome::ServeCompressed { header_value, body, cached } => {
            assert!(cached);
            (header_value, body)
        },
        _ => panic!("first request should compress"),
    };
    assert_eq!(first_header, "br");
    assert_eq!(unbrotli(&first_body), original);

    // the insert went under (path, Brotli)
    let entry = cache.lookup("/app.js", CachedEncoding::Brotli).unwrap();
    assert_eq!(entry.body, first_body);
    assert_eq!(entry.header_value, "br");

    // the second identical request is served from the cache, byte-identical;
    // its body is not read at all, so no encoder can have run
    let second = run(
        &policy,
        &mut cache,
        "/app.js",
        &["gzip, br"],
        false,
        Some("text/javascript"),
        Err(BodyError {
            kind: BodyErrorKind::Other,
            message: "body must not be read on a cache hit".to_owned(),
        }),
    );
    match second {
        StageOutcome::ServeCached { header_value, body } => {
            assert_eq!(header_value, "br");
            assert_eq!(body, first_body);
        },
        _ => panic!("second request should hit the cache"),
    }
}

#[test]
fn gzip_only_client_gets_gzip_under_its_own_key() {
    let policy = js_policy();
    let mut cache = ResponseCache::new();
    let original = b"var x = 1;".to_vec();

    let outcome = run(
        &policy,
        &mut cache,
        "/app.js",
        &["gzip"],
        false,
        Some("text/javascript"),
        Ok(original.clone()),
    );
    match outcome {
        StageOutcome::ServeCompressed { header_value, body, cached } => {
            assert_eq!(header_value, "gzip");
            assert!(cached);
            assert_eq!(gunzip(&body), original);
        },
        _ => panic!("gzip-only client should get gzip"),
    }
    // a gzip-only and a brotli-capable client never share an entry
    assert!(cache.lookup("/app.js", CachedEncoding::Gzip).is_some());
    assert!(cache.lookup("/app.js", CachedEncoding::Brotli).is_none());
}

#[test]
fn excluded_path_is_compressed_but_never_cached() {
    let policy = CachedCompression {
        cached_paths: Vec::new(),
        cached_path_prefixes: Vec::new(),
        cached_path_suffixes: strings(&[".js"]),
        excluded_path_prefixes: strings(&["/admin"]),
        level: None,
    };
    let mut cache = ResponseCache::new();
    let original = b"secret report".to_vec();

    let outcome = run(
        &policy,
        &mut cache,
        "/admin/report.js",
        &["gzip, br"],
        false,
        Some("text/javascript"),
        Ok(original.clone()),
    );
    match outcome {
        StageOutcome::ServeCompressed { header_value, body, cached } => {
            assert_eq!(header_value, "br");
            assert!(!cached);
            assert_eq!(unbrotli(&body), original);
        },
        _ => panic!("excluded path should still be compressed"),
    }
    assert!(cache.lookup("/admin/report.js", CachedEncoding::Brotli).is_none());
    assert!(cache.lookup("/admin/report.js", CachedEncoding::Gzip).is_none());
}

#[test]
fn already_encoded_response_passes_through() {
    let policy = js_policy();
    let mut cache = ResponseCache::new();
    let outcome = run(
        &policy,
        &mut cache,
        "/app.js",
        &["gzip, br"],
        true,
        Some("text/javascript"),
        Ok(b"already gzipped".to_vec()),
    );
    assert!(matches!(outcome, StageOutcome::PassThrough));
    assert!(cache.lookup("/app.js", CachedEncoding::Brotli).is_none());
}

#[test]
fn no_accept_encoding_passes_through() {
    let policy = js_policy();
    let mut cache = ResponseCache::new();
    let outcome = run(
        &policy,
        &mut cache,
        "/app.js",
        &[],
        false,
        Some("text/javascript"),
        Ok(b"plain".to_vec()),
    );
    assert!(matches!(outcome, StageOutcome::PassThrough));
}

#[test]
fn exempt_content_type_passes_through() {
    let policy = js_policy();
    let mut cache = ResponseCache::new();
    let outcome = run(
        &policy,
        &mut cache,
        "/logo.png.js",
        &["gzip, br"],
        false,
        Some("image/png"),
        Ok(b"png bytes".to_vec()),
    );
    assert!(matches!(outcome, StageOutcome::PassThrough));

    let compressed = run(
        &policy,
        &mut cache,
        "/data.js",
        &["gzip, br"],
        false,
        Some("application/json"),
        Ok(b"{}".to_vec()),
    );
    assert!(matches!(compressed, StageOutcome::ServeCompressed { .. }));
}

#[test]
fn body_read_error_is_deferred_and_never_cached() {
    let policy = js_policy();
    let mut cache = ResponseCache::new();
    let outcome = run(
        &policy,
        &mut cache,
        "/app.js",
        &["gzip, br"],
        false,
        Some("text/javascript"),
        Err(BodyError {
            kind: BodyErrorKind::ConnectionReset,
            message: "upstream body read failed: connection reset".to_owned(),
        }),
    );
    match outcome {
        StageOutcome::Failed { error } => {
            // kind and message both reach the host intact
            assert_eq!(error.kind, BodyErrorKind::ConnectionReset);
            assert_eq!(error.message, "upstream body read failed: connection reset");
        },
        _ => panic!("a body error must surface as a failure"),
    }
    assert!(cache.lookup("/app.js", CachedEncoding::Brotli).is_none());
    assert!(cache.lookup("/app.js", CachedEncoding::Gzip).is_none());
}

#[test]
fn compress_body_round_trips_both_codecs() {
    let data: Vec<u8> = (0..4096u32).map(|i| (i % 251) as u8).collect();
    let gz = compress_body(CachedEncoding::Gzip, &data, &Level::Default).unwrap();
    assert_eq!(gunzip(&gz), data);
    assert_ne!(gz, data);
    let br = compress_body(CachedEncoding::Brotli, &data, &Level::Best).unwrap();
    assert_eq!(unbrotli(&br), data);
    assert_ne!(br, data);
    let empty = compress_body(CachedEncoding::Gzip, &Vec::new(), &Level::Fastest).unwrap();
    assert_eq!(gunzip(&empty), Vec::<u8>::new());
}

#[test]
fn compress_body_works_inside_an_executor() {
    // the encoders are driven without entering an executor, so compressing
    // from a task already running under one must not panic
    let data = b"compressed while a task of an executor".to_vec();
    let out = futures::executor::block_on(async {
        compress_body(CachedEncoding::Gzip, &data, &Level::Default).unwrap()
    });
    assert_eq!(gunzip(&out), data);
    let out = futures::executor::block_on(async {
        compress_body(CachedEncoding::Brotli, &data, &Level::Default).unwrap()
    });
    assert_eq!(unbrotli(&out), data);
}

#[test]
fn compress_body_is_deterministic_per_input_and_level() {
    let data = b"the same bytes in, the same bytes out".to_vec();
    let a = compress_body(CachedEncoding::Brotli, &data, &Level::Default).unwrap();
    let b = compress_body(CachedEncoding::Brotli, &data, &Level::Default).unwrap();
    assert_eq!(a, b);
    let c = compress_body(CachedEncoding::Gzip, &data, &Level::Precise(6)).unwrap();
    let d = compress_body(CachedEncoding::Gzip, &data, &Level::Precise(6)).unwrap();
    assert_eq!(c, d);
}

#[test]
fn stage_uses_the_configured_level() {
    let policy = CachedCompression {
        cached_paths: Vec::new(),
        cached_path_prefixes: Vec::new(),
        cached_path_suffixes: strings(&[".js"]),
        excluded_path_prefixes: Vec::new(),
        level: Some(Level::Precise(5)),
    };
    let mut cache = ResponseCache::new();
    let original = b"let y = 2; let z = 3; let w = y + z;".to_vec();
    let outcome = run(
        &policy,
        &mut cache,
        "/app.js",
        &["br"],
        false,
        None,
        Ok(original.clone()),
    );
    match outcome {
        StageOutcome::ServeCompressed { body, .. } => {
            let direct =
                compress_body(CachedEncoding::Brotli, &original, &Level::Precise(5)).unwrap();
            assert_eq!(body, direct);
        },
        _ => panic!("eligible negotiated response should be compressed"),
    }
}

#[test]
fn ineligible_path_is_compressed_without_caching() {
    let policy = CachedCompression::new();
    let mut cache = ResponseCache::new();
    let original = b"not cacheable".to_vec();
    let outcome = run(
        &policy,
        &mut cache,
        "/page",
        &["gzip"],
        false,
        Some("text/html"),
        Ok(original.clone()),
    );
    match outcome {
        StageOutcome::ServeCompressed { header_value, body, cached } => {
            assert_eq!(header_value, "gzip");
            assert!(!cached);
            assert_eq!(gunzip(&body), original);
        },
        _ => panic!("negotiated response should be compressed even when not cached"),
    }
    assert!(cache.lookup("/page", CachedEncoding::Gzip).is_none());
}

#[test]
fn uncached_stage_compresses_per_negotiation() {
    let stage = Compression::fairing();
    assert_eq!(stage.0, Level::Default);
    let original = b"<html>hello</html>".to_vec();
    let outcome = stage.compress_response(
        false,
        &Some(MediaType::parse("text/html").unwrap()),
        &default_exclusions(),
        &strings(&["gzip"]),
        Ok(original.clone()),
    );
    match outcome {
        StageOutcome::ServeCompressed { header_value, body, cached } => {
            assert_eq!(header_value, "gzip");
            assert!(!cached);
            assert_eq!(gunzip(&body), original);
        },
        _ => panic!("negotiated response should be compressed"),
    }

    let pass = stage.compress_response(
        false,
        &Some(MediaType::parse("text/html").unwrap()),
        &default_exclusions(),
        &strings(&["identity"]),
        Ok(original),
    );
    assert!(matches!(pass, StageOutcome::PassThrough));
}

#[test]
fn decide_reports_codec_or_pass_through() {
    let exclusions = default_exclusions();
    let html = Some(MediaType::parse("text/html").unwrap());
    assert_eq!(
        Compression::decide(false, &html, &exclusions, &strings(&["gzip, br"])),
        Some(CachedEncoding::Brotli),
    );
    assert_eq!(
        Compression::decide(false, &html, &exclusions, &strings(&["gzip"])),
        Some(CachedEncoding::Gzip),
    );
    assert_eq!(Compression::decide(true, &html, &exclusions, &strings(&["gzip, br"])), None);
    assert_eq!(Compression::decide(false, &html, &exclusions, &Vec::new()), None);
    let png = Some(MediaType::parse("image/png").unwrap());
    assert_eq!(Compression::decide(false, &png, &exclusions, &strings(&["gzip, br"])), None);
}

#[test]
fn probe_decides_without_touching_the_body() {
    let policy = js_policy();
    let mut cache = ResponseCache::new();
    let accept = strings(&["gzip, br"]);
    let exclusions = default_exclusions();

    // miss: compress with Brotli and cache afterwards
    let probed = policy.probe(&cache, "/app.js", &accept, false, &None, &exclusions);
    assert!(matches!(
        probed,
        ProbeOutcome::Compress { codec: CachedEncoding::Brotli, eligible: true }
    ));

    // ineligible path: compress, do not cache
    let probed = policy.probe(&cache, "/page", &accept, false, &None, &exclusions);
    assert!(matches!(
        probed,
        ProbeOutcome::Compress { codec: CachedEncoding::Brotli, eligible: false }
    ));

    // early exits
    let probed = policy.probe(&cache, "/app.js", &accept, true, &None, &exclusions);
    assert!(matches!(probed, ProbeOutcome::PassThrough));
    let probed = policy.probe(&cache, "/app.js", &Vec::new(), false, &None, &exclusions);
    assert!(matches!(probed, ProbeOutcome::PassThrough));
    let png = Some(MediaType::parse("image/png").unwrap());
    let probed = policy.probe(&cache, "/app.js", &accept, false, &png, &exclusions);
    assert!(matches!(probed, ProbeOutcome::PassThrough));

    // hit: the stored entry, byte for byte
    cache.insert("/app.js".to_owned(), CachedEncoding::Brotli, vec![9, 9, 9], "br".to_owned());
    let probed = policy.probe(&cache, "/app.js", &accept, false, &None, &exclusions);
    match probed {
        ProbeOutcome::ServeCached { header_value, body } => {
            assert_eq!(header_value, "br");
            assert_eq!(body, vec![9, 9, 9]);
        },
        _ => panic!("probe should hit the cache"),
    }
}

#[test]
fn responder_compresses_wrapped_body() {
    let original = b"wrapped responder body".to_vec();
    let outcome = Compress(original.clone(), Level::Default).respond(
        false,
        &None,
        &Vec::new(),
        &strings(&["br"]),
    );
    match outcome {
        StageOutcome::ServeCompressed { header_value, body, .. } => {
            assert_eq!(header_value, "br");
            assert_eq!(unbrotli(&body), original);
        },
        _ => panic!("responder should compress"),
    }
}
