//! Component-level behavior: negotiation, encoding names, media-type
//! filtering, path classification, and the response cache.

use response_compression::{
    accepted_algorithms, chosen_codec, default_exclusions, skip_encoding, str_eq, CachedCompression,
    CachedEncoding, Encoding, MediaType, ResponseCache,
};

fn strings(v: &[&str]) -> Vec<String> {
    v.iter().map(|s| (*s).to_owned()).collect()
}

#[test]
fn negotiation_finds_standalone_tokens() {
    // order and surrounding whitespace do not matter
    assert_eq!(accepted_algorithms(&strings(&["gzip, br"])), (true, true));
    assert_eq!(accepted_algorithms(&strings(&["br , gzip"])), (true, true));
    assert_eq!(accepted_algorithms(&strings(&["  br  "])), (false, true));
    assert_eq!(accepted_algorithms(&strings(&["\tgzip\t"])), (true, false));
    assert_eq!(accepted_algorithms(&strings(&["deflate, br, identity"])), (false, true));
}

#[test]
fn negotiation_trims_all_unicode_whitespace() {
    // str::trim removes the full Unicode White_Space set, not just ASCII
    assert_eq!(accepted_algorithms(&strings(&["\u{A0}br\u{A0}"])), (false, true));
    assert_eq!(accepted_algorithms(&strings(&["\u{3000}gzip\u{2028}"])), (true, false));
    assert_eq!(accepted_algorithms(&strings(&["deflate,\u{2009}br\u{0C}"])), (false, true));
}

#[test]
fn negotiation_spans_multiple_header_values() {
    assert_eq!(accepted_algorithms(&strings(&["identity", "gzip"])), (true, false));
    assert_eq!(accepted_algorithms(&strings(&["br", "gzip"])), (true, true));
}

#[test]
fn negotiation_requires_exact_tokens() {
    // quality values are not interpreted: the token must equal "gzip"/"br"
    assert_eq!(accepted_algorithms(&strings(&["gzip;q=0"])), (false, false));
    assert_eq!(accepted_algorithms(&strings(&["brotli"])), (false, false));
    assert_eq!(accepted_algorithms(&strings(&["gz ip"])), (false, false));
    assert_eq!(accepted_algorithms(&strings(&["BR"])), (false, false));
}

#[test]
fn negotiation_without_header_accepts_nothing() {
    assert_eq!(accepted_algorithms(&Vec::new()), (false, false));
    assert_eq!(accepted_algorithms(&strings(&[""])), (false, false));
}

#[test]
fn brotli_wins_when_both_accepted() {
    assert_eq!(chosen_codec(true, true), CachedEncoding::Brotli);
    assert_eq!(chosen_codec(false, true), CachedEncoding::Brotli);
    assert_eq!(chosen_codec(true, false), CachedEncoding::Gzip);
}

#[test]
fn encoding_header_values() {
    assert_eq!(Encoding::Gzip.header_value(), "gzip");
    assert_eq!(Encoding::Brotli.header_value(), "br");
    assert_eq!(Encoding::Chunked.header_value(), "chunked");
    assert_eq!(Encoding::Deflate.header_value(), "deflate");
    assert_eq!(Encoding::Compress.header_value(), "compress");
    assert_eq!(Encoding::Identity.header_value(), "identity");
    assert_eq!(Encoding::Trailers.header_value(), "trailers");
    assert_eq!(Encoding::EncodingExt("zstd".to_owned()).header_value(), "zstd");
}

#[test]
fn encoding_parse_round_trips() {
    for name in ["chunked", "br", "gzip", "deflate", "compress", "identity", "trailers", "x-new"] {
        assert_eq!(Encoding::parse(name).header_value(), name);
    }
    assert!(matches!(Encoding::parse("br"), Encoding::Brotli));
    assert!(matches!(Encoding::parse("gzip"), Encoding::Gzip));
    assert!(matches!(Encoding::parse("zstd"), Encoding::EncodingExt(s) if s == "zstd"));
}

#[test]
fn str_eq_compares_characters() {
    assert!(str_eq("abc", "abc"));
    assert!(!str_eq("abc", "abd"));
    assert!(!str_eq("abc", "ab"));
    assert!(str_eq("", ""));
}

#[test]
fn media_type_parse_splits_at_first_slash() {
    let mt = MediaType::parse("application/json").unwrap();
    assert_eq!(mt.top, "application");
    assert_eq!(mt.sub, "json");
    let wild = MediaType::parse("image/*").unwrap();
    assert_eq!(wild.top, "image");
    assert_eq!(wild.sub, "*");
    assert!(MediaType::parse("noslash").is_none());
    assert!(MediaType::parse("/empty-top").is_none());
    assert!(MediaType::parse("empty-sub/").is_none());
    assert!(MediaType::parse("").is_none());
}

#[test]
fn media_type_parse_drops_parameters() {
    let mt = MediaType::parse("text/html; charset=utf-8").unwrap();
    assert_eq!(mt.top, "text");
    assert_eq!(mt.sub, "html");
    let mt = MediaType::parse("application/wasm;x=1").unwrap();
    assert_eq!(mt.top, "application");
    assert_eq!(mt.sub, "wasm");
    // an empty subtype before the parameters is still invalid
    assert!(MediaType::parse("text/;charset=utf-8").is_none());
}

#[test]
fn media_type_matching_ignores_ascii_case() {
    let exclusions = default_exclusions();
    let png = MediaType::parse("IMAGE/PNG").unwrap();
    let gz = MediaType::parse("Application/GZip").unwrap();
    let wasm = MediaType::parse("application/WASM;x=1").unwrap();
    let json = MediaType::parse("Application/JSON").unwrap();
    assert!(skip_encoding(&Some(png), &exclusions));
    assert!(skip_encoding(&Some(gz), &exclusions));
    assert!(skip_encoding(&Some(wasm), &exclusions));
    assert!(!skip_encoding(&Some(json), &exclusions));
}

#[test]
fn default_exclusions_filter_media_types() {
    let exclusions = default_exclusions();
    let png = MediaType::parse("image/png").unwrap();
    let jpeg = MediaType::parse("image/jpeg").unwrap();
    let mp4 = MediaType::parse("video/mp4").unwrap();
    let json = MediaType::parse("application/json").unwrap();
    let html = MediaType::parse("text/html").unwrap();
    let gz = MediaType::parse("application/gzip").unwrap();
    let wasm = MediaType::parse("application/wasm").unwrap();
    assert!(skip_encoding(&Some(png), &exclusions));
    assert!(skip_encoding(&Some(jpeg), &exclusions));
    assert!(skip_encoding(&Some(mp4), &exclusions));
    assert!(skip_encoding(&Some(gz), &exclusions));
    assert!(skip_encoding(&Some(wasm), &exclusions));
    assert!(!skip_encoding(&Some(json), &exclusions));
    assert!(!skip_encoding(&Some(html), &exclusions));
    assert!(!skip_encoding(&None, &exclusions));
}

#[test]
fn wildcard_requires_matching_top_level_type() {
    let exclusions = vec![MediaType::parse("image/*").unwrap()];
    let png = MediaType::parse("image/png").unwrap();
    let json = MediaType::parse("application/json").unwrap();
    assert!(skip_encoding(&Some(png), &exclusions));
    assert!(!skip_encoding(&Some(json), &exclusions));
}

#[test]
fn classifier_matches_exact_suffix_and_prefix() {
    let policy = CachedCompression {
        cached_paths: strings(&["/about"]),
        cached_path_prefixes: strings(&["/static/"]),
        cached_path_suffixes: strings(&[".js"]),
        excluded_path_prefixes: Vec::new(),
        level: None,
    };
    assert!(policy.should_cache("/about"));
    assert!(!policy.should_cache("/about/us"));
    assert!(policy.should_cache("/app.js"));
    assert!(policy.should_cache("/static/logo.svg"));
    assert!(!policy.should_cache("/index.html"));
}

#[test]
fn exclusion_prefixes_take_precedence() {
    let policy = CachedCompression {
        cached_paths: Vec::new(),
        cached_path_prefixes: Vec::new(),
        cached_path_suffixes: strings(&[".js"]),
        excluded_path_prefixes: strings(&["/admin"]),
        level: None,
    };
    assert!(policy.should_cache("/app.js"));
    assert!(!policy.should_cache("/admin/report.js"));
}

#[test]
fn builders_set_one_rule_each() {
    let exact = CachedCompression::exact_path_fairing(strings(&["/a"]));
    assert!(exact.should_cache("/a"));
    assert!(!exact.should_cache("/a/b"));

    let suffix = CachedCompression::path_suffix_fairing(strings(&[".otf"]));
    assert!(suffix.should_cache("/fonts/x.otf"));
    assert!(!suffix.should_cache("/fonts/x.ttf"));

    let prefix = CachedCompression::path_prefix_fairing(strings(&["/user/"]));
    assert!(prefix.should_cache("/user/42"));
    assert!(!prefix.should_cache("/users"));

    let excluded = CachedCompression::excluded_path_prefix_fairing(strings(&["/api"]));
    assert!(excluded.should_cache("/anything/else"));
    assert!(excluded.should_cache(""));
    assert!(!excluded.should_cache("/api/v1"));
}

#[test]
fn static_paths_copies_literals() {
    let paths = CachedCompression::static_paths(vec!["/a", "/b"]);
    assert_eq!(paths, vec!["/a".to_owned(), "/b".to_owned()]);
}

#[test]
fn cache_lookup_and_insert() {
    let mut cache = ResponseCache::new();
    assert!(cache.lookup("/a", CachedEncoding::Gzip).is_none());
    cache.insert("/a".to_owned(), CachedEncoding::Gzip, vec![1, 2, 3], "gzip".to_owned());
    let entry = cache.lookup("/a", CachedEncoding::Gzip).unwrap();
    assert_eq!(entry.body, vec![1, 2, 3]);
    assert_eq!(entry.header_value, "gzip");
    // the same path under the other codec is a distinct key
    assert!(cache.lookup("/a", CachedEncoding::Brotli).is_none());
    assert!(cache.lookup("/b", CachedEncoding::Gzip).is_none());
}

#[test]
fn cache_insert_overwrites() {
    let mut cache = ResponseCache::new();
    cache.insert("/a".to_owned(), CachedEncoding::Brotli, vec![1], "br".to_owned());
    cache.insert("/a".to_owned(), CachedEncoding::Brotli, vec![2, 2], "br".to_owned());
    let entry = cache.lookup("/a", CachedEncoding::Brotli).unwrap();
    assert_eq!(entry.body, vec![2, 2]);
}
