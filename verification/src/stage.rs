//! The response stage: the per-response state machine that decides whether
//! to compress, serves from the cache, compresses and caches, or passes the
//! response through, with four early exits (already encoded, content type
//! exempt, nothing accepted, cache hit) and one failure branch.

use vstd::prelude::*;

use crate::cache::ResponseCache;
use crate::encoding::{chosen_codec, spec_chosen_codec, CachedEncoding};
use crate::engine::{compress_body, compressed_bytes, spec_compress_ok, Level};
use crate::media::{skip_encoding, spec_skip_encoding, MediaType};
use crate::negotiate::{accepted_algorithms, accepts};
use crate::policy::CachedCompression;

verus! {

/// The category of an I/O failure, as plain values, so that a body-read
/// error travels through the stage with its kind and message intact and the
/// host can rebuild the error on its side.
#[derive(Debug, Copy, Clone, PartialEq, Eq, Structural)]
pub enum BodyErrorKind {
    NotFound,
    PermissionDenied,
    ConnectionRefused,
    ConnectionReset,
    ConnectionAborted,
    NotConnected,
    BrokenPipe,
    InvalidInput,
    InvalidData,
    TimedOut,
    WriteZero,
    Interrupted,
    UnexpectedEof,
    WouldBlock,
    /// Any category not listed here, and failures of the encoder itself.
    Other,
}

/// An I/O failure as the stage carries it: the error's kind and its full
/// message.
#[derive(Debug, Clone, PartialEq, Eq)]
pub struct BodyError {
    pub kind: BodyErrorKind,
    pub message: String,
}

/// What the stage decided for one outgoing response. The host applies it:
/// it sets the `Content-Encoding` header to the given value and replaces the
/// body, or passes the response through, or hands the failure to its own
/// error path.
pub enum StageOutcome {
    /// Leave the response unmodified: it was already encoded, its content
    /// type is exempt, or the client accepts neither codec.
    PassThrough,
    /// Serve a previously cached body: set `Content-Encoding` to
    /// `header_value` and attach `body`, whose full length is known.
    ServeCached { header_value: String, body: Vec<u8> },
    /// Serve freshly compressed bytes; `cached` reports whether they were
    /// also inserted into the cache.
    ServeCompressed { header_value: String, body: Vec<u8>, cached: bool },
    /// The body could not be read or encoded: the error must reach the
    /// host's own error handling with kind and message intact, and nothing
    /// was cached.
    Failed { error: BodyError },
}

/// What a cache probe decided for one outgoing response, before the body is
/// touched: pass through, serve the cached entry, or compress with the
/// chosen codec (and insert afterwards exactly when `eligible` holds).
pub enum ProbeOutcome {
    PassThrough,
    ServeCached { header_value: String, body: Vec<u8> },
    Compress { codec: CachedEncoding, eligible: bool },
}

/// Whether the stage compresses at all: the response carries no
/// `Content-Encoding` yet, its content type is not exempt, and the client
/// accepts at least one of the two codecs.
pub open spec fn spec_active(
    already_encoded: bool,
    ct: Option<MediaType>,
    exclusions: Seq<MediaType>,
    values: Seq<Seq<char>>,
) -> bool {
    &&& !already_encoded
    &&& !spec_skip_encoding(ct, exclusions)
    &&& (accepts(values, "gzip"@) || accepts(values, "br"@))
}

/// The codec the stage applies, or `None` to pass the response through.
pub open spec fn spec_decide(
    already_encoded: bool,
    ct: Option<MediaType>,
    exclusions: Seq<MediaType>,
    values: Seq<Seq<char>>,
) -> Option<CachedEncoding> {
    if spec_active(already_encoded, ct, exclusions, values) {
        Some(spec_chosen_codec(accepts(values, "gzip"@), accepts(values, "br"@)))
    } else {
        None
    }
}

/// The body handed to the stage, viewed as bytes or as the read error's
/// kind and message.
pub open spec fn body_bytes_view(b: Result<Vec<u8>, BodyError>) -> Result<
    Seq<u8>,
    (BodyErrorKind, Seq<char>),
> {
    match b {
        Ok(v) => Ok(v@),
        Err(e) => Err((e.kind, e.message@)),
    }
}

/// How one probe relates its outcome to the policy, the request, and the
/// cache: pass through when inactive, the cached entry byte-for-byte on an
/// eligible hit, and otherwise the chosen codec with the path's eligibility.
pub open spec fn probe_post(
    policy: CachedCompression,
    path: Seq<char>,
    values: Seq<Seq<char>>,
    already_encoded: bool,
    ct: Option<MediaType>,
    exclusions: Seq<MediaType>,
    cache: Map<(Seq<char>, CachedEncoding), (Seq<u8>, Seq<char>)>,
    r: ProbeOutcome,
) -> bool {
    let gz = accepts(values, "gzip"@);
    let br = accepts(values, "br"@);
    let eligible = policy.spec_should_cache(path);
    let codec = spec_chosen_codec(gz, br);
    let key = (path, codec);
    if !spec_active(already_encoded, ct, exclusions, values) {
        r == ProbeOutcome::PassThrough
    } else if eligible && cache.contains_key(key) {
        r matches ProbeOutcome::ServeCached { header_value, body: served } && header_value@
            == cache[key].1 && served@ == cache[key].0
    } else {
        r == (ProbeOutcome::Compress { codec, eligible })
    }
}

/// How one run of the cached response stage relates its outcome `r` and the
/// cache after the run (`cache1`) to its inputs and the cache before
/// (`cache0`). When the stage is active, an eligible path is served from the
/// cache on a hit; otherwise the body is compressed with the chosen codec,
/// succeeding exactly when that codec succeeds on these bytes and this
/// level, and on success the bytes are inserted exactly when the path is
/// eligible. A body error is returned with its kind and message intact; an
/// encoder failure is returned under the `Other` kind; the cache is only
/// ever changed by the one insert.
pub open spec fn stage_post(
    policy: CachedCompression,
    path: Seq<char>,
    values: Seq<Seq<char>>,
    already_encoded: bool,
    ct: Option<MediaType>,
    exclusions: Seq<MediaType>,
    body: Result<Seq<u8>, (BodyErrorKind, Seq<char>)>,
    cache0: Map<(Seq<char>, CachedEncoding), (Seq<u8>, Seq<char>)>,
    cache1: Map<(Seq<char>, CachedEncoding), (Seq<u8>, Seq<char>)>,
    r: StageOutcome,
) -> bool {
    let gz = accepts(values, "gzip"@);
    let br = accepts(values, "br"@);
    let eligible = policy.spec_should_cache(path);
    let codec = spec_chosen_codec(gz, br);
    let key = (path, codec);
    if !spec_active(already_encoded, ct, exclusions, values) {
        r == StageOutcome::PassThrough && cache1 == cache0
    } else if eligible && cache0.contains_key(key) {
        &&& cache1 == cache0
        &&& r matches StageOutcome::ServeCached { header_value, body: served } && header_value@
            == cache0[key].1 && served@ == cache0[key].0
    } else {
        match body {
            Err(e) => {
                &&& cache1 == cache0
                &&& r matches StageOutcome::Failed { error } && error.kind == e.0 && error.message@
                    == e.1
            },
            Ok(data) => {
                if spec_compress_ok(codec, data, policy.spec_level()) {
                    r matches StageOutcome::ServeCompressed { header_value, body: out, cached }
                        && {
                        &&& out@ == compressed_bytes(codec, data, policy.spec_level())
                        &&& header_value@ == codec.spec_name()
                        &&& cached == eligible
                        &&& cache1 == if eligible {
                            cache0.insert(key, (out@, header_value@))
                        } else {
                            cache0
                        }
                    }
                } else {
                    &&& cache1 == cache0
                    &&& r matches StageOutcome::Failed { error } && error.kind
                        == BodyErrorKind::Other
                }
            },
        }
    }
}

/// Copies a byte buffer.
fn clone_bytes(v: &Vec<u8>) -> (r: Vec<u8>)
    ensures
        r@ == v@,
{
    let mut r: Vec<u8> = Vec::new();
    let mut i: usize = 0;
    while i < v.len()
        invariant
            0 <= i <= v@.len(),
            r@ == v@.subrange(0, i as int),
        decreases v@.len() - i,
    {
        r.push(v[i]);
        proof {
            assert(r@ =~= v@.subrange(0, i as int + 1));
        }
        i += 1;
    }
    proof {
        assert(r@ =~= v@);
    }
    r
}

impl CachedCompression {
    /// The read-only half of the stage: decides from the request, the
    /// response headers and the cache alone, without touching the body. A
    /// host that runs responses concurrently probes under a shared lock,
    /// compresses outside any lock, and only takes the cache exclusively to
    /// insert.
    pub fn probe(
        &self,
        cache: &ResponseCache,
        path: &str,
        accept_encoding: &Vec<String>,
        already_encoded: bool,
        content_type: &Option<MediaType>,
        exclusions: &Vec<MediaType>,
    ) -> (r: ProbeOutcome)
        requires
            cache.wf(),
        ensures
            probe_post(
                *self,
                path@,
                accept_encoding@.map_values(|v: String| v@),
                already_encoded,
                *content_type,
                exclusions@,
                cache@,
                r,
            ),
    {
        if already_encoded {
            return ProbeOutcome::PassThrough;
        }
        let eligible = self.should_cache(path);
        if skip_encoding(content_type, exclusions) {
            return ProbeOutcome::PassThrough;
        }
        let (accepts_gzip, accepts_br) = accepted_algorithms(accept_encoding);
        if !accepts_gzip && !accepts_br {
            return ProbeOutcome::PassThrough;
        }
        let codec = chosen_codec(accepts_gzip, accepts_br);
        if eligible {
            if let Some(entry) = cache.lookup(path, codec) {
                return ProbeOutcome::ServeCached {
                    header_value: entry.header_value.clone(),
                    body: clone_bytes(&entry.body),
                };
            }
        }
        ProbeOutcome::Compress { codec, eligible }
    }

    /// Runs the stage for one outgoing response. `accept_encoding` holds the
    /// request's `Accept-Encoding` header values; `already_encoded` reports
    /// whether the response already carries a `Content-Encoding` header;
    /// `body` is the detached response body, or the error its read produced.
    pub fn on_response(
        &self,
        cache: &mut ResponseCache,
        path: &str,
        accept_encoding: &Vec<String>,
        already_encoded: bool,
        content_type: &Option<MediaType>,
        exclusions: &Vec<MediaType>,
        body: Result<Vec<u8>, BodyError>,
    ) -> (r: StageOutcome)
        requires
            old(cache).wf(),
        ensures
            final(cache).wf(),
            stage_post(
                *self,
                path@,
                accept_encoding@.map_values(|v: String| v@),
                already_encoded,
                *content_type,
                exclusions@,
                body_bytes_view(body),
                old(cache)@,
                final(cache)@,
                r,
            ),
    {
        let probed = self.probe(
            cache,
            path,
            accept_encoding,
            already_encoded,
            content_type,
            exclusions,
        );
        let (codec, eligible) = match probed {
            ProbeOutcome::PassThrough => {
                return StageOutcome::PassThrough;
            },
            ProbeOutcome::ServeCached { header_value, body: served } => {
                return StageOutcome::ServeCached { header_value, body: served };
            },
            ProbeOutcome::Compress { codec, eligible } => (codec, eligible),
        };
        let data = match body {
            Ok(d) => d,
            Err(error) => {
                return StageOutcome::Failed { error };
            },
        };
        let level = match self.level {
            Some(l) => l,
            None => Level::Default,
        };
        let compressed = match compress_body(codec, &data, &level) {
            Ok(c) => c,
            Err(message) => {
                return StageOutcome::Failed {
                    error: BodyError { kind: BodyErrorKind::Other, message },
                };
            },
        };
        let header_value = codec.encoding().header_value();
        if eligible {
            cache.insert(path.to_owned(), codec, clone_bytes(&compressed), header_value.clone());
        }
        StageOutcome::ServeCompressed { header_value, body: compressed, cached: eligible }
    }
}

/// Compresses all responses with Brotli or Gzip compression at the carried
/// quality level, without caching.
pub struct Compression(pub Level);

impl Compression {
    /// A stage that compresses outgoing responses at the default level.
    pub fn fairing() -> (r: Compression)
        ensures
            r.0 == Level::Default,
    {
        Compression(Level::Default)
    }

    /// The per-response decision alone: the codec to apply, or `None` to
    /// pass the response through. A host that streams the compressed body
    /// instead of materializing it applies the returned codec itself.
    pub fn decide(
        already_encoded: bool,
        content_type: &Option<MediaType>,
        exclusions: &Vec<MediaType>,
        accept_encoding: &Vec<String>,
    ) -> (r: Option<CachedEncoding>)
        ensures
            r == spec_decide(
                already_encoded,
                *content_type,
                exclusions@,
                accept_encoding@.map_values(|v: String| v@),
            ),
    {
        if already_encoded {
            return None;
        }
        if skip_encoding(content_type, exclusions) {
            return None;
        }
        let (accepts_gzip, accepts_br) = accepted_algorithms(accept_encoding);
        if !accepts_gzip && !accepts_br {
            return None;
        }
        Some(chosen_codec(accepts_gzip, accepts_br))
    }

    /// How one run of the uncached stage relates its outcome to its inputs:
    /// as `stage_post`, with no path eligible and no cache to touch.
    pub open spec fn compress_post(
        level: Level,
        already_encoded: bool,
        ct: Option<MediaType>,
        exclusions: Seq<MediaType>,
        values: Seq<Seq<char>>,
        body: Result<Seq<u8>, (BodyErrorKind, Seq<char>)>,
        r: StageOutcome,
    ) -> bool {
        let codec = spec_chosen_codec(accepts(values, "gzip"@), accepts(values, "br"@));
        if !spec_active(already_encoded, ct, exclusions, values) {
            r == StageOutcome::PassThrough
        } else {
            match body {
                Err(e) => r matches StageOutcome::Failed { error } && error.kind == e.0
                    && error.message@ == e.1,
                Ok(data) => {
                    if spec_compress_ok(codec, data, level) {
                        r matches StageOutcome::ServeCompressed { header_value, body: out, cached }
                            && {
                            &&& out@ == compressed_bytes(codec, data, level)
                            &&& header_value@ == codec.spec_name()
                            &&& cached == false
                        }
                    } else {
                        r matches StageOutcome::Failed { error } && error.kind
                            == BodyErrorKind::Other
                    }
                },
            }
        }
    }

    /// Compresses one materialized response body per the request's accepted
    /// encodings, preferring Brotli, at this stage's quality level.
    pub fn compress_response(
        &self,
        already_encoded: bool,
        content_type: &Option<MediaType>,
        exclusions: &Vec<MediaType>,
        accept_encoding: &Vec<String>,
        body: Result<Vec<u8>, BodyError>,
    ) -> (r: StageOutcome)
        ensures
            Self::compress_post(
                self.0,
                already_encoded,
                *content_type,
                exclusions@,
                accept_encoding@.map_values(|v: String| v@),
                body_bytes_view(body),
                r,
            ),
    {
        let codec = match Self::decide(already_encoded, content_type, exclusions, accept_encoding) {
            Some(c) => c,
            None => {
                return StageOutcome::PassThrough;
            },
        };
        let data = match body {
            Ok(d) => d,
            Err(error) => {
                return StageOutcome::Failed { error };
            },
        };
        let compressed = match compress_body(codec, &data, &self.0) {
            Ok(c) => c,
            Err(message) => {
                return StageOutcome::Failed {
                    error: BodyError { kind: BodyErrorKind::Other, message },
                };
            },
        };
        let header_value = codec.encoding().header_value();
        StageOutcome::ServeCompressed { header_value, body: compressed, cached: false }
    }
}

/// Compresses a wrapped response body with Brotli or Gzip compression in
/// accordance with the `Accept-Encoding` header; Brotli is preferred when
/// both are accepted.
pub struct Compress<R>(pub R, pub Level);

impl Compress<Vec<u8>> {
    /// Responder-style entry point: compresses the wrapped body at the
    /// carried quality level.
    pub fn respond(
        self,
        already_encoded: bool,
        content_type: &Option<MediaType>,
        exclusions: &Vec<MediaType>,
        accept_encoding: &Vec<String>,
    ) -> (r: StageOutcome)
        ensures
            Compression::compress_post(
                self.1,
                already_encoded,
                *content_type,
                exclusions@,
                accept_encoding@.map_values(|v: String| v@),
                Ok(self.0@),
                r,
            ),
    {
        let Compress(body, level) = self;
        Compression(level).compress_response(
            already_encoded,
            content_type,
            exclusions,
            accept_encoding,
            Ok(body),
        )
    }
}

/// Tie-break law at the stage: whenever the client accepts Brotli, a freshly
/// compressed response is Brotli-encoded, whether or not Gzip is accepted.
pub proof fn lemma_stage_prefers_brotli(
    policy: CachedCompression,
    path: Seq<char>,
    values: Seq<Seq<char>>,
    already_encoded: bool,
    ct: Option<MediaType>,
    exclusions: Seq<MediaType>,
    body: Result<Seq<u8>, (BodyErrorKind, Seq<char>)>,
    cache0: Map<(Seq<char>, CachedEncoding), (Seq<u8>, Seq<char>)>,
    cache1: Map<(Seq<char>, CachedEncoding), (Seq<u8>, Seq<char>)>,
    r: StageOutcome,
)
    requires
        accepts(values, "br"@),
        stage_post(policy, path, values, already_encoded, ct, exclusions, body, cache0, cache1, r),
    ensures
        r matches StageOutcome::ServeCompressed { header_value, .. } ==> header_value@
            == CachedEncoding::Brotli.spec_name(),
{
    crate::encoding::lemma_brotli_preferred(accepts(values, "gzip"@), true);
}

/// Delivery law: when the stage is active, the path is not served from the
/// cache, the body was read, and the chosen codec succeeds on it, the
/// outcome is the compressed response itself, never a failure, and it is
/// cached exactly when the path is eligible.
pub proof fn lemma_negotiated_response_compressed(
    policy: CachedCompression,
    path: Seq<char>,
    values: Seq<Seq<char>>,
    already_encoded: bool,
    ct: Option<MediaType>,
    exclusions: Seq<MediaType>,
    data: Seq<u8>,
    cache0: Map<(Seq<char>, CachedEncoding), (Seq<u8>, Seq<char>)>,
    cache1: Map<(Seq<char>, CachedEncoding), (Seq<u8>, Seq<char>)>,
    r: StageOutcome,
)
    requires
        spec_active(already_encoded, ct, exclusions, values),
        !(policy.spec_should_cache(path) && cache0.contains_key(
            (path, spec_chosen_codec(accepts(values, "gzip"@), accepts(values, "br"@))),
        )),
        spec_compress_ok(
            spec_chosen_codec(accepts(values, "gzip"@), accepts(values, "br"@)),
            data,
            policy.spec_level(),
        ),
        stage_post(
            policy,
            path,
            values,
            already_encoded,
            ct,
            exclusions,
            Ok(data),
            cache0,
            cache1,
            r,
        ),
    ensures
        ({
            let codec = spec_chosen_codec(accepts(values, "gzip"@), accepts(values, "br"@));
            match r {
                StageOutcome::ServeCompressed { header_value, body: out, cached } => {
                    &&& out@ == compressed_bytes(codec, data, policy.spec_level())
                    &&& header_value@ == codec.spec_name()
                    &&& cached == policy.spec_should_cache(path)
                },
                _ => false,
            }
        }),
{
}

/// First-miss-then-hit law: on an eligible path whose key is absent, an
/// active request whose body was read and whose chosen codec succeeds is
/// answered with the freshly compressed bytes and those bytes are inserted;
/// a second request for the same path with the same accepted encodings is
/// then served from the cache with byte-identical content — whatever its
/// own body does — and the cache is not changed again.
pub proof fn lemma_first_miss_then_hit(
    policy: CachedCompression,
    path: Seq<char>,
    values: Seq<Seq<char>>,
    ct: Option<MediaType>,
    exclusions: Seq<MediaType>,
    data: Seq<u8>,
    body2: Result<Seq<u8>, (BodyErrorKind, Seq<char>)>,
    cache0: Map<(Seq<char>, CachedEncoding), (Seq<u8>, Seq<char>)>,
    cache1: Map<(Seq<char>, CachedEncoding), (Seq<u8>, Seq<char>)>,
    cache2: Map<(Seq<char>, CachedEncoding), (Seq<u8>, Seq<char>)>,
    r1: StageOutcome,
    r2: StageOutcome,
)
    requires
        policy.spec_should_cache(path),
        spec_active(false, ct, exclusions, values),
        !cache0.contains_key(
            (path, spec_chosen_codec(accepts(values, "gzip"@), accepts(values, "br"@))),
        ),
        spec_compress_ok(
            spec_chosen_codec(accepts(values, "gzip"@), accepts(values, "br"@)),
            data,
            policy.spec_level(),
        ),
        stage_post(policy, path, values, false, ct, exclusions, Ok(data), cache0, cache1, r1),
        stage_post(policy, path, values, false, ct, exclusions, body2, cache1, cache2, r2),
    ensures
        cache2 == cache1,
        ({
            let codec = spec_chosen_codec(accepts(values, "gzip"@), accepts(values, "br"@));
            match (r1, r2) {
                (
                    StageOutcome::ServeCompressed { header_value: h1, body: b1, cached: c1 },
                    StageOutcome::ServeCached { header_value: h2, body: b2 },
                ) => {
                    &&& b1@ == compressed_bytes(codec, data, policy.spec_level())
                    &&& h1@ == codec.spec_name()
                    &&& c1
                    &&& cache1 == cache0.insert((path, codec), (b1@, h1@))
                    &&& b2@ == b1@
                    &&& h2@ == h1@
                },
                _ => false,
            }
        }),
{
    let codec = spec_chosen_codec(accepts(values, "gzip"@), accepts(values, "br"@));
    let key = (path, codec);
    if let StageOutcome::ServeCompressed { header_value: h1, body: b1, cached: c1 } = r1 {
        assert(cache1 == cache0.insert(key, (b1@, h1@)));
        assert(cache1.contains_key(key) && cache1[key] == (b1@, h1@));
    }
}

/// Excluded-path delivery law: a path matching an exclusion prefix is still
/// compressed per normal negotiation when the stage is active, the body was
/// read, and the chosen codec succeeds — but the bytes are never inserted
/// and the cache is left exactly as it was.
pub proof fn lemma_excluded_path_compressed_uncached(
    policy: CachedCompression,
    path: Seq<char>,
    values: Seq<Seq<char>>,
    ct: Option<MediaType>,
    exclusions: Seq<MediaType>,
    data: Seq<u8>,
    cache0: Map<(Seq<char>, CachedEncoding), (Seq<u8>, Seq<char>)>,
    cache1: Map<(Seq<char>, CachedEncoding), (Seq<u8>, Seq<char>)>,
    r: StageOutcome,
    i: int,
)
    requires
        0 <= i < policy.excluded_path_prefixes@.len(),
        (policy.excluded_path_prefixes@[i]@).is_prefix_of(path),
        spec_active(false, ct, exclusions, values),
        spec_compress_ok(
            spec_chosen_codec(accepts(values, "gzip"@), accepts(values, "br"@)),
            data,
            policy.spec_level(),
        ),
        stage_post(policy, path, values, false, ct, exclusions, Ok(data), cache0, cache1, r),
    ensures
        cache1 == cache0,
        ({
            let codec = spec_chosen_codec(accepts(values, "gzip"@), accepts(values, "br"@));
            match r {
                StageOutcome::ServeCompressed { header_value, body: out, cached } => {
                    &&& out@ == compressed_bytes(codec, data, policy.spec_level())
                    &&& header_value@ == codec.spec_name()
                    &&& !cached
                },
                _ => false,
            }
        }),
{
    crate::policy::lemma_exclusion_precedence(policy, path, i);
}

/// No-header law: with no `Accept-Encoding` header values at all, the stage
/// passes the response through unmodified and leaves the cache untouched.
pub proof fn lemma_no_header_passes_through(
    policy: CachedCompression,
    path: Seq<char>,
    already_encoded: bool,
    ct: Option<MediaType>,
    exclusions: Seq<MediaType>,
    body: Result<Seq<u8>, (BodyErrorKind, Seq<char>)>,
    cache0: Map<(Seq<char>, CachedEncoding), (Seq<u8>, Seq<char>)>,
    cache1: Map<(Seq<char>, CachedEncoding), (Seq<u8>, Seq<char>)>,
    r: StageOutcome,
)
    requires
        stage_post(
            policy,
            path,
            Seq::<Seq<char>>::empty(),
            already_encoded,
            ct,
            exclusions,
            body,
            cache0,
            cache1,
            r,
        ),
    ensures
        r == StageOutcome::PassThrough,
        cache1 == cache0,
{
    crate::negotiate::lemma_no_header_accepts_nothing("gzip"@);
    crate::negotiate::lemma_no_header_accepts_nothing("br"@);
}

/// Already-encoded law: a response that already carries a `Content-Encoding`
/// header passes through unmodified; the stage is a no-op.
pub proof fn lemma_already_encoded_noop(
    policy: CachedCompression,
    path: Seq<char>,
    values: Seq<Seq<char>>,
    ct: Option<MediaType>,
    exclusions: Seq<MediaType>,
    body: Result<Seq<u8>, (BodyErrorKind, Seq<char>)>,
    cache0: Map<(Seq<char>, CachedEncoding), (Seq<u8>, Seq<char>)>,
    cache1: Map<(Seq<char>, CachedEncoding), (Seq<u8>, Seq<char>)>,
    r: StageOutcome,
)
    requires
        stage_post(policy, path, values, true, ct, exclusions, body, cache0, cache1, r),
    ensures
        r == StageOutcome::PassThrough,
        cache1 == cache0,
{
}

/// Idempotence law: once an eligible request has been compressed and served,
/// a second request for the same path with the same accepted encodings is
/// served from the cache, with content byte-identical to what the first run
/// computed and inserted, and the cache is not changed again.
pub proof fn lemma_repeat_request_identical(
    policy: CachedCompression,
    path: Seq<char>,
    values: Seq<Seq<char>>,
    ct: Option<MediaType>,
    exclusions: Seq<MediaType>,
    data: Seq<u8>,
    cache0: Map<(Seq<char>, CachedEncoding), (Seq<u8>, Seq<char>)>,
    cache1: Map<(Seq<char>, CachedEncoding), (Seq<u8>, Seq<char>)>,
    cache2: Map<(Seq<char>, CachedEncoding), (Seq<u8>, Seq<char>)>,
    r1: StageOutcome,
    r2: StageOutcome,
)
    requires
        policy.spec_should_cache(path),
        stage_post(policy, path, values, false, ct, exclusions, Ok(data), cache0, cache1, r1),
        r1 matches StageOutcome::ServeCompressed { .. },
        stage_post(policy, path, values, false, ct, exclusions, Ok(data), cache1, cache2, r2),
    ensures
        cache2 == cache1,
        match (r1, r2) {
            (
                StageOutcome::ServeCompressed { header_value: h1, body: b1, cached: c1 },
                StageOutcome::ServeCached { header_value: h2, body: b2 },
            ) => h2@ == h1@ && b2@ == b1@ && c1,
            _ => false,
        },
{
    let codec = spec_chosen_codec(accepts(values, "gzip"@), accepts(values, "br"@));
    let key = (path, codec);
    if let StageOutcome::ServeCompressed { header_value: h1, body: b1, cached: c1 } = r1 {
        assert(cache1 == cache0.insert(key, (b1@, h1@)));
        assert(cache1.contains_key(key) && cache1[key] == (b1@, h1@));
    }
}

/// Exclusion-precedence law at the stage: a path matching an exclusion
/// prefix is never served from the cache and never inserted into it, even
/// though compression itself may still apply.
pub proof fn lemma_excluded_path_never_cached(
    policy: CachedCompression,
    path: Seq<char>,
    values: Seq<Seq<char>>,
    already_encoded: bool,
    ct: Option<MediaType>,
    exclusions: Seq<MediaType>,
    body: Result<Seq<u8>, (BodyErrorKind, Seq<char>)>,
    cache0: Map<(Seq<char>, CachedEncoding), (Seq<u8>, Seq<char>)>,
    cache1: Map<(Seq<char>, CachedEncoding), (Seq<u8>, Seq<char>)>,
    r: StageOutcome,
    i: int,
)
    requires
        0 <= i < policy.excluded_path_prefixes@.len(),
        (policy.excluded_path_prefixes@[i]@).is_prefix_of(path),
        stage_post(policy, path, values, already_encoded, ct, exclusions, body, cache0, cache1, r),
    ensures
        cache1 == cache0,
        !(r matches StageOutcome::ServeCached { .. }),
        r matches StageOutcome::ServeCompressed { cached, .. } ==> !cached,
{
    crate::policy::lemma_exclusion_precedence(policy, path, i);
}

/// Content-type exclusion law at the stage: a response whose declared media
/// type matches an exclusion pattern is never compressed, whatever the
/// client accepts; the stage passes it through and touches nothing.
pub proof fn lemma_exempt_media_type_passes_through(
    policy: CachedCompression,
    path: Seq<char>,
    values: Seq<Seq<char>>,
    ct: MediaType,
    exclusions: Seq<MediaType>,
    body: Result<Seq<u8>, (BodyErrorKind, Seq<char>)>,
    cache0: Map<(Seq<char>, CachedEncoding), (Seq<u8>, Seq<char>)>,
    cache1: Map<(Seq<char>, CachedEncoding), (Seq<u8>, Seq<char>)>,
    r: StageOutcome,
    i: int,
)
    requires
        0 <= i < exclusions.len(),
        exclusions[i].spec_matches(ct.top@, ct.sub@),
        stage_post(policy, path, values, false, Some(ct), exclusions, body, cache0, cache1, r),
    ensures
        r == StageOutcome::PassThrough,
        cache1 == cache0,
{
    crate::media::lemma_exclusion_match_skips(ct, exclusions, i);
}

} // verus!
