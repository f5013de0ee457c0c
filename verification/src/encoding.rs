//! The `Encoding` enumeration, its header-value rendering and parsing, and
//! the codec chosen by content negotiation.

use vstd::prelude::*;

verus! {

/// A transfer or content coding as it appears in HTTP headers. Only `Gzip`
/// and `Brotli` are ever chosen by negotiation; the full enumeration exists
/// to render a correct `Content-Encoding` value and to recognize encodings
/// applied upstream.
#[derive(Debug, Clone, PartialEq, Eq)]
pub enum Encoding {
    /// The `chunked` encoding.
    Chunked,
    /// The `br` encoding.
    Brotli,
    /// The `gzip` encoding.
    Gzip,
    /// The `deflate` encoding.
    Deflate,
    /// The `compress` encoding.
    Compress,
    /// The `identity` encoding.
    Identity,
    /// The `trailers` encoding.
    Trailers,
    /// Some other encoding that is less common, can be any String.
    EncodingExt(String),
}

impl Encoding {
    /// The header value that names this encoding.
    pub open spec fn spec_name(self) -> Seq<char> {
        match self {
            Encoding::Chunked => "chunked"@,
            Encoding::Brotli => "br"@,
            Encoding::Gzip => "gzip"@,
            Encoding::Deflate => "deflate"@,
            Encoding::Compress => "compress"@,
            Encoding::Identity => "identity"@,
            Encoding::Trailers => "trailers"@,
            Encoding::EncodingExt(s) => s@,
        }
    }

    /// Renders the value to place in a `Content-Encoding` header.
    pub fn header_value(&self) -> (r: String)
        ensures
            r@ == self.spec_name(),
    {
        match self {
            Encoding::Chunked => "chunked".to_owned(),
            Encoding::Brotli => "br".to_owned(),
            Encoding::Gzip => "gzip".to_owned(),
            Encoding::Deflate => "deflate".to_owned(),
            Encoding::Compress => "compress".to_owned(),
            Encoding::Identity => "identity".to_owned(),
            Encoding::Trailers => "trailers".to_owned(),
            Encoding::EncodingExt(s) => s.clone(),
        }
    }

    /// Whether `r` is the encoding that the header value `s` names: the
    /// variant whose name equals `s`, or `EncodingExt(s)` when no name does.
    pub open spec fn is_parse_of(r: Encoding, s: Seq<char>) -> bool {
        if s == "chunked"@ {
            r == Encoding::Chunked
        } else if s == "br"@ {
            r == Encoding::Brotli
        } else if s == "deflate"@ {
            r == Encoding::Deflate
        } else if s == "gzip"@ {
            r == Encoding::Gzip
        } else if s == "compress"@ {
            r == Encoding::Compress
        } else if s == "identity"@ {
            r == Encoding::Identity
        } else if s == "trailers"@ {
            r == Encoding::Trailers
        } else {
            match r {
                Encoding::EncodingExt(t) => t@ == s,
                _ => false,
            }
        }
    }

    /// Reads an encoding from a header value.
    pub fn parse(s: &str) -> (r: Encoding)
        ensures
            Encoding::is_parse_of(r, s@),
    {
        if crate::strings::str_eq(s, "chunked") {
            Encoding::Chunked
        } else if crate::strings::str_eq(s, "br") {
            Encoding::Brotli
        } else if crate::strings::str_eq(s, "deflate") {
            Encoding::Deflate
        } else if crate::strings::str_eq(s, "gzip") {
            Encoding::Gzip
        } else if crate::strings::str_eq(s, "compress") {
            Encoding::Compress
        } else if crate::strings::str_eq(s, "identity") {
            Encoding::Identity
        } else if crate::strings::str_eq(s, "trailers") {
            Encoding::Trailers
        } else {
            Encoding::EncodingExt(s.to_owned())
        }
    }
}

/// A codec that negotiation can choose and the cache can key on.
#[derive(Debug, Copy, Clone, PartialEq, Eq, Structural)]
pub enum CachedEncoding {
    Gzip,
    Brotli,
}

impl CachedEncoding {
    /// The `Content-Encoding` value this codec produces.
    pub open spec fn spec_name(self) -> Seq<char> {
        match self {
            CachedEncoding::Gzip => "gzip"@,
            CachedEncoding::Brotli => "br"@,
        }
    }

    /// The `Encoding` variant this codec corresponds to.
    pub fn encoding(&self) -> (r: Encoding)
        ensures
            r == (match *self {
                CachedEncoding::Gzip => Encoding::Gzip,
                CachedEncoding::Brotli => Encoding::Brotli,
            }),
            r.spec_name() == self.spec_name(),
    {
        match self {
            CachedEncoding::Gzip => Encoding::Gzip,
            CachedEncoding::Brotli => Encoding::Brotli,
        }
    }
}

/// The codec picked for a client with the given acceptances: Brotli whenever
/// it is accepted, Gzip otherwise.
pub open spec fn spec_chosen_codec(accepts_gzip: bool, accepts_br: bool) -> CachedEncoding {
    if accepts_br {
        CachedEncoding::Brotli
    } else {
        CachedEncoding::Gzip
    }
}

/// Picks the codec for a client that accepts at least one of the two.
pub fn chosen_codec(accepts_gzip: bool, accepts_br: bool) -> (r: CachedEncoding)
    requires
        accepts_gzip || accepts_br,
    ensures
        r == spec_chosen_codec(accepts_gzip, accepts_br),
{
    if accepts_br {
        CachedEncoding::Brotli
    } else {
        CachedEncoding::Gzip
    }
}

/// Tie-break law: whenever Brotli is accepted, the chosen codec is Brotli,
/// whether or not Gzip is also accepted.
pub proof fn lemma_brotli_preferred(accepts_gzip: bool, accepts_br: bool)
    requires
        accepts_br,
    ensures
        spec_chosen_codec(accepts_gzip, accepts_br) == CachedEncoding::Brotli,
{
}

} // verus!
