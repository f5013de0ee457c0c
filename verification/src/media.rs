//! Media types and the content-type exclusion filter: a response whose
//! declared media type matches an exclusion pattern (exact type, or a
//! `type/*` wildcard) is never compressed.

use vstd::prelude::*;
use vstd::string::StrSliceExecFns;

use crate::strings::{lower_of, str_eq, str_eq_ignore_ascii_case};

verus! {

/// A media type split into its top-level type and subtype, e.g.
/// `application` and `json`. As an exclusion pattern, the subtype `*` is a
/// wildcard that matches every subtype under the same top-level type.
#[derive(Debug, Clone)]
pub struct MediaType {
    pub top: String,
    pub sub: String,
}

/// Position of the first `/` in `s`, or `-1` when `s` has none.
pub open spec fn first_slash(s: Seq<char>) -> int
    decreases s.len(),
{
    if s.len() == 0 {
        -1
    } else if s[0] == '/' {
        0
    } else if first_slash(s.drop_first()) < 0 {
        -1
    } else {
        first_slash(s.drop_first()) + 1
    }
}

proof fn lemma_first_slash_at(s: Seq<char>, i: int)
    requires
        0 <= i < s.len(),
        s[i] == '/',
        forall|k: int| 0 <= k < i ==> s[k] != '/',
    ensures
        first_slash(s) == i,
    decreases i,
{
    if i > 0 {
        lemma_first_slash_at(s.drop_first(), i - 1);
    }
}

proof fn lemma_first_slash_none(s: Seq<char>)
    requires
        forall|k: int| 0 <= k < s.len() ==> s[k] != '/',
    ensures
        first_slash(s) == -1,
    decreases s.len(),
{
    if s.len() > 0 {
        lemma_first_slash_none(s.drop_first());
    }
}

/// Position of the first `;` in `s`, or `-1` when `s` has none.
pub open spec fn first_semi(s: Seq<char>) -> int
    decreases s.len(),
{
    if s.len() == 0 {
        -1
    } else if s[0] == ';' {
        0
    } else if first_semi(s.drop_first()) < 0 {
        -1
    } else {
        first_semi(s.drop_first()) + 1
    }
}

proof fn lemma_first_semi_at(s: Seq<char>, i: int)
    requires
        0 <= i < s.len(),
        s[i] == ';',
        forall|k: int| 0 <= k < i ==> s[k] != ';',
    ensures
        first_semi(s) == i,
    decreases i,
{
    if i > 0 {
        lemma_first_semi_at(s.drop_first(), i - 1);
    }
}

proof fn lemma_first_semi_none(s: Seq<char>)
    requires
        forall|k: int| 0 <= k < s.len() ==> s[k] != ';',
    ensures
        first_semi(s) == -1,
    decreases s.len(),
{
    if s.len() > 0 {
        lemma_first_semi_none(s.drop_first());
    }
}

impl MediaType {
    /// Position in `s` where the subtype ends: the first `;` after the first
    /// `/` (cutting off media-type parameters), or the end of `s`.
    pub open spec fn sub_end(s: Seq<char>) -> int {
        let rest = s.subrange(first_slash(s) + 1, s.len() as int);
        if first_semi(rest) < 0 {
            s.len() as int
        } else {
            first_slash(s) + 1 + first_semi(rest)
        }
    }

    /// Whether `s` splits at its first `/` into a non-empty top-level type
    /// and a non-empty subtype (parameters after `;` not counted).
    pub open spec fn spec_parsable(s: Seq<char>) -> bool {
        1 <= first_slash(s) && first_slash(s) + 1 < Self::sub_end(s)
    }

    /// Reads a media type written `top/sub`, splitting at the first `/` and
    /// dropping any parameters after the first `;` (`text/html; charset=u`
    /// reads as `text` and `html`). Returns `None` when there is no `/`, or
    /// either part is empty: an invalid pattern is a configuration error,
    /// reported before any traffic is served.
    pub fn parse(s: &str) -> (r: Option<MediaType>)
        ensures
            r is Some <==> Self::spec_parsable(s@),
            r matches Some(mt) ==> {
                &&& mt.top@ == s@.subrange(0, first_slash(s@))
                &&& mt.sub@ == s@.subrange(first_slash(s@) + 1, Self::sub_end(s@))
            },
    {
        let n = s.unicode_len();
        let mut i: usize = 0;
        while i < n && s.get_char(i) != '/'
            invariant
                n == s@.len(),
                0 <= i <= n,
                forall|k: int| 0 <= k < i ==> s@[k] != '/',
            decreases n - i,
        {
            i += 1;
        }
        if i >= n {
            proof {
                lemma_first_slash_none(s@);
            }
            return None;
        }
        proof {
            lemma_first_slash_at(s@, i as int);
        }
        let ghost rest = s@.subrange(i as int + 1, n as int);
        let mut j: usize = i + 1;
        while j < n && s.get_char(j) != ';'
            invariant
                n == s@.len(),
                i + 1 <= j <= n,
                forall|k: int| i + 1 <= k < j ==> s@[k] != ';',
            decreases n - j,
        {
            j += 1;
        }
        proof {
            assert(forall|k: int| 0 <= k < rest.len() ==> rest[k] == s@[i as int + 1 + k]);
            if j < n {
                lemma_first_semi_at(rest, j as int - (i as int + 1));
            } else {
                lemma_first_semi_none(rest);
            }
            assert(Self::sub_end(s@) == j as int);
        }
        if i < 1 || i + 1 >= j {
            return None;
        }
        let top = s.substring_char(0, i);
        let sub = s.substring_char(i + 1, j);
        Some(MediaType { top: top.to_owned(), sub: sub.to_owned() })
    }

    /// Whether this exclusion pattern matches the media type `(top, sub)`:
    /// a `*` subtype matches on the top-level type alone, anything else
    /// requires the full media type to be equal. The comparison ignores
    /// ASCII case, as media types are case-insensitive.
    pub open spec fn spec_matches(self, top: Seq<char>, sub: Seq<char>) -> bool {
        if self.sub@ == "*"@ {
            lower_of(self.top@) == lower_of(top)
        } else {
            lower_of(self.top@) == lower_of(top) && lower_of(self.sub@) == lower_of(sub)
        }
    }

    /// Tests this pattern against a concrete media type.
    pub fn matches(&self, other: &MediaType) -> (r: bool)
        ensures
            r == self.spec_matches(other.top@, other.sub@),
    {
        if str_eq(self.sub.as_str(), "*") {
            str_eq_ignore_ascii_case(self.top.as_str(), other.top.as_str())
        } else {
            str_eq_ignore_ascii_case(self.top.as_str(), other.top.as_str())
                && str_eq_ignore_ascii_case(self.sub.as_str(), other.sub.as_str())
        }
    }
}

/// Whether a response declaring media type `ct` is exempt from compression
/// under `exclusions`. An absent content type is never exempt.
pub open spec fn spec_skip_encoding(ct: Option<MediaType>, exclusions: Seq<MediaType>) -> bool {
    match ct {
        None => false,
        Some(ct) => exists|i: int|
            0 <= i < exclusions.len() && (#[trigger] exclusions[i]).spec_matches(ct.top@, ct.sub@),
    }
}

/// Decides whether the declared content type is exempt from compression.
pub fn skip_encoding(content_type: &Option<MediaType>, exclusions: &Vec<MediaType>) -> (r: bool)
    ensures
        r == spec_skip_encoding(*content_type, exclusions@),
{
    match content_type {
        None => false,
        Some(ct) => {
            let mut j: usize = 0;
            while j < exclusions.len()
                invariant
                    *content_type == Some(*ct),
                    0 <= j <= exclusions@.len(),
                    forall|k: int|
                        0 <= k < j ==> !(#[trigger] exclusions@[k]).spec_matches(ct.top@, ct.sub@),
                decreases exclusions@.len() - j,
            {
                if exclusions[j].matches(ct) {
                    proof {
                        assert((exclusions@[j as int]).spec_matches(ct.top@, ct.sub@));
                    }
                    return true;
                }
                j += 1;
            }
            false
        },
    }
}

/// Exclusion law: a media type matching any pattern of the exclusion list is
/// exempt from compression, whatever the other patterns say.
pub proof fn lemma_exclusion_match_skips(ct: MediaType, exclusions: Seq<MediaType>, i: int)
    requires
        0 <= i < exclusions.len(),
        exclusions[i].spec_matches(ct.top@, ct.sub@),
    ensures
        spec_skip_encoding(Some(ct), exclusions),
{
}

/// The default exclusion list: already-compressed archives, images, video,
/// wasm, and opaque binary streams.
pub fn default_exclusions() -> (r: Vec<MediaType>)
    ensures
        r@.len() == 6,
        r@[0].top@ == "application"@ && r@[0].sub@ == "gzip"@,
        r@[1].top@ == "application"@ && r@[1].sub@ == "zip"@,
        r@[2].top@ == "image"@ && r@[2].sub@ == "*"@,
        r@[3].top@ == "video"@ && r@[3].sub@ == "*"@,
        r@[4].top@ == "application"@ && r@[4].sub@ == "wasm"@,
        r@[5].top@ == "application"@ && r@[5].sub@ == "octet-stream"@,
{
    let mut r: Vec<MediaType> = Vec::new();
    r.push(MediaType { top: "application".to_owned(), sub: "gzip".to_owned() });
    r.push(MediaType { top: "application".to_owned(), sub: "zip".to_owned() });
    r.push(MediaType { top: "image".to_owned(), sub: "*".to_owned() });
    r.push(MediaType { top: "video".to_owned(), sub: "*".to_owned() });
    r.push(MediaType { top: "application".to_owned(), sub: "wasm".to_owned() });
    r.push(MediaType { top: "application".to_owned(), sub: "octet-stream".to_owned() });
    r
}

/// Under the default exclusions, every `image/...` media type is exempt.
pub proof fn lemma_default_excludes_images(ct: MediaType, exclusions: Seq<MediaType>)
    requires
        exclusions.len() == 6,
        exclusions[2].top@ == "image"@,
        exclusions[2].sub@ == "*"@,
        ct.top@ == "image"@,
    ensures
        spec_skip_encoding(Some(ct), exclusions),
{
    assert(exclusions[2].spec_matches(ct.top@, ct.sub@));
}

} // verus!
