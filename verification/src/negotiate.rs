//! Encoding negotiation: reads `Accept-Encoding` header values, each a
//! comma-separated list of tokens with optional surrounding whitespace, and
//! reports whether `gzip` and `br` are accepted. Presence of a token is
//! sufficient; quality values are not interpreted.

use vstd::prelude::*;
use vstd::string::StrSliceExecFns;

use crate::strings::str_eq;

verus! {

/// Whitespace that may surround a token in a comma-separated header value:
/// the Unicode `White_Space` set, as `str::trim` removes it.
pub open spec fn is_space(c: char) -> bool {
    ||| c == '\u{09}'
    ||| c == '\u{0A}'
    ||| c == '\u{0B}'
    ||| c == '\u{0C}'
    ||| c == '\u{0D}'
    ||| c == ' '
    ||| c == '\u{85}'
    ||| c == '\u{A0}'
    ||| c == '\u{1680}'
    ||| c == '\u{2000}'
    ||| c == '\u{2001}'
    ||| c == '\u{2002}'
    ||| c == '\u{2003}'
    ||| c == '\u{2004}'
    ||| c == '\u{2005}'
    ||| c == '\u{2006}'
    ||| c == '\u{2007}'
    ||| c == '\u{2008}'
    ||| c == '\u{2009}'
    ||| c == '\u{200A}'
    ||| c == '\u{2028}'
    ||| c == '\u{2029}'
    ||| c == '\u{202F}'
    ||| c == '\u{205F}'
    ||| c == '\u{3000}'
}

/// `s` with leading whitespace removed.
pub open spec fn trim_front(s: Seq<char>) -> Seq<char>
    decreases s.len(),
{
    if s.len() > 0 && is_space(s[0]) {
        trim_front(s.drop_first())
    } else {
        s
    }
}

/// `s` with trailing whitespace removed.
pub open spec fn trim_back(s: Seq<char>) -> Seq<char>
    decreases s.len(),
{
    if s.len() > 0 && is_space(s.last()) {
        trim_back(s.drop_last())
    } else {
        s
    }
}

/// `s` with surrounding whitespace removed.
pub open spec fn trimmed(s: Seq<char>) -> Seq<char> {
    trim_back(trim_front(s))
}

/// Whether `[a, b)` spans exactly one item of the comma-separated list `s`:
/// it abuts a comma or an end of `s` on both sides and holds no comma.
pub open spec fn is_list_item(s: Seq<char>, a: int, b: int) -> bool {
    &&& 0 <= a <= b <= s.len()
    &&& (a == 0 || s[a - 1] == ',')
    &&& (b == s.len() || s[b] == ',')
    &&& forall|k: int| a <= k < b ==> s[k] != ','
}

/// Whether the comma-separated list `s` holds `tok` as an item, once the
/// item's surrounding whitespace is removed.
pub open spec fn value_accepts(s: Seq<char>, tok: Seq<char>) -> bool {
    exists|a: int, b: int| #[trigger] is_list_item(s, a, b) && trimmed(s.subrange(a, b)) == tok
}

/// Whether any of the header values in `values` holds `tok` as an item.
pub open spec fn accepts(values: Seq<Seq<char>>, tok: Seq<char>) -> bool {
    exists|i: int| 0 <= i < values.len() && #[trigger] value_accepts(values[i], tok)
}

/// Items found in the part of `s` that ends before `end`.
spec fn found_before(s: Seq<char>, tok: Seq<char>, end: int) -> bool {
    exists|a: int, b: int|
        #[trigger] is_list_item(s, a, b) && b < end && trimmed(s.subrange(a, b)) == tok
}

/// Whether the list item spanning `[a, b)` of `s` reads `tok` after
/// trimming.
fn segment_matches(s: &str, a: usize, b: usize, tok: &str) -> (r: bool)
    requires
        a <= b <= s@.len(),
    ensures
        r == (trimmed(s@.subrange(a as int, b as int)) == tok@),
{
    let ghost seg = s@.subrange(a as int, b as int);
    let mut lo = a;
    let mut hi = b;
    while lo < hi && is_space_char(s.get_char(lo))
        invariant
            a <= lo <= hi <= s@.len(),
            hi == b,
            trim_front(seg) == trim_front(s@.subrange(lo as int, b as int)),
            seg == s@.subrange(a as int, b as int),
        decreases hi - lo,
    {
        proof {
            assert(s@.subrange(lo as int, b as int).drop_first() =~= s@.subrange(
                lo as int + 1,
                b as int,
            ));
        }
        lo += 1;
    }
    proof {
        assert(trim_front(seg) == s@.subrange(lo as int, b as int));
    }
    while hi > lo && is_space_char(s.get_char(hi - 1))
        invariant
            a <= lo <= hi <= b <= s@.len(),
            trim_front(seg) == s@.subrange(lo as int, b as int),
            trim_back(s@.subrange(lo as int, b as int)) == trim_back(
                s@.subrange(lo as int, hi as int),
            ),
            seg == s@.subrange(a as int, b as int),
        decreases hi - lo,
    {
        proof {
            assert(s@.subrange(lo as int, hi as int).drop_last() =~= s@.subrange(
                lo as int,
                hi as int - 1,
            ));
        }
        hi -= 1;
    }
    proof {
        assert(trimmed(seg) == s@.subrange(lo as int, hi as int));
    }
    let piece = s.substring_char(lo, hi);
    str_eq(piece, tok)
}

/// Whitespace test on one character.
fn is_space_char(c: char) -> (r: bool)
    ensures
        r == is_space(c),
{
    match c {
        '\u{09}' | '\u{0A}' | '\u{0B}' | '\u{0C}' | '\u{0D}' | ' ' | '\u{85}' | '\u{A0}'
        | '\u{1680}' | '\u{2000}' | '\u{2001}' | '\u{2002}' | '\u{2003}' | '\u{2004}'
        | '\u{2005}' | '\u{2006}' | '\u{2007}' | '\u{2008}' | '\u{2009}' | '\u{200A}'
        | '\u{2028}' | '\u{2029}' | '\u{202F}' | '\u{205F}' | '\u{3000}' => true,
        _ => false,
    }
}

/// Whether one `Accept-Encoding` header value holds `tok` as an item of its
/// comma-separated list.
pub fn value_accepts_token(s: &str, tok: &str) -> (r: bool)
    ensures
        r == value_accepts(s@, tok@),
{
    let n = s.unicode_len();
    let mut seg_start: usize = 0;
    let mut found = false;
    let mut i: usize = 0;
    loop
        invariant
            n == s@.len(),
            0 <= seg_start <= i <= n,
            seg_start == 0 || (seg_start - 1 < n && s@[seg_start as int - 1] == ','),
            forall|k: int| seg_start <= k < i ==> s@[k] != ',',
            found == found_before(s@, tok@, seg_start as int),
        ensures
            found == value_accepts(s@, tok@),
        decreases n - i,
    {
        let boundary = i == n || s.get_char(i) == ',';
        if boundary {
            let m = segment_matches(s, seg_start, i, tok);
            proof {
                assert(is_list_item(s@, seg_start as int, i as int));
                assert forall|a: int, b: int|
                    is_list_item(s@, a, b) && seg_start <= b <= i implies a == seg_start && b
                    == i by {
                    if b < i {
                        assert(s@[b] == ',');
                        assert(seg_start <= b < i);
                    }
                    if a > seg_start as int {
                        assert(s@[a - 1] == ',');
                        assert(seg_start <= a - 1 < b);
                    }
                    if a < seg_start as int {
                        assert(s@[seg_start as int - 1] == ',');
                        assert(a <= seg_start as int - 1 < b);
                    }
                }
                assert((found || m) == found_before(s@, tok@, i as int + 1)) by {
                    if m {
                        assert(is_list_item(s@, seg_start as int, i as int) && trimmed(
                            s@.subrange(seg_start as int, i as int),
                        ) == tok@);
                    }
                    if found_before(s@, tok@, i as int + 1) && !found_before(
                        s@,
                        tok@,
                        seg_start as int,
                    ) {
                        let (a, b) = choose|a: int, b: int|
                            #[trigger] is_list_item(s@, a, b) && b < i as int + 1 && trimmed(
                                s@.subrange(a, b),
                            ) == tok@;
                        assert(a == seg_start as int && b == i as int);
                    }
                }
            }
            found = found || m;
            if i == n {
                proof {
                    assert forall|a: int, b: int|
                        #[trigger] is_list_item(s@, a, b) implies b < n as int + 1 by {}
                    assert(found_before(s@, tok@, n as int + 1) == value_accepts(s@, tok@));
                }
                return found;
            }
            seg_start = i + 1;
        }
        i += 1;
    }
}

/// Reads the given `Accept-Encoding` header values and reports which of
/// Gzip and Brotli the client accepts, in that order. No header values means
/// neither is accepted.
pub fn accepted_algorithms(values: &Vec<String>) -> (r: (bool, bool))
    ensures
        r.0 == accepts(values@.map_values(|v: String| v@), "gzip"@),
        r.1 == accepts(values@.map_values(|v: String| v@), "br"@),
{
    let ghost vals = values@.map_values(|v: String| v@);
    let mut accepts_gzip = false;
    let mut accepts_br = false;
    let mut j: usize = 0;
    while j < values.len()
        invariant
            vals == values@.map_values(|v: String| v@),
            vals.len() == values@.len(),
            0 <= j <= values@.len(),
            accepts_gzip == exists|i: int| 0 <= i < j && #[trigger] value_accepts(vals[i], "gzip"@),
            accepts_br == exists|i: int| 0 <= i < j && #[trigger] value_accepts(vals[i], "br"@),
        decreases values@.len() - j,
    {
        let v = values[j].as_str();
        proof {
            assert(vals[j as int] == v@);
        }
        let g = value_accepts_token(v, "gzip");
        let b = value_accepts_token(v, "br");
        proof {
            if g {
                assert(value_accepts(vals[j as int], "gzip"@));
            }
            if b {
                assert(value_accepts(vals[j as int], "br"@));
            }
        }
        accepts_gzip = accepts_gzip || g;
        accepts_br = accepts_br || b;
        j += 1;
    }
    (accepts_gzip, accepts_br)
}

/// Negotiation law: a header value that holds `tok` as one comma-separated
/// item, with any surrounding whitespace, makes negotiation accept `tok`,
/// whatever the other items are and in whatever order they come.
pub proof fn lemma_token_accepted(values: Seq<Seq<char>>, i: int, a: int, b: int, tok: Seq<char>)
    requires
        0 <= i < values.len(),
        is_list_item(values[i], a, b),
        trimmed(values[i].subrange(a, b)) == tok,
    ensures
        accepts(values, tok),
{
    assert(value_accepts(values[i], tok));
}

/// Absence law: with no `Accept-Encoding` header at all, no token is
/// accepted, so no compression can be chosen downstream.
pub proof fn lemma_no_header_accepts_nothing(tok: Seq<char>)
    ensures
        !accepts(Seq::<Seq<char>>::empty(), tok),
{
}

} // verus!
