//! The response cache: an in-memory mapping from (request path, codec) to a
//! previously compressed, immutable response body. Entries are inserted with
//! overwrite-or-create semantics and are never evicted; the cache is viewed
//! as a `Map` from keys to (body bytes, header value).

use vstd::prelude::*;
use vstd::pervasive::VecAdditionalExecFns;

use crate::encoding::CachedEncoding;
use crate::strings::str_eq;

verus! {

/// One cached compressed response: the complete compressed body and the
/// exact `Content-Encoding` value used to produce it. An entry is never
/// mutated after insertion.
pub struct CacheEntry {
    pub path: String,
    pub encoding: CachedEncoding,
    pub body: Vec<u8>,
    pub header_value: String,
}

impl CacheEntry {
    /// The cache key this entry is stored under.
    pub open spec fn key(self) -> (Seq<char>, CachedEncoding) {
        (self.path@, self.encoding)
    }

    /// The cached content: body bytes and header value.
    pub open spec fn val(self) -> (Seq<u8>, Seq<char>) {
        (self.body@, self.header_value@)
    }
}

/// The mapping an entry list denotes; a later entry overrides an earlier one
/// with the same key.
spec fn entries_map(s: Seq<CacheEntry>) -> Map<(Seq<char>, CachedEncoding), (Seq<u8>, Seq<char>)>
    decreases s.len(),
{
    if s.len() == 0 {
        Map::empty()
    } else {
        entries_map(s.drop_last()).insert(s.last().key(), s.last().val())
    }
}

/// A key held by no entry of `s` is absent from the denoted map.
proof fn lemma_entries_map_absent(s: Seq<CacheEntry>, k: (Seq<char>, CachedEncoding))
    requires
        forall|i: int| 0 <= i < s.len() ==> (#[trigger] s[i]).key() != k,
    ensures
        !entries_map(s).contains_key(k),
    decreases s.len(),
{
    if s.len() > 0 {
        lemma_entries_map_absent(s.drop_last(), k);
    }
}

/// An entry whose key no later entry repeats gives the denoted map its value
/// at that key.
proof fn lemma_entries_map_at(s: Seq<CacheEntry>, i: int)
    requires
        0 <= i < s.len(),
        forall|j: int| i < j < s.len() ==> (#[trigger] s[j]).key() != s[i].key(),
    ensures
        entries_map(s).contains_key(s[i].key()),
        entries_map(s)[s[i].key()] == s[i].val(),
    decreases s.len(),
{
    if i == s.len() - 1 {
    } else {
        lemma_entries_map_at(s.drop_last(), i);
    }
}

/// Replacing the one entry that holds a key denotes an insert at that key.
proof fn lemma_entries_map_update(s: Seq<CacheEntry>, i: int, e: CacheEntry)
    requires
        0 <= i < s.len(),
        e.key() == s[i].key(),
        forall|j: int| 0 <= j < s.len() && j != i ==> (#[trigger] s[j]).key() != s[i].key(),
    ensures
        entries_map(s.update(i, e)) == entries_map(s).insert(e.key(), e.val()),
    decreases s.len(),
{
    if i == s.len() - 1 {
        assert(s.update(i, e).drop_last() =~= s.drop_last());
        assert(s.update(i, e).last() == e);
        assert(entries_map(s.update(i, e)) =~= entries_map(s).insert(e.key(), e.val()));
    } else {
        let t = s.drop_last();
        assert(s.update(i, e).drop_last() =~= t.update(i, e));
        assert(s.update(i, e).last() == s.last());
        lemma_entries_map_update(t, i, e);
        assert(s.last().key() != e.key());
        assert(entries_map(t).insert(e.key(), e.val()).insert(s.last().key(), s.last().val())
            =~= entries_map(t).insert(s.last().key(), s.last().val()).insert(e.key(), e.val()));
    }
}

/// An in-memory cache of compressed response bodies, keyed by (path, codec).
/// Lookups after the first successful write for a key observe byte-identical
/// content until the key is overwritten; nothing is ever evicted.
pub struct ResponseCache {
    entries: Vec<CacheEntry>,
}

impl View for ResponseCache {
    type V = Map<(Seq<char>, CachedEncoding), (Seq<u8>, Seq<char>)>;

    closed spec fn view(&self) -> Self::V {
        entries_map(self.entries@)
    }
}

impl ResponseCache {
    /// Well-formedness: each key is held by at most one entry. Constructors
    /// establish it and every method preserves it.
    pub closed spec fn wf(self) -> bool {
        forall|i: int, j: int|
            #![trigger self.entries@[i], self.entries@[j]]
            0 <= i < j < self.entries@.len() ==> self.entries@[i].key() != self.entries@[j].key()
    }

    /// Creates an empty cache.
    pub fn new() -> (r: ResponseCache)
        ensures
            r.wf(),
            r@ == Map::<(Seq<char>, CachedEncoding), (Seq<u8>, Seq<char>)>::empty(),
    {
        ResponseCache { entries: Vec::new() }
    }

    /// Read-only probe: the entry stored under (path, encoding), if any.
    pub fn lookup(&self, path: &str, encoding: CachedEncoding) -> (r: Option<&CacheEntry>)
        requires
            self.wf(),
        ensures
            match r {
                Some(e) => {
                    &&& self@.contains_key((path@, encoding))
                    &&& self@[(path@, encoding)] == e.val()
                    &&& e.path@ == path@
                    &&& e.encoding == encoding
                },
                None => !self@.contains_key((path@, encoding)),
            },
    {
        let ghost k = (path@, encoding);
        let mut i: usize = 0;
        while i < self.entries.len()
            invariant
                0 <= i <= self.entries@.len(),
                forall|j: int| 0 <= j < i ==> (#[trigger] self.entries@[j]).key() != k,
                k == (path@, encoding),
                self.wf(),
            decreases self.entries@.len() - i,
        {
            let e = &self.entries[i];
            if e.encoding == encoding && str_eq(e.path.as_str(), path) {
                proof {
                    assert(self.entries@[i as int].key() == k);
                    lemma_entries_map_at(self.entries@, i as int);
                }
                return Some(e);
            }
            i += 1;
        }
        proof {
            lemma_entries_map_absent(self.entries@, k);
        }
        None
    }

    /// Unconditional overwrite-or-create insert of a compressed body and the
    /// header value that describes it, under (path, encoding).
    pub fn insert(
        &mut self,
        path: String,
        encoding: CachedEncoding,
        body: Vec<u8>,
        header_value: String,
    )
        requires
            old(self).wf(),
        ensures
            final(self).wf(),
            final(self)@ == old(self)@.insert((path@, encoding), (body@, header_value@)),
    {
        let ghost k = (path@, encoding);
        let mut i: usize = 0;
        while i < self.entries.len()
            invariant
                0 <= i <= self.entries@.len(),
                forall|j: int| 0 <= j < i ==> (#[trigger] self.entries@[j]).key() != k,
                k == (path@, encoding),
                self.wf(),
                self == old(self),
            decreases self.entries@.len() - i,
        {
            let matches_here = {
                let e = &self.entries[i];
                e.encoding == encoding && str_eq(e.path.as_str(), path.as_str())
            };
            if matches_here {
                let entry = CacheEntry { path, encoding, body, header_value };
                proof {
                    assert(entry.key() == self.entries@[i as int].key());
                    lemma_entries_map_update(self.entries@, i as int, entry);
                }
                self.entries.set(i, entry);
                return ;
            }
            i += 1;
        }
        let entry = CacheEntry { path, encoding, body, header_value };
        proof {
            assert(self.entries@.push(entry).drop_last() =~= self.entries@);
        }
        self.entries.push(entry);
    }
}

/// Retention law: the entry inserted under a key is exactly what every later
/// lookup of that key observes, until the key is overwritten.
pub proof fn lemma_insert_then_lookup(
    m: Map<(Seq<char>, CachedEncoding), (Seq<u8>, Seq<char>)>,
    k: (Seq<char>, CachedEncoding),
    v: (Seq<u8>, Seq<char>),
)
    ensures
        m.insert(k, v).contains_key(k),
        m.insert(k, v)[k] == v,
{
}

} // verus!
