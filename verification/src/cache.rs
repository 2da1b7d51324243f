//! The artwork cache: each artwork address is given one local file path,
//! the first time it is asked for.
use vstd::prelude::*;
use dashmap::DashMap;
use crate::text::{chars_of, push_str, string_of};

verus! {

#[verifier::external_type_specification]
#[verifier::external_body]
#[verifier::reject_recursive_types(K)]
#[verifier::reject_recursive_types(V)]
#[verifier::reject_recursive_types(S)]
pub struct ExDashMap<K, V, S>(DashMap<K, V, S>);

/// A concurrent map from texts to texts.
pub type TextMap = DashMap<String, String>;

/// What a map of texts holds.
pub uninterp spec fn dash_contents(m: TextMap) -> Map<Seq<char>, Seq<char>>;

/// `DashMap::new`: an empty map.
#[verifier::external_body]
fn dash_new() -> (created: TextMap)
    ensures
        dash_contents(created).is_empty(),
{
    DashMap::new()
}

/// `DashMap::get`, with the value found copied out.
#[verifier::external_body]
fn dash_get(m: &TextMap, k: &str) -> (r: Option<String>)
    ensures
        match r {
            Some(v) => dash_contents(*m).contains_key(k@) && dash_contents(*m)[k@] == v@,
            None => !dash_contents(*m).contains_key(k@),
        },
{
    m.get(k).map(|v| v.clone())
}

/// `DashMap::insert`: stores `v` under `k`, replacing any earlier value.
#[verifier::external_body]
fn dash_insert(m: &mut TextMap, k: String, v: String)
    ensures
        dash_contents(*final(m)) == dash_contents(*old(m)).insert(k@, v@),
{
    m.insert(k, v);
}

/// A lower-case hexadecimal digit.
pub open spec fn is_hex_lower(c: char) -> bool {
    ('0' <= c && c <= '9') || ('a' <= c && c <= 'f')
}

/// A UUID as `Uuid` displays it: 32 lower-case hexadecimal digits in groups
/// of 8, 4, 4, 4 and 12 joined by hyphens.
pub open spec fn uuid_text(s: Seq<char>) -> bool {
    &&& s.len() == 36
    &&& forall|i: int|
        0 <= i < 36 ==> (if i == 8 || i == 13 || i == 18 || i == 23 {
            s[i] == '-'
        } else {
            is_hex_lower(#[trigger] s[i])
        })
}

/// `uuid::Uuid::new_v4()`, displayed. It is random: only its shape is
/// stated.
#[verifier::external_body]
fn new_uuid_v4() -> (s: String)
    ensures
        uuid_text(s@),
{
    uuid::Uuid::new_v4().to_string()
}

/// The file path given to a new artwork.
pub open spec fn cached_path(id: Seq<char>) -> Seq<char> {
    "/tmp/cached_"@ + id + ".png"@
}

/// The path an address has after a lookup: the one it had, else the fresh
/// one.
pub open spec fn path_after(m: Map<Seq<char>, Seq<char>>, url: Seq<char>, fresh: Seq<char>) -> Seq<
    char,
> {
    if m.contains_key(url) {
        m[url]
    } else {
        fresh
    }
}

/// The cache after a lookup: unchanged when the address had a path, else
/// with the fresh one added.
pub open spec fn cache_after(m: Map<Seq<char>, Seq<char>>, url: Seq<char>, fresh: Seq<char>) -> Map<
    Seq<char>,
    Seq<char>,
> {
    if m.contains_key(url) {
        m
    } else {
        m.insert(url, fresh)
    }
}

/// `p` is the path of a cached artwork: `/tmp/cached_<uuid>.png`.
pub open spec fn is_cached_path(p: Seq<char>) -> bool {
    exists|id: Seq<char>| uuid_text(id) && p == #[trigger] cached_path(id)
}

/// Every path in `m` is the path of a cached artwork.
pub open spec fn all_cached_paths(m: Map<Seq<char>, Seq<char>>) -> bool {
    forall|k: Seq<char>| #![trigger m[k]] m.contains_key(k) ==> is_cached_path(m[k])
}

/// Artwork addresses with the local paths they were given.
pub struct AssetCache {
    url_to_path: TextMap,
}

impl AssetCache {
    /// What the cache holds.
    pub closed spec fn contents(&self) -> Map<Seq<char>, Seq<char>> {
        dash_contents(self.url_to_path)
    }

    /// The cache's invariant: every stored path is `/tmp/cached_<uuid>.png`.
    pub open spec fn well_formed(&self) -> bool {
        all_cached_paths(self.contents())
    }

    /// An empty cache.
    pub fn new() -> (c: Self)
        ensures
            c.contents() == Map::<Seq<char>, Seq<char>>::empty(),
            c.well_formed(),
    {
        let c = AssetCache { url_to_path: dash_new() };
        proof {
            assert(c.contents() =~= Map::<Seq<char>, Seq<char>>::empty());
        }
        c
    }

    /// The path of the artwork at `url`: the one it was given before, else
    /// `/tmp/cached_<id>.png`, which it keeps from then on.
    pub fn get_or_insert_id(&mut self, url: &str, id: &str) -> (p: String)
        requires
            old(self).well_formed(),
            uuid_text(id@),
        ensures
            final(self).well_formed(),
            p@ == path_after(old(self).contents(), url@, cached_path(id@)),
            final(self).contents() == cache_after(old(self).contents(), url@, cached_path(id@)),
    {
        match dash_get(&self.url_to_path, url) {
            Some(path) => path,
            None => {
                let mut v: Vec<char> = Vec::new();
                push_str(&mut v, "/tmp/cached_");
                push_str(&mut v, id);
                push_str(&mut v, ".png");
                proof {
                    assert(v@ =~= cached_path(id@));
                }
                let path = string_of(&v);
                let ghost before = self.contents();
                dash_insert(&mut self.url_to_path, string_of(&chars_of(url)), string_of(&v));
                proof {
                    assert(is_cached_path(cached_path(id@)));
                    assert forall|k: Seq<char>| #[trigger]
                        self.contents().contains_key(k) implies is_cached_path(
                        self.contents()[k],
                    ) by {
                        if k != url@ {
                            assert(before.contains_key(k));
                            assert(is_cached_path(before[k]));
                        }
                    }
                }
                path
            },
        }
    }

    /// The path of the artwork at `url`: the one it was given before, else
    /// a fresh `/tmp/cached_<uuid>.png` with a newly drawn UUID (see
    /// [`AssetCache::get_or_insert_id`]), which it keeps from then on.
    pub fn get_or_fetch(&mut self, url: &str) -> (p: String)
        requires
            old(self).well_formed(),
        ensures
            final(self).well_formed(),
            is_cached_path(p@),
            exists|id: Seq<char>|
                #![trigger cached_path(id)]
                uuid_text(id) && p@ == path_after(old(self).contents(), url@, cached_path(id))
                    && final(self).contents() == cache_after(old(self).contents(), url@, cached_path(id)),
    {
        match dash_get(&self.url_to_path, url) {
            Some(path) => {
                let ghost id = choose|id: Seq<char>| uuid_text(id) && path@ == cached_path(id);
                proof {
                    assert(is_cached_path(self.contents()[url@]));
                    assert(path@ == path_after(old(self).contents(), url@, cached_path(id)));
                }
                path
            },
            None => {
                let id = new_uuid_v4();
                let p = self.get_or_insert_id(url, id.as_str());
                proof {
                    assert(p@ == cached_path(id@));
                    assert(is_cached_path(p@));
                }
                p
            },
        }
    }
}

/// Asking twice for the same address gives the same path, and the second
/// time leaves the cache as it was.
pub proof fn law_same_address_same_path(
    m: Map<Seq<char>, Seq<char>>,
    url: Seq<char>,
    first: Seq<char>,
    second: Seq<char>,
)
    ensures
        path_after(cache_after(m, url, first), url, second) == path_after(m, url, first),
        cache_after(cache_after(m, url, first), url, second) == cache_after(m, url, first),
{
}

/// An address that already has a path keeps it whatever else is asked for.
pub proof fn law_paths_are_kept(
    m: Map<Seq<char>, Seq<char>>,
    url: Seq<char>,
    other: Seq<char>,
    fresh: Seq<char>,
)
    requires
        m.contains_key(url),
    ensures
        cache_after(m, other, fresh).contains_key(url),
        cache_after(m, other, fresh)[url] == m[url],
{
}

/// Artworks given different identifiers get different paths, so two fresh
/// entries share a file only if their UUIDs repeat.
pub proof fn law_distinct_ids_distinct_paths(a: Seq<char>, b: Seq<char>)
    requires
        a != b,
    ensures
        cached_path(a) != cached_path(b),
{
    reveal_strlit("/tmp/cached_");
    reveal_strlit(".png");
    if cached_path(a) == cached_path(b) {
        assert(cached_path(a).len() == 16 + a.len());
        assert(cached_path(b).len() == 16 + b.len());
        assert(a.len() == b.len());
        assert(cached_path(a).subrange(12, 12 + a.len() as int) =~= a);
        assert(cached_path(b).subrange(12, 12 + b.len() as int) =~= b);
        assert(false);
    }
}

/// Two new addresses asked for one after the other get different paths
/// when their drawn identifiers differ, and both paths have the
/// `/tmp/cached_<uuid>.png` shape.
pub proof fn law_new_addresses_get_distinct_paths(
    m: Map<Seq<char>, Seq<char>>,
    u1: Seq<char>,
    u2: Seq<char>,
    id1: Seq<char>,
    id2: Seq<char>,
)
    requires
        !m.contains_key(u1),
        !m.contains_key(u2),
        u1 != u2,
        id1 != id2,
        uuid_text(id1),
        uuid_text(id2),
    ensures
        path_after(m, u1, cached_path(id1)) != path_after(
            cache_after(m, u1, cached_path(id1)),
            u2,
            cached_path(id2),
        ),
        is_cached_path(path_after(m, u1, cached_path(id1))),
        is_cached_path(path_after(cache_after(m, u1, cached_path(id1)), u2, cached_path(id2))),
{
    law_distinct_ids_distinct_paths(id1, id2);
    assert(!cache_after(m, u1, cached_path(id1)).contains_key(u2));
}

} // verus!
