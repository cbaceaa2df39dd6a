//! A write-once store of encoded images by codepoint.

use std::collections::BTreeMap;
use vstd::laws_cmp::group_laws_cmp;
use vstd::prelude::*;

verus! {

broadcast use group_laws_cmp;

/// Encoded images by codepoint. An entry, once made, is never replaced nor
/// removed. Whoever holds the store exclusively reads and fills it in one
/// step, so that among callers who take turns no image is made twice.
pub struct ImageCache {
    map: BTreeMap<u32, Vec<u8>>,
}

impl View for ImageCache {
    type V = Map<u32, Seq<u8>>;

    closed spec fn view(&self) -> Map<u32, Seq<u8>> {
        Map::new(|key: u32| self.map@.contains_key(key), |key: u32| self.map@[key]@)
    }
}

/// A store after `bytes` has been offered for `key`: the first offer for a
/// key stays, any later one is dropped.
pub open spec fn put_once(
    cache: Map<u32, Seq<u8>>,
    key: u32,
    bytes: Seq<u8>,
) -> Map<u32, Seq<u8>> {
    if cache.contains_key(key) {
        cache
    } else {
        cache.insert(key, bytes)
    }
}

/// Of two offers for one key the first is kept: the second changes nothing,
/// and what is read under the key afterwards is what was read after the first.
pub proof fn lemma_put_once_keeps_first(
    cache: Map<u32, Seq<u8>>,
    key: u32,
    first: Seq<u8>,
    second: Seq<u8>,
)
    ensures
        put_once(cache, key, first).contains_key(key),
        put_once(put_once(cache, key, first), key, second) == put_once(cache, key, first),
        !cache.contains_key(key) ==> put_once(cache, key, first)[key] == first,
{
}

/// An offer leaves every entry that was there as it was.
pub proof fn lemma_put_once_preserves(
    cache: Map<u32, Seq<u8>>,
    key: u32,
    bytes: Seq<u8>,
    other: u32,
)
    requires
        cache.contains_key(other),
    ensures
        put_once(cache, key, bytes).contains_key(other),
        put_once(cache, key, bytes)[other] == cache[other],
{
}

impl ImageCache {
    /// The empty store.
    pub fn new() -> (cache: ImageCache)
        ensures
            cache@ == Map::<u32, Seq<u8>>::empty(),
    {
        let cache = ImageCache { map: BTreeMap::new() };
        assert(cache@ =~= Map::<u32, Seq<u8>>::empty());
        cache
    }

    /// A copy of the image stored for `key`, if there is one.
    pub fn get(&self, key: u32) -> (hit: Option<Vec<u8>>)
        ensures
            match hit {
                Some(bytes) => self@.contains_key(key) && bytes@ == self@[key],
                None => !self@.contains_key(key),
            },
    {
        match self.map.get(&key) {
            Some(found) => {
                let bytes: Vec<u8> = found.clone();
                assert(bytes@ =~= found@);
                Some(bytes)
            },
            None => None,
        }
    }

    /// The image stored for `key`; where there is none, `render` makes it and
    /// it is stored. The store is held exclusively from the lookup to the
    /// insertion, and `render` can be called once at most: callers who take
    /// turns get the same bytes, made once.
    pub fn get_or_render<F>(&mut self, key: u32, render: F) -> (bytes: Vec<u8>) where
        F: FnOnce(u32) -> Vec<u8>,

        requires
            !old(self)@.contains_key(key) ==> call_requires(render, (key,)),
        ensures
            old(self)@.contains_key(key) ==> final(self)@ == old(self)@ && bytes@ == old(self)@[key],
            !old(self)@.contains_key(key) ==> call_ensures(render, (key,), bytes) && final(self)@
                == old(self)@.insert(key, bytes@),
    {
        match self.get(key) {
            Some(earlier) => earlier,
            None => {
                let bytes: Vec<u8> = render(key);
                let kept: Vec<u8> = bytes.clone();
                assert(kept@ =~= bytes@);
                self.map.insert(key, kept);
                assert(self@ =~= old(self)@.insert(key, bytes@));
                bytes
            },
        }
    }

    /// Offers `bytes` for `key` and returns a copy of what is stored for
    /// `key` from then on: `bytes` if nothing was there, else what was there.
    pub fn put(&mut self, key: u32, bytes: Vec<u8>) -> (kept: Vec<u8>)
        ensures
            final(self)@ == put_once(old(self)@, key, bytes@),
            kept@ == final(self)@[key],
    {
        match self.get(key) {
            Some(earlier) => earlier,
            None => {
                let kept: Vec<u8> = bytes.clone();
                assert(kept@ =~= bytes@);
                self.map.insert(key, bytes);
                assert(self@ =~= put_once(old(self)@, key, bytes@));
                kept
            },
        }
    }
}

} // verus!
