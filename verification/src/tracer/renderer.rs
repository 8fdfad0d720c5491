use crate::common::fnv_store::{
    map_get, map_insert, map_len, map_new, set_contains, set_insert, set_len, set_new, set_remove,
};
use crate::game::texture::{Texture, TextureIds};
use crate::tracer::bakery::{delivered_into, lemma_delivered_keeps, Bakery, DoneItem};
use crate::tracer::color::BGRA;
use crate::tracer::image::Image;
use crate::tracer::surface::Surface;
use crate::tracer::tilekey::{
    below, canonical, canonical_cell, in_palette, lemma_code_injective, lemma_key_ext,
    lemma_stripped_canonical, TileKey,
};
use fnv::{FnvHashMap, FnvHashSet};
use std::rc::Rc;
use std::sync::Arc;
use vstd::prelude::*;

verus! {

/// Calls `Rc::clone`: another handle on the same texture.
#[verifier::external_body]
fn share(tex: &Rc<Texture>) -> (handle: Rc<Texture>)
    ensures
        handle == *tex,
{
    tex.clone()
}

/// A sequence with `a` pushed onto it holds `b` exactly if it held `b`
/// before or `b` is `a`.
pub proof fn lemma_push_contains(s: Seq<TileKey>, a: TileKey, b: TileKey)
    ensures
        s.push(a).contains(b) <==> (s.contains(b) || a == b),
{
    if s.contains(b) {
        let i = choose|i: int| 0 <= i < s.len() && s[i] == b;
        assert(s.push(a)[i] == b);
    }
    if a == b {
        assert(s.push(a)[s.len() as int] == b);
    }
}

/// What a sequence holds it still holds after more was appended.
pub proof fn lemma_append_contains(s: Seq<TileKey>, more: Seq<TileKey>, k: TileKey)
    requires
        s.contains(k),
    ensures
        (s + more).contains(k),
{
    let i = choose|i: int| 0 <= i < s.len() && s[i] == k;
    assert((s + more)[i] == k);
}

/// The cache and dispatch layer: it serves the texture of a neighbourhood
/// from its cache, has it baked once if it is not there, and meanwhile
/// answers with the best texture at hand.
pub struct Renderer {
    cache: FnvHashMap<u128, Rc<Texture>>,
    baking: FnvHashSet<u128>,
    empty: Rc<Texture>,
    palette: Arc<Vec<Surface>>,
    bakery: Bakery,
    ids: TextureIds,
}

impl Renderer {
    /// The baked textures, by canonical key.
    pub closed spec fn cache(&self) -> Map<TileKey, Rc<Texture>> {
        Map::new(
            |k: TileKey| self.cache@.contains_key(k.code()),
            |k: TileKey| self.cache@[k.code()],
        )
    }

    /// The keys that were handed to the workers and whose texture is not
    /// yet in the cache.
    pub closed spec fn baking(&self) -> Set<TileKey> {
        Set::new(|k: TileKey| self.baking@.contains(k.code()))
    }

    /// Every key that was ever handed to the workers, in order.
    pub closed spec fn jobs(&self) -> Seq<TileKey> {
        self.bakery.jobs()
    }

    /// The surfaces, by block identifier.
    pub closed spec fn palette(&self) -> Seq<Surface> {
        self.palette@
    }

    /// The placeholder that is served where nothing better is at hand.
    pub closed spec fn empty(&self) -> Rc<Texture> {
        self.empty
    }

    /// The dispatcher's side of the worker pool.
    pub closed spec fn dispatcher(&self) -> Bakery {
        self.bakery
    }

    /// Whether the cache and the set of keys that are baking are finite.
    pub closed spec fn countable(&self) -> bool {
        &&& self.cache@.dom().finite()
        &&& self.cache().dom().finite()
        &&& self.cache@.len() == self.cache().len()
        &&& self.baking@.finite()
        &&& self.baking().finite()
        &&& self.baking@.len() == self.baking().len()
    }

    /// What holds of every renderer: cache, outbox and the set of keys that
    /// are baking are finite; no key was handed to the workers twice; the
    /// keys handed out are those that are cached or baking, and none is
    /// both; and each of them is canonical and names surfaces of the
    /// palette only.
    pub open spec fn wf(&self) -> bool {
        &&& self.countable()
        &&& self.dispatcher().wf()
        &&& self.jobs() == self.dispatcher().jobs()
        &&& self.jobs().no_duplicates()
        &&& forall|k: TileKey|
            #![trigger self.jobs().contains(k)]
            #![trigger self.cache().contains_key(k)]
            #![trigger self.baking().contains(k)]
            self.jobs().contains(k) <==> (self.cache().contains_key(k) || self.baking().contains(
                k,
            ))
        &&& forall|k: TileKey|
            #![trigger self.cache().contains_key(k)]
            #![trigger self.baking().contains(k)]
            !(self.cache().contains_key(k) && self.baking().contains(k))
        &&& forall|k: TileKey| #[trigger]
            self.jobs().contains(k) ==> canonical(self.palette(), k) == k && in_palette(
                self.palette(),
                k,
            )
    }

    /// The best texture at hand for the canonical key `key`: its own if it
    /// is cached; else, if it has neighbours, that of the same centre and
    /// overlay without them, if that is cached; else the placeholder.
    pub open spec fn best(&self, key: TileKey) -> Rc<Texture> {
        if self.cache().contains_key(key) {
            self.cache()[key]
        } else if !key.neighbours_empty() && self.cache().contains_key(key.stripped()) {
            self.cache()[key.stripped()]
        } else {
            self.empty()
        }
    }

    /// A renderer for `palette` that has its tiles baked by `bakery` and
    /// numbers its textures from `ids`. The bakery must be fresh; the cache
    /// starts empty.
    pub fn new(palette: Arc<Vec<Surface>>, bakery: Bakery, ids: TextureIds) -> (r: Self)
        requires
            bakery.wf(),
            bakery.jobs().len() == 0,
        ensures
            r.wf(),
            r.dispatcher() == bakery,
            r.palette() == palette@,
            r.cache() == Map::<TileKey, Rc<Texture>>::empty(),
            r.baking() == Set::<TileKey>::empty(),
            r.jobs() == Seq::<TileKey>::empty(),
            r.empty().spec_uid() == 0,
            r.empty().image().pixel_seq().len() == 0,
    {
        let r = Renderer {
            cache: map_new(),
            baking: set_new(),
            bakery,
            palette,
            empty: Rc::new(Texture::default()),
            ids,
        };
        proof {
            assert(r.cache() =~= Map::<TileKey, Rc<Texture>>::empty());
            assert(r.baking() =~= Set::<TileKey>::empty());
            assert(r.cache@ =~= Map::<u128, Rc<Texture>>::empty());
            assert(r.baking@ =~= Set::<u128>::empty());
            assert(r.jobs() =~= Seq::<TileKey>::empty());
        }
        r
    }

    /// Renders the texture of the centre block of `tilekey`, without ever
    /// waiting. The key is first made canonical. If its texture is cached,
    /// that is the answer and nothing changes. Otherwise the key is handed
    /// to the workers unless it was before, and the answer is the best
    /// texture at hand once the finished work has been collected.
    pub fn render_tile(&mut self, tilekey: TileKey) -> (tex: Rc<Texture>)
        requires
            old(self).wf(),
            in_palette(old(self).palette(), tilekey),
        ensures
            final(self).wf(),
            final(self).palette() == old(self).palette(),
            final(self).empty() == old(self).empty(),
            old(self).cache().submap_of(final(self).cache()),
            tex == final(self).best(canonical(old(self).palette(), tilekey)),
            old(self).cache().contains_key(canonical(old(self).palette(), tilekey)) ==> *final(self)
                == *old(self),
            !final(self).cache().contains_key(canonical(old(self).palette(), tilekey))
                ==> final(self).baking().contains(canonical(old(self).palette(), tilekey)),
            final(self).jobs().contains(canonical(old(self).palette(), tilekey)),
            final(self).jobs() == old(self).jobs() + Self::submitted(
                old(self).jobs(),
                canonical(old(self).palette(), tilekey),
                final(self).cache().contains_key(canonical(old(self).palette(), tilekey)),
            ),
            forall|k: TileKey|
                #![trigger final(self).cache().contains_key(k)]
                final(self).cache().contains_key(k) && !old(self).cache().contains_key(k) ==> old(
                    self
                ).baking().contains(k) && (k == canonical(old(self).palette(), tilekey) || k
                    == canonical(old(self).palette(), tilekey).stripped()),
    {
        let key = self.canonicalize(tilekey);
        proof {
            lemma_stripped_canonical(self.palette(), key);
            crate::tracer::tilekey::lemma_canonical_idempotent(self.palette(), tilekey);
            crate::tracer::tilekey::lemma_canonical_in_palette(self.palette(), tilekey);
        }
        match self.fetch(key) {
            Some(tex) => {
                return tex;
            },
            None => {},
        }
        if key.is_center_only() {
            return share(&self.empty);
        }
        let simple = key.center_and_goody();
        let ghost mid = self.jobs();
        proof {
            assert(simple != key);
            lemma_push_contains(old(self).jobs(), key, simple);
        }
        let found = self.fetch(simple);
        proof {
            lemma_push_contains(mid, simple, key);
            assert(self.jobs() =~= old(self).jobs() + Self::submitted(
                old(self).jobs(),
                key,
                false,
            ));
        }
        match found {
            Some(tex) => tex,
            None => share(&self.empty),
        }
    }

    /// The keys that one request for the canonical key `key` hands to the
    /// workers, given the jobs handed out before and whether the texture of
    /// `key` was in the cache when the request returned: `key` itself
    /// unless it was handed out before; and then, if its texture did not
    /// arrive and it has neighbours, the key without them, unless that was
    /// handed out before.
    pub open spec fn submitted(before: Seq<TileKey>, key: TileKey, arrived: bool) -> Seq<TileKey> {
        let first = if before.contains(key) {
            Seq::<TileKey>::empty()
        } else {
            seq![key]
        };
        let second = if !arrived && !key.neighbours_empty() && !before.contains(key.stripped()) {
            seq![key.stripped()]
        } else {
            Seq::<TileKey>::empty()
        };
        first + second
    }

    /// Looks the canonical key `key` up: its texture if it is cached, or if
    /// it was baking and has just arrived. Otherwise nothing, and `key` is
    /// handed to the workers unless it was before.
    pub fn fetch(&mut self, key: TileKey) -> (tex: Option<Rc<Texture>>)
        requires
            old(self).wf(),
            in_palette(old(self).palette(), key),
            canonical(old(self).palette(), key) == key,
        ensures
            final(self).wf(),
            final(self).palette() == old(self).palette(),
            final(self).empty() == old(self).empty(),
            old(self).cache().submap_of(final(self).cache()),
            tex == if final(self).cache().contains_key(key) {
                Some(final(self).cache()[key])
            } else {
                None
            },
            old(self).cache().contains_key(key) ==> *final(self) == *old(self),
            final(self).jobs() == if old(self).jobs().contains(key) {
                old(self).jobs()
            } else {
                old(self).jobs().push(key)
            },
            final(self).jobs().contains(key),
            forall|k: TileKey|
                #![trigger final(self).cache().contains_key(k)]
                final(self).cache().contains_key(k) && !old(self).cache().contains_key(k) ==> k
                    == key && old(self).baking().contains(k),
    {
        let code = key.encode();
        match map_get(&self.cache, code) {
            Some(tex) => {
                return Some(share(tex));
            },
            None => {},
        }
        if set_contains(&self.baking, code) {
            match self.try_recv(key) {
                Some(tex) => {
                    return Some(tex);
                },
                None => {},
            }
        }
        if !self.is_baking(key) {
            self.start_baking(key);
            proof {
                lemma_push_contains(old(self).jobs(), key, key);
            }
        }
        None
    }

    /// The key that renders as `k` does, with every neighbour removed that
    /// can throw no shadow on the centre.
    pub fn canonicalize(&self, k: TileKey) -> (c: TileKey)
        requires
            in_palette(self.palette(), k),
        ensures
            c == canonical(self.palette(), k),
    {
        let center = k.center();
        let b = &k.blocks;
        proof {
            let n = self.palette().len();
            assert(k.cell(0, 0) < n && k.cell(1, 0) < n && k.cell(2, 0) < n);
            assert(k.cell(0, 1) < n && k.cell(1, 1) < n && k.cell(2, 1) < n);
            assert(k.cell(0, 2) < n && k.cell(1, 2) < n && k.cell(2, 2) < n);
        }
        let c = TileKey {
            blocks: [
                [
                    self.canonicalize1(b[0][0], center),
                    self.canonicalize1(b[0][1], center),
                    self.canonicalize1(b[0][2], center),
                ],
                [self.canonicalize1(b[1][0], center), center, self.canonicalize1(b[1][2], center)],
                [
                    self.canonicalize1(b[2][0], center),
                    self.canonicalize1(b[2][1], center),
                    self.canonicalize1(b[2][2], center),
                ],
            ],
            goody: k.goody,
        };
        proof {
            lemma_key_ext(c, canonical(self.palette(), k));
        }
        c
    }

    fn canonicalize1(&self, block: u8, center: u8) -> (b: u8)
        requires
            block < self.palette().len(),
            center < self.palette().len(),
        ensures
            b == canonical_cell(self.palette(), block, center),
    {
        if self.is_below(block, center) {
            0
        } else {
            block
        }
    }

    /// Whether surface `surfa` reaches no higher than the lowest point of
    /// surface `surfb`.
    fn is_below(&self, surfa: u8, surfb: u8) -> (b: bool)
        requires
            surfa < self.palette().len(),
            surfb < self.palette().len(),
        ensures
            b == below(self.palette(), surfa, surfb),
    {
        self.palette[surfa as usize].hm_max() <= self.palette[surfb as usize].hm_min()
    }

    fn start_baking(&mut self, tilekey: TileKey)
        requires
            old(self).wf(),
            !old(self).jobs().contains(tilekey),
            in_palette(old(self).palette(), tilekey),
            canonical(old(self).palette(), tilekey) == tilekey,
        ensures
            final(self).wf(),
            final(self).palette() == old(self).palette(),
            final(self).empty() == old(self).empty(),
            final(self).cache() == old(self).cache(),
            final(self).baking() == old(self).baking().insert(tilekey),
            final(self).jobs() == old(self).jobs().push(tilekey),
    {
        let code = tilekey.encode();
        let _ = set_insert(&mut self.baking, code);
        let _ = self.bakery.send(tilekey);
        proof {
            assert forall|k: TileKey| #[trigger] k.code() == tilekey.code() implies k
                == tilekey by {
                lemma_code_injective(k, tilekey);
            }
            let before = old(self).jobs();
            assert forall|k: TileKey| #[trigger]
                self.jobs().contains(k) <==> (before.contains(k) || k == tilekey) by {
                lemma_push_contains(before, tilekey, k);
            }
            assert(self.baking() =~= old(self).baking().insert(tilekey));
            assert(self.cache() =~= old(self).cache());
        }
    }

    fn is_baking(&self, tilekey: TileKey) -> (b: bool)
        ensures
            b == self.baking().contains(tilekey),
    {
        set_contains(&self.baking, tilekey.encode())
    }

    /// Collects what the workers have finished and, if the image for
    /// `tilekey` is among it or lay in the outbox before, stores it in the
    /// cache as a texture and returns that texture. An image that lay in the
    /// outbox is always found; whether one arrives now is up to the workers.
    fn try_recv(&mut self, tilekey: TileKey) -> (tex: Option<Rc<Texture>>)
        requires
            old(self).wf(),
            old(self).baking().contains(tilekey),
        ensures
            final(self).wf(),
            final(self).palette() == old(self).palette(),
            final(self).empty() == old(self).empty(),
            final(self).jobs() == old(self).jobs(),
            match tex {
                Some(t) => final(self).cache() == old(self).cache().insert(tilekey, t)
                    && final(self).baking() == old(self).baking().remove(tilekey),
                None => final(self).cache() == old(self).cache() && final(self).baking()
                    == old(self).baking(),
            },
            old(self).dispatcher().outbox().contains_key(tilekey) ==> tex is Some,
            exists|delivered: Seq<DoneItem>|
                {
                    let filled = #[trigger] delivered_into(
                        old(self).dispatcher().outbox(),
                        delivered,
                    );
                    &&& delivered.len() <= old(self).dispatcher().spec_num_baking()
                    &&& final(self).dispatcher().spec_num_baking() + delivered.len()
                        == old(self).dispatcher().spec_num_baking()
                    &&& final(self).dispatcher().outbox() == filled.remove(tilekey)
                    &&& match tex {
                        Some(t) => filled.contains_key(tilekey) && t.image() == filled[tilekey],
                        None => !filled.contains_key(tilekey),
                    }
                },
    {
        let ghost before = self.bakery.outbox();
        let found = self.bakery.try_recv(tilekey);
        proof {
            let delivered = choose|delivered: Seq<DoneItem>|
                {
                    let filled = #[trigger] delivered_into(before, delivered);
                    &&& delivered.len() <= old(self).bakery.spec_num_baking()
                    &&& self.bakery.spec_num_baking() == old(self).bakery.spec_num_baking()
                        - delivered.len()
                    &&& found == if filled.contains_key(tilekey) {
                        Some(filled[tilekey])
                    } else {
                        None
                    }
                    &&& self.bakery.outbox() == filled.remove(tilekey)
                };
            if before.contains_key(tilekey) {
                lemma_delivered_keeps(before, delivered, tilekey);
            }
        }
        match found {
            None => None,
            Some(img) => Some(self.create(tilekey, img)),
        }
    }

    /// Stores the image that was baked for `tilekey` as a texture in the
    /// cache, and takes the key off the list of those baking.
    pub fn create(&mut self, tilekey: TileKey, img: Image<BGRA>) -> (tex: Rc<Texture>)
        requires
            old(self).wf(),
            old(self).baking().contains(tilekey),
        ensures
            final(self).wf(),
            final(self).palette() == old(self).palette(),
            final(self).empty() == old(self).empty(),
            final(self).jobs() == old(self).jobs(),
            final(self).cache() == old(self).cache().insert(tilekey, tex),
            final(self).baking() == old(self).baking().remove(tilekey),
            final(self).dispatcher() == old(self).dispatcher(),
            tex.image() == img,
    {
        let code = tilekey.encode();
        let _ = set_remove(&mut self.baking, code);
        let tex = Rc::new(Texture::new(img, &self.ids));
        let handle = share(&tex);
        let _ = map_insert(&mut self.cache, code, tex);
        proof {
            assert forall|k: TileKey| #[trigger] k.code() == tilekey.code() implies k
                == tilekey by {
                lemma_code_injective(k, tilekey);
            }
            assert(self.baking() =~= old(self).baking().remove(tilekey));
            assert(self.cache() =~= old(self).cache().insert(tilekey, handle));
        }
        handle
    }

    /// How many keys are baking.
    pub fn baking_len(&self) -> (n: usize)
        requires
            self.wf(),
        ensures
            n == self.baking().len(),
    {
        set_len(&self.baking)
    }

    /// How many textures are cached.
    pub fn cache_len(&self) -> (n: usize)
        requires
            self.wf(),
        ensures
            n == self.cache().len(),
    {
        map_len(&self.cache)
    }

    /// The worker pool's dispatcher side, for its counters.
    pub fn bakery(&self) -> (b: &Bakery)
        ensures
            *b == self.dispatcher(),
    {
        &self.bakery
    }
}

/// Single flight: however often a key was asked for, it stands at most once
/// among the jobs handed to the workers.
pub proof fn lemma_single_flight(r: Renderer, key: TileKey, i: int, j: int)
    requires
        r.wf(),
        0 <= i < r.jobs().len(),
        0 <= j < r.jobs().len(),
        r.jobs()[i] == key,
        r.jobs()[j] == key,
    ensures
        i == j,
{
}

/// A request for a key that is baking or cached hands nothing to the workers
/// for that key: among the jobs the key stands once, as before.
pub proof fn lemma_no_second_job(before: Seq<TileKey>, key: TileKey, arrived: bool)
    requires
        before.contains(key),
    ensures
        !Renderer::submitted(before, key, arrived).contains(key),
{
    let sub = Renderer::submitted(before, key, arrived);
    if sub.contains(key) {
        let i = choose|i: int| 0 <= i < sub.len() && sub[i] == key;
        assert(sub[i] == key.stripped());
        assert(key.stripped().neighbours_empty());
    }
}

/// Once the texture of a canonical key is cached, every key with that
/// canonical key is served this one texture.
pub proof fn lemma_cached_is_served(r: Renderer, a: TileKey, b: TileKey)
    requires
        canonical(r.palette(), a) == canonical(r.palette(), b),
        r.cache().contains_key(canonical(r.palette(), a)),
    ensures
        r.best(canonical(r.palette(), a)) == r.cache()[canonical(r.palette(), a)],
        r.best(canonical(r.palette(), b)) == r.best(canonical(r.palette(), a)),
{
}

} // verus!
