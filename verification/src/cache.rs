//! The keyed scene cache: owns every loaded scene, at most one per key.
//!
//! Keys are caller-assigned integers; zero is reserved as the "no scene"
//! sentinel. Loading an already-present key is a no-op (the cached entry
//! wins), unloading an absent key is a no-op, and entries live until they
//! are unloaded. The cache's abstract state is a map from key to
//! [`SceneModel`], and every operation says exactly how it moves that map.

use vstd::prelude::*;

use std::collections::HashMap;

use crate::fit::ViewBox;
use crate::svg::{parse_svg, svg_nat_size, svg_parse_err, svg_parse_ok, svg_view_box, view_box_of};
use crate::SvgError;

verus! {

broadcast use vstd::std_specs::hash::group_hash_axioms;

/// One loaded scene: the key it is filed under, the plain values the
/// fitter and the session read, and the opaque parse tree the rendering
/// layer flattens each frame.
pub struct SceneEntry {
    pub key: u64,
    pub view_box: ViewBox,
    pub nat_width: u32,
    pub nat_height: u32,
    pub src: Ghost<Seq<u8>>,
    pub tree: usvg::Tree,
}

/// The abstract content of one cache entry: everything about it that the
/// contracts speak of, including the bytes it was parsed from.
pub struct SceneModel {
    pub key: u64,
    pub view_box: ViewBox,
    pub nat_width: u32,
    pub nat_height: u32,
    pub bytes: Seq<u8>,
}

impl SceneEntry {
    /// The entry's abstract content.
    pub open spec fn model(&self) -> SceneModel {
        SceneModel {
            key: self.key,
            view_box: self.view_box,
            nat_width: self.nat_width,
            nat_height: self.nat_height,
            bytes: self.src@,
        }
    }

    /// The opaque parse tree, for the rendering layer.
    pub fn tree(&self) -> &usvg::Tree {
        &self.tree
    }
}

/// The entry that loading `bytes` under `key` files in the cache.
pub open spec fn loaded_model(key: u64, bytes: Seq<u8>) -> SceneModel {
    SceneModel {
        key,
        view_box: view_box_of(svg_view_box(bytes)),
        nat_width: svg_nat_size(bytes).0,
        nat_height: svg_nat_size(bytes).1,
        bytes,
    }
}

/// How `load` moves the cache's abstract state: a reserved key, an
/// already-present key, or a parse failure leave it as it was; otherwise
/// the parsed scene is filed under `key`.
pub open spec fn spec_load(m: Map<u64, SceneModel>, key: u64, bytes: Seq<u8>) -> Map<
    u64,
    SceneModel,
> {
    if key == 0 || m.contains_key(key) || !svg_parse_ok(bytes) {
        m
    } else {
        m.insert(key, loaded_model(key, bytes))
    }
}

/// Owns the loaded scenes, keyed by caller-assigned nonzero integers.
pub struct SceneCache {
    map: HashMap<u64, SceneEntry>,
}

impl View for SceneCache {
    type V = Map<u64, SceneModel>;

    closed spec fn view(&self) -> Map<u64, SceneModel> {
        self.map@.map_values(|e: SceneEntry| e.model())
    }
}

impl SceneCache {
    /// An empty cache.
    pub fn new() -> (r: Self)
        ensures
            r@ == Map::<u64, SceneModel>::empty(),
    {
        let cache = SceneCache { map: HashMap::new() };
        proof {
            assert(cache@ =~= Map::<u64, SceneModel>::empty());
        }
        cache
    }

    /// How many scenes are loaded.
    pub fn len(&self) -> (n: usize)
        ensures
            n == self@.len(),
    {
        proof {
            assert(self@.dom() =~= self.map@.dom());
        }
        self.map.len()
    }

    /// Loads the scene `data` holds under `key`: rejects the reserved key
    /// zero, keeps the existing entry if `key` is already filed (the new
    /// bytes are ignored), and otherwise parses `data` and files the
    /// scene, surfacing the parser's message verbatim if it rejects the
    /// bytes.
    pub fn load(&mut self, key: u64, data: &[u8]) -> (r: Result<(), SvgError>)
        ensures
            final(self)@ == spec_load(old(self)@, key, data@),
            key == 0 ==> r == Err::<(), SvgError>(SvgError::InvalidKey),
            key != 0 && (old(self)@.contains_key(key) || svg_parse_ok(data@)) ==> r == Ok::<
                (),
                SvgError,
            >(()),
            key != 0 && !old(self)@.contains_key(key) && !svg_parse_ok(data@) ==> (r matches Err(e)
                && e matches SvgError::ParseError(msg) && msg@ == svg_parse_err(data@)),
    {
        if key == 0 {
            return Err(SvgError::InvalidKey);
        }
        if self.map.contains_key(&key) {
            return Ok(());
        }
        match parse_svg(data) {
            Ok(doc) => {
                let entry = SceneEntry {
                    key,
                    view_box: doc.view_box,
                    nat_width: doc.nat_width,
                    nat_height: doc.nat_height,
                    src: Ghost(data@),
                    tree: doc.tree,
                };
                self.map.insert(key, entry);
                proof {
                    assert(self@ =~= spec_load(old(self)@, key, data@));
                }
                Ok(())
            },
            Err(msg) => Err(SvgError::ParseError(msg)),
        }
    }

    /// Removes the entry under `key`; absent keys are left alone, and no
    /// error is reported either way.
    pub fn unload(&mut self, key: u64)
        ensures
            final(self)@ == spec_unload(old(self)@, key),
    {
        self.map.remove(&key);
        proof {
            assert(self@ =~= old(self)@.remove(key));
        }
    }

    /// Looks the entry under `key` up without changing anything.
    pub fn get(&self, key: u64) -> (r: Option<&SceneEntry>)
        ensures
            self@.contains_key(key) ==> (r matches Some(e) && e.model() == self@[key]),
            !self@.contains_key(key) ==> r is None,
    {
        self.map.get(&key)
    }
}

/// Loading is idempotent: loading the same bytes under the same key a
/// second time leaves the cache's state exactly as the first load left
/// it, whatever that state was.
pub proof fn lemma_load_idempotent(m: Map<u64, SceneModel>, key: u64, bytes: Seq<u8>)
    ensures
        spec_load(spec_load(m, key, bytes), key, bytes) == spec_load(m, key, bytes),
{
}

/// Unloading a key leaves nothing under it, and unloading an absent key
/// is a no-op: the state after is the state before.
pub proof fn lemma_unload_get(m: Map<u64, SceneModel>, key: u64)
    ensures
        !spec_unload(m, key).contains_key(key),
        !m.contains_key(key) ==> spec_unload(m, key) == m,
{
    if !m.contains_key(key) {
        assert(m.remove(key) =~= m);
    }
}

/// How `unload` moves the cache's abstract state.
pub open spec fn spec_unload(m: Map<u64, SceneModel>, key: u64) -> Map<u64, SceneModel> {
    m.remove(key)
}

/// A load that succeeds leaves an entry under its key, so selecting that
/// key afterwards finds a scene: `select_scene` fails with `NotLoaded`
/// exactly on keys that no load has filed.
pub proof fn lemma_select_after_load(m: Map<u64, SceneModel>, key: u64, bytes: Seq<u8>)
    requires
        key != 0,
        m.contains_key(key) || svg_parse_ok(bytes),
    ensures
        spec_load(m, key, bytes).contains_key(key),
{
}

} // verus!
