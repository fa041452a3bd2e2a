use vstd::prelude::*;
use crate::models::ModelCache;
use crate::shade::ShaderCache;
use crate::textures::TextureCache;

verus! {

/// What every asset cache offers: lazy load-and-memoize keyed by name (each
/// cache's own `load`, whose key and reference types differ), a load count
/// that rises exactly when real decode, compile, or upload work runs, and
/// wholesale clearing for when asset directories change.
pub trait AssetCache {
    /// The names currently memoized.
    spec fn cached(&self) -> Set<Seq<char>>;

    /// The load-count instrumentation: how much real work has run.
    spec fn work_count(&self) -> u64;

    /// Drop every entry; the work already counted stays counted.
    fn clear(&mut self)
        ensures
            final(self).cached() == Set::<Seq<char>>::empty(),
            final(self).work_count() == old(self).work_count();
}

impl AssetCache for ShaderCache {
    open spec fn cached(&self) -> Set<Seq<char>> {
        self.entries().dom()
    }

    open spec fn work_count(&self) -> u64 {
        self.spec_compiles()
    }

    fn clear(&mut self) {
        ShaderCache::clear(self);
        proof {
            assert(self.entries().dom() =~= Set::<Seq<char>>::empty());
        }
    }
}

impl AssetCache for TextureCache {
    open spec fn cached(&self) -> Set<Seq<char>> {
        self.entries().dom()
    }

    open spec fn work_count(&self) -> u64 {
        self.spec_loads()
    }

    fn clear(&mut self) {
        TextureCache::clear(self);
        proof {
            assert(self.entries().dom() =~= Set::<Seq<char>>::empty());
        }
    }
}

impl AssetCache for ModelCache {
    open spec fn cached(&self) -> Set<Seq<char>> {
        self.entries().dom()
    }

    open spec fn work_count(&self) -> u64 {
        self.spec_loads()
    }

    fn clear(&mut self) {
        ModelCache::clear(self);
        proof {
            assert(self.entries().dom() =~= Set::<Seq<char>>::empty());
        }
    }
}

} // verus!
