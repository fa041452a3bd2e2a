use vstd::prelude::*;
use crate::handle::HandleAllocator;
use crate::models::ModelCache;
use crate::namemap::NameMap;
use crate::resource::SwapchainDescriptor;
use crate::shade::ShaderCache;
use crate::textures::TextureCache;

verus! {

/// The in-memory asset tree the caches load from: shader sources, texture
/// file bytes, and model file text, each keyed by logical name. The
/// surrounding program fills it from its asset directories.
pub struct AssetStore {
    pub shader_files: NameMap<String>,
    pub texture_files: NameMap<Vec<u8>>,
    pub model_files: NameMap<String>,
}

impl AssetStore {
    pub fn new() -> (r: Self)
        ensures
            r.shader_files@ == Map::<Seq<char>, String>::empty(),
            r.texture_files@ == Map::<Seq<char>, Vec<u8>>::empty(),
            r.model_files@ == Map::<Seq<char>, String>::empty(),
    {
        AssetStore {
            shader_files: NameMap::new(),
            texture_files: NameMap::new(),
            model_files: NameMap::new(),
        }
    }
}

/// The long-lived render state: the identifier allocator standing for the
/// GPU device and queue, the swapchain's current shape, and the three asset
/// caches with the asset store they load from.
pub struct Core {
    pub alloc: HandleAllocator,
    pub sc_desc: SwapchainDescriptor,
    pub swap_chain: u64,
    pub shaders: ShaderCache,
    pub textures: TextureCache,
    pub models: ModelCache,
    pub assets: AssetStore,
}

/// The three caches of `b` hold exactly what the caches of `a` hold.
pub open spec fn caches_unchanged(a: Core, b: Core) -> bool {
    &&& a.shaders == b.shaders
    &&& a.textures == b.textures
    &&& a.models == b.models
}

impl Core {
    /// Create the core against an already-negotiated swapchain shape.
    /// `strict_shaders` mirrors a debug configuration of the shader
    /// compiler.
    pub fn new(sc_desc: SwapchainDescriptor, assets: AssetStore, strict_shaders: bool)
        -> (r: Self)
        ensures
            r.sc_desc == sc_desc,
            r.swap_chain == 0,
            r.alloc.spec_next() == 1,
            r.shaders.entries() == Map::<Seq<char>, crate::shade::ShaderCacheEntry>::empty(),
            r.shaders.spec_compiles() == 0,
            r.textures.entries()
                == Map::<Seq<char>, crate::textures::TextureCacheEntry>::empty(),
            r.textures.spec_loads() == 0,
            r.models.entries() == Map::<Seq<char>, crate::models::ModelCacheEntry>::empty(),
            r.models.known_files() == Set::<Seq<char>>::empty(),
            r.models.spec_loads() == 0,
            r.assets == assets,
    {
        let mut alloc = HandleAllocator::new();
        let swap_chain = alloc.issue();
        Core {
            alloc,
            sc_desc,
            swap_chain,
            shaders: ShaderCache::new(strict_shaders),
            textures: TextureCache::new(),
            models: ModelCache::new(),
            assets,
        }
    }

    /// Replace the swapchain for new pixel dimensions: the descriptor keeps
    /// its format, and the swapchain itself is rebuilt as a fresh object.
    /// Dependent passes must be refreshed against the new descriptor before
    /// they perform again.
    pub fn handle_window_resize(&mut self, width: u32, height: u32)
        requires
            old(self).alloc.can_issue(1),
        ensures
            final(self).sc_desc == (SwapchainDescriptor {
                width,
                height,
                format: old(self).sc_desc.format,
            }),
            final(self).swap_chain == old(self).alloc.spec_next(),
            final(self).alloc.spec_next() == old(self).alloc.spec_next() + 1,
            caches_unchanged(*old(self), *final(self)),
            final(self).assets == old(self).assets,
    {
        self.sc_desc = SwapchainDescriptor {
            width,
            height,
            format: self.sc_desc.format,
        };
        self.swap_chain = self.alloc.issue();
    }

    /// Empty all three caches, so every asset is rebuilt on its next load.
    /// Used when asset directories change wholesale; the caller then
    /// refreshes its passes.
    pub fn clear_caches(&mut self)
        ensures
            final(self).shaders.entries()
                == Map::<Seq<char>, crate::shade::ShaderCacheEntry>::empty(),
            final(self).textures.entries()
                == Map::<Seq<char>, crate::textures::TextureCacheEntry>::empty(),
            final(self).models.entries()
                == Map::<Seq<char>, crate::models::ModelCacheEntry>::empty(),
            final(self).models.known_files() == Set::<Seq<char>>::empty(),
            final(self).alloc == old(self).alloc,
            final(self).sc_desc == old(self).sc_desc,
            final(self).swap_chain == old(self).swap_chain,
            final(self).assets == old(self).assets,
    {
        self.shaders.clear();
        self.textures.clear();
        self.models.clear();
    }
}

} // verus!
