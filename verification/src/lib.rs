//! A render-pass pipeline with memoizing GPU asset caches.
//!
//! The library holds the logic of a real-time renderer's core: three
//! lazy-load-and-memoize asset caches (shaders with textual include
//! resolution, textures with pixel-format selection, models with
//! multi-entry registration per file), a typed pass abstraction separating
//! construction-time descriptors from per-frame live handles, and the
//! three-stage pipeline that scales an offscreen target, draws geometry
//! into it, and composites it onto the swapchain frame.
//!
//! Live GPU objects are carried as identifiers issued strictly increasing
//! by [`handle::HandleAllocator`], standing for the device's buffers,
//! textures, samplers, bind groups, pipelines, and shader modules; the
//! surrounding program owns the device and maps identifiers to objects.
//! Cache access is serialized behind exclusive references, a choice the
//! cache contract allows; with it, a memoized name always keeps its first
//! successfully loaded entry, and concurrent first loads of one key cannot
//! arise.

pub mod cache;
pub mod err;
pub mod handle;
pub mod laws;
pub mod models;
pub mod namemap;
pub mod passes;
pub mod preprocess;
pub mod resource;
pub mod shade;
pub mod state;
pub mod strutil;
pub mod textures;

use vstd::prelude::*;

verus! {

/// A rational render-quality scale in (0, 1]: `num / den`.
#[derive(Clone, Copy, PartialEq, Eq, Structural, Debug)]
pub struct Scale {
    pub num: u32,
    pub den: u32,
}

impl Scale {
    /// A scale is valid when it lies in (0, 1].
    pub open spec fn valid(self) -> bool {
        1 <= self.num <= self.den
    }

    /// The mathematical result of applying this scale to a dimension.
    pub open spec fn spec_apply(self, dim: u32) -> int {
        dim * self.num as int / self.den as int
    }

    /// Scale a dimension, rounding down.
    pub fn apply(self, dim: u32) -> (r: u32)
        requires
            self.valid(),
        ensures
            r == self.spec_apply(dim),
            r <= dim,
    {
        proof {
            let d = dim as int;
            let n = self.num as int;
            let m = self.den as int;
            assert(d * n <= 0xffff_ffff * 0xffff_ffff) by (nonlinear_arith)
                requires 0 <= d < 0x1_0000_0000, 0 <= n < 0x1_0000_0000;
            assert(d * n / m <= d && d * n / m >= 0) by (nonlinear_arith)
                requires 1 <= n <= m, 0 <= d;
        }
        let wide: u64 = dim as u64 * self.num as u64;
        (wide / self.den as u64) as u32
    }
}

} // verus!
