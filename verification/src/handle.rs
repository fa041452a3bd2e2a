use vstd::prelude::*;

verus! {

/// Issues identifiers for live GPU objects (buffers, textures, samplers,
/// bind groups, pipelines, shader modules, swapchains).
///
/// Identifiers are issued strictly increasing, so an identifier issued later
/// is distinct from every identifier issued earlier. That is what lets a
/// contract say that a rebuilt pass references no resource from before the
/// rebuild.
pub struct HandleAllocator {
    next: u64,
}

impl HandleAllocator {
    /// The next identifier this allocator will issue.
    pub closed spec fn spec_next(&self) -> u64 {
        self.next
    }

    /// True when at least `n` more identifiers can be issued.
    pub open spec fn can_issue(&self, n: int) -> bool {
        self.spec_next() + n <= u64::MAX
    }

    pub fn new() -> (r: Self)
        ensures
            r.spec_next() == 0,
    {
        HandleAllocator { next: 0 }
    }

    /// Whether `count` objects of `per` identifiers each can still be
    /// issued.
    pub fn has_headroom(&self, count: u64, per: u64) -> (r: bool)
        requires
            1 <= per <= 16,
        ensures
            r == self.can_issue(count * per),
    {
        let room = (u64::MAX - self.next) / per;
        proof {
            let c = count as int;
            let p = per as int;
            let m = u64::MAX - self.next;
            assert((c <= m / p) == (c * p <= m)) by (nonlinear_arith)
                requires 1 <= p, 0 <= m, 0 <= c;
        }
        count <= room
    }

    /// Issue a fresh identifier: equal to no identifier issued before.
    pub fn issue(&mut self) -> (h: u64)
        requires
            old(self).can_issue(1),
        ensures
            h == old(self).spec_next(),
            final(self).spec_next() == old(self).spec_next() + 1,
    {
        let h = self.next;
        self.next = self.next + 1;
        h
    }
}

} // verus!
