use vstd::prelude::*;

use crate::xy::Vec2;
use crate::xy::XY;

verus! {

/// Cache around a one-dimensional layout result.
///
/// Records the extent a layout pass produced along one axis, together with
/// whether that extent was capped by the request that produced it, so that a
/// later query can decide in constant time whether the cached result is still
/// the one a fresh layout pass would return.
#[derive(PartialEq, Eq, Structural, Debug, Clone, Copy)]
pub struct SizeCache {
    /// Cached value: the extent the layout pass returned.
    pub value: usize,
    /// `true` if the last size was constrained: the requested extent was a
    /// binding cap that the computed value met exactly.
    ///
    /// If unconstrained, any request larger than this value would return the
    /// same size.
    pub constrained: bool,
}

impl SizeCache {
    /// Whether the cached result is still the one a layout pass would produce
    /// for `request`: a smaller request is never valid, an exact match always
    /// is, and a larger one is valid only when the cached value was not
    /// capped by the request that produced it.
    pub open spec fn spec_accept(self, request: usize) -> bool {
        if request < self.value {
            false
        } else if request == self.value {
            true
        } else {
            !self.constrained
        }
    }

    /// Creates a new sized cache.
    pub fn new(value: usize, constrained: bool) -> (r: Self)
        ensures
            r.value == value,
            r.constrained == constrained,
    {
        SizeCache { value, constrained }
    }

    /// Returns `true` if `self` is still valid for the given `request`.
    pub fn accept(self, request: usize) -> (r: bool)
        ensures
            r == self.spec_accept(request),
    {
        if request < self.value {
            false
        } else if request == self.value {
            true
        } else {
            !self.constrained
        }
    }

    /// Returns the value in the cache.
    pub fn value(self) -> (r: usize)
        ensures
            r == self.value,
    {
        self.value
    }

    /// The pair of per-axis caches that `build` returns: on each axis the
    /// achieved size, marked constrained exactly when it equals the request.
    pub open spec fn spec_build(size: Vec2, req: Vec2) -> XY<SizeCache> {
        XY {
            x: SizeCache { value: size.x, constrained: size.x == req.x },
            y: SizeCache { value: size.y, constrained: size.y == req.y },
        }
    }

    /// Creates a new bi-dimensional cache.
    ///
    /// It will stay valid for the same request, and compatible ones.
    ///
    /// A compatible request is one where, for each axis, either:
    ///
    /// * the request is equal to the cached size, or
    /// * the request is larger than the cached size and the cache is
    ///   unconstrained.
    ///
    /// `size` must fit inside `req`; for each axis,
    /// `constrained = (size == req)`.
    pub fn build(size: Vec2, req: Vec2) -> (r: XY<SizeCache>)
        requires
            size.x <= req.x,
            size.y <= req.y,
        ensures
            r == Self::spec_build(size, req),
            r.x.value == size.x,
            r.x.constrained == (size.x == req.x),
            r.y.value == size.y,
            r.y.constrained == (size.y == req.y),
    {
        XY::new(
            SizeCache::new(size.x, size.x == req.x),
            SizeCache::new(size.y, size.y == req.y),
        )
    }
}

impl XY<SizeCache> {
    /// Whether a two-dimensional cache is still valid for `req`: both axes
    /// must accept their respective components, independently.
    pub open spec fn spec_accept(self, req: Vec2) -> bool {
        self.x.spec_accept(req.x) && self.y.spec_accept(req.y)
    }

    /// Returns `true` if both axes' caches are still valid for the given
    /// two-dimensional `req`: the logical AND of the per-axis checks.
    pub fn accept(self, req: Vec2) -> (r: bool)
        ensures
            r == self.spec_accept(req),
            r == (self.x.spec_accept(req.x) && self.y.spec_accept(req.y)),
    {
        self.x.accept(req.x) && self.y.accept(req.y)
    }
}

/// A request smaller than the cached value is never accepted, whatever the
/// constrained flag says.
pub proof fn lemma_reject_below_value(cache: SizeCache, request: usize)
    requires
        request < cache.value,
    ensures
        !cache.spec_accept(request),
{
}

/// A request equal to the cached value is always accepted.
pub proof fn lemma_accept_exact(cache: SizeCache)
    ensures
        cache.spec_accept(cache.value),
{
}

/// A request larger than the cached value is accepted exactly when the cache
/// is unconstrained.
pub proof fn lemma_accept_above_value(cache: SizeCache, request: usize)
    requires
        request > cache.value,
    ensures
        cache.spec_accept(request) == !cache.constrained,
{
}

/// Rebuilding a cache from its own value, taken both as the achieved size and
/// as the request, marks both axes constrained, and the resulting cache
/// accepts exactly the request it was built from.
pub proof fn lemma_build_from_own_value(v: Vec2, req: Vec2)
    ensures
        SizeCache::spec_build(v, v).x.constrained,
        SizeCache::spec_build(v, v).y.constrained,
        SizeCache::spec_build(v, v).spec_accept(req) <==> (req.x == v.x && req.y == v.y),
{
}

} // verus!
