use vstd::prelude::*;

verus! {

/// Sub-units in one logical unit: positions are stored in thousandths.
pub const SUBUNITS: i64 = 1000;

/// Largest viewport extent (in sub-units) that the arena accepts.
pub const MAX_EXTENT: i64 = 0x100_0000_0000;

/// A point of the plane, in sub-units.
#[derive(Clone, Copy, Debug, PartialEq, Eq, Structural)]
pub struct Point {
    pub x: i64,
    pub y: i64,
}

/// The arena: an axis-aligned rectangle centred on the origin.
#[derive(Clone, Copy, Debug, PartialEq, Eq, Structural)]
pub struct Screen {
    pub min_x: i64,
    pub max_x: i64,
    pub min_y: i64,
    pub max_y: i64,
}

/// Half-open containment in one dimension: `lo <= v < hi`.
pub open spec fn in_span(v: int, lo: int, hi: int) -> bool {
    lo <= v < hi
}

impl Screen {
    /// Bounds are centred on the origin, ordered, and small enough that nudging and
    /// clamping never overflow.
    pub open spec fn wf(self) -> bool {
        &&& 0 < self.max_x <= MAX_EXTENT
        &&& 0 < self.max_y <= MAX_EXTENT
        &&& self.min_x == -self.max_x
        &&& self.min_y == -self.max_y
    }

    pub open spec fn spec_contains(self, p: Point) -> bool {
        in_span(p.x as int, self.min_x as int, self.max_x as int)
            && in_span(p.y as int, self.min_y as int, self.max_y as int)
    }

    /// The arena of a viewport of the given width and height, centred on the origin.
    pub fn from(width: i64, height: i64) -> (s: Screen)
        requires
            2 <= width <= MAX_EXTENT,
            2 <= height <= MAX_EXTENT,
        ensures
            s.wf(),
            s.max_x == width / 2,
            s.min_x == -(width / 2),
            s.max_y == height / 2,
            s.min_y == -(height / 2),
    {
        let hw = width / 2;
        let hh = height / 2;
        Screen { min_x: -hw, max_x: hw, min_y: -hh, max_y: hh }
    }

    /// Whether `p` lies in the arena; the lower edges are inside, the upper edges are not.
    pub fn contains(&self, p: &Point) -> (r: bool)
        ensures
            r == self.spec_contains(*p),
    {
        self.min_x <= p.x && p.x < self.max_x && self.min_y <= p.y && p.y < self.max_y
    }
}

/// An upper edge is outside the arena and a lower edge is inside it.
pub proof fn lemma_containment_boundary(s: Screen, p: Point)
    requires
        s.wf(),
    ensures
        p.x == s.max_x ==> !s.spec_contains(p),
        p.y == s.max_y ==> !s.spec_contains(p),
        p.x == s.min_x ==> (s.spec_contains(p) <==> in_span(p.y as int, s.min_y as int, s.max_y as int)),
        p.y == s.min_y ==> (s.spec_contains(p) <==> in_span(p.x as int, s.min_x as int, s.max_x as int)),
{
}

} // verus!
