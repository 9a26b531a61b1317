//! Rings, polygons and multipolygons: ordered sequences of the level below.
use vstd::prelude::*;
use crate::point::Point;

verus! {

/// Polygon without holes: an ordered sequence of points. Neither closure nor
/// simplicity is required.
#[derive(Clone, Debug, Hash)]
pub struct Ring(pub Vec<Point>);

/// Polygon with holes. The first ring is the outer boundary, the following
/// ones are the holes.
#[derive(Clone, Debug, Hash)]
pub struct Polygon(pub Vec<Ring>);

/// Union of polygons.
#[derive(Clone, Debug, Hash)]
pub struct MultiPolygon(pub Vec<Polygon>);

/// Two rings are equal when they have the same length and their points are
/// equal one by one.
pub open spec fn ring_eq(a: Ring, b: Ring) -> bool {
    &&& a.0@.len() == b.0@.len()
    &&& forall|i: int| 0 <= i < a.0@.len() ==> (#[trigger] a.0@[i]).same_as(&b.0@[i])
}

/// Two polygons are equal when their rings are equal one by one.
pub open spec fn polygon_eq(a: Polygon, b: Polygon) -> bool {
    &&& a.0@.len() == b.0@.len()
    &&& forall|i: int| 0 <= i < a.0@.len() ==> ring_eq(#[trigger] a.0@[i], b.0@[i])
}

/// Two multipolygons are equal when their polygons are equal one by one.
pub open spec fn multipolygon_eq(a: MultiPolygon, b: MultiPolygon) -> bool {
    &&& a.0@.len() == b.0@.len()
    &&& forall|i: int| 0 <= i < a.0@.len() ==> polygon_eq(#[trigger] a.0@[i], b.0@[i])
}

impl PartialEq for Ring {
    fn eq(&self, o: &Ring) -> (r: bool) {
        if self.0.len() != o.0.len() {
            return false;
        }
        let mut i: usize = 0;
        while i < self.0.len()
            invariant
                self.0@.len() == o.0@.len(),
                0 <= i <= self.0@.len(),
                forall|j: int| 0 <= j < i ==> (#[trigger] self.0@[j]).same_as(&o.0@[j]),
            decreases self.0@.len() - i,
        {
            if !(self.0[i] == o.0[i]) {
                return false;
            }
            i = i + 1;
        }
        true
    }
}

impl vstd::std_specs::cmp::PartialEqSpecImpl for Ring {
    open spec fn obeys_eq_spec() -> bool {
        true
    }

    open spec fn eq_spec(&self, o: &Ring) -> bool {
        ring_eq(*self, *o)
    }
}

impl PartialEq for Polygon {
    fn eq(&self, o: &Polygon) -> (r: bool) {
        if self.0.len() != o.0.len() {
            return false;
        }
        let mut i: usize = 0;
        while i < self.0.len()
            invariant
                self.0@.len() == o.0@.len(),
                0 <= i <= self.0@.len(),
                forall|j: int| 0 <= j < i ==> ring_eq(#[trigger] self.0@[j], o.0@[j]),
            decreases self.0@.len() - i,
        {
            if !(self.0[i] == o.0[i]) {
                return false;
            }
            i = i + 1;
        }
        true
    }
}

impl vstd::std_specs::cmp::PartialEqSpecImpl for Polygon {
    open spec fn obeys_eq_spec() -> bool {
        true
    }

    open spec fn eq_spec(&self, o: &Polygon) -> bool {
        polygon_eq(*self, *o)
    }
}

impl PartialEq for MultiPolygon {
    fn eq(&self, o: &MultiPolygon) -> (r: bool) {
        if self.0.len() != o.0.len() {
            return false;
        }
        let mut i: usize = 0;
        while i < self.0.len()
            invariant
                self.0@.len() == o.0@.len(),
                0 <= i <= self.0@.len(),
                forall|j: int| 0 <= j < i ==> polygon_eq(#[trigger] self.0@[j], o.0@[j]),
            decreases self.0@.len() - i,
        {
            if !(self.0[i] == o.0[i]) {
                return false;
            }
            i = i + 1;
        }
        true
    }
}

impl vstd::std_specs::cmp::PartialEqSpecImpl for MultiPolygon {
    open spec fn obeys_eq_spec() -> bool {
        true
    }

    open spec fn eq_spec(&self, o: &MultiPolygon) -> bool {
        multipolygon_eq(*self, *o)
    }
}

impl Default for Ring {
    /// The empty ring.
    fn default() -> (r: Ring)
        ensures
            r.0@.len() == 0,
    {
        Ring(Vec::new())
    }
}

impl Default for Polygon {
    /// The polygon of no rings.
    fn default() -> (r: Polygon)
        ensures
            r.0@.len() == 0,
    {
        Polygon(Vec::new())
    }
}

impl Default for MultiPolygon {
    /// The multipolygon of no polygons.
    fn default() -> (r: MultiPolygon)
        ensures
            r.0@.len() == 0,
    {
        MultiPolygon(Vec::new())
    }
}

} // verus!
