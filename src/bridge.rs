//! The exterior/hole split through which geo values are exchanged with a
//! general-purpose geometry model, whose polygon holds one exterior boundary
//! and a list of holes apart.
use vstd::prelude::*;
use crate::shapes::{MultiPolygon, Polygon, Ring};

verus! {

/// A polygon as the general-purpose geometry model holds it: the exterior
/// boundary and the holes apart.
#[derive(Clone, Debug)]
pub struct PolygonWithHoles {
    pub exterior: Ring,
    pub interiors: Vec<Ring>,
}

/// The number of rings of a polygon with holes: its exterior and its holes.
pub open spec fn ring_count(q: PolygonWithHoles) -> nat {
    1 + q.interiors@.len()
}

/// `p` is what importing `q` gives: the exterior, then the holes in order.
pub open spec fn imported(q: PolygonWithHoles, p: Polygon) -> bool {
    p.0@ == seq![q.exterior] + q.interiors@
}

/// `q` is what exporting `p` gives: the first ring as the exterior and the
/// rest, in order, as holes; a polygon of no rings gives an empty exterior and
/// no holes.
pub open spec fn exported(p: Polygon, q: PolygonWithHoles) -> bool {
    if p.0@.len() == 0 {
        q.exterior.0@.len() == 0 && q.interiors@.len() == 0
    } else {
        q.exterior == p.0@[0] && q.interiors@ == p.0@.drop_first()
    }
}

impl Ring {
    /// The polygon with this ring as its exterior and no holes.
    pub fn into_polygon(self) -> (r: PolygonWithHoles)
        ensures
            r.exterior == self,
            r.interiors@.len() == 0,
            ring_count(r) == 1,
    {
        PolygonWithHoles { exterior: self, interiors: Vec::new() }
    }
}

impl Polygon {
    /// Imports a polygon with holes: the exterior first, then the holes.
    pub fn from_parts(q: PolygonWithHoles) -> (r: Polygon)
        ensures
            imported(q, r),
    {
        let PolygonWithHoles { exterior, mut interiors } = q;
        let mut rings: Vec<Ring> = Vec::new();
        rings.push(exterior);
        rings.append(&mut interiors);
        Polygon(rings)
    }

    /// Exports the polygon: the first ring becomes the exterior, the others
    /// the holes; a polygon of no rings gives an empty exterior and no holes.
    pub fn into_parts(self) -> (r: PolygonWithHoles)
        ensures
            exported(self, r),
    {
        let mut rings = self.0;
        if rings.len() == 0 {
            return PolygonWithHoles { exterior: Ring(Vec::new()), interiors: Vec::new() };
        }
        let exterior = rings.remove(0);
        proof {
            assert(rings@ =~= self.0@.drop_first());
        }
        PolygonWithHoles { exterior, interiors: rings }
    }
}

impl MultiPolygon {
    /// Imports a multipolygon polygon by polygon, in order.
    pub fn from_parts(parts: Vec<PolygonWithHoles>) -> (r: MultiPolygon)
        ensures
            r.0@.len() == parts@.len(),
            forall|i: int| 0 <= i < parts@.len() ==> imported(#[trigger] parts@[i], r.0@[i]),
    {
        let n = parts.len();
        let mut rest = parts;
        let mut reversed: Vec<PolygonWithHoles> = Vec::new();
        while rest.len() > 0
            invariant
                n == parts@.len(),
                rest@.len() + reversed@.len() == n,
                rest@ == parts@.subrange(0, rest@.len() as int),
                forall|j: int| 0 <= j < reversed@.len() ==> #[trigger] reversed@[j] == parts@[n - 1 - j],
            decreases rest@.len(),
        {
            let q = rest.pop().unwrap();
            reversed.push(q);
        }
        let mut polygons: Vec<Polygon> = Vec::new();
        while reversed.len() > 0
            invariant
                n == parts@.len(),
                reversed@.len() + polygons@.len() == n,
                forall|j: int| 0 <= j < reversed@.len() ==> #[trigger] reversed@[j] == parts@[n - 1 - j],
                forall|i: int| 0 <= i < polygons@.len() ==> imported(#[trigger] parts@[i], polygons@[i]),
            decreases reversed@.len(),
        {
            let q = reversed.pop().unwrap();
            polygons.push(Polygon::from_parts(q));
        }
        MultiPolygon(polygons)
    }

    /// Exports a multipolygon polygon by polygon, in order.
    pub fn into_parts(self) -> (r: Vec<PolygonWithHoles>)
        ensures
            r@.len() == self.0@.len(),
            forall|i: int| 0 <= i < self.0@.len() ==> exported(#[trigger] self.0@[i], r@[i]),
    {
        let n = self.0.len();
        let mut rest = self.0;
        let mut reversed: Vec<Polygon> = Vec::new();
        while rest.len() > 0
            invariant
                n == self.0@.len(),
                rest@.len() + reversed@.len() == n,
                rest@ == self.0@.subrange(0, rest@.len() as int),
                forall|j: int| 0 <= j < reversed@.len() ==> #[trigger] reversed@[j] == self.0@[n - 1 - j],
            decreases rest@.len(),
        {
            let p = rest.pop().unwrap();
            reversed.push(p);
        }
        let mut parts: Vec<PolygonWithHoles> = Vec::new();
        while reversed.len() > 0
            invariant
                n == self.0@.len(),
                reversed@.len() + parts@.len() == n,
                forall|j: int| 0 <= j < reversed@.len() ==> #[trigger] reversed@[j] == self.0@[n - 1 - j],
                forall|i: int| 0 <= i < parts@.len() ==> exported(#[trigger] self.0@[i], parts@[i]),
            decreases reversed@.len(),
        {
            let p = reversed.pop().unwrap();
            parts.push(p.into_parts());
        }
        parts
    }
}

/// Exporting a polygon of at least one ring and importing the result gives
/// back the same rings in the same order: the exterior first, then each hole.
pub proof fn lemma_polygon_export_import(p: Polygon, q: PolygonWithHoles, back: Polygon)
    requires
        p.0@.len() > 0,
        exported(p, q),
        imported(q, back),
    ensures
        back.0@ == p.0@,
{
    assert(back.0@ =~= p.0@);
}

/// Importing a polygon with holes and exporting the result gives back the
/// same exterior and the same holes in the same order.
pub proof fn lemma_polygon_import_export(q: PolygonWithHoles, p: Polygon, back: PolygonWithHoles)
    requires
        imported(q, p),
        exported(p, back),
    ensures
        back.exterior == q.exterior,
        back.interiors@ == q.interiors@,
{
    assert(p.0@.drop_first() =~= q.interiors@);
}

/// Exporting a multipolygon whose polygons each have at least one ring and
/// importing the result gives back the same polygons, ring for ring.
pub proof fn lemma_multipolygon_export_import(
    m: MultiPolygon,
    parts: Seq<PolygonWithHoles>,
    back: MultiPolygon,
)
    requires
        forall|i: int| 0 <= i < m.0@.len() ==> (#[trigger] m.0@[i]).0@.len() > 0,
        parts.len() == m.0@.len(),
        forall|i: int| 0 <= i < m.0@.len() ==> exported(#[trigger] m.0@[i], parts[i]),
        back.0@.len() == parts.len(),
        forall|i: int| 0 <= i < parts.len() ==> imported(#[trigger] parts[i], back.0@[i]),
    ensures
        back.0@.len() == m.0@.len(),
        forall|i: int| 0 <= i < m.0@.len() ==> (#[trigger] back.0@[i]).0@ == m.0@[i].0@,
{
    assert forall|i: int| 0 <= i < m.0@.len() implies (#[trigger] back.0@[i]).0@ == m.0@[i].0@ by {
        lemma_polygon_export_import(m.0@[i], parts[i], back.0@[i]);
    }
}

/// Importing polygons with holes as a multipolygon and exporting it gives
/// back the same exteriors and holes, polygon for polygon.
pub proof fn lemma_multipolygon_import_export(
    parts: Seq<PolygonWithHoles>,
    m: MultiPolygon,
    back: Seq<PolygonWithHoles>,
)
    requires
        m.0@.len() == parts.len(),
        forall|i: int| 0 <= i < parts.len() ==> imported(#[trigger] parts[i], m.0@[i]),
        back.len() == m.0@.len(),
        forall|i: int| 0 <= i < m.0@.len() ==> exported(#[trigger] m.0@[i], back[i]),
    ensures
        back.len() == parts.len(),
        forall|i: int| 0 <= i < parts.len() ==> (#[trigger] back[i]).exterior == parts[i].exterior
            && back[i].interiors@ == parts[i].interiors@,
{
    assert forall|i: int| 0 <= i < parts.len() implies (#[trigger] back[i]).exterior == parts[i].exterior
        && back[i].interiors@ == parts[i].interiors@ by {
        lemma_polygon_import_export(parts[i], m.0@[i], back[i]);
    }
}

} // verus!
