use std::collections::hash_map::DefaultHasher;
use std::hash::{Hash, Hasher};

use klickhouse_geo::bridge::PolygonWithHoles;
use klickhouse_geo::text::{render_list, render_point};
use klickhouse_geo::{GeoError, MultiPolygon, Point, Polygon, Ring, Type, Value};

fn pt(x: f64, y: f64) -> Point {
    Point::new(x.to_bits(), y.to_bits())
}

fn ring(coords: &[(f64, f64)]) -> Ring {
    Ring(coords.iter().map(|&(x, y)| pt(x, y)).collect())
}

fn coord_text(bits: u64) -> String {
    f64::from_bits(bits).to_string()
}

fn point_text(p: &Point) -> String {
    render_point(&coord_text(p.0[0]), &coord_text(p.0[1]))
}

fn ring_text(r: &Ring) -> String {
    render_list(&r.0.iter().map(point_text).collect())
}

fn polygon_text(p: &Polygon) -> String {
    render_list(&p.0.iter().map(ring_text).collect())
}

fn hash_of(p: &Point) -> u64 {
    let mut h = DefaultHasher::new();
    p.hash(&mut h);
    h.finish()
}

fn line_string_to_ring(l: &geo_types::LineString) -> Ring {
    Ring(l.0.iter().map(|c| pt(c.x, c.y)).collect())
}

fn ring_to_line_string(r: Ring) -> geo_types::LineString {
    geo_types::LineString(
        r.0.iter()
            .map(|p| geo_types::Coord { x: f64::from_bits(p.0[0]), y: f64::from_bits(p.0[1]) })
            .collect(),
    )
}

fn geo_to_parts(p: &geo_types::Polygon) -> PolygonWithHoles {
    PolygonWithHoles {
        exterior: line_string_to_ring(p.exterior()),
        interiors: p.interiors().iter().map(line_string_to_ring).collect(),
    }
}

fn parts_to_geo(q: PolygonWithHoles) -> geo_types::Polygon {
    geo_types::Polygon::new(
        ring_to_line_string(q.exterior),
        q.interiors.into_iter().map(ring_to_line_string).collect(),
    )
}

fn line(coords: &[(f64, f64)]) -> geo_types::LineString {
    geo_types::LineString(coords.iter().map(|&(x, y)| geo_types::Coord { x, y }).collect())
}

#[test]
fn roundtrip() {
    let multipolygon_geo = geo_types::MultiPolygon(vec![
        geo_types::Polygon::new(
            line(&[(40.0, 40.0), (20.0, 45.0), (45.0, 30.0), (40.0, 40.0)]),
            vec![],
        ),
        geo_types::Polygon::new(
            line(&[(20.0, 35.0), (10.0, 30.0), (10.0, 10.0), (30.0, 5.0), (45.0, 20.0), (20.0, 35.0)]),
            vec![line(&[(30.0, 20.0), (20.0, 15.0), (20.0, 25.0), (30., 20.0)])],
        ),
    ]);
    let multipolygon =
        MultiPolygon::from_parts(multipolygon_geo.0.iter().map(geo_to_parts).collect());
    let multipolygon_geo2 =
        geo_types::MultiPolygon(multipolygon.into_parts().into_iter().map(parts_to_geo).collect());
    assert_eq!(multipolygon_geo, multipolygon_geo2);
}

#[test]
fn values_display() {
    let point = Point::new(1.0f64.to_bits(), 2.0f64.to_bits());
    assert_eq!(Point::from_sql(&Type::Point, point.to_sql()), Ok(point));
    let ring = Ring(vec![point]);
    assert_eq!(Ring::from_sql(&Type::Ring, ring.clone().to_sql()), Ok(ring.clone()));
    let polygon = Polygon(vec![ring]);
    assert_eq!(Polygon::from_sql(&Type::Polygon, polygon.clone().to_sql()), Ok(polygon.clone()));
    let multi = MultiPolygon(vec![polygon]);
    assert_eq!(MultiPolygon::from_sql(&Type::MultiPolygon, multi.clone().to_sql()), Ok(multi));
    assert_eq!(point_text(&point), "(1,2)");
}

#[test]
fn point_renders_as_pair() {
    assert_eq!(point_text(&pt(1.5, -2.0)), "(1.5,-2)");
    assert_eq!(render_point("3", "4.25"), "(3,4.25)");
}

#[test]
fn ring_renders_as_list() {
    assert_eq!(ring_text(&Ring(vec![])), "[]");
    assert_eq!(ring_text(&ring(&[(0.0, 0.0)])), "[(0,0)]");
    assert_eq!(ring_text(&ring(&[(0.0, 0.0), (1.0, 0.5), (2.0, 3.0)])), "[(0,0),(1,0.5),(2,3)]");
    assert_eq!(render_list(&vec!["a".to_string(), "b".to_string()]), "[a,b]");
}

#[test]
fn polygon_renders_nested() {
    let p = Polygon(vec![ring(&[(0.0, 0.0), (1.0, 0.0)]), ring(&[])]);
    assert_eq!(polygon_text(&p), "[[(0,0),(1,0)],[]]");
    assert_eq!(polygon_text(&Polygon(vec![])), "[]");
}

#[test]
fn wrong_descriptor_is_rejected() {
    let v = pt(1.0, 2.0).to_sql();
    assert_eq!(Point::from_sql(&Type::Ring, v), Err(GeoError::UnexpectedType(Type::Ring)));
    let r = Ring::from_sql(&Type::Point, Value::Point(pt(1.0, 2.0)));
    assert_eq!(r, Err(GeoError::UnexpectedType(Type::Point)));
    let u = Polygon::from_sql(&Type::UInt64, Value::UInt64(7));
    assert_eq!(u, Err(GeoError::UnexpectedType(Type::UInt64)));
}

#[test]
fn polygon_hole_round_trip() {
    let e = ring(&[(0.0, 0.0), (1.0, 0.0), (1.0, 1.0)]);
    let h = ring(&[(0.2, 0.2), (0.8, 0.2), (0.8, 0.8)]);
    let p = Polygon(vec![e.clone(), h.clone()]);
    let parts = p.clone().into_parts();
    assert_eq!(parts.exterior, e);
    assert_eq!(parts.interiors, vec![h]);
    assert_eq!(Polygon::from_parts(parts), p);
}

#[test]
fn empty_polygon_exports_empty_exterior() {
    let parts = Polygon(vec![]).into_parts();
    assert_eq!(parts.exterior, Ring(vec![]));
    assert!(parts.interiors.is_empty());
    let back = Polygon::from_parts(parts);
    assert_eq!(back, Polygon(vec![Ring(vec![])]));
}

#[test]
fn ring_becomes_polygon_without_holes() {
    let r = ring(&[(0.0, 0.0), (3.0, 0.0), (0.0, 4.0)]);
    let q = r.clone().into_polygon();
    assert_eq!(q.exterior, r);
    assert!(q.interiors.is_empty());
    assert_eq!(Polygon::from_parts(q).0.len(), 1);
}

#[test]
fn multipolygon_parts_keep_order() {
    let a = Polygon(vec![ring(&[(1.0, 1.0)])]);
    let b = Polygon(vec![ring(&[(2.0, 2.0)]), ring(&[(3.0, 3.0)])]);
    let m = MultiPolygon(vec![a.clone(), b.clone(), a.clone()]);
    let parts = m.clone().into_parts();
    assert_eq!(parts.len(), 3);
    assert_eq!(parts[1].interiors, vec![ring(&[(3.0, 3.0)])]);
    assert_eq!(MultiPolygon::from_parts(parts), m);
}

#[test]
fn hash_follows_bits() {
    assert_eq!(hash_of(&pt(1.25, -3.0)), hash_of(&pt(1.25, -3.0)));
    assert_ne!(hash_of(&pt(0.0, 0.0)), hash_of(&pt(-0.0, 0.0)));
    assert_eq!(pt(0.0, 0.0), pt(-0.0, 0.0));
}

#[test]
fn float_equality_on_bits() {
    let nan = pt(f64::NAN, 1.0);
    assert_ne!(nan, nan);
    assert_ne!(pt(1.0, 2.0), pt(1.0, 2.5));
    assert_eq!(Ring(vec![pt(1.0, 2.0)]), Ring(vec![pt(1.0, 2.0)]));
    assert_ne!(Ring(vec![pt(1.0, 2.0)]), Ring(vec![]));
}

#[test]
fn index_reads_ordinals() {
    let p = pt(5.0, 6.0);
    assert_eq!(p.index(0), Ok(5.0f64.to_bits()));
    assert_eq!(p.index(1), Ok(6.0f64.to_bits()));
    assert_eq!(p.index(2), Err(GeoError::IndexOutOfRange(2)));
    assert_eq!(p.as_ref(), &[5.0f64.to_bits(), 6.0f64.to_bits()]);
    assert_eq!(Point::default(), pt(0.0, 0.0));
}
