//! The tagged-value encoding of geo values, checked on decode against a
//! type descriptor.
use vstd::prelude::*;
use crate::point::Point;
use crate::shapes::{MultiPolygon, Polygon, Ring};

verus! {

/// The type descriptor of a column or an argument.
#[derive(Clone, Copy, Debug, PartialEq, Eq, Structural)]
pub enum Type {
    UInt64,
    String,
    Point,
    Ring,
    Polygon,
    MultiPolygon,
}

/// A value in its tagged form, one variant per supported type.
#[derive(Clone, Debug)]
pub enum Value {
    UInt64(u64),
    String(Vec<u8>),
    Point(Point),
    Ring(Ring),
    Polygon(Polygon),
    MultiPolygon(MultiPolygon),
}

/// The two ways a geo operation can fail.
#[derive(Clone, Copy, Debug, PartialEq, Eq, Structural)]
pub enum GeoError {
    /// A decode was asked against a descriptor that names another type; it
    /// carries the descriptor received.
    UnexpectedType(Type),
    /// A point's coordinate was asked by an ordinal other than 0 and 1.
    IndexOutOfRange(u8),
}

/// The descriptor that a tagged value's variant stands for.
pub open spec fn type_of(v: Value) -> Type {
    match v {
        Value::UInt64(_) => Type::UInt64,
        Value::String(_) => Type::String,
        Value::Point(_) => Type::Point,
        Value::Ring(_) => Type::Ring,
        Value::Polygon(_) => Type::Polygon,
        Value::MultiPolygon(_) => Type::MultiPolygon,
    }
}

/// What decoding a point gives: the descriptor must name Point, and then the
/// payload is unwrapped.
pub open spec fn point_decoded(t: Type, v: Value) -> Result<Point, GeoError> {
    if t != Type::Point {
        Err(GeoError::UnexpectedType(t))
    } else {
        Ok(v->Point_0)
    }
}

impl Point {
    /// Wraps the value in its tagged variant.
    pub fn to_sql(self) -> (r: Value)
        ensures
            r == Value::Point(self),
    {
        Value::Point(self)
    }

    /// Unwraps a tagged value after checking that `type_` names Point.
    /// Where it does, the upstream dispatch guarantees the matching variant.
    pub fn from_sql(type_: &Type, value: Value) -> (r: Result<Point, GeoError>)
        requires
            *type_ == Type::Point ==> type_of(value) == Type::Point,
        ensures
            r == point_decoded(*type_, value),
            r is Err <==> *type_ != Type::Point,
    {
        if !matches!(type_, Type::Point) {
            return Err(GeoError::UnexpectedType(*type_));
        }
        match value {
            Value::Point(x) => Ok(x),
            _ => Err(GeoError::UnexpectedType(*type_)),
        }
    }
}

/// Decoding what encoding a point gave, against its own descriptor, gives
/// the point back.
pub proof fn lemma_point_round_trip(x: Point)
    ensures
        point_decoded(Type::Point, Value::Point(x)) == Ok::<Point, GeoError>(x),
{
}

/// What decoding a ring gives: the descriptor must name Ring, and then the
/// payload is unwrapped.
pub open spec fn ring_decoded(t: Type, v: Value) -> Result<Ring, GeoError> {
    if t != Type::Ring {
        Err(GeoError::UnexpectedType(t))
    } else {
        Ok(v->Ring_0)
    }
}

impl Ring {
    /// Wraps the value in its tagged variant.
    pub fn to_sql(self) -> (r: Value)
        ensures
            r == Value::Ring(self),
    {
        Value::Ring(self)
    }

    /// Unwraps a tagged value after checking that `type_` names Ring.
    /// Where it does, the upstream dispatch guarantees the matching variant.
    pub fn from_sql(type_: &Type, value: Value) -> (r: Result<Ring, GeoError>)
        requires
            *type_ == Type::Ring ==> type_of(value) == Type::Ring,
        ensures
            r == ring_decoded(*type_, value),
            r is Err <==> *type_ != Type::Ring,
    {
        if !matches!(type_, Type::Ring) {
            return Err(GeoError::UnexpectedType(*type_));
        }
        match value {
            Value::Ring(x) => Ok(x),
            _ => Err(GeoError::UnexpectedType(*type_)),
        }
    }
}

/// Decoding what encoding a ring gave, against its own descriptor, gives
/// the ring back.
pub proof fn lemma_ring_round_trip(x: Ring)
    ensures
        ring_decoded(Type::Ring, Value::Ring(x)) == Ok::<Ring, GeoError>(x),
{
}

/// What decoding a polygon gives: the descriptor must name Polygon, and then the
/// payload is unwrapped.
pub open spec fn polygon_decoded(t: Type, v: Value) -> Result<Polygon, GeoError> {
    if t != Type::Polygon {
        Err(GeoError::UnexpectedType(t))
    } else {
        Ok(v->Polygon_0)
    }
}

impl Polygon {
    /// Wraps the value in its tagged variant.
    pub fn to_sql(self) -> (r: Value)
        ensures
            r == Value::Polygon(self),
    {
        Value::Polygon(self)
    }

    /// Unwraps a tagged value after checking that `type_` names Polygon.
    /// Where it does, the upstream dispatch guarantees the matching variant.
    pub fn from_sql(type_: &Type, value: Value) -> (r: Result<Polygon, GeoError>)
        requires
            *type_ == Type::Polygon ==> type_of(value) == Type::Polygon,
        ensures
            r == polygon_decoded(*type_, value),
            r is Err <==> *type_ != Type::Polygon,
    {
        if !matches!(type_, Type::Polygon) {
            return Err(GeoError::UnexpectedType(*type_));
        }
        match value {
            Value::Polygon(x) => Ok(x),
            _ => Err(GeoError::UnexpectedType(*type_)),
        }
    }
}

/// Decoding what encoding a polygon gave, against its own descriptor, gives
/// the polygon back.
pub proof fn lemma_polygon_round_trip(x: Polygon)
    ensures
        polygon_decoded(Type::Polygon, Value::Polygon(x)) == Ok::<Polygon, GeoError>(x),
{
}

/// What decoding a multipolygon gives: the descriptor must name MultiPolygon, and then the
/// payload is unwrapped.
pub open spec fn multipolygon_decoded(t: Type, v: Value) -> Result<MultiPolygon, GeoError> {
    if t != Type::MultiPolygon {
        Err(GeoError::UnexpectedType(t))
    } else {
        Ok(v->MultiPolygon_0)
    }
}

impl MultiPolygon {
    /// Wraps the value in its tagged variant.
    pub fn to_sql(self) -> (r: Value)
        ensures
            r == Value::MultiPolygon(self),
    {
        Value::MultiPolygon(self)
    }

    /// Unwraps a tagged value after checking that `type_` names MultiPolygon.
    /// Where it does, the upstream dispatch guarantees the matching variant.
    pub fn from_sql(type_: &Type, value: Value) -> (r: Result<MultiPolygon, GeoError>)
        requires
            *type_ == Type::MultiPolygon ==> type_of(value) == Type::MultiPolygon,
        ensures
            r == multipolygon_decoded(*type_, value),
            r is Err <==> *type_ != Type::MultiPolygon,
    {
        if !matches!(type_, Type::MultiPolygon) {
            return Err(GeoError::UnexpectedType(*type_));
        }
        match value {
            Value::MultiPolygon(x) => Ok(x),
            _ => Err(GeoError::UnexpectedType(*type_)),
        }
    }
}

/// Decoding what encoding a multipolygon gave, against its own descriptor, gives
/// the multipolygon back.
pub proof fn lemma_multipolygon_round_trip(x: MultiPolygon)
    ensures
        multipolygon_decoded(Type::MultiPolygon, Value::MultiPolygon(x)) == Ok::<MultiPolygon, GeoError>(x),
{
}

} // verus!
