//! Geometric values of the ClickHouse client: points, rings, polygons and
//! multipolygons, their literal text, their tagged-value encoding, and the
//! exterior/hole split used to exchange polygons with a general-purpose
//! geometry model.
//!
//! Coordinates are held as the IEEE-754 bit patterns of 64-bit floats.
use vstd::prelude::*;

pub mod point;

pub use point::Point;

pub mod shapes;

pub use shapes::{MultiPolygon, Polygon, Ring};

pub mod text;

pub mod value;

pub use value::{GeoError, Type, Value};

pub mod bridge;

pub use bridge::PolygonWithHoles;
