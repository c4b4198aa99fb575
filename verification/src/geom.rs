//! Geometry values and predicates, supplied by the `geo` crate.
//!
//! Geometry construction and the geometric predicate implementations are
//! outside the scope of this library, so a geometry value is opaque here:
//! each wrapper struct holds a `geo` value that the filters only carry and
//! hand back to `geo`.  (The `geo` types themselves cannot be declared to
//! the verifier, since their type parameter is bounded by a trait of that
//! crate.)  Each geometric verdict is deterministic in the geometry values
//! alone, so it is given a name below; the trusted wrappers state that they
//! return exactly that named verdict, and the spatial filter's contract is
//! phrased over the names.

use vstd::prelude::*;

use geo::Centroid;
use geo::{Contains, EuclideanDistance, Intersects, Within};

verus! {

/// A file's bounding polygon.  Opaque: only the geometric predicates below
/// read it.
#[verifier::external_body]
pub struct BoundingPolygon {
    pub inner: geo::Polygon,
}

/// A point, the geometric center of a bounding polygon or of a reference
/// geometry.  Opaque: only the geometric predicates below read it.
#[verifier::external_body]
pub struct GeoPoint {
    pub inner: geo::Point,
}

/// A reference geometry (polygon, line or point) supplied by the caller.
/// Opaque: only the geometric predicates below read it.
#[verifier::external_body]
pub struct ReferenceGeometry {
    pub inner: geo::Geometry,
}

/// Whether the bounding polygon and the reference geometry share any point.
pub uninterp spec fn intersects_of(bbox: BoundingPolygon, geom: ReferenceGeometry) -> bool;

/// Whether the bounding polygon contains the reference geometry.
pub uninterp spec fn contains_of(bbox: BoundingPolygon, geom: ReferenceGeometry) -> bool;

/// Whether the bounding polygon lies within the reference geometry.
pub uninterp spec fn within_of(bbox: BoundingPolygon, geom: ReferenceGeometry) -> bool;

/// Whether the point lies within the reference geometry.
pub uninterp spec fn point_within_of(point: GeoPoint, geom: ReferenceGeometry) -> bool;

/// The geometric center of the reference geometry, absent when the
/// geometry is empty.
pub uninterp spec fn centroid_of(geom: ReferenceGeometry) -> Option<GeoPoint>;

/// Whether the distance between the two points is at most the radius
/// written in `dist`, and `dist` is a number.
pub uninterp spec fn distance_within_of(point: GeoPoint, other: GeoPoint, dist: Seq<char>) -> bool;

/// Relies on geo's `Intersects::intersects`: whether the bounding polygon
/// and the reference geometry share any point, a function of the two
/// geometry values alone.
#[verifier::external_body]
pub(crate) fn polygon_intersects(bbox: &BoundingPolygon, geom: &ReferenceGeometry) -> (r: bool)
    ensures
        r == intersects_of(*bbox, *geom),
{
    bbox.inner.intersects(&geom.inner)
}

/// Relies on geo's `Contains::contains`: whether the bounding polygon
/// contains the reference geometry, a function of the two geometry values
/// alone.
#[verifier::external_body]
pub(crate) fn polygon_contains(bbox: &BoundingPolygon, geom: &ReferenceGeometry) -> (r: bool)
    ensures
        r == contains_of(*bbox, *geom),
{
    bbox.inner.contains(&geom.inner)
}

/// Relies on geo's `Within::is_within`: whether the bounding polygon lies
/// within the reference geometry, a function of the two geometry values
/// alone.
#[verifier::external_body]
pub(crate) fn polygon_within(bbox: &BoundingPolygon, geom: &ReferenceGeometry) -> (r: bool)
    ensures
        r == within_of(*bbox, *geom),
{
    bbox.inner.is_within(&geom.inner)
}

/// Relies on geo's `Within::is_within`: whether the centroid point lies
/// within the reference geometry, a function of the two geometry values
/// alone.
#[verifier::external_body]
pub(crate) fn point_within(point: &GeoPoint, geom: &ReferenceGeometry) -> (r: bool)
    ensures
        r == point_within_of(*point, *geom),
{
    point.inner.is_within(&geom.inner)
}

/// Relies on geo's `Centroid::centroid`: the geometric center of the
/// reference geometry, absent when the geometry is empty; a function of the
/// geometry value alone.
#[verifier::external_body]
pub(crate) fn geometry_centroid(geom: &ReferenceGeometry) -> (r: Option<GeoPoint>)
    ensures
        r == centroid_of(*geom),
{
    match geom.inner.centroid() {
        Some(p) => Some(GeoPoint { inner: p }),
        None => None,
    }
}

/// Relies on geo's `EuclideanDistance::euclidean_distance` and on
/// `str::parse`: whether the distance between the two points is at most the
/// radius written in `dist`, `false` when `dist` is not a number; a
/// function of the two points and the radius text alone.
#[verifier::external_body]
#[allow(deprecated)]
pub(crate) fn point_distance_within(point: &GeoPoint, other: &GeoPoint, dist: &str) -> (r: bool)
    ensures
        r == distance_within_of(*point, *other, dist@),
{
    match dist.parse() {
        Ok(d) => point.inner.euclidean_distance(&other.inner) <= d,
        Err(_) => false,
    }
}

} // verus!
