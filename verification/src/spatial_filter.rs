//! The spatial filter: a geometric predicate between the header's bounding
//! polygon (or its centroid) and a caller-supplied reference geometry.
//!
//! The predicate set is closed; evaluation dispatches on the predicate kind
//! and hands the geometry values to the geometry library.  Each geometric
//! verdict is a named outcome of that library (see [`crate::geom`]), and
//! the contract here states exactly which verdict each predicate kind
//! returns.

use vstd::prelude::*;

use crate::geom::{
    centroid_of, contains_of, distance_within_of, geometry_centroid, intersects_of,
    point_distance_within, point_within, point_within_of, polygon_contains, polygon_intersects,
    polygon_within, within_of, ReferenceGeometry,
};
use crate::header::MyHeader;

verus! {

/// Which geometric relation the filter tests.
pub enum SpatialPredicate {
    /// The bounding polygon intersects the reference geometry.
    Intersects,
    /// The bounding polygon lies within the reference geometry.
    Within,
    /// The bounding polygon's centroid lies within the reference geometry.
    CentroidWithin,
    /// The bounding polygon contains the reference geometry.
    Contains,
    /// The two centroids lie at most this far apart; the radius is kept as
    /// the number written by the caller and read by the geometry wrapper.
    CentroidDistance { dist: String },
}

/// A filter testing a geometric relation against a reference geometry.
pub struct SpatialFilter {
    pub predicate: SpatialPredicate,
    pub geom: ReferenceGeometry,
}

/// Which geometric verdict the filter returns for a snapshot: the one its
/// predicate kind selects, between the snapshot's bounding polygon (or
/// centroid) and the reference geometry.  A reference geometry without a
/// centroid satisfies no distance predicate.
pub open spec fn spatial_eval(f: SpatialFilter, h: MyHeader) -> bool {
    match f.predicate {
        SpatialPredicate::Intersects => intersects_of(h.bbox, f.geom),
        SpatialPredicate::Within => within_of(h.bbox, f.geom),
        SpatialPredicate::CentroidWithin => point_within_of(h.centroid, f.geom),
        SpatialPredicate::Contains => contains_of(h.bbox, f.geom),
        SpatialPredicate::CentroidDistance { dist } => match centroid_of(f.geom) {
            Some(c) => distance_within_of(h.centroid, c, dist@),
            None => false,
        },
    }
}

impl SpatialFilter {
    /// Builds the filter from a reference geometry and a predicate kind.
    pub fn new(geom: ReferenceGeometry, predicate: SpatialPredicate) -> (r: SpatialFilter)
        ensures
            r.predicate == predicate,
            r.geom == geom,
    {
        SpatialFilter { predicate, geom }
    }

    /// Applies the stored predicate between the snapshot's bounding polygon
    /// (or centroid) and the reference geometry: the result is exactly the
    /// geometry library's verdict for the stored predicate kind.
    pub fn compare(&self, header: &MyHeader) -> (r: bool)
        ensures
            r == spatial_eval(*self, *header),
    {
        match &self.predicate {
            SpatialPredicate::Intersects => polygon_intersects(&header.bbox, &self.geom),
            SpatialPredicate::Contains => polygon_contains(&header.bbox, &self.geom),
            SpatialPredicate::Within => polygon_within(&header.bbox, &self.geom),
            SpatialPredicate::CentroidWithin => point_within(&header.centroid, &self.geom),
            SpatialPredicate::CentroidDistance { dist } => match geometry_centroid(&self.geom) {
                Some(c) => point_distance_within(&header.centroid, &c, dist.as_str()),
                None => false,
            },
        }
    }
}

} // verus!
