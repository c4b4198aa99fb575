//! The per-file header snapshot the filters are evaluated against.
//!
//! A snapshot is produced once per file by the header decoder, read by the
//! filters, and discarded.  Every field the filters reason about is a plain
//! value; only the bounding polygon and its centroid, which the spatial
//! predicates hand to the geometry library, are opaque geometry values.

use vstd::prelude::*;

verus! {

/// How a file records GPS time.
#[derive(Clone, Copy, Debug, PartialEq, Eq, Structural)]
pub enum GpsTimeType {
    Standard,
    Week,
}

/// A calendar date: the acquisition date a header may carry, or the operand
/// of a date predicate.
#[derive(Clone, Copy, Debug, PartialEq, Eq, Structural)]
pub struct CalendarDate {
    pub year: i32,
    pub month: u8,
    pub day: u8,
}

/// A key that orders dates as the calendar does: by year, then month, then
/// day.  The factors keep the three fields in separate ranges, so the key
/// is injective and monotone in each field.
pub open spec fn date_key(d: CalendarDate) -> int {
    d.year * 0x10000 + d.month * 0x100 + d.day
}

impl CalendarDate {
    /// The ordering key of this date, as an executable value.
    pub fn key(&self) -> (r: i64)
        ensures
            r as int == date_key(*self),
    {
        self.year as i64 * 0x10000 + self.month as i64 * 0x100 + self.day as i64
    }
}

/// The filterable fields of one file's header.
pub struct MyHeader {
    pub file_source_id: u16,
    pub gps_time_type: GpsTimeType,
    pub has_synthetic_return_numbers: bool,
    /// The GUID in its hyphenated textual form, as the regular-expression
    /// filter reads it.
    pub guid: String,
    pub version_major: u64,
    pub version_minor: u64,
    pub system_identifier: String,
    pub generating_software: String,
    /// The acquisition date; absent when the header stores none.
    pub date: Option<CalendarDate>,
    pub point_format: u8,
    /// The closed rectangle spanned by the header's min/max extent.
    pub bbox: crate::geom::BoundingPolygon,
    /// The geometric center of `bbox`.
    pub centroid: crate::geom::GeoPoint,
    pub number_of_points: u64,
}

} // verus!
