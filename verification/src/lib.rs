//! Filters for point-cloud file headers.
//!
//! A caller builds a [`filter::LasHeaderFilter`] by filling any of its twelve
//! optional slots with a typed filter (numeric, string, date, spatial or
//! list), each parsed once from a user-supplied predicate string.  A file's
//! header is condensed into a [`header::MyHeader`] snapshot, and the filter
//! set accepts the file exactly when every populated slot passes.

use vstd::prelude::*;

pub mod date_filter;
pub mod filter;
pub mod geom;
pub mod header;
pub mod list_filter;
pub mod numeric_filter;
pub mod operator;
pub mod spatial_filter;
pub mod string_filter;

verus! {

/// A configuration error, reported once when a filter is built and before
/// any file is scanned.
#[derive(Clone, Copy, Debug, PartialEq, Eq, Structural)]
pub enum FilterError {
    /// The predicate string has no leading comparison operator, or its
    /// operand cannot be read as the kind of value the filter needs.
    MalformedPredicate,
    /// The operand of a date predicate is not a date in the given format.
    MalformedDate,
    /// The named header attribute is not one this filter can test.
    UnknownAttribute,
}

} // verus!
