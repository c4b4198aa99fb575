//! The filter dispatcher and the filter set.
//!
//! [`Filter`] is the closed sum of the five filter variants; evaluating it
//! delegates to the active variant.  [`LasHeaderFilter`] is the fixed
//! collection of twelve optional slots, one per filterable attribute,
//! combined by logical AND: an absent slot is vacuously true, and an empty
//! set matches every file.

use vstd::prelude::*;

use crate::date_filter::{date_eval, DateFilter};
use crate::header::MyHeader;
use crate::list_filter::{list_eval, ListFilter};
use crate::numeric_filter::{numeric_eval, NumericFilter};
use crate::spatial_filter::{spatial_eval, SpatialFilter};
use crate::string_filter::{string_eval, StringFilter};

verus! {

/// One filter of any of the five variants.
pub enum Filter {
    FSpatial(SpatialFilter),
    FString(StringFilter),
    FNumeric(NumericFilter),
    FDate(DateFilter),
    FList(ListFilter),
}

/// What evaluating `f` against a snapshot returns: the active variant's
/// own evaluation.
pub open spec fn filter_eval(f: Filter, h: MyHeader) -> bool {
    match f {
        Filter::FNumeric(x) => numeric_eval(x, h),
        Filter::FString(x) => string_eval(x, h),
        Filter::FDate(x) => date_eval(x, h),
        Filter::FList(x) => list_eval(x, h),
        Filter::FSpatial(x) => spatial_eval(x, h),
    }
}

impl Filter {
    /// Evaluates the active variant against the snapshot.
    pub fn compare(&self, header: &MyHeader) -> (r: bool)
        ensures
            r == filter_eval(*self, *header),
    {
        match self {
            Filter::FNumeric(f) => f.compare(header),
            Filter::FString(f) => f.compare(header),
            Filter::FDate(f) => f.compare(header),
            Filter::FList(f) => f.compare(header),
            Filter::FSpatial(f) => f.compare(header),
        }
    }
}

/// Whether a slot passes a snapshot: an empty slot always does, a
/// populated one when its filter evaluates true.
pub open spec fn slot_pass(s: Option<Filter>, h: MyHeader) -> bool {
    match s {
        None => true,
        Some(f) => filter_eval(f, h),
    }
}

/// The filter set: twelve named optional slots, one per filterable header
/// attribute, populated at configuration time and never mutated during
/// evaluation.
pub struct LasHeaderFilter {
    pub file_source_id_filter: Option<Filter>,
    pub gps_time_type_filter: Option<Filter>,
    pub synthetic_return_numbers_filter: Option<Filter>,
    pub guid_filter: Option<Filter>,
    pub version_filter: Option<Filter>,
    pub system_identifier_filter: Option<Filter>,
    pub generating_software_filter: Option<Filter>,
    pub date_filter: Option<Filter>,
    pub point_format_filter: Option<Filter>,
    pub transform_filter: Option<Filter>,
    pub geom_filter: Option<Filter>,
    pub number_of_points_filter: Option<Filter>,
}

fn check_slot(s: &Option<Filter>, header: &MyHeader) -> (r: bool)
    ensures
        r == slot_pass(*s, *header),
{
    match s {
        None => true,
        Some(f) => f.compare(header),
    }
}

impl LasHeaderFilter {
    /// The slots in their fixed, attribute-defined order.
    pub open spec fn slots(self) -> Seq<Option<Filter>> {
        seq![
            self.file_source_id_filter,
            self.gps_time_type_filter,
            self.synthetic_return_numbers_filter,
            self.guid_filter,
            self.version_filter,
            self.system_identifier_filter,
            self.generating_software_filter,
            self.date_filter,
            self.point_format_filter,
            self.transform_filter,
            self.geom_filter,
            self.number_of_points_filter,
        ]
    }

    /// The filter set's decision: the AND over all slots, an empty slot
    /// counting as true.
    pub open spec fn set_eval(self, h: MyHeader) -> bool {
        forall|i: int| 0 <= i < self.slots().len() ==> slot_pass(#[trigger] self.slots()[i], h)
    }

    /// An empty filter set: every slot vacant.
    pub fn new() -> (r: LasHeaderFilter)
        ensures
            forall|i: int| 0 <= i < r.slots().len() ==> r.slots()[i] is None,
    {
        LasHeaderFilter {
            file_source_id_filter: None,
            gps_time_type_filter: None,
            synthetic_return_numbers_filter: None,
            guid_filter: None,
            version_filter: None,
            system_identifier_filter: None,
            generating_software_filter: None,
            date_filter: None,
            point_format_filter: None,
            transform_filter: None,
            geom_filter: None,
            number_of_points_filter: None,
        }
    }

    /// Evaluates the snapshot against every populated slot, in the fixed
    /// slot order, false at the first failing one: the result is the AND
    /// over the twelve slots.
    pub fn filter(&self, header: &MyHeader) -> (r: bool)
        ensures
            r == self.set_eval(*header),
    {
        if !check_slot(&self.file_source_id_filter, header) {
            proof {
                assert(self.slots()[0] == self.file_source_id_filter);
            }
            return false;
        }
        if !check_slot(&self.gps_time_type_filter, header) {
            proof {
                assert(self.slots()[1] == self.gps_time_type_filter);
            }
            return false;
        }
        if !check_slot(&self.synthetic_return_numbers_filter, header) {
            proof {
                assert(self.slots()[2] == self.synthetic_return_numbers_filter);
            }
            return false;
        }
        if !check_slot(&self.guid_filter, header) {
            proof {
                assert(self.slots()[3] == self.guid_filter);
            }
            return false;
        }
        if !check_slot(&self.version_filter, header) {
            proof {
                assert(self.slots()[4] == self.version_filter);
            }
            return false;
        }
        if !check_slot(&self.system_identifier_filter, header) {
            proof {
                assert(self.slots()[5] == self.system_identifier_filter);
            }
            return false;
        }
        if !check_slot(&self.generating_software_filter, header) {
            proof {
                assert(self.slots()[6] == self.generating_software_filter);
            }
            return false;
        }
        if !check_slot(&self.date_filter, header) {
            proof {
                assert(self.slots()[7] == self.date_filter);
            }
            return false;
        }
        if !check_slot(&self.point_format_filter, header) {
            proof {
                assert(self.slots()[8] == self.point_format_filter);
            }
            return false;
        }
        if !check_slot(&self.transform_filter, header) {
            proof {
                assert(self.slots()[9] == self.transform_filter);
            }
            return false;
        }
        if !check_slot(&self.geom_filter, header) {
            proof {
                assert(self.slots()[10] == self.geom_filter);
            }
            return false;
        }
        if !check_slot(&self.number_of_points_filter, header) {
            proof {
                assert(self.slots()[11] == self.number_of_points_filter);
            }
            return false;
        }
        proof {
            assert forall|i: int| 0 <= i < self.slots().len() implies slot_pass(
                #[trigger] self.slots()[i],
                *header,
            ) by {
                assert(self.slots()[0] == self.file_source_id_filter);
                assert(self.slots()[1] == self.gps_time_type_filter);
                assert(self.slots()[2] == self.synthetic_return_numbers_filter);
                assert(self.slots()[3] == self.guid_filter);
                assert(self.slots()[4] == self.version_filter);
                assert(self.slots()[5] == self.system_identifier_filter);
                assert(self.slots()[6] == self.generating_software_filter);
                assert(self.slots()[7] == self.date_filter);
                assert(self.slots()[8] == self.point_format_filter);
                assert(self.slots()[9] == self.transform_filter);
                assert(self.slots()[10] == self.geom_filter);
                assert(self.slots()[11] == self.number_of_points_filter);
            }
        }
        true
    }
}

/// A filter set with no populated slot passes every snapshot.
pub proof fn lemma_empty_set_passes(fs: LasHeaderFilter, h: MyHeader)
    requires
        forall|i: int| 0 <= i < fs.slots().len() ==> #[trigger] fs.slots()[i] is None,
    ensures
        fs.set_eval(h),
{
    assert forall|i: int| 0 <= i < fs.slots().len() implies slot_pass(
        #[trigger] fs.slots()[i],
        h,
    ) by {
        assert(fs.slots()[i] is None);
    }
}

/// One populated slot whose filter evaluates false rejects the snapshot,
/// whatever the other slots hold.
pub proof fn lemma_failing_slot_rejects(fs: LasHeaderFilter, h: MyHeader, i: int)
    requires
        0 <= i < fs.slots().len(),
        fs.slots()[i] matches Some(f) && !filter_eval(f, h),
    ensures
        !fs.set_eval(h),
{
    assert(!slot_pass(fs.slots()[i], h));
}

} // verus!
