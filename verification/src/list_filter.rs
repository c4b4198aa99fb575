//! The list filter: set membership of the header's point-format code.
//!
//! No operator: the filter holds a finite set of allowed codes, each below
//! ten, and passes exactly when the header's code is one of them.

use vstd::prelude::*;

use crate::header::MyHeader;
use crate::FilterError;

verus! {

/// A filter passing the files whose point-format code is in a stored set.
#[derive(Debug, PartialEq, Eq)]
pub struct ListFilter {
    pub value: Vec<u8>,
    /// Kept for provenance only; evaluation does not read it.
    pub header_attribute: String,
}

/// Whether the snapshot's point-format code is one of the stored codes.
pub open spec fn list_eval(f: ListFilter, h: MyHeader) -> bool {
    f.value@.contains(h.point_format)
}

impl ListFilter {
    /// Builds the filter from the list of allowed point-format codes and
    /// the name of the attribute it tests — only the point format can be
    /// list-filtered, and every code must lie in `0..10`.
    pub fn new(value_list: Vec<u8>, attribute_name: &String) -> (r: Result<ListFilter, FilterError>)
        ensures
            match r {
                Ok(f) => attribute_name@ == "point_format"@ && f.value@ == value_list@
                    && f.header_attribute@ == attribute_name@ && (forall|i: int|
                    0 <= i < value_list@.len() ==> value_list@[i] < 10),
                Err(e) => (attribute_name@ != "point_format"@ && e == FilterError::UnknownAttribute)
                    || (attribute_name@ == "point_format"@ && e == FilterError::MalformedPredicate
                    && exists|i: int| 0 <= i < value_list@.len() && value_list@[i] >= 10),
            },
    {
        if !(*attribute_name == "point_format".to_owned()) {
            return Err(FilterError::UnknownAttribute);
        }
        let mut i: usize = 0;
        while i < value_list.len()
            invariant
                i <= value_list@.len(),
                attribute_name@ == "point_format"@,
                forall|j: int| 0 <= j < i ==> value_list@[j] < 10,
            decreases value_list@.len() - i,
        {
            if value_list[i] >= 10 {
                proof {
                    assert(0 <= i < value_list@.len() && value_list@[i as int] >= 10);
                }
                return Err(FilterError::MalformedPredicate);
            }
            i += 1;
        }
        Ok(ListFilter { value: value_list, header_attribute: attribute_name.clone() })
    }

    /// Whether the snapshot's point-format code is in the stored set.
    pub fn compare(&self, header: &MyHeader) -> (r: bool)
        ensures
            r == list_eval(*self, *header),
    {
        let mut i: usize = 0;
        while i < self.value.len()
            invariant
                i <= self.value@.len(),
                forall|j: int| 0 <= j < i ==> self.value@[j] != header.point_format,
            decreases self.value@.len() - i,
        {
            if self.value[i] == header.point_format {
                return true;
            }
            i += 1;
        }
        false
    }
}

} // verus!
