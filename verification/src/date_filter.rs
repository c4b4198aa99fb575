//! The date filter: `<operator><date>` against the header's acquisition
//! date.
//!
//! The operand is parsed once, at construction, against a caller-supplied
//! date format.  A header that carries no date always passes: absent data
//! never excludes a file.

use vstd::prelude::*;

use chrono::Datelike;

use crate::header::{date_key, CalendarDate, MyHeader};
use crate::operator::{op_cmp, parse_op_spec, parse_operator, Operator};
use crate::FilterError;

verus! {

/// The date that chrono reads from `s` under the format `fmt`, if any.
pub uninterp spec fn date_parse(s: Seq<char>, fmt: Seq<char>) -> Option<CalendarDate>;

/// Relies on chrono's `NaiveDate::parse_from_str`: deterministic in the
/// text and the format, and a parsed date is a real calendar date, so its
/// month is 1..=12 and its day 1..=31 (year, month and day read through
/// chrono's `Datelike`).
#[verifier::external_body]
fn parse_date(s: &str, fmt: &str) -> (r: Option<CalendarDate>)
    ensures
        r == date_parse(s@, fmt@),
        r matches Some(d) ==> 1 <= d.month <= 12 && 1 <= d.day <= 31,
{
    match chrono::NaiveDate::parse_from_str(s, fmt) {
        Ok(d) => Some(
            CalendarDate { year: d.year(), month: d.month() as u8, day: d.day() as u8 },
        ),
        Err(_) => None,
    }
}

/// A filter comparing the header's acquisition date against a date operand.
#[derive(Debug, PartialEq, Eq)]
pub struct DateFilter {
    pub operator: Operator,
    pub value: CalendarDate,
    /// Kept for provenance only; evaluation does not read it.
    pub header_attribute: String,
}

/// What `DateFilter::new` yields: the operator and the parsed date, or the
/// error.  No leading operator is a malformed predicate; an operand that is
/// no date under the given format is a malformed date.
pub open spec fn date_new_spec(s: Seq<char>, fmt: Seq<char>) -> Result<
    (Operator, CalendarDate),
    FilterError,
> {
    match parse_op_spec(s) {
        None => Err(FilterError::MalformedPredicate),
        Some(p) => match date_parse(p.1, fmt) {
            None => Err(FilterError::MalformedDate),
            Some(d) => Ok((p.0, d)),
        },
    }
}

/// Whether the header's date satisfies `date <operator> operand`; a header
/// without a date always passes.
pub open spec fn date_eval(f: DateFilter, h: MyHeader) -> bool {
    match h.date {
        None => true,
        Some(d) => op_cmp(f.operator, date_key(d), date_key(f.value)),
    }
}

impl DateFilter {
    /// Builds the filter from a predicate string (`"<op><date>"`), the date
    /// format the operand is written in, and the attribute name it was
    /// configured under.
    pub fn new(input_string: &String, date_format: &String, attribute_name: &String) -> (r: Result<
        DateFilter,
        FilterError,
    >)
        ensures
            match r {
                Ok(f) => date_new_spec(input_string@, date_format@) == Ok::<_, FilterError>(
                    (f.operator, f.value),
                ) && f.header_attribute@ == attribute_name@,
                Err(e) => date_new_spec(input_string@, date_format@) == Err::<
                    (Operator, CalendarDate),
                    _,
                >(e),
            },
    {
        match parse_operator(input_string.as_str()) {
            Err(e) => Err(e),
            Ok((op, rest)) => match parse_date(rest, date_format.as_str()) {
                None => Err(FilterError::MalformedDate),
                Some(d) => Ok(
                    DateFilter { operator: op, value: d, header_attribute: attribute_name.clone() },
                ),
            },
        }
    }

    /// Whether the snapshot's date satisfies `date <operator> operand`.  A
    /// snapshot without a date passes whatever the operator and operand.
    pub fn compare(&self, header: &MyHeader) -> (r: bool)
        ensures
            r == date_eval(*self, *header),
            header.date is None ==> r,
    {
        match header.date {
            None => true,
            Some(d) => {
                let a = d.key();
                let b = self.value.key();
                match self.operator {
                    Operator::Equal => a == b,
                    Operator::NotEqual => a != b,
                    Operator::Less => a < b,
                    Operator::Greater => a > b,
                    Operator::LessEq => a <= b,
                    Operator::GreaterEq => a >= b,
                }
            },
        }
    }
}

} // verus!
