//! The string filter: one operand text against one of five text-like
//! header attributes.
//!
//! The operand's meaning depends on the attribute: the literal `"week"` or
//! `"standard"` for the GPS-time type, a semantic-version range for the
//! format version, and a regular expression for the GUID, the generating
//! software and the system identifier.  Every operand is validated when the
//! filter is built, so no malformed range or pattern reaches evaluation.

use vstd::prelude::*;

use crate::header::{GpsTimeType, MyHeader};
use crate::FilterError;

verus! {

/// Whether `pattern` is a valid regular expression.
pub uninterp spec fn regex_ok(pattern: Seq<char>) -> bool;

/// Whether the regular expression `pattern` matches somewhere in `text`.
pub uninterp spec fn regex_match(pattern: Seq<char>, text: Seq<char>) -> bool;

/// Relies on regex's `Regex::new` (whether `pattern` compiles, which
/// depends on `pattern` alone) and `Regex::is_match` (whether the compiled
/// pattern matches `text`, which depends on the two strings alone).
#[verifier::external_body]
fn regex_is_match(pattern: &str, text: &str) -> (r: Option<bool>)
    ensures
        r is Some <==> regex_ok(pattern@),
        r matches Some(b) ==> b == regex_match(pattern@, text@),
{
    match regex::Regex::new(pattern) {
        Ok(re) => Some(re.is_match(text)),
        Err(_) => None,
    }
}

/// Whether `range` is a valid semantic-version range expression.
pub uninterp spec fn range_ok(range: Seq<char>) -> bool;

/// Whether version `major.minor.patch` satisfies the range expression
/// `range`.
pub uninterp spec fn range_match(range: Seq<char>, major: int, minor: int, patch: int) -> bool;

/// Relies on semver's `VersionReq::parse` (whether `range` parses, which
/// depends on `range` alone) and `VersionReq::matches` (whether the version
/// built by `Version::new(major, minor, patch)` satisfies the parsed range,
/// which depends on the range text and the three numbers alone).
#[verifier::external_body]
fn version_req_matches(range: &str, major: u64, minor: u64, patch: u64) -> (r: Option<bool>)
    ensures
        r is Some <==> range_ok(range@),
        r matches Some(b) ==> b == range_match(range@, major as int, minor as int, patch as int),
{
    match semver::VersionReq::parse(range) {
        Ok(req) => Some(req.matches(&semver::Version::new(major, minor, patch))),
        Err(_) => None,
    }
}

/// Which text-like header attribute a string filter tests.
#[derive(Clone, Copy, Debug, PartialEq, Eq, Structural)]
pub enum StringAttribute {
    GpsTimeType,
    LasVersion,
    Guid,
    GeneratingSoftware,
    SystemIdentifier,
}

pub open spec fn string_attr_of(s: Seq<char>) -> Option<StringAttribute> {
    if s == "gps_time_type"@ {
        Some(StringAttribute::GpsTimeType)
    } else if s == "las_version"@ {
        Some(StringAttribute::LasVersion)
    } else if s == "guid"@ {
        Some(StringAttribute::Guid)
    } else if s == "generating_software"@ {
        Some(StringAttribute::GeneratingSoftware)
    } else if s == "system_identifier"@ {
        Some(StringAttribute::SystemIdentifier)
    } else {
        None
    }
}

/// Whether `v` is a valid operand for attribute `a`: the two GPS-time
/// literals, a parseable version range, or a compilable pattern.
pub open spec fn string_operand_ok(a: StringAttribute, v: Seq<char>) -> bool {
    match a {
        StringAttribute::GpsTimeType => v == "week"@ || v == "standard"@,
        StringAttribute::LasVersion => range_ok(v),
        StringAttribute::Guid => regex_ok(v),
        StringAttribute::GeneratingSoftware => regex_ok(v),
        StringAttribute::SystemIdentifier => regex_ok(v),
    }
}

/// A filter testing one text-like header attribute against a stored
/// operand.
#[derive(Debug, PartialEq, Eq)]
pub struct StringFilter {
    pub value: String,
    pub header_attribute: StringAttribute,
}

/// Whether the snapshot satisfies the filter: equality of the GPS-time
/// type, the version inside the range, or the pattern matching the
/// stringified field.  (The version is compared with patch level zero, as
/// the snapshot carries only major and minor.)
pub open spec fn string_eval(f: StringFilter, h: MyHeader) -> bool {
    match f.header_attribute {
        StringAttribute::GpsTimeType => if f.value@ == "week"@ {
            h.gps_time_type is Week
        } else if f.value@ == "standard"@ {
            h.gps_time_type is Standard
        } else {
            false
        },
        StringAttribute::LasVersion => range_ok(f.value@) && range_match(
            f.value@,
            h.version_major as int,
            h.version_minor as int,
            0,
        ),
        StringAttribute::Guid => regex_ok(f.value@) && regex_match(f.value@, h.guid@),
        StringAttribute::GeneratingSoftware => regex_ok(f.value@) && regex_match(
            f.value@,
            h.generating_software@,
        ),
        StringAttribute::SystemIdentifier => regex_ok(f.value@) && regex_match(
            f.value@,
            h.system_identifier@,
        ),
    }
}

impl StringFilter {
    /// Builds the filter from its operand text and the name of the header
    /// attribute it tests, validating the operand for that attribute.
    pub fn new(input_string: &String, attribute_name: &String) -> (r: Result<
        StringFilter,
        FilterError,
    >)
        ensures
            match r {
                Ok(f) => string_attr_of(attribute_name@) == Some(f.header_attribute) && f.value@
                    == input_string@ && string_operand_ok(f.header_attribute, input_string@),
                Err(e) => (string_attr_of(attribute_name@) is None && e
                    == FilterError::UnknownAttribute) || (string_attr_of(attribute_name@) matches
                Some(a) && !string_operand_ok(a, input_string@) && e
                    == FilterError::MalformedPredicate),
            },
    {
        let attr = if *attribute_name == "gps_time_type".to_owned() {
            StringAttribute::GpsTimeType
        } else if *attribute_name == "las_version".to_owned() {
            StringAttribute::LasVersion
        } else if *attribute_name == "guid".to_owned() {
            StringAttribute::Guid
        } else if *attribute_name == "generating_software".to_owned() {
            StringAttribute::GeneratingSoftware
        } else if *attribute_name == "system_identifier".to_owned() {
            StringAttribute::SystemIdentifier
        } else {
            return Err(FilterError::UnknownAttribute);
        };
        let ok = match attr {
            StringAttribute::GpsTimeType => *input_string == "week".to_owned() || *input_string
                == "standard".to_owned(),
            StringAttribute::LasVersion => version_req_matches(
                input_string.as_str(),
                0,
                0,
                0,
            ).is_some(),
            StringAttribute::Guid => regex_is_match(input_string.as_str(), "").is_some(),
            StringAttribute::GeneratingSoftware => regex_is_match(
                input_string.as_str(),
                "",
            ).is_some(),
            StringAttribute::SystemIdentifier => regex_is_match(
                input_string.as_str(),
                "",
            ).is_some(),
        };
        if ok {
            Ok(StringFilter { value: input_string.clone(), header_attribute: attr })
        } else {
            Err(FilterError::MalformedPredicate)
        }
    }

    /// Whether the snapshot's attribute satisfies the stored operand.
    pub fn compare(&self, header: &MyHeader) -> (r: bool)
        ensures
            r == string_eval(*self, *header),
    {
        match self.header_attribute {
            StringAttribute::GpsTimeType => {
                if self.value == "week".to_owned() {
                    header.gps_time_type == GpsTimeType::Week
                } else if self.value == "standard".to_owned() {
                    header.gps_time_type == GpsTimeType::Standard
                } else {
                    false
                }
            },
            StringAttribute::LasVersion => {
                match version_req_matches(
                    self.value.as_str(),
                    header.version_major,
                    header.version_minor,
                    0,
                ) {
                    Some(b) => b,
                    None => false,
                }
            },
            StringAttribute::Guid => {
                match regex_is_match(self.value.as_str(), header.guid.as_str()) {
                    Some(b) => b,
                    None => false,
                }
            },
            StringAttribute::GeneratingSoftware => {
                match regex_is_match(self.value.as_str(), header.generating_software.as_str()) {
                    Some(b) => b,
                    None => false,
                }
            },
            StringAttribute::SystemIdentifier => {
                match regex_is_match(self.value.as_str(), header.system_identifier.as_str()) {
                    Some(b) => b,
                    None => false,
                }
            },
        }
    }
}

} // verus!
