use geo::Centroid;
use geo::{Geometry, LineString, Polygon};

use lasgrep::date_filter::DateFilter;
use lasgrep::filter::{Filter, LasHeaderFilter};
use lasgrep::geom::{BoundingPolygon, GeoPoint, ReferenceGeometry};
use lasgrep::header::{CalendarDate, GpsTimeType, MyHeader};
use lasgrep::list_filter::ListFilter;
use lasgrep::numeric_filter::{parse_numeric_predicate, Decimal, NumericFilter};
use lasgrep::operator::{parse_operator, Operator};
use lasgrep::spatial_filter::{SpatialFilter, SpatialPredicate};
use lasgrep::string_filter::StringFilter;
use lasgrep::FilterError;

fn unit_square_at(x0: f64, y0: f64) -> Polygon {
    Polygon::new(
        LineString::from(vec![(x0, y0), (x0, y0 + 1.0), (x0 + 1.0, y0 + 1.0), (x0 + 1.0, y0), (x0, y0)]),
        vec![],
    )
}

fn sample_header(point_count: u64, point_format: u8) -> MyHeader {
    let poly = unit_square_at(0.0, 0.0);
    let centroid = poly.centroid().unwrap();
    MyHeader {
        file_source_id: 7,
        gps_time_type: GpsTimeType::Standard,
        has_synthetic_return_numbers: false,
        guid: "00000000-0000-0000-0000-000000000000".to_string(),
        version_major: 1,
        version_minor: 5,
        system_identifier: "UnitTest".to_string(),
        generating_software: "lasgrep tests".to_string(),
        date: None,
        point_format,
        bbox: BoundingPolygon { inner: poly },
        centroid: GeoPoint { inner: centroid },
        number_of_points: point_count,
    }
}

#[test]
fn test_xx() {
    assert_eq!(
        parse_numeric_predicate("<10.0"),
        Ok((Operator::Less, Decimal { mantissa: 100, scale: 1 }))
    );
    assert_eq!(
        parse_numeric_predicate("<=15000"),
        Ok((Operator::LessEq, Decimal { mantissa: 15000, scale: 0 }))
    );
}

#[test]
fn operator_grammar_accepts_all_six() {
    assert_eq!(parse_operator("=10"), Ok((Operator::Equal, "10")));
    assert_eq!(parse_operator("!=10"), Ok((Operator::NotEqual, "10")));
    assert_eq!(parse_operator("<10"), Ok((Operator::Less, "10")));
    assert_eq!(parse_operator(">10"), Ok((Operator::Greater, "10")));
    assert_eq!(parse_operator("<=10"), Ok((Operator::LessEq, "10")));
    assert_eq!(parse_operator(">=10"), Ok((Operator::GreaterEq, "10")));
}

#[test]
fn operator_grammar_rejects_missing_operator() {
    assert_eq!(parse_operator("foo"), Err(FilterError::MalformedPredicate));
    assert_eq!(parse_operator(""), Err(FilterError::MalformedPredicate));
}

#[test]
fn numeric_filter_boundary() {
    let lt = NumericFilter::new(&"<10.0".to_string(), &"number_of_points".to_string()).unwrap();
    assert!(lt.compare(&sample_header(9, 2)));
    assert!(!lt.compare(&sample_header(10, 2)));
    assert!(!lt.compare(&sample_header(11, 2)));

    let le = NumericFilter::new(&"<=10.0".to_string(), &"number_of_points".to_string()).unwrap();
    assert!(le.compare(&sample_header(10, 2)));
    assert!(!le.compare(&sample_header(11, 2)));
}

#[test]
fn numeric_filter_file_source_id() {
    let eq = NumericFilter::new(&"=7".to_string(), &"file_source_id".to_string()).unwrap();
    assert!(eq.compare(&sample_header(1, 2)));
    let ne = NumericFilter::new(&"!=7".to_string(), &"file_source_id".to_string()).unwrap();
    assert!(!ne.compare(&sample_header(1, 2)));
}

#[test]
fn numeric_filter_fractional_operand_is_exact() {
    let gt = NumericFilter::new(&">2.5".to_string(), &"number_of_points".to_string()).unwrap();
    assert!(gt.compare(&sample_header(3, 2)));
    assert!(!gt.compare(&sample_header(2, 2)));
}

#[test]
fn numeric_filter_errors() {
    assert_eq!(
        NumericFilter::new(&"<10".to_string(), &"altitude".to_string()),
        Err(FilterError::UnknownAttribute)
    );
    assert_eq!(
        NumericFilter::new(&"10".to_string(), &"number_of_points".to_string()),
        Err(FilterError::MalformedPredicate)
    );
    assert_eq!(
        NumericFilter::new(&"<ten".to_string(), &"number_of_points".to_string()),
        Err(FilterError::MalformedPredicate)
    );
    assert_eq!(
        NumericFilter::new(&"<1.2.3".to_string(), &"number_of_points".to_string()),
        Err(FilterError::MalformedPredicate)
    );
}

#[test]
fn date_filter_missing_date_always_passes() {
    for pred in ["=2023-05-01", "!=2023-05-01", "<2023-05-01", ">2023-05-01"] {
        let f = DateFilter::new(
            &pred.to_string(),
            &"%Y-%m-%d".to_string(),
            &"date".to_string(),
        )
        .unwrap();
        assert!(f.compare(&sample_header(1, 2)));
    }
}

#[test]
fn date_filter_compares_calendar_order() {
    let f = DateFilter::new(
        &">2023-05-01".to_string(),
        &"%Y-%m-%d".to_string(),
        &"date".to_string(),
    )
    .unwrap();
    let mut later = sample_header(1, 2);
    later.date = Some(CalendarDate { year: 2023, month: 5, day: 2 });
    assert!(f.compare(&later));
    let mut same = sample_header(1, 2);
    same.date = Some(CalendarDate { year: 2023, month: 5, day: 1 });
    assert!(!f.compare(&same));
    let mut earlier = sample_header(1, 2);
    earlier.date = Some(CalendarDate { year: 2022, month: 12, day: 31 });
    assert!(!f.compare(&earlier));

    let eq = DateFilter::new(
        &"=2023-05-01".to_string(),
        &"%Y-%m-%d".to_string(),
        &"date".to_string(),
    )
    .unwrap();
    assert!(eq.compare(&same));
    assert!(!eq.compare(&later));
}

#[test]
fn date_filter_errors() {
    assert_eq!(
        DateFilter::new(
            &"2023-05-01".to_string(),
            &"%Y-%m-%d".to_string(),
            &"date".to_string()
        ),
        Err(FilterError::MalformedPredicate)
    );
    assert_eq!(
        DateFilter::new(
            &"=not-a-date".to_string(),
            &"%Y-%m-%d".to_string(),
            &"date".to_string()
        ),
        Err(FilterError::MalformedDate)
    );
}

#[test]
fn string_filter_version_range() {
    let f = StringFilter::new(&">=1.2, <2.0".to_string(), &"las_version".to_string()).unwrap();
    let mut h = sample_header(1, 2);
    h.version_major = 1;
    h.version_minor = 5;
    assert!(f.compare(&h));
    h.version_major = 2;
    h.version_minor = 0;
    assert!(!f.compare(&h));
}

#[test]
fn string_filter_gps_time_type() {
    let standard = StringFilter::new(&"standard".to_string(), &"gps_time_type".to_string()).unwrap();
    let week = StringFilter::new(&"week".to_string(), &"gps_time_type".to_string()).unwrap();
    let mut h = sample_header(1, 2);
    assert!(standard.compare(&h));
    assert!(!week.compare(&h));
    h.gps_time_type = GpsTimeType::Week;
    assert!(!standard.compare(&h));
    assert!(week.compare(&h));
}

#[test]
fn string_filter_regex_attributes() {
    let f = StringFilter::new(&"^Unit".to_string(), &"system_identifier".to_string()).unwrap();
    assert!(f.compare(&sample_header(1, 2)));
    let g = StringFilter::new(&"^Test".to_string(), &"system_identifier".to_string()).unwrap();
    assert!(!g.compare(&sample_header(1, 2)));
    let soft = StringFilter::new(&"tests$".to_string(), &"generating_software".to_string()).unwrap();
    assert!(soft.compare(&sample_header(1, 2)));
    let guid = StringFilter::new(&"^0000".to_string(), &"guid".to_string()).unwrap();
    assert!(guid.compare(&sample_header(1, 2)));
}

#[test]
fn string_filter_errors() {
    assert_eq!(
        StringFilter::new(&"x".to_string(), &"color".to_string()),
        Err(FilterError::UnknownAttribute)
    );
    assert_eq!(
        StringFilter::new(&"sometimes".to_string(), &"gps_time_type".to_string()),
        Err(FilterError::MalformedPredicate)
    );
    assert_eq!(
        StringFilter::new(&"(".to_string(), &"guid".to_string()),
        Err(FilterError::MalformedPredicate)
    );
    assert_eq!(
        StringFilter::new(&"no version range".to_string(), &"las_version".to_string()),
        Err(FilterError::MalformedPredicate)
    );
}

#[test]
fn spatial_filter_centroid_distance_zero() {
    let reference = ReferenceGeometry { inner: Geometry::Polygon(unit_square_at(0.0, 0.0)) };
    let f = SpatialFilter::new(
        reference,
        SpatialPredicate::CentroidDistance { dist: "0".to_string() },
    );
    // The header centroid coincides with the reference centroid.
    assert!(f.compare(&sample_header(1, 2)));

    let shifted = ReferenceGeometry { inner: Geometry::Polygon(unit_square_at(0.5, 0.0)) };
    let g = SpatialFilter::new(
        shifted,
        SpatialPredicate::CentroidDistance { dist: "0".to_string() },
    );
    assert!(!g.compare(&sample_header(1, 2)));
    let h = SpatialFilter::new(
        ReferenceGeometry { inner: Geometry::Polygon(unit_square_at(0.5, 0.0)) },
        SpatialPredicate::CentroidDistance { dist: "0.5".to_string() },
    );
    assert!(h.compare(&sample_header(1, 2)));
}

#[test]
fn spatial_filter_intersects_and_within() {
    let overlapping = ReferenceGeometry { inner: Geometry::Polygon(unit_square_at(0.5, 0.5)) };
    let f = SpatialFilter::new(overlapping, SpatialPredicate::Intersects);
    assert!(f.compare(&sample_header(1, 2)));

    let disjoint = ReferenceGeometry { inner: Geometry::Polygon(unit_square_at(5.0, 5.0)) };
    let g = SpatialFilter::new(disjoint, SpatialPredicate::Intersects);
    assert!(!g.compare(&sample_header(1, 2)));

    let bigger = ReferenceGeometry { inner: Geometry::Polygon(unit_square_at(-1.0, -1.0)) };
    let w = SpatialFilter::new(bigger, SpatialPredicate::Within);
    assert!(!w.compare(&sample_header(1, 2)));
}

#[test]
fn list_filter_membership() {
    let f = ListFilter::new(vec![1, 2, 6], &"point_format".to_string()).unwrap();
    assert!(f.compare(&sample_header(1, 6)));
    assert!(!f.compare(&sample_header(1, 3)));
}

#[test]
fn list_filter_errors() {
    assert_eq!(
        ListFilter::new(vec![1, 2], &"file_source_id".to_string()),
        Err(FilterError::UnknownAttribute)
    );
    assert_eq!(
        ListFilter::new(vec![1, 12], &"point_format".to_string()),
        Err(FilterError::MalformedPredicate)
    );
}

#[test]
fn filter_set_empty_passes_everything() {
    let set = LasHeaderFilter::new();
    assert!(set.filter(&sample_header(0, 0)));
    assert!(set.filter(&sample_header(123456789, 9)));
}

#[test]
fn filter_set_short_circuits_on_failing_slot() {
    let mut set = LasHeaderFilter::new();
    let passing =
        NumericFilter::new(&">1000".to_string(), &"number_of_points".to_string()).unwrap();
    let failing = ListFilter::new(vec![1], &"point_format".to_string()).unwrap();
    set.number_of_points_filter = Some(Filter::FNumeric(passing));
    set.point_format_filter = Some(Filter::FList(failing));
    assert!(!set.filter(&sample_header(5000, 2)));
}

#[test]
fn filter_set_end_to_end() {
    let mut set = LasHeaderFilter::new();
    set.number_of_points_filter = Some(Filter::FNumeric(
        NumericFilter::new(&">1000".to_string(), &"number_of_points".to_string()).unwrap(),
    ));
    set.point_format_filter = Some(Filter::FList(
        ListFilter::new(vec![2, 6], &"point_format".to_string()).unwrap(),
    ));
    assert!(set.filter(&sample_header(5000, 2)));
    assert!(!set.filter(&sample_header(500, 2)));
    assert!(!set.filter(&sample_header(5000, 9)));
}

#[test]
fn filter_set_mixes_variants() {
    let mut set = LasHeaderFilter::new();
    set.version_filter = Some(Filter::FString(
        StringFilter::new(&">=1.2, <2.0".to_string(), &"las_version".to_string()).unwrap(),
    ));
    set.date_filter = Some(Filter::FDate(
        DateFilter::new(
            &"<2024-01-01".to_string(),
            &"%Y-%m-%d".to_string(),
            &"date".to_string(),
        )
        .unwrap(),
    ));
    set.geom_filter = Some(Filter::FSpatial(SpatialFilter::new(
        ReferenceGeometry { inner: Geometry::Polygon(unit_square_at(0.5, 0.5)) },
        SpatialPredicate::Intersects,
    )));
    // Version in range, no date in the header, bounding boxes overlap.
    assert!(set.filter(&sample_header(1, 2)));

    set.geom_filter = Some(Filter::FSpatial(SpatialFilter::new(
        ReferenceGeometry { inner: Geometry::Polygon(unit_square_at(5.0, 5.0)) },
        SpatialPredicate::Intersects,
    )));
    assert!(!set.filter(&sample_header(1, 2)));
}
