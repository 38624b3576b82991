//! Tests for the component constructors and their validation rules.

use query_druid::components::data_sources::{DataSource, JoinDataSourceError};
use query_druid::components::druid_types::DruidNativeType;
use query_druid::components::extraction_functions::{
    ExtractionFunction, LookupError, NullHandlingError,
};
use query_druid::components::dimension_specs::DimensionSpec;
use query_druid::components::granularities::Granularity;
use query_druid::components::intervals::{Interval, InvalidISO8601};
use query_druid::components::limit_specs::LimitSpec;
use query_druid::components::post_aggregations::{NonNumericConstant, PostAggregator};
use query_druid::components::search_query_specs::{SearchQuerySpec, ValueNotString};

#[test]
fn new_both_period_fails() {
    match Interval::new("P1D", "PT3H") {
        Err(InvalidISO8601(_)) => (),
        _ => panic!("did not receive expected error"),
    }
}

#[test]
fn new_proper_succeeds() {
    assert!(Interval::new("1", "2").is_ok());
}

#[test]
fn expected_string_repr() {
    let interval = Interval::new("2021-01-01", "2021-01-02T22:00:03").unwrap();
    assert_eq!(
        interval.to_text(),
        "2021-01-01/2021-01-02T22:00:03".to_string()
    );
}

#[test]
fn interval_round_trip() {
    let interval = Interval::new("2021-01-01", "P1D").unwrap();
    let back = Interval::parse(&interval.to_text()).unwrap();
    assert_eq!(back, interval);
}

#[test]
fn interval_parse_without_slash_fails() {
    match Interval::parse("2021-01-01") {
        Err(InvalidISO8601(s)) => assert_eq!(s, "2021-01-01"),
        _ => panic!("did not receive the expected error"),
    }
}

#[test]
fn invalid_left_fails() {
    let invalid_left = DataSource::union(vec!["a".into(), "b".into()]);
    let right = DataSource::lookup("l".to_owned());
    let right_prefix = "r".to_owned();
    let condition = "c == d".to_owned();
    let join_type = "inner".to_owned();
    match DataSource::join(invalid_left, right, right_prefix, condition, join_type) {
        Err(JoinDataSourceError::InvalidJoinSource { which, .. }) if which == "left" => (),
        _ => panic!("did not receive the expected error"),
    }
}

#[test]
fn invalid_right_fails() {
    let left = DataSource::table("t".to_owned());
    let invalid_right = DataSource::table("t2".to_owned());
    let right_prefix = "r".to_owned();
    let condition = "c == d".to_owned();
    let join_type = "left".to_owned();
    match DataSource::join(left, invalid_right, right_prefix, condition, join_type) {
        Err(JoinDataSourceError::InvalidJoinSource { which, .. }) if which == "right" => (),
        _ => panic!("did not receive the expected error"),
    }
}

#[test]
fn empty_right_prefix_fails() {
    let left = DataSource::table("t".to_owned());
    let right = DataSource::lookup("l".to_owned());
    let right_prefix = "".to_owned();
    let condition = "c == d".to_owned();
    let join_type = "inner".to_owned();
    match DataSource::join(left, right, right_prefix, condition, join_type) {
        Err(JoinDataSourceError::EmptyRightPrefix) => (),
        _ => panic!("did not receive the expected error"),
    }
}

#[test]
fn invalid_join_type_fails() {
    let left = DataSource::table("t".to_owned());
    let right = DataSource::lookup("l".to_owned());
    let right_prefix = "r".to_owned();
    let condition = "c == d".to_owned();
    let join_type = "outer".to_owned();
    match DataSource::join(left, right, right_prefix, condition, join_type) {
        Err(JoinDataSourceError::InvalidJoinType(join_type)) if join_type == "OUTER" => (),
        _ => panic!("did not receive the expected error"),
    }
}

#[test]
fn invalid_condition_fails() {
    let left = DataSource::table("t".to_owned());
    let right = DataSource::lookup("l".to_owned());
    let right_prefix = "r".to_owned();
    let condition = "c != d".to_owned();
    let join_type = "left".to_owned();
    match DataSource::join(left, right, right_prefix, condition, join_type) {
        Err(JoinDataSourceError::ConditionNotEquality) => (),
        _ => panic!("did not receive the expected error"),
    }
}

#[test]
fn join_normalizes_join_type() {
    let left = DataSource::table("t".to_owned());
    let right = DataSource::lookup("l".to_owned());
    match DataSource::join(left, right, "r".to_owned(), "c == d".to_owned(), "inner".to_owned()) {
        Ok(DataSource::Join { join_type, .. }) => assert_eq!(join_type, "INNER"),
        _ => panic!("join should succeed"),
    }
}

#[test]
fn dimension_specs_retain_true_replace_some_string_fails() {
    match DimensionSpec::lookup(
        "dim",
        "out_name",
        Some(true),
        Some(DruidNativeType::String("a".into())),
        None,
        None,
        None,
    ) {
        Err(LookupError::RetainingReplacingSimultaneously) => (),
        _ => panic!("did not receive the expected error"),
    }
}

#[test]
fn dimension_specs_retain_true_replace_some_fails() {
    match DimensionSpec::lookup(
        "dim",
        "out_name",
        Some(true),
        Some(DruidNativeType::Long(2)),
        None,
        None,
        None,
    ) {
        Err(LookupError::RetainingReplacingSimultaneously) => (),
        _ => panic!("did not receive the expected error"),
    }
}

#[test]
fn dimension_specs_retain_true_replace_empty_string_succeeds() {
    match DimensionSpec::lookup(
        "dim",
        "out_name",
        Some(true),
        Some(DruidNativeType::String("".into())),
        None,
        None,
        None,
    ) {
        Ok(_) => (),
        Err(LookupError::RetainingReplacingSimultaneously) => panic!(
            "empty string not being treated as valid input for replace_missing_value_with with retain_missing_value = true"
        ),
        Err(_) => panic!("unexpected error"),
    }
}

#[test]
fn extraction_functions_retain_true_replace_some_string_fails() {
    match ExtractionFunction::registered_lookup(
        "lookup".to_owned(),
        Some(true),
        Some(DruidNativeType::String("a".into())),
        None,
        None,
    ) {
        Err(LookupError::RetainingReplacingSimultaneously) => (),
        _ => panic!("did not receive the expected error"),
    }
}

#[test]
fn extraction_functions_retain_true_replace_some_fails() {
    match ExtractionFunction::registered_lookup(
        "lookup".to_owned(),
        Some(true),
        Some(DruidNativeType::Long(2)),
        None,
        None,
    ) {
        Err(LookupError::RetainingReplacingSimultaneously) => (),
        _ => panic!("did not receive the expected error"),
    }
}

#[test]
fn extraction_functions_retain_true_replace_empty_string_succeeds() {
    match ExtractionFunction::registered_lookup(
        "lookup".to_owned(),
        Some(true),
        Some(DruidNativeType::String("".into())),
        None,
        None,
    ) {
        Ok(_) => (),
        Err(LookupError::RetainingReplacingSimultaneously) => panic!(
            "empty string not being treated as valid input for replace_missing_value_with with retain_missing_value = true"
        ),
        Err(_) => panic!("unexpected error"),
    }
}

#[test]
fn string_format_fails_on_unknown_values() {
    match ExtractionFunction::string_format("a".to_owned(), Some("non_existent_option".into())) {
        Err(NullHandlingError {}) => (),
        _ => panic!("did not receive the expected error"),
    }
}

#[test]
fn string_format_accepts_the_three_literals() {
    assert!(ExtractionFunction::string_format("a".to_owned(), Some("nullString".into())).is_ok());
    assert!(ExtractionFunction::string_format("a".to_owned(), Some("emptyString".into())).is_ok());
    assert!(ExtractionFunction::string_format("a".to_owned(), Some("returnNull".into())).is_ok());
    assert!(ExtractionFunction::string_format("a".to_owned(), None).is_ok());
    assert!(ExtractionFunction::string_format("a".to_owned(), Some("NULLSTRING".into())).is_err());
}

#[test]
fn contant_must_be_numeric() {
    match PostAggregator::constant("name", DruidNativeType::String("heh".into())) {
        Err(NonNumericConstant {}) => (),
        _ => panic!("did not receive the expected error"),
    }
}

#[test]
fn constant_accepts_numeric_scalars() {
    assert!(PostAggregator::constant("c", DruidNativeType::Long(3)).is_ok());
    assert!(PostAggregator::constant("c", DruidNativeType::Double("2.5".into())).is_ok());
    assert!(PostAggregator::constant("c", DruidNativeType::Float("1.5".into())).is_ok());
    assert!(PostAggregator::constant("c", DruidNativeType::Array(vec!["a".into()])).is_err());
}

#[test]
fn arithmetic_ordering_must_be_numeric_first() {
    assert!(PostAggregator::arithmetic("a".into(), "+".into(), vec![], None).is_ok());
    assert!(
        PostAggregator::arithmetic("a".into(), "+".into(), vec![], Some("NUMERICfirst".into()))
            .is_ok()
    );
    match PostAggregator::arithmetic("a".into(), "+".into(), vec![], Some("alpha".into())) {
        Err(e) => {
            assert_eq!(e.value, "alpha");
            assert_eq!(e.expected, "numericFirst");
        }
        _ => panic!("did not receive the expected error"),
    }
}

#[test]
fn order_by_columns_spec_reads_ordering_case_insensitively() {
    assert!(LimitSpec::order_by_columns_spec(
        "dim".to_owned(),
        "ascending".to_owned(),
        Some("Numeric".to_owned())
    )
    .is_ok());
    match LimitSpec::order_by_columns_spec(
        "dim".to_owned(),
        "ascending".to_owned(),
        Some("weird".to_owned()),
    ) {
        Err(e) => {
            assert_eq!(e.value, "weird");
            assert_eq!(e.expected, "lexicographic, alphanumeric, numeric, strlen");
        }
        _ => panic!("did not receive the expected error"),
    }
}

#[test]
fn granularity_parse_accepts_the_fixed_names() {
    match Granularity::parse("Hour") {
        Ok(Granularity::Simple(s)) => assert_eq!(s, "Hour"),
        _ => panic!("parse should succeed"),
    }
    assert!(Granularity::parse("fifteen_minute").is_ok());
    match Granularity::parse("decade") {
        Err(e) => assert_eq!(e.0, "decade"),
        _ => panic!("did not receive the expected error"),
    }
}

#[test]
fn search_query_specs_require_string_values() {
    assert!(SearchQuerySpec::insensitive_contains(DruidNativeType::String("x".into())).is_ok());
    match SearchQuerySpec::insensitive_contains(DruidNativeType::Long(1)) {
        Err(ValueNotString) => (),
        _ => panic!("did not receive the expected error"),
    }
    assert!(SearchQuerySpec::contains(true, DruidNativeType::String("x".into())).is_ok());
    match SearchQuerySpec::contains(false, DruidNativeType::Double("1.0".into())) {
        Err(ValueNotString) => (),
        _ => panic!("did not receive the expected error"),
    }
    assert!(SearchQuerySpec::fragment(
        true,
        vec![
            DruidNativeType::String("x".into()),
            DruidNativeType::String("y".into())
        ]
    )
    .is_ok());
    match SearchQuerySpec::fragment(
        true,
        vec![DruidNativeType::String("x".into()), DruidNativeType::Long(1)],
    ) {
        Err(ValueNotString) => (),
        _ => panic!("did not receive the expected error"),
    }
}

#[test]
fn join_error_messages() {
    let left = DataSource::union(vec!["a".into()]);
    let right = DataSource::lookup("l".to_owned());
    match DataSource::join(left, right, "r".into(), "c == d".into(), "inner".into()) {
        Err(e) => assert_eq!(e.message(), "invalid left join source union"),
        _ => panic!("did not receive the expected error"),
    }
    let left = DataSource::table("t".to_owned());
    let right = DataSource::lookup("l".to_owned());
    match DataSource::join(left, right, "r".into(), "c == d".into(), "outer".into()) {
        Err(e) => assert_eq!(e.message(), "invalid join type OUTER"),
        _ => panic!("did not receive the expected error"),
    }
}

#[test]
fn lookup_error_message_text() {
    match DimensionSpec::lookup(
        "dim",
        "out",
        Some(true),
        Some(DruidNativeType::Long(2)),
        None,
        None,
        None,
    ) {
        Err(e) => assert_eq!(
            e.message(),
            "retain_missing_value = true and non null (or non empty String) replace_missing_value_with at the same time are illegal"
        ),
        _ => panic!("did not receive the expected error"),
    }
}
