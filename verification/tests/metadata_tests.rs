use working_days_scaler::metadata::accept_nth_working_day;
use working_days_scaler::metadata::accept_target_size;
use working_days_scaler::metadata::accept_time;
use working_days_scaler::metadata::read_nth_working_day_arg;
use working_days_scaler::metadata::read_target_size;
use working_days_scaler::metadata::read_time;
use working_days_scaler::metadata::read_time_window;
use working_days_scaler::metadata::validate;
use working_days_scaler::metadata::FormatReason;
use working_days_scaler::metadata::MetadataError;
use working_days_scaler::metadata::MetadataField;
use working_days_scaler::metadata::ScalerMetadata;
use working_days_scaler::metadata::ScalerQuery;
use working_days_scaler::metadata::TimeWindow;
use working_days_scaler::TimeOfDay;

fn metadata_of(entries: &[(&str, &str)]) -> ScalerMetadata {
    let mut metadata = ScalerMetadata::new();
    for (key, value) in entries {
        metadata.insert(key.to_string(), value.to_string());
    }
    metadata
}

fn not_an_integer(field: MetadataField) -> MetadataError {
    MetadataError::InvalidMetadataFormat(field, FormatReason::NotAnInteger)
}

fn not_a_time(field: MetadataField) -> MetadataError {
    MetadataError::InvalidMetadataFormat(field, FormatReason::NotATimeOfDay)
}

#[test]
fn settings_are_kept_under_their_keys() {
    let mut metadata = ScalerMetadata::new();
    assert_eq!(metadata.get("nthWorkingDay"), None);
    metadata.insert("nthWorkingDay".to_string(), "5".to_string());
    metadata.insert("targetSize".to_string(), "10".to_string());
    assert_eq!(metadata.get("nthWorkingDay"), Some(&"5".to_string()));
    assert_eq!(metadata.get("targetSize"), Some(&"10".to_string()));
    assert_eq!(metadata.get("nthworkingday"), None);
    metadata.insert("nthWorkingDay".to_string(), "6".to_string());
    assert_eq!(metadata.get("nthWorkingDay"), Some(&"6".to_string()));
    assert_eq!(metadata.get("targetSize"), Some(&"10".to_string()));
}

#[test]
fn fields_stand_under_their_keys() {
    assert_eq!(MetadataField::NthWorkingDay.name(), "nthWorkingDay");
    assert_eq!(MetadataField::FromTime.name(), "fromTime");
    assert_eq!(MetadataField::ToTime.name(), "toTime");
    assert_eq!(MetadataField::TargetSize.name(), "targetSize");
    assert_eq!(MetadataField::NthWorkingDay.expected(), "a value between 1 and 31");
    assert_eq!(MetadataField::FromTime.expected(), "an time formatted as `%H:%M:%S`");
    assert_eq!(MetadataField::ToTime.expected(), "an time formatted as `%H:%M:%S`");
    assert_eq!(MetadataField::TargetSize.expected(), "an integer value");
}

#[test]
fn the_working_day_must_be_a_number_of_at_most_31() {
    let field = MetadataField::NthWorkingDay;
    assert_eq!(
        read_nth_working_day_arg(&ScalerMetadata::new()),
        Err(MetadataError::MissingMetadata(field))
    );
    assert_eq!(
        read_nth_working_day_arg(&metadata_of(&[("nthWorkingDay", "32")])),
        Err(MetadataError::MetadataOutOfRange(field))
    );
    assert_eq!(
        read_nth_working_day_arg(&metadata_of(&[("nthWorkingDay", "255")])),
        Err(MetadataError::MetadataOutOfRange(field))
    );
    assert_eq!(
        read_nth_working_day_arg(&metadata_of(&[("nthWorkingDay", "jose")])),
        Err(not_an_integer(field))
    );
    assert_eq!(
        read_nth_working_day_arg(&metadata_of(&[("nthWorkingDay", "256")])),
        Err(not_an_integer(field))
    );
    assert_eq!(
        read_nth_working_day_arg(&metadata_of(&[("nthWorkingDay", "-1")])),
        Err(not_an_integer(field))
    );
    assert_eq!(
        read_nth_working_day_arg(&metadata_of(&[("nthWorkingDay", "")])),
        Err(not_an_integer(field))
    );
    assert_eq!(
        read_nth_working_day_arg(&metadata_of(&[("nthWorkingDay", " 5")])),
        Err(not_an_integer(field))
    );
    assert_eq!(
        read_nth_working_day_arg(&metadata_of(&[("nthWorkingDay", "5.0")])),
        Err(not_an_integer(field))
    );
    assert_eq!(read_nth_working_day_arg(&metadata_of(&[("nthWorkingDay", "31")])), Ok(31));
    assert_eq!(read_nth_working_day_arg(&metadata_of(&[("nthWorkingDay", "1")])), Ok(1));
    assert_eq!(read_nth_working_day_arg(&metadata_of(&[("nthWorkingDay", "0")])), Ok(0));
    assert_eq!(read_nth_working_day_arg(&metadata_of(&[("nthWorkingDay", "+7")])), Ok(7));
    assert_eq!(read_nth_working_day_arg(&metadata_of(&[("nthWorkingDay", "007")])), Ok(7));
}

#[test]
fn what_was_read_for_the_working_day_is_accepted_up_to_31() {
    let field = MetadataField::NthWorkingDay;
    assert_eq!(accept_nth_working_day(None), Err(not_an_integer(field)));
    assert_eq!(accept_nth_working_day(Some(0)), Ok(0));
    assert_eq!(accept_nth_working_day(Some(5)), Ok(5));
    assert_eq!(accept_nth_working_day(Some(31)), Ok(31));
    assert_eq!(accept_nth_working_day(Some(32)), Err(MetadataError::MetadataOutOfRange(field)));
    assert_eq!(accept_nth_working_day(Some(255)), Err(MetadataError::MetadataOutOfRange(field)));
}

#[test]
fn what_was_read_for_a_time_of_day_is_accepted_as_it_is() {
    assert_eq!(
        accept_time(MetadataField::FromTime, Some((21_600, 0))),
        Ok(TimeOfDay { secs: 21_600, frac: 0 })
    );
    assert_eq!(
        accept_time(MetadataField::ToTime, Some((86_399, 1_000_000_000))),
        Ok(TimeOfDay { secs: 86_399, frac: 1_000_000_000 })
    );
    assert_eq!(accept_time(MetadataField::FromTime, None), Err(not_a_time(MetadataField::FromTime)));
    assert_eq!(accept_time(MetadataField::ToTime, None), Err(not_a_time(MetadataField::ToTime)));
}

#[test]
fn a_time_of_day_is_written_as_hours_minutes_and_seconds() {
    let metadata = metadata_of(&[
        ("fromTime", "06:00:00"),
        ("toTime", "18:30:15"),
        ("short", "00:00"),
        ("late", "24:00:00"),
        ("words", "jose"),
        ("midnight", "00:00:00"),
        ("last", "23:59:59"),
    ]);
    assert_eq!(
        read_time(&metadata, MetadataField::FromTime),
        Ok(TimeOfDay::from_hms_opt(6, 0, 0).unwrap())
    );
    assert_eq!(read_time(&metadata, MetadataField::FromTime), Ok(TimeOfDay { secs: 21_600, frac: 0 }));
    assert_eq!(read_time(&metadata, MetadataField::ToTime), Ok(TimeOfDay { secs: 66_615, frac: 0 }));
    assert_eq!(
        read_time(&metadata, MetadataField::TargetSize),
        Err(MetadataError::MissingMetadata(MetadataField::TargetSize))
    );

    let field = MetadataField::ToTime;
    assert_eq!(read_time(&metadata_of(&[("toTime", "00:00")]), field), Err(not_a_time(field)));
    assert_eq!(read_time(&metadata_of(&[("toTime", "24:00:00")]), field), Err(not_a_time(field)));
    assert_eq!(read_time(&metadata_of(&[("toTime", "12:60:00")]), field), Err(not_a_time(field)));
    assert_eq!(read_time(&metadata_of(&[("toTime", "jose")]), field), Err(not_a_time(field)));
    assert_eq!(read_time(&metadata_of(&[("toTime", "")]), field), Err(not_a_time(field)));
    assert_eq!(
        read_time(&metadata_of(&[("toTime", "12:00:00 and more")]), field),
        Err(not_a_time(field))
    );
    assert_eq!(
        read_time(&metadata_of(&[("toTime", "00:00:00")]), field),
        Ok(TimeOfDay { secs: 0, frac: 0 })
    );
    assert_eq!(
        read_time(&metadata_of(&[("toTime", "23:59:59")]), field),
        Ok(TimeOfDay { secs: 86_399, frac: 0 })
    );
}

#[test]
fn the_part_of_the_day_is_given_whole_or_not_at_all() {
    assert_eq!(read_time_window(&ScalerMetadata::new()), Ok(None));
    assert_eq!(read_time_window(&metadata_of(&[("nthWorkingDay", "5")])), Ok(None));
    assert_eq!(
        read_time_window(&metadata_of(&[("fromTime", "06:00:00"), ("toTime", "18:00:00")])),
        Ok(Some(TimeWindow {
            from: TimeOfDay { secs: 21_600, frac: 0 },
            to: TimeOfDay { secs: 64_800, frac: 0 },
        }))
    );
    assert_eq!(
        read_time_window(&metadata_of(&[("fromTime", "18:00:00"), ("toTime", "06:00:00")])),
        Ok(Some(TimeWindow {
            from: TimeOfDay { secs: 64_800, frac: 0 },
            to: TimeOfDay { secs: 21_600, frac: 0 },
        }))
    );
    assert_eq!(
        read_time_window(&metadata_of(&[("fromTime", "06:00:00")])),
        Err(MetadataError::MissingMetadata(MetadataField::ToTime))
    );
    assert_eq!(
        read_time_window(&metadata_of(&[("toTime", "06:00:00")])),
        Err(MetadataError::MissingMetadata(MetadataField::FromTime))
    );
    assert_eq!(
        read_time_window(&metadata_of(&[("fromTime", "6 o'clock"), ("toTime", "noon")])),
        Err(not_a_time(MetadataField::FromTime))
    );
    assert_eq!(
        read_time_window(&metadata_of(&[("fromTime", "06:00:00"), ("toTime", "noon")])),
        Err(not_a_time(MetadataField::ToTime))
    );
}

#[test]
fn the_target_size_must_be_a_number() {
    let field = MetadataField::TargetSize;
    assert_eq!(read_target_size(&ScalerMetadata::new()), Err(MetadataError::MissingMetadata(field)));
    assert_eq!(read_target_size(&metadata_of(&[("targetSize", "jose")])), Err(not_an_integer(field)));
    assert_eq!(read_target_size(&metadata_of(&[("targetSize", "-1")])), Err(not_an_integer(field)));
    assert_eq!(
        read_target_size(&metadata_of(&[("targetSize", "4294967296")])),
        Err(not_an_integer(field))
    );
    assert_eq!(read_target_size(&metadata_of(&[("targetSize", "0")])), Ok(0));
    assert_eq!(read_target_size(&metadata_of(&[("targetSize", "10")])), Ok(10));
    assert_eq!(read_target_size(&metadata_of(&[("targetSize", "4294967295")])), Ok(4_294_967_295));
}

#[test]
fn the_first_setting_that_is_not_accepted_decides_the_error() {
    let everything_wrong =
        metadata_of(&[("nthWorkingDay", "32"), ("fromTime", "x"), ("toTime", "y"), ("targetSize", "z")]);
    assert_eq!(
        validate(&everything_wrong),
        Err(MetadataError::MetadataOutOfRange(MetadataField::NthWorkingDay))
    );
    let times_and_size_wrong =
        metadata_of(&[("nthWorkingDay", "5"), ("fromTime", "x"), ("toTime", "y"), ("targetSize", "z")]);
    assert_eq!(validate(&times_and_size_wrong), Err(not_a_time(MetadataField::FromTime)));
    let end_and_size_wrong = metadata_of(&[
        ("nthWorkingDay", "5"),
        ("fromTime", "06:00:00"),
        ("toTime", "y"),
        ("targetSize", "z"),
    ]);
    assert_eq!(validate(&end_and_size_wrong), Err(not_a_time(MetadataField::ToTime)));
    let size_wrong = metadata_of(&[
        ("nthWorkingDay", "5"),
        ("fromTime", "06:00:00"),
        ("toTime", "18:00:00"),
        ("targetSize", "z"),
    ]);
    assert_eq!(validate(&size_wrong), Err(not_an_integer(MetadataField::TargetSize)));
    assert_eq!(
        validate(&ScalerMetadata::new()),
        Err(MetadataError::MissingMetadata(MetadataField::NthWorkingDay))
    );
    assert_eq!(
        validate(&metadata_of(&[("nthWorkingDay", "5")])),
        Err(MetadataError::MissingMetadata(MetadataField::TargetSize))
    );
}

#[test]
fn accepted_settings_become_a_query() {
    let metadata = metadata_of(&[
        ("nthWorkingDay", "5"),
        ("fromTime", "06:00:00"),
        ("toTime", "18:00:00"),
        ("targetSize", "10"),
        ("somethingElse", "ignored"),
    ]);
    assert_eq!(
        validate(&metadata),
        Ok(ScalerQuery {
            nth_working_day: 5,
            window: Some(TimeWindow {
                from: TimeOfDay { secs: 21_600, frac: 0 },
                to: TimeOfDay { secs: 64_800, frac: 0 },
            }),
            target_size: 10,
        })
    );
    assert_eq!(
        validate(&metadata_of(&[("nthWorkingDay", "31"), ("targetSize", "0")])),
        Ok(ScalerQuery { nth_working_day: 31, window: None, target_size: 0 })
    );
}

#[test]
fn errors_name_the_setting_and_say_what_is_wrong() {
    assert_eq!(
        MetadataError::MissingMetadata(MetadataField::NthWorkingDay).to_string(),
        "Missing required metadata `nthWorkingDay`."
    );
    assert_eq!(
        MetadataError::MissingMetadata(MetadataField::FromTime).to_string(),
        "Missing required metadata `fromTime`."
    );
    assert_eq!(
        MetadataError::MissingMetadata(MetadataField::ToTime).to_string(),
        "Missing required metadata `toTime`."
    );
    assert_eq!(
        MetadataError::MissingMetadata(MetadataField::TargetSize).to_string(),
        "Missing required metadata `targetSize`."
    );
    assert_eq!(
        MetadataError::MetadataOutOfRange(MetadataField::NthWorkingDay).to_string(),
        "Metadata `nthWorkingDay` should be a value between 1 and 31."
    );
    assert_eq!(
        not_an_integer(MetadataField::NthWorkingDay).to_string(),
        "Metadata `nthWorkingDay` should be a value between 1 and 31."
    );
    assert_eq!(
        not_a_time(MetadataField::FromTime).to_string(),
        "Metadata `fromTime` should be an time formatted as `%H:%M:%S`."
    );
    assert_eq!(
        not_a_time(MetadataField::ToTime).to_string(),
        "Metadata `toTime` should be an time formatted as `%H:%M:%S`."
    );
    assert_eq!(
        not_an_integer(MetadataField::TargetSize).to_string(),
        "Metadata `targetSize` should be an integer value."
    );
}

#[test]
fn what_was_read_for_the_target_size_is_accepted_as_it_is() {
    assert_eq!(accept_target_size(Some(0)), Ok(0));
    assert_eq!(accept_target_size(Some(10)), Ok(10));
    assert_eq!(accept_target_size(Some(u32::MAX)), Ok(u32::MAX));
    assert_eq!(accept_target_size(None), Err(not_an_integer(MetadataField::TargetSize)));
}
