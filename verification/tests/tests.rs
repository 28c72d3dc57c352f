use chrono::Datelike;
use chrono::Timelike;
use clisurf::fetch::on_body;
use clisurf::fetch::on_call_result;
use clisurf::fetch::CallResult;
use clisurf::fetch::NextStep;
use clisurf::util::convert_degrees_to_cardinal;
use clisurf::SwellData;
use clisurf::SwellDataError;
use clisurf::Timestamp;

const GOOD_JSON: &str = r#"{"stationId":"46225","year":"2023","month":"08","day":"28","hour":"12","minute":"00","waveHeight":"1.5","wavePeriod":"10","waveDirection":"270","waterTemp":"20.0"}"#;

#[test]
fn test_swell_data_new() {
    let parsed =
        chrono::NaiveDateTime::parse_from_str("2023-08-28 12:00:00", "%Y-%m-%d %H:%M:%S").unwrap();
    let date_time = Timestamp {
        year: parsed.year(),
        month: parsed.month(),
        day: parsed.day(),
        hour: parsed.hour(),
        minute: parsed.minute(),
    };
    let swell_data = SwellData::new(
        "46225".to_string(),
        date_time,
        "1.5".to_string(),
        10,
        270,
        Some("20.0".to_string()),
    );

    assert_eq!(swell_data.station_id, "46225");
    assert_eq!(swell_data.wave_height.parse::<f32>().unwrap(), 1.5);
    assert_eq!(swell_data.wave_period, 10);
    assert_eq!(swell_data.wave_direction, 270);
    assert_eq!(
        swell_data.water_temp.as_deref().map(|t| t.parse::<f32>().unwrap()),
        Some(20.0)
    );
}

#[test]
fn test_swell_data_from_json_success() {
    let result = SwellData::from_json(GOOD_JSON);
    assert!(result.is_ok());

    let swell_data = result.unwrap();
    assert_eq!(swell_data.station_id, "46225");
    assert_eq!(swell_data.wave_height.parse::<f32>().unwrap(), 1.5);
    assert_eq!(swell_data.wave_period, 10);
    assert_eq!(swell_data.wave_direction, 270);
    assert_eq!(
        swell_data.water_temp.as_deref().map(|t| t.parse::<f32>().unwrap()),
        Some(20.0)
    );
}

#[test]
fn test_swell_data_from_json_invalid_data() {
    let json = r#"{"stationId":"46225","year":"2023","month":"08","day":"28","hour":"12","minute":"00","waveHeight":"invalid","wavePeriod":"10","waveDirection":"270","waterTemp":"20.0"}"#;
    let result = SwellData::from_json(json);
    assert!(result.is_ok());

    let swell_data = result.unwrap();
    assert_eq!(swell_data.wave_height.parse::<f32>().unwrap(), -1.0);
}

#[test]
fn full_example_record() {
    let swell_data = SwellData::from_json(GOOD_JSON).unwrap();
    assert_eq!(swell_data.station_id, "46225");
    assert_eq!(
        swell_data.date_time,
        Timestamp { year: 2023, month: 8, day: 28, hour: 12, minute: 0 }
    );
    assert_eq!(swell_data.wave_height, "1.5");
    assert_eq!(swell_data.wave_period, 10);
    assert_eq!(swell_data.wave_direction, 270);
    assert_eq!(swell_data.water_temp.as_deref(), Some("20.0"));
}

#[test]
fn malformed_json_fails_parse() {
    assert_eq!(
        SwellData::from_json("not json at all"),
        Err(SwellDataError::MalformedPayload)
    );
    assert_eq!(SwellData::from_json(""), Err(SwellDataError::MalformedPayload));
    assert_eq!(
        SwellData::from_json("[1,2,3]"),
        Err(SwellDataError::MalformedPayload)
    );
    assert_eq!(
        SwellData::from_json(r#"{"stationId":"46225""#),
        Err(SwellDataError::MalformedPayload)
    );
}

#[test]
fn missing_required_field_fails_parse() {
    let json = r#"{"stationId":"46225","year":"2023","month":"08","day":"28","hour":"12","minute":"00","waveHeight":"1.5","wavePeriod":"10"}"#;
    assert_eq!(SwellData::from_json(json), Err(SwellDataError::MalformedPayload));
    assert_eq!(SwellData::from_json("{}"), Err(SwellDataError::MalformedPayload));
}

#[test]
fn wrong_typed_field_fails_parse() {
    let json = r#"{"stationId":46225,"year":"2023","month":"08","day":"28","hour":"12","minute":"00","waveHeight":"1.5","wavePeriod":"10","waveDirection":"270"}"#;
    assert_eq!(SwellData::from_json(json), Err(SwellDataError::MalformedPayload));
    let json = r#"{"stationId":"46225","year":"2023","month":"08","day":"28","hour":"12","minute":"00","waveHeight":"1.5","wavePeriod":"10","waveDirection":"270","waterTemp":20}"#;
    assert_eq!(SwellData::from_json(json), Err(SwellDataError::MalformedPayload));
}

#[test]
fn extra_fields_are_tolerated() {
    let json = r#"{"stationId":"46225","year":"2023","month":"08","day":"28","hour":"12","minute":"00","waveHeight":"1.5","wavePeriod":"10","waveDirection":"270","waterTemp":"20.0","spare":{"nested":[1,2]},"flag":true}"#;
    let swell_data = SwellData::from_json(json).unwrap();
    assert_eq!(swell_data.station_id, "46225");
    assert_eq!(swell_data.wave_period, 10);
}

#[test]
fn invalid_calendar_date_fails_parse() {
    let json = r#"{"stationId":"46225","year":"2023","month":"13","day":"28","hour":"12","minute":"00","waveHeight":"1.5","wavePeriod":"10","waveDirection":"270"}"#;
    assert_eq!(SwellData::from_json(json), Err(SwellDataError::InvalidTimestamp));
    let json = r#"{"stationId":"46225","year":"2023","month":"02","day":"30","hour":"12","minute":"00","waveHeight":"1.5","wavePeriod":"10","waveDirection":"270"}"#;
    assert_eq!(SwellData::from_json(json), Err(SwellDataError::InvalidTimestamp));
    let json = r#"{"stationId":"46225","year":"2023","month":"08","day":"28","hour":"24","minute":"00","waveHeight":"1.5","wavePeriod":"10","waveDirection":"270"}"#;
    assert_eq!(SwellData::from_json(json), Err(SwellDataError::InvalidTimestamp));
    let json = r#"{"stationId":"46225","year":"banana","month":"08","day":"28","hour":"12","minute":"00","waveHeight":"1.5","wavePeriod":"10","waveDirection":"270"}"#;
    assert_eq!(SwellData::from_json(json), Err(SwellDataError::InvalidTimestamp));
}

#[test]
fn unparseable_measurements_fall_back_to_sentinels() {
    let json = r#"{"stationId":"46225","year":"2023","month":"08","day":"28","hour":"12","minute":"00","waveHeight":"tall","wavePeriod":"soon","waveDirection":"west","waterTemp":"20.0"}"#;
    let swell_data = SwellData::from_json(json).unwrap();
    assert_eq!(swell_data.wave_height, "-1.0");
    assert_eq!(swell_data.wave_height.parse::<f32>().unwrap(), -1.0);
    assert_eq!(swell_data.wave_period, -1);
    assert_eq!(swell_data.wave_direction, -1);
    assert_eq!(swell_data.water_temp.as_deref(), Some("20.0"));
}

#[test]
fn period_overflow_falls_back_to_sentinel() {
    let json = r#"{"stationId":"46225","year":"2023","month":"08","day":"28","hour":"12","minute":"00","waveHeight":"1.5","wavePeriod":"99999999999","waveDirection":"-2147483648","waterTemp":"20.0"}"#;
    let swell_data = SwellData::from_json(json).unwrap();
    assert_eq!(swell_data.wave_period, -1);
    assert_eq!(swell_data.wave_direction, -2147483648);
}

#[test]
fn integer_boundaries_parse_exactly() {
    let json = r#"{"stationId":"46225","year":"2023","month":"08","day":"28","hour":"12","minute":"00","waveHeight":"1.5","wavePeriod":"2147483647","waveDirection":"+45"}"#;
    let swell_data = SwellData::from_json(json).unwrap();
    assert_eq!(swell_data.wave_period, 2147483647);
    assert_eq!(swell_data.wave_direction, 45);
    let json = r#"{"stationId":"46225","year":"2023","month":"08","day":"28","hour":"12","minute":"00","waveHeight":"1.5","wavePeriod":"007","waveDirection":"2147483648"}"#;
    let swell_data = SwellData::from_json(json).unwrap();
    assert_eq!(swell_data.wave_period, 7);
    assert_eq!(swell_data.wave_direction, -1);
}

#[test]
fn float_grammar_accepts_what_f32_parsing_accepts() {
    let cases = vec!["1e3", "+2.5", "-0.25", ".5", "7.", "inf", "INFINITY", "NaN", "1.e2"];
    for text in cases {
        let json = format!(
            r#"{{"stationId":"46225","year":"2023","month":"08","day":"28","hour":"12","minute":"00","waveHeight":"{}","wavePeriod":"10","waveDirection":"270"}}"#,
            text
        );
        let swell_data = SwellData::from_json(&json).unwrap();
        assert_eq!(swell_data.wave_height, text);
        assert!(text.parse::<f32>().is_ok());
    }
    let bad = vec!["", ".", "1.2.3", "1e", "e5", "0x10", " 1", "1 ", "infx", "--1"];
    for text in bad {
        let json = format!(
            r#"{{"stationId":"46225","year":"2023","month":"08","day":"28","hour":"12","minute":"00","waveHeight":"{}","wavePeriod":"10","waveDirection":"270"}}"#,
            text
        );
        let swell_data = SwellData::from_json(&json).unwrap();
        assert_eq!(swell_data.wave_height, "-1.0");
        assert!(text.parse::<f32>().is_err());
    }
}

#[test]
fn water_temp_absent_or_unparseable_has_no_value() {
    let json = r#"{"stationId":"46225","year":"2023","month":"08","day":"28","hour":"12","minute":"00","waveHeight":"1.5","wavePeriod":"10","waveDirection":"270"}"#;
    let swell_data = SwellData::from_json(json).unwrap();
    assert_eq!(swell_data.water_temp, None);
    let json = r#"{"stationId":"46225","year":"2023","month":"08","day":"28","hour":"12","minute":"00","waveHeight":"1.5","wavePeriod":"10","waveDirection":"270","waterTemp":"warm"}"#;
    let swell_data = SwellData::from_json(json).unwrap();
    assert_eq!(swell_data.water_temp, None);
}

#[test]
fn success_status_reads_the_body() {
    let step = on_call_result(CallResult::Delivered {
        status: 200,
        cause: String::new(),
    });
    assert!(matches!(step, NextStep::ReadBody));
    let result = on_body(Some(GOOD_JSON.to_string()));
    let swell_data = result.unwrap();
    assert_eq!(swell_data.station_id, "46225");
    assert_eq!(swell_data.wave_period, 10);
}

#[test]
fn status_404_is_station_not_found() {
    let step = on_call_result(CallResult::Delivered {
        status: 404,
        cause: "http status 404".to_string(),
    });
    assert!(matches!(step, NextStep::Fail(SwellDataError::StationNotFound)));
}

#[test]
fn status_500_is_transport_error() {
    let step = on_call_result(CallResult::Delivered {
        status: 500,
        cause: "http status 500".to_string(),
    });
    match step {
        NextStep::Fail(SwellDataError::TransportError(cause)) => {
            assert_eq!(cause, "http status 500");
        }
        _ => panic!("expected a transport error"),
    }
}

#[test]
fn transport_failure_is_transport_error() {
    let step = on_call_result(CallResult::TransportFailed {
        cause: "dns error".to_string(),
    });
    match step {
        NextStep::Fail(SwellDataError::TransportError(cause)) => assert_eq!(cause, "dns error"),
        _ => panic!("expected a transport error"),
    }
}

#[test]
fn unreadable_body_is_io_error() {
    assert_eq!(on_body(None), Err(SwellDataError::IoError));
}

#[test]
fn cardinal_conversion_buckets() {
    assert_eq!(convert_degrees_to_cardinal(270), "W");
    assert_eq!(convert_degrees_to_cardinal(0), "N");
    assert_eq!(convert_degrees_to_cardinal(44), "NE");
    assert_eq!(convert_degrees_to_cardinal(22), "N");
    assert_eq!(convert_degrees_to_cardinal(23), "NE");
    assert_eq!(convert_degrees_to_cardinal(90), "E");
    assert_eq!(convert_degrees_to_cardinal(135), "SE");
    assert_eq!(convert_degrees_to_cardinal(180), "S");
    assert_eq!(convert_degrees_to_cardinal(225), "SW");
    assert_eq!(convert_degrees_to_cardinal(315), "NW");
    assert_eq!(convert_degrees_to_cardinal(337), "NW");
    assert_eq!(convert_degrees_to_cardinal(338), "N");
    assert_eq!(convert_degrees_to_cardinal(359), "N");
    assert_eq!(convert_degrees_to_cardinal(-1), "N");
}
