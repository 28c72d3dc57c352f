//! The normalized swell record and the tolerant parser that builds it.

use vstd::prelude::*;
use vstd::string::StrSliceExecFns;
use vstd::string::StringExecFns;
use vstd::utf8::encode_utf8;
use crate::errors::SwellDataError;
use crate::numtext::is_float_literal;
use crate::numtext::is_float_text;
use crate::numtext::parse_i32_or;
use crate::numtext::spec_parse_i32;
use crate::payload::find_field;
use crate::payload::fields_view;
use crate::payload::json_object_strings;
use crate::payload::json_string_fields;
use crate::payload::lookup_field;
use crate::timestamp::chrono_datetime_of;
use crate::timestamp::chrono_parse_exact;
use crate::timestamp::compose_datetime;
use crate::timestamp::composed_datetime_text;
use crate::timestamp::Timestamp;

verus! {

/// The wire object's members, once every required field is known to be
/// present as a string: nine mandatory fragments and the optional
/// temperature.
#[verifier::ext_equal]
pub struct PayloadView {
    pub station_id: Seq<char>,
    pub year: Seq<char>,
    pub month: Seq<char>,
    pub day: Seq<char>,
    pub hour: Seq<char>,
    pub minute: Seq<char>,
    pub wave_height: Seq<char>,
    pub wave_period: Seq<char>,
    pub wave_direction: Seq<char>,
    pub water_temp: Option<Seq<char>>,
}

/// The field named `key` where it is present as a string.
pub open spec fn required_field(
    fields: Seq<(Seq<char>, Option<Seq<char>>)>,
    key: Seq<char>,
) -> Option<Seq<char>> {
    match lookup_field(fields, key) {
        Some(Some(v)) => Some(v),
        _ => None,
    }
}

/// Reads the raw payload out of the object's fields: `None` where a
/// required field is missing or not a string, or where `waterTemp` is
/// present but not a string.
pub open spec fn payload_view(fields: Seq<(Seq<char>, Option<Seq<char>>)>) -> Option<
    PayloadView,
> {
    if required_field(fields, "stationId"@) is Some && required_field(fields, "year"@) is Some
        && required_field(fields, "month"@) is Some && required_field(fields, "day"@) is Some
        && required_field(fields, "hour"@) is Some && required_field(fields, "minute"@) is Some
        && required_field(fields, "waveHeight"@) is Some && required_field(
        fields,
        "wavePeriod"@,
    ) is Some && required_field(fields, "waveDirection"@) is Some && !(lookup_field(
        fields,
        "waterTemp"@,
    ) matches Some(None)) {
        Some(
            PayloadView {
                station_id: required_field(fields, "stationId"@).unwrap(),
                year: required_field(fields, "year"@).unwrap(),
                month: required_field(fields, "month"@).unwrap(),
                day: required_field(fields, "day"@).unwrap(),
                hour: required_field(fields, "hour"@).unwrap(),
                minute: required_field(fields, "minute"@).unwrap(),
                wave_height: required_field(fields, "waveHeight"@).unwrap(),
                wave_period: required_field(fields, "wavePeriod"@).unwrap(),
                wave_direction: required_field(fields, "waveDirection"@).unwrap(),
                water_temp: match lookup_field(fields, "waterTemp"@) {
                    Some(Some(v)) => Some(v),
                    _ => None,
                },
            },
        )
    } else {
        None
    }
}

/// The normalized domain record. Measurement text is kept verbatim where
/// it parses as a number and replaced by the in-band sentinel where it
/// does not; the temperature alone uses presence instead of a sentinel.
#[derive(Debug, PartialEq, Eq)]
pub struct SwellData {
    /// Opaque identifier, passed through unchanged.
    pub station_id: String,
    /// Reconstructed from the five date fragments; seconds fixed at zero.
    pub date_time: Timestamp,
    /// Wave height in meters as numeric text; `-1.0` means unavailable.
    pub wave_height: String,
    /// Wave period in seconds; `-1` means unavailable.
    pub wave_period: i32,
    /// Wave direction in degrees; `-1` means unavailable.
    pub wave_direction: i32,
    /// Water temperature in Celsius as numeric text; absent when the
    /// source field is missing or does not parse.
    pub water_temp: Option<String>,
}

/// The record's mathematical image.
#[verifier::ext_equal]
pub struct SwellDataView {
    pub station_id: Seq<char>,
    pub date_time: Timestamp,
    pub wave_height: Seq<char>,
    pub wave_period: int,
    pub wave_direction: int,
    pub water_temp: Option<Seq<char>>,
}

impl View for SwellData {
    type V = SwellDataView;

    open spec fn view(&self) -> SwellDataView {
        SwellDataView {
            station_id: self.station_id@,
            date_time: self.date_time,
            wave_height: self.wave_height@,
            wave_period: self.wave_period as int,
            wave_direction: self.wave_direction as int,
            water_temp: self.water_temp.deep_view(),
        }
    }
}

/// The record a successful parse owes: numeric fields carry the parsed
/// value exactly, unparseable measurements carry their sentinel, and an
/// absent or unparseable temperature carries nothing.
pub open spec fn expected_record(p: PayloadView, ts: Timestamp) -> SwellDataView {
    SwellDataView {
        station_id: p.station_id,
        date_time: ts,
        wave_height: if is_float_text(encode_utf8(p.wave_height)) {
            p.wave_height
        } else {
            "-1.0"@
        },
        wave_period: match spec_parse_i32(encode_utf8(p.wave_period)) {
            Some(v) => v,
            None => -1,
        },
        wave_direction: match spec_parse_i32(encode_utf8(p.wave_direction)) {
            Some(v) => v,
            None => -1,
        },
        water_temp: match p.water_temp {
            Some(w) => if is_float_text(encode_utf8(w)) {
                Some(w)
            } else {
                None
            },
            None => None,
        },
    }
}

/// The whole parse pipeline on the response text: structural failures
/// fail the record, measurement failures fall back per field.
pub open spec fn parse_outcome(s: Seq<char>) -> Result<SwellDataView, SwellDataError> {
    match json_string_fields(s) {
        None => Err(SwellDataError::MalformedPayload),
        Some(fs) => match payload_view(fs) {
            None => Err(SwellDataError::MalformedPayload),
            Some(p) => match chrono_datetime_of(
                composed_datetime_text(p.year, p.month, p.day, p.hour, p.minute),
            ) {
                None => Err(SwellDataError::InvalidTimestamp),
                Some(ts) => Ok(expected_record(p, ts)),
            },
        },
    }
}

/// Tolerant-parsing law: a successful parse passes the station through
/// unchanged, reports each measurement exactly as its text reads, and
/// absorbs each unparseable measurement into its sentinel — or, for the
/// temperature, into absence — without failing the record.
pub proof fn lemma_measurement_policy(s: Seq<char>)
    ensures
        parse_outcome(s) matches Ok(v) ==> ({
            let p = payload_view(json_string_fields(s).unwrap()).unwrap();
            &&& v.station_id == p.station_id
            &&& (is_float_text(encode_utf8(p.wave_height)) ==> v.wave_height == p.wave_height)
            &&& (!is_float_text(encode_utf8(p.wave_height)) ==> v.wave_height == "-1.0"@)
            &&& (match spec_parse_i32(encode_utf8(p.wave_period)) {
                Some(n) => v.wave_period == n,
                None => v.wave_period == -1,
            })
            &&& (match spec_parse_i32(encode_utf8(p.wave_direction)) {
                Some(n) => v.wave_direction == n,
                None => v.wave_direction == -1,
            })
            &&& (match p.water_temp {
                Some(w) => v.water_temp == (if is_float_text(encode_utf8(w)) {
                    Some(w)
                } else {
                    None::<Seq<char>>
                }),
                None => v.water_temp is None,
            })
        }),
{
}

/// Structural-failure law: exactly the payloads that do not read as an
/// object with the required string fields fail with `MalformedPayload`,
/// exactly those whose fragments do not compose into a valid date fail
/// with `InvalidTimestamp`, and parsing raises no other failure.
pub proof fn lemma_structural_failures(s: Seq<char>)
    ensures
        parse_outcome(s) == Err::<SwellDataView, SwellDataError>(SwellDataError::MalformedPayload)
            <==> (json_string_fields(s) is None || payload_view(
            json_string_fields(s).unwrap(),
        ) is None),
        parse_outcome(s) == Err::<SwellDataView, SwellDataError>(SwellDataError::InvalidTimestamp)
            <==> (json_string_fields(s) matches Some(fs) && payload_view(fs) matches Some(p)
            && chrono_datetime_of(
            composed_datetime_text(p.year, p.month, p.day, p.hour, p.minute),
        ) is None),
        parse_outcome(s) is Err ==> (parse_outcome(s) == Err::<
            SwellDataView,
            SwellDataError,
        >(SwellDataError::MalformedPayload) || parse_outcome(s) == Err::<
            SwellDataView,
            SwellDataError,
        >(SwellDataError::InvalidTimestamp)),
{
}

impl SwellData {
    /// Every parsed record keeps numeric text for its float-valued
    /// fields (or the sentinel) and a calendar-valid timestamp.
    pub open spec fn well_formed(self) -> bool {
        &&& self.wave_height@ == "-1.0"@ || is_float_text(encode_utf8(self.wave_height@))
        &&& (self.water_temp matches Some(t) ==> is_float_text(encode_utf8(t@)))
        &&& self.date_time.well_formed()
    }

    /// Plain constructor: the record is exactly its parts.
    pub fn new(
        station_id: String,
        date_time: Timestamp,
        wave_height: String,
        wave_period: i32,
        wave_direction: i32,
        water_temp: Option<String>,
    ) -> (r: SwellData)
        ensures
            r@ == (SwellDataView {
                station_id: station_id@,
                date_time,
                wave_height: wave_height@,
                wave_period: wave_period as int,
                wave_direction: wave_direction as int,
                water_temp: water_temp.deep_view(),
            }),
    {
        SwellData { station_id, date_time, wave_height, wave_period, wave_direction, water_temp }
    }

    /// Parses the response text into a record, per `parse_outcome`: a
    /// malformed object or missing required field fails the whole parse,
    /// date fragments that do not compose into a valid date fail it, and
    /// every individual measurement failure is absorbed per field.
    pub fn from_json(json: &str) -> (r: Result<SwellData, SwellDataError>)
        ensures
            match parse_outcome(json@) {
                Ok(v) => r matches Ok(rec) && rec@ == v && rec.well_formed(),
                Err(e) => r == Err::<SwellData, SwellDataError>(e),
            },
    {
        let fields = match json_object_strings(json) {
            None => {
                return Err(SwellDataError::MalformedPayload);
            },
            Some(f) => f,
        };
        let ghost fv = fields_view(fields@);
        let station_id = match find_field(&fields, &String::from_str("stationId")) {
            Some(Some(s)) => s,
            _ => {
                return Err(SwellDataError::MalformedPayload);
            },
        };
        let year = match find_field(&fields, &String::from_str("year")) {
            Some(Some(s)) => s,
            _ => {
                return Err(SwellDataError::MalformedPayload);
            },
        };
        let month = match find_field(&fields, &String::from_str("month")) {
            Some(Some(s)) => s,
            _ => {
                return Err(SwellDataError::MalformedPayload);
            },
        };
        let day = match find_field(&fields, &String::from_str("day")) {
            Some(Some(s)) => s,
            _ => {
                return Err(SwellDataError::MalformedPayload);
            },
        };
        let hour = match find_field(&fields, &String::from_str("hour")) {
            Some(Some(s)) => s,
            _ => {
                return Err(SwellDataError::MalformedPayload);
            },
        };
        let minute = match find_field(&fields, &String::from_str("minute")) {
            Some(Some(s)) => s,
            _ => {
                return Err(SwellDataError::MalformedPayload);
            },
        };
        let wave_height_text = match find_field(&fields, &String::from_str("waveHeight")) {
            Some(Some(s)) => s,
            _ => {
                return Err(SwellDataError::MalformedPayload);
            },
        };
        let wave_period_text = match find_field(&fields, &String::from_str("wavePeriod")) {
            Some(Some(s)) => s,
            _ => {
                return Err(SwellDataError::MalformedPayload);
            },
        };
        let wave_direction_text = match find_field(&fields, &String::from_str("waveDirection")) {
            Some(Some(s)) => s,
            _ => {
                return Err(SwellDataError::MalformedPayload);
            },
        };
        let water_temp_text = match find_field(&fields, &String::from_str("waterTemp")) {
            Some(Some(s)) => Some(s),
            Some(None) => {
                return Err(SwellDataError::MalformedPayload);
            },
            None => None,
        };
        let ghost p = payload_view(fv).unwrap();
        proof {
            assert(payload_view(fv) is Some);
            assert(p.station_id == station_id@);
            assert(p.year == year@);
            assert(p.month == month@);
            assert(p.day == day@);
            assert(p.hour == hour@);
            assert(p.minute == minute@);
            assert(p.wave_height == wave_height_text@);
            assert(p.wave_period == wave_period_text@);
            assert(p.wave_direction == wave_direction_text@);
            assert(p.water_temp == water_temp_text.deep_view());
        }
        let composed = compose_datetime(&year, &month, &day, &hour, &minute);
        let date_time = match chrono_parse_exact(composed.as_str()) {
            None => {
                return Err(SwellDataError::InvalidTimestamp);
            },
            Some(ts) => ts,
        };
        let height_bytes = wave_height_text.as_str().as_bytes_vec();
        let wave_height = if is_float_literal(&height_bytes) {
            wave_height_text
        } else {
            String::from_str("-1.0")
        };
        let period_bytes = wave_period_text.as_str().as_bytes_vec();
        let wave_period = parse_i32_or(&period_bytes, -1);
        let direction_bytes = wave_direction_text.as_str().as_bytes_vec();
        let wave_direction = parse_i32_or(&direction_bytes, -1);
        let water_temp = match water_temp_text {
            Some(w) => {
                let temp_bytes = w.as_str().as_bytes_vec();
                if is_float_literal(&temp_bytes) {
                    Some(w)
                } else {
                    None
                }
            },
            None => None,
        };
        let rec = Self::new(
            station_id,
            date_time,
            wave_height,
            wave_period,
            wave_direction,
            water_temp,
        );
        proof {
            assert(rec@ =~= expected_record(p, date_time));
        }
        Ok(rec)
    }
}

} // verus!
