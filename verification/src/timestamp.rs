//! The record's moment in time, reconstructed from five string fragments.

use vstd::prelude::*;
use vstd::string::StringExecFns;
use chrono::Datelike;
use chrono::Timelike;

verus! {

/// A calendar date and time with minute precision and no timezone.
/// Seconds are fixed at zero by the composite layout and are not kept.
#[derive(Debug, Clone, Copy, PartialEq, Eq, Structural)]
pub struct Timestamp {
    pub year: i32,
    pub month: u32,
    pub day: u32,
    pub hour: u32,
    pub minute: u32,
}

impl Timestamp {
    /// The fields lie in calendar range.
    pub open spec fn well_formed(self) -> bool {
        &&& 1 <= self.month <= 12
        &&& 1 <= self.day <= 31
        &&& self.hour < 24
        &&& self.minute < 60
    }
}

/// The composite date string in the fixed layout `YYYY-MM-DD HH:MM:00`,
/// assembled from the five wire fragments.
pub open spec fn composed_datetime_text(
    y: Seq<char>,
    mo: Seq<char>,
    d: Seq<char>,
    h: Seq<char>,
    mi: Seq<char>,
) -> Seq<char> {
    y + "-"@ + mo + "-"@ + d + " "@ + h + ":"@ + mi + ":00"@
}

/// What exact-format calendar parsing makes of a composite date string:
/// `None` where the text does not read as a valid date and time under
/// `YYYY-MM-DD HH:MM:SS`, and the parsed fields otherwise.
pub uninterp spec fn chrono_datetime_of(s: Seq<char>) -> Option<Timestamp>;

/// Relies on chrono's NaiveDateTime::parse_from_str with the exact
/// format `%Y-%m-%d %H:%M:%S`: the outcome depends on the text alone,
/// and a parsed value carries a valid calendar date and clock time.
#[verifier::external_body]
pub(crate) fn chrono_parse_exact(text: &str) -> (r: Option<Timestamp>)
    ensures
        r == chrono_datetime_of(text@),
        r matches Some(ts) ==> ts.well_formed(),
{
    match chrono::NaiveDateTime::parse_from_str(text, "%Y-%m-%d %H:%M:%S") {
        Ok(dt) => Some(Timestamp {
            year: dt.year(),
            month: dt.month(),
            day: dt.day(),
            hour: dt.hour(),
            minute: dt.minute(),
        }),
        Err(_) => None,
    }
}

/// Assembles the composite date string from the five fragments.
pub fn compose_datetime(y: &String, mo: &String, d: &String, h: &String, mi: &String) -> (r:
    String)
    ensures
        r@ == composed_datetime_text(y@, mo@, d@, h@, mi@),
{
    let mut out = String::new();
    out.append(y.as_str());
    out.append("-");
    out.append(mo.as_str());
    out.append("-");
    out.append(d.as_str());
    out.append(" ");
    out.append(h.as_str());
    out.append(":");
    out.append(mi.as_str());
    out.append(":00");
    proof {
        assert(out@ =~= composed_datetime_text(y@, mo@, d@, h@, mi@));
    }
    out
}

} // verus!
