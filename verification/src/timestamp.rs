//! Resolution of the human-facing timestamp that heads an alert: the
//! first problem station's observation time, converted to local
//! wall-clock time when it parses, passed through raw when it does not.

use vstd::prelude::*;

use crate::reading::StationReading;
use crate::text::trim_spec;
use crate::text::trim_str;

verus! {

/// Whether chrono's RFC 3339 parser accepts the string; its verdict is a
/// function of the string alone.
pub uninterp spec fn rfc3339_parses(s: Seq<char>) -> bool;

/// Relies on chrono's `DateTime::parse_from_rfc3339`, whose acceptance of
/// a string depends on the string alone, and on `DateTime::with_timezone`
/// and `DateTime::format`, which render the parsed instant in the
/// machine's local time zone as `YYYY-MM-DD HH:MM:SS`. Because the
/// rendering depends on the machine, nothing is stated of its text.
#[verifier::external_body]
fn render_local(ts: &str) -> (r: Option<String>)
    ensures
        (r is Some) <==> rfc3339_parses(ts@),
{
    match chrono::DateTime::parse_from_rfc3339(ts) {
        Ok(dt) => Some(dt.with_timezone(&chrono::Local).format("%Y-%m-%d %H:%M:%S").to_string()),
        Err(_) => None,
    }
}

/// The trimmed observation timestamp of the first station of the list,
/// when the list is non-empty and the timestamp is present and not blank.
pub open spec fn first_time_point(stations: Seq<StationReading>) -> Option<Seq<char>> {
    if stations.len() == 0 {
        Option::None
    } else {
        match stations[0].time_point {
            Option::None => Option::None,
            Option::Some(tp) => if trim_spec(tp@).len() == 0 {
                Option::None
            } else {
                Option::Some(trim_spec(tp@))
            },
        }
    }
}

/// Resolves the alert heading timestamp: the fixed `Unknown` marker when
/// the first station's timestamp is absent or blank; its local
/// wall-clock rendering when it parses as RFC 3339; the trimmed raw text
/// otherwise. Resolution never fails the run.
pub fn resolve_timestamp(stations: &Vec<StationReading>) -> (r: String)
    ensures
        match first_time_point(stations@) {
            Option::None => r@ == "Unknown"@,
            Option::Some(tp) => rfc3339_parses(tp) || r@ == tp,
        },
{
    if stations.len() == 0 {
        return "Unknown".to_owned();
    }
    match &stations[0].time_point {
        Option::None => "Unknown".to_owned(),
        Option::Some(tp) => {
            let t = trim_str(tp.as_str());
            if t.as_str().unicode_len() == 0 {
                "Unknown".to_owned()
            } else {
                match render_local(t.as_str()) {
                    Option::Some(rendered) => rendered,
                    Option::None => t,
                }
            }
        },
    }
}

} // verus!
