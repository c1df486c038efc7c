//! The station data model and the anomaly-detection rules: which field
//! values count as missing, which stations are ignored, and how a fetched
//! batch is reduced to the list of problem stations.

use vstd::prelude::*;

use crate::text::trim_spec;
use crate::text::trim_str;

verus! {

/// One monitoring station's most recent published sample.
///
/// Every field may be absent in the upstream feed; a field published as a
/// blank string or as the no-data glyph counts as absent too. A reading
/// is never mutated: everything derived from it is a function of it.
pub struct StationReading {
    pub position_name: Option<String>,
    pub quality: Option<String>,
    pub aqi: Option<String>,
    pub o3: Option<String>,
    pub no2: Option<String>,
    pub pm10: Option<String>,
    pub pm25: Option<String>,
    pub so2: Option<String>,
    pub co: Option<String>,
    pub latitude: Option<String>,
    pub longitude: Option<String>,
    pub time_point: Option<String>,
}

fn clone_opt(v: &Option<String>) -> (r: Option<String>)
    ensures
        r == *v,
{
    match v {
        Option::None => Option::None,
        Option::Some(s) => Option::Some(s.clone()),
    }
}

impl Clone for StationReading {
    fn clone(&self) -> (r: Self)
        ensures
            r == *self,
    {
        StationReading {
            position_name: clone_opt(&self.position_name),
            quality: clone_opt(&self.quality),
            aqi: clone_opt(&self.aqi),
            o3: clone_opt(&self.o3),
            no2: clone_opt(&self.no2),
            pm10: clone_opt(&self.pm10),
            pm25: clone_opt(&self.pm25),
            so2: clone_opt(&self.so2),
            co: clone_opt(&self.co),
            latitude: clone_opt(&self.latitude),
            longitude: clone_opt(&self.longitude),
            time_point: clone_opt(&self.time_point),
        }
    }
}

/// The glyph the upstream feed publishes for a measurement with no data:
/// an em dash.
pub open spec fn no_data_sentinel() -> Seq<char> {
    seq!['\u{2014}']
}

/// A field value is missing when it is absent, blank after trimming, or
/// equal to the no-data glyph.
pub open spec fn spec_missing(v: Option<String>) -> bool {
    match v {
        Option::None => true,
        Option::Some(s) => trim_spec(s@).len() == 0 || trim_spec(s@) == no_data_sentinel(),
    }
}

/// Decides `spec_missing` on a concrete field value.
pub fn is_missing(value: &Option<String>) -> (r: bool)
    ensures
        r == spec_missing(*value),
{
    match value {
        Option::None => true,
        Option::Some(s) => {
            let t = trim_str(s.as_str());
            if t.unicode_len() == 0 {
                true
            } else {
                let sentinel: String = "\u{2014}".to_owned();
                proof {
                    reveal_strlit("\u{2014}");
                    assert("\u{2014}"@ =~= no_data_sentinel());
                }
                t == sentinel
            }
        },
    }
}

/// A reading is anomalous when at least one of the seven required
/// measurements is missing.
pub open spec fn spec_has_missing(st: StationReading) -> bool {
    spec_missing(st.aqi) || spec_missing(st.pm25) || spec_missing(st.pm10) || spec_missing(st.o3)
        || spec_missing(st.no2) || spec_missing(st.so2) || spec_missing(st.co)
}

/// Decides `spec_has_missing` on a concrete reading.
pub fn has_missing_data(station: &StationReading) -> (r: bool)
    ensures
        r == spec_has_missing(*station),
{
    is_missing(&station.aqi) || is_missing(&station.pm25) || is_missing(&station.pm10)
        || is_missing(&station.o3) || is_missing(&station.no2) || is_missing(&station.so2)
        || is_missing(&station.co)
}

/// A station is on the fixed ignore list when its trimmed name exactly
/// matches one of the listed names.
pub open spec fn spec_ignored(st: StationReading) -> bool {
    match st.position_name {
        Option::None => false,
        Option::Some(n) => trim_spec(n@) == "帽峰山"@ || trim_spec(n@) == "帽峰山森林公园"@,
    }
}

/// Decides `spec_ignored` on a concrete reading.
pub fn is_ignored_station(station: &StationReading) -> (r: bool)
    ensures
        r == spec_ignored(*station),
{
    match &station.position_name {
        Option::None => false,
        Option::Some(n) => {
            let t = trim_str(n.as_str());
            let first: String = "帽峰山".to_owned();
            let second: String = "帽峰山森林公园".to_owned();
            t == first || t == second
        },
    }
}

/// A reading becomes a problem station when it is not ignored and has at
/// least one missing measurement.
pub open spec fn spec_is_problem(st: StationReading) -> bool {
    !spec_ignored(st) && spec_has_missing(st)
}

/// The problem stations of a batch, in the batch's own order.
pub open spec fn problems_of(batch: Seq<StationReading>) -> Seq<StationReading>
    decreases batch.len(),
{
    if batch.len() == 0 {
        Seq::empty()
    } else {
        problems_of(batch.drop_last()) + (if spec_is_problem(batch.last()) {
            seq![batch.last()]
        } else {
            Seq::empty()
        })
    }
}

/// Reduces a fetched batch to its problem stations, keeping fetch order.
pub fn filter_problem_stations(batch: &Vec<StationReading>) -> (r: Vec<StationReading>)
    ensures
        r@ == problems_of(batch@),
{
    let mut r: Vec<StationReading> = Vec::new();
    let mut i: usize = 0;
    while i < batch.len()
        invariant
            i <= batch@.len(),
            r@ == problems_of(batch@.take(i as int)),
        decreases batch@.len() - i,
    {
        let st = &batch[i];
        if !is_ignored_station(st) && has_missing_data(st) {
            r.push(st.clone());
        }
        proof {
            let pre = batch@.take(i as int);
            let post = batch@.take(i + 1);
            assert(post.drop_last() =~= pre);
            assert(post.last() == batch@[i as int]);
        }
        i = i + 1;
    }
    proof {
        assert(batch@.take(batch@.len() as int) =~= batch@);
    }
    r
}

/// The seven required measurements' display labels, in the fixed order in
/// which they are checked and reported.
pub open spec fn factor_labels() -> Seq<Seq<char>> {
    seq!["AQI"@, "PM2.5"@, "PM10"@, "O3"@, "NO2"@, "SO2"@, "CO"@]
}

/// The labels of the missing measurements of a reading, restricted from
/// `factor_labels` in that same fixed order.
pub open spec fn missing_factors_spec(st: StationReading) -> Seq<Seq<char>> {
    (if spec_missing(st.aqi) { seq!["AQI"@] } else { Seq::<Seq<char>>::empty() })
        + (if spec_missing(st.pm25) { seq!["PM2.5"@] } else { Seq::<Seq<char>>::empty() })
        + (if spec_missing(st.pm10) { seq!["PM10"@] } else { Seq::<Seq<char>>::empty() })
        + (if spec_missing(st.o3) { seq!["O3"@] } else { Seq::<Seq<char>>::empty() })
        + (if spec_missing(st.no2) { seq!["NO2"@] } else { Seq::<Seq<char>>::empty() })
        + (if spec_missing(st.so2) { seq!["SO2"@] } else { Seq::<Seq<char>>::empty() })
        + (if spec_missing(st.co) { seq!["CO"@] } else { Seq::<Seq<char>>::empty() })
}

/// Collects the labels of the missing measurements, in the fixed order.
pub fn get_missing_factors(station: &StationReading) -> (r: Vec<&'static str>)
    ensures
        r.deep_view() == missing_factors_spec(*station),
{
    let mut r: Vec<&'static str> = Vec::new();
    if is_missing(&station.aqi) {
        r.push("AQI");
    }
    if is_missing(&station.pm25) {
        r.push("PM2.5");
    }
    if is_missing(&station.pm10) {
        r.push("PM10");
    }
    if is_missing(&station.o3) {
        r.push("O3");
    }
    if is_missing(&station.no2) {
        r.push("NO2");
    }
    if is_missing(&station.so2) {
        r.push("SO2");
    }
    if is_missing(&station.co) {
        r.push("CO");
    }
    proof {
        assert(r.deep_view() =~~= missing_factors_spec(*station));
    }
    r
}

/// The missingness test a factor label stands for.
pub open spec fn label_missing(st: StationReading, label: Seq<char>) -> bool {
    if label == "AQI"@ {
        spec_missing(st.aqi)
    } else if label == "PM2.5"@ {
        spec_missing(st.pm25)
    } else if label == "PM10"@ {
        spec_missing(st.pm10)
    } else if label == "O3"@ {
        spec_missing(st.o3)
    } else if label == "NO2"@ {
        spec_missing(st.no2)
    } else if label == "SO2"@ {
        spec_missing(st.so2)
    } else {
        spec_missing(st.co)
    }
}

/// The missing-factor list is exactly the fixed label order restricted to
/// the labels whose measurement is missing.
#[verifier::rlimit(100)]
pub proof fn lemma_factors_are_ordered_restriction(st: StationReading)
    ensures
        missing_factors_spec(st) == factor_labels().filter(
            |label: Seq<char>| label_missing(st, label),
        ),
{
    reveal_strlit("AQI");
    reveal_strlit("PM2.5");
    reveal_strlit("PM10");
    reveal_strlit("O3");
    reveal_strlit("NO2");
    reveal_strlit("SO2");
    reveal_strlit("CO");
    let pred = |label: Seq<char>| label_missing(st, label);
    reveal_with_fuel(Seq::<_>::filter, 9);
    let l6 = seq!["AQI"@, "PM2.5"@, "PM10"@, "O3"@, "NO2"@, "SO2"@];
    let l5 = seq!["AQI"@, "PM2.5"@, "PM10"@, "O3"@, "NO2"@];
    let l4 = seq!["AQI"@, "PM2.5"@, "PM10"@, "O3"@];
    let l3 = seq!["AQI"@, "PM2.5"@, "PM10"@];
    let l2 = seq!["AQI"@, "PM2.5"@];
    let l1 = seq!["AQI"@];
    let l0 = Seq::<Seq<char>>::empty();
    let none = Seq::<Seq<char>>::empty();
    assert(factor_labels().drop_last() =~~= l6);
    assert(l6.drop_last() =~~= l5);
    assert(l5.drop_last() =~~= l4);
    assert(l4.drop_last() =~~= l3);
    assert(l3.drop_last() =~~= l2);
    assert(l2.drop_last() =~~= l1);
    assert(l1.drop_last() =~~= l0);
    assert("AQI"@[0] == 'A');
    assert("NO2"@[0] == 'N');
    assert("SO2"@[0] == 'S');
    assert("O3"@[0] == 'O');
    assert("CO"@[0] == 'C');
    assert(l0.filter(pred) =~~= none);
    assert(l1.filter(pred) =~~= (if spec_missing(st.aqi) {
        seq!["AQI"@]
    } else {
        none
    }));
    assert(l2.filter(pred) =~~= l1.filter(pred) + (if spec_missing(st.pm25) {
        seq!["PM2.5"@]
    } else {
        none
    }));
    assert(l3.filter(pred) =~~= l2.filter(pred) + (if spec_missing(st.pm10) {
        seq!["PM10"@]
    } else {
        none
    }));
    assert(l4.filter(pred) =~~= l3.filter(pred) + (if spec_missing(st.o3) {
        seq!["O3"@]
    } else {
        none
    }));
    assert(l5.filter(pred) =~~= l4.filter(pred) + (if spec_missing(st.no2) {
        seq!["NO2"@]
    } else {
        none
    }));
    assert(l6.filter(pred) =~~= l5.filter(pred) + (if spec_missing(st.so2) {
        seq!["SO2"@]
    } else {
        none
    }));
    assert(factor_labels().filter(pred) =~~= l6.filter(pred) + (if spec_missing(st.co) {
        seq!["CO"@]
    } else {
        none
    }));
    assert(missing_factors_spec(st) =~~= factor_labels().filter(pred));
}

/// A reading with a missing measurement always yields at least one factor
/// label, so a true problem station's list is never empty.
pub proof fn lemma_problem_station_has_factors(st: StationReading)
    requires
        spec_has_missing(st),
    ensures
        missing_factors_spec(st).len() > 0,
{
}

/// An ignored station never appears among the problem stations, whatever
/// its data looks like.
pub proof fn lemma_ignored_station_never_reported(batch: Seq<StationReading>, st: StationReading)
    requires
        problems_of(batch).contains(st),
    ensures
        !spec_ignored(st),
        spec_has_missing(st),
    decreases batch.len(),
{
    let out = problems_of(batch);
    let i = choose|i: int| 0 <= i < out.len() && out[i] == st;
    let prefix = problems_of(batch.drop_last());
    if i < prefix.len() {
        assert(prefix[i] == st);
        lemma_ignored_station_never_reported(batch.drop_last(), st);
    } else {
        assert(st == batch.last());
    }
}

} // verus!
