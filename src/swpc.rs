use vstd::prelude::*;

use crate::time::{parse_utc_seconds, utc_seconds_of, TIME_TAG_FORMAT};

verus! {

/// Position of `time_tag` in a feed row.
pub const TIME_TAG_COLUMN: usize = 0;
/// Position of the plasma speed in a feed row.
pub const SPEED_COLUMN: usize = 1;
/// Position of the plasma density in a feed row.
pub const DENSITY_COLUMN: usize = 2;
/// Position of the plasma temperature in a feed row.
pub const TEMPERATURE_COLUMN: usize = 3;
/// Position of `bz` in a feed row (it comes before `bt` in the feed).
pub const BZ_COLUMN: usize = 6;
/// Position of `bt` in a feed row.
pub const BT_COLUMN: usize = 7;

/// One decoded feed sample.
///
/// The five measurements keep the text the feed gave for them; a text that is
/// not a number (or a field the row lacks, kept as the empty text) reads as `0.0`
/// where the values are turned into floating point.
#[derive(Debug)]
pub struct SolarWind {
    pub timestamp: i64,
    pub time_tag: String,
    pub speed: String,
    pub density: String,
    pub temperature: String,
    pub bt: String,
    pub bz: String,
}

impl SolarWind {
    /// A field-by-field copy.
    pub fn duplicate(&self) -> (r: SolarWind)
        ensures
            r == *self,
    {
        SolarWind {
            timestamp: self.timestamp,
            time_tag: self.time_tag.clone(),
            speed: self.speed.clone(),
            density: self.density.clone(),
            temperature: self.temperature.clone(),
            bt: self.bt.clone(),
            bz: self.bz.clone(),
        }
    }
}

/// The run's fatal decoding failure: the time tag of the row at `row` (counted
/// after the header) is missing or does not parse.
#[derive(Debug, Clone, Copy, PartialEq, Eq, Structural)]
pub struct DecodeError {
    pub row: usize,
}

/// Text of the field at position `i`, or the empty text where the row is shorter.
pub open spec fn field_at(row: Seq<String>, i: int) -> Seq<char> {
    if 0 <= i < row.len() {
        row[i]@
    } else {
        Seq::empty()
    }
}

/// Timestamp that a row's time tag spells, if it has one that parses.
pub open spec fn row_seconds(row: Seq<String>) -> Option<i64> {
    if row.len() > TIME_TAG_COLUMN {
        utc_seconds_of(row[TIME_TAG_COLUMN as int]@, TIME_TAG_FORMAT@)
    } else {
        None
    }
}

/// The row's time tag is present and parses.
pub open spec fn row_decodes(row: Seq<String>) -> bool {
    row_seconds(row) is Some
}

/// `o` is the sample that `row` decodes to.
pub open spec fn decodes_to(row: Seq<String>, o: SolarWind) -> bool {
    &&& row_seconds(row) == Some(o.timestamp)
    &&& o.time_tag@ == field_at(row, TIME_TAG_COLUMN as int)
    &&& o.speed@ == field_at(row, SPEED_COLUMN as int)
    &&& o.density@ == field_at(row, DENSITY_COLUMN as int)
    &&& o.temperature@ == field_at(row, TEMPERATURE_COLUMN as int)
    &&& o.bt@ == field_at(row, BT_COLUMN as int)
    &&& o.bz@ == field_at(row, BZ_COLUMN as int)
}

/// Every row of `rows` decodes.
pub open spec fn all_rows_decode(rows: Seq<Vec<String>>) -> bool {
    forall|i: int| 0 <= i < rows.len() ==> row_decodes(#[trigger] rows[i]@)
}

/// The rows of a feed response: everything after the header row; no rows where
/// the response is not a list of rows.
pub fn feed_rows(response: Option<Vec<Vec<String>>>) -> (r: Vec<Vec<String>>)
    ensures
        response is None ==> r@.len() == 0,
        response matches Some(rows) ==> r@ == (if rows@.len() == 0 {
            rows@
        } else {
            rows@.skip(1)
        }),
{
    match response {
        None => Vec::new(),
        Some(rows) => {
            let mut rows = rows;
            if rows.len() > 0 {
                rows.remove(0);
            }
            rows
        },
    }
}

fn field_text(row: &Vec<String>, i: usize) -> (r: String)
    ensures
        r@ == field_at(row@, i as int),
{
    if i < row.len() {
        row[i].clone()
    } else {
        String::new()
    }
}

/// Decodes one row into a sample, or `None` where its time tag does not parse.
pub fn decode_row(row: &Vec<String>) -> (r: Option<SolarWind>)
    ensures
        r is Some <==> row_decodes(row@),
        r matches Some(o) ==> decodes_to(row@, o),
{
    if row.len() <= TIME_TAG_COLUMN {
        return None;
    }
    let timestamp = match parse_utc_seconds(row[TIME_TAG_COLUMN].as_str(), TIME_TAG_FORMAT) {
        Some(t) => t,
        None => {
            return None;
        },
    };
    Some(
        SolarWind {
            timestamp,
            time_tag: field_text(row, TIME_TAG_COLUMN),
            speed: field_text(row, SPEED_COLUMN),
            density: field_text(row, DENSITY_COLUMN),
            temperature: field_text(row, TEMPERATURE_COLUMN),
            bt: field_text(row, BT_COLUMN),
            bz: field_text(row, BZ_COLUMN),
        },
    )
}

/// Decodes the feed rows (header already removed) in order. Fails with the
/// position of the first row whose time tag is missing or does not parse; the
/// measurements never make it fail.
pub fn payload_to_solarwind(response: &Vec<Vec<String>>) -> (r: Result<Vec<SolarWind>, DecodeError>)
    ensures
        r is Ok <==> all_rows_decode(response@),
        r matches Ok(v) ==> v@.len() == response@.len() && forall|i: int|
            0 <= i < v@.len() ==> decodes_to(response@[i]@, #[trigger] v@[i]),
        r matches Err(e) ==> {
            &&& e.row < response@.len()
            &&& !row_decodes(response@[e.row as int]@)
            &&& forall|j: int| 0 <= j < e.row ==> row_decodes(#[trigger] response@[j]@)
        },
{
    let mut result: Vec<SolarWind> = Vec::new();
    let mut i: usize = 0;
    while i < response.len()
        invariant
            i <= response@.len(),
            result@.len() == i,
            forall|j: int| 0 <= j < i ==> row_decodes(#[trigger] response@[j]@),
            forall|j: int| 0 <= j < i ==> decodes_to(response@[j]@, #[trigger] result@[j]),
        decreases response@.len() - i,
    {
        match decode_row(&response[i]) {
            Some(o) => {
                result.push(o);
            },
            None => {
                return Err(DecodeError { row: i });
            },
        }
        i = i + 1;
    }
    Ok(result)
}

/// Keeps `o` only when it is strictly newer than `watermark`.
pub open spec fn is_newer(watermark: i64) -> spec_fn(SolarWind) -> bool {
    |o: SolarWind| o.timestamp > watermark
}

/// The samples strictly newer than `timestamp`, in their original order.
pub fn filtered_solar_wind_data(timestamp: i64, solar_wind: &Vec<SolarWind>) -> (r: Vec<SolarWind>)
    ensures
        r@ == solar_wind@.filter(is_newer(timestamp)),
        forall|i: int| 0 <= i < r@.len() ==> #[trigger] r@[i].timestamp > timestamp,
        forall|i: int|
            0 <= i < solar_wind@.len() && solar_wind@[i].timestamp > timestamp
                ==> r@.contains(#[trigger] solar_wind@[i]),
{
    let mut result: Vec<SolarWind> = Vec::new();
    let mut i: usize = 0;
    while i < solar_wind.len()
        invariant
            i <= solar_wind@.len(),
            result@ == solar_wind@.subrange(0, i as int).filter(is_newer(timestamp)),
        decreases solar_wind@.len() - i,
    {
        proof {
            reveal(Seq::filter);
            assert(solar_wind@.subrange(0, i + 1).drop_last() =~= solar_wind@.subrange(0, i as int));
        }
        if solar_wind[i].timestamp > timestamp {
            result.push(solar_wind[i].duplicate());
        }
        i = i + 1;
    }
    proof {
        assert(solar_wind@.subrange(0, i as int) =~= solar_wind@);
        broadcast use vstd::seq_lib::group_filter_ensures;
        assert forall|i: int|
            0 <= i < solar_wind@.len() && solar_wind@[i].timestamp > timestamp
                implies result@.contains(#[trigger] solar_wind@[i]) by {
            solar_wind@.lemma_filter_contains(is_newer(timestamp), i);
        }
        assert forall|i: int| 0 <= i < result@.len() implies #[trigger] result@[i].timestamp > timestamp by {
            solar_wind@.lemma_filter_pred(is_newer(timestamp), i);
        }
    }
    result
}


/// `decoded` holds, in order, the samples that `rows` decode to.
pub open spec fn decodes_all(rows: Seq<Vec<String>>, decoded: Seq<SolarWind>) -> bool {
    &&& decoded.len() == rows.len()
    &&& forall|i: int| 0 <= i < rows.len() ==> decodes_to(rows[i]@, #[trigger] decoded[i])
}

/// A measurement's text never decides whether a row decodes: only the time tag
/// does.
pub proof fn lemma_measurement_text_irrelevant(row: Seq<String>, i: int, text: String)
    requires
        TIME_TAG_COLUMN < i < row.len(),
    ensures
        row_decodes(row.update(i, text)) == row_decodes(row),
{
    assert(row.update(i, text)[TIME_TAG_COLUMN as int] == row[TIME_TAG_COLUMN as int]);
}

/// The samples of the feed rows (header already removed) that are newer than
/// `watermark`, in feed order. A row whose time tag is missing or does not
/// parse fails the whole run, before anything is written.
pub fn new_solar_wind_records(watermark: i64, rows: &Vec<Vec<String>>) -> (r: Result<
    Vec<SolarWind>,
    DecodeError,
>)
    ensures
        r is Err <==> !all_rows_decode(rows@),
        r matches Err(e) ==> e.row < rows@.len() && !row_decodes(rows@[e.row as int]@),
        r matches Ok(v) ==> exists|decoded: Seq<SolarWind>|
            #[trigger] decodes_all(rows@, decoded) && v@ == decoded.filter(is_newer(watermark)),
{
    match payload_to_solarwind(rows) {
        Ok(decoded) => {
            let v = filtered_solar_wind_data(watermark, &decoded);
            assert(decodes_all(rows@, decoded@));
            Ok(v)
        },
        Err(e) => Err(e),
    }
}

} // verus!
