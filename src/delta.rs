use vstd::prelude::*;
use vstd::string::StringExecFns;

use crate::swpc::SolarWind;
use crate::time::{lookback_default, lookback_watermark, now_unix_seconds};

verus! {

/// Value type of a table column.
#[derive(Debug, Clone, Copy, PartialEq, Eq, Structural)]
pub enum ColumnKind {
    /// 64-bit integer.
    Long,
    /// UTF-8 text.
    Text,
    /// 64-bit floating point.
    Double,
}

/// One field of a table schema.
#[derive(Debug)]
pub struct ColumnSpec {
    pub name: String,
    pub kind: ColumnKind,
    pub nullable: bool,
}

/// Number of fields of the solar-wind table.
pub const SW_COLUMN_COUNT: usize = 7;

/// Name of the `i`-th field of the solar-wind table.
pub open spec fn sw_column_name(i: int) -> Seq<char> {
    if i == 0 {
        "timestamp"@
    } else if i == 1 {
        "time_tag"@
    } else if i == 2 {
        "speed"@
    } else if i == 3 {
        "density"@
    } else if i == 4 {
        "temperature"@
    } else if i == 5 {
        "bt"@
    } else {
        "bz"@
    }
}

/// Type of the `i`-th field of the solar-wind table.
pub open spec fn sw_column_kind(i: int) -> ColumnKind {
    if i == 0 {
        ColumnKind::Long
    } else if i == 1 {
        ColumnKind::Text
    } else {
        ColumnKind::Double
    }
}

/// A schema that a batch of samples can be written to: exactly the seven fields,
/// in order, with their names and types (nullability does not matter, since a
/// batch holds no nulls).
pub open spec fn schema_compatible(cols: Seq<ColumnSpec>) -> bool {
    &&& cols.len() == SW_COLUMN_COUNT
    &&& forall|i: int|
        0 <= i < cols.len() ==> (#[trigger] cols[i]).name@ == sw_column_name(i) && cols[i].kind
            == sw_column_kind(i)
}

fn sw_column(name: &str, kind: ColumnKind) -> (r: ColumnSpec)
    ensures
        r.name@ == name@,
        r.kind == kind,
        r.nullable,
{
    ColumnSpec { name: String::from_str(name), kind, nullable: true }
}

/// The declared schema of the solar-wind table: seven nullable fields.
pub fn sw_columns() -> (r: Vec<ColumnSpec>)
    ensures
        schema_compatible(r@),
        forall|i: int| 0 <= i < r@.len() ==> (#[trigger] r@[i]).nullable,
{
    let r = vec![
        sw_column("timestamp", ColumnKind::Long),
        sw_column("time_tag", ColumnKind::Text),
        sw_column("speed", ColumnKind::Double),
        sw_column("density", ColumnKind::Double),
        sw_column("temperature", ColumnKind::Double),
        sw_column("bt", ColumnKind::Double),
        sw_column("bz", ColumnKind::Double),
    ];
    assert(forall|i: int| 0 <= i < r@.len() ==> (#[trigger] r@[i]).name@ == sw_column_name(i));
    r
}

/// Whether a table with schema `cols` can take a batch of samples.
pub fn check_schema(cols: &Vec<ColumnSpec>) -> (r: bool)
    ensures
        r == schema_compatible(cols@),
{
    if cols.len() != SW_COLUMN_COUNT {
        return false;
    }
    let expected = sw_columns();
    let mut i: usize = 0;
    while i < SW_COLUMN_COUNT
        invariant
            i <= SW_COLUMN_COUNT,
            cols@.len() == SW_COLUMN_COUNT,
            schema_compatible(expected@),
            forall|j: int|
                0 <= j < i ==> (#[trigger] cols@[j]).name@ == sw_column_name(j) && cols@[j].kind
                    == sw_column_kind(j),
        decreases SW_COLUMN_COUNT - i,
    {
        assert(expected@[i as int].name@ == sw_column_name(i as int));
        if !(cols[i].name == expected[i].name) || cols[i].kind != expected[i].kind {
            return false;
        }
        i = i + 1;
    }
    true
}

/// The table store's schema does not have the seven fields of the samples.
#[derive(Debug, Clone, Copy, PartialEq, Eq, Structural)]
pub struct SchemaMismatch {}

/// Samples laid out column by column, in the table's field order. The
/// measurement columns hold each reading's text.
#[derive(Debug)]
pub struct SolarWindBatch {
    pub timestamp: Vec<i64>,
    pub time_tag: Vec<String>,
    pub speed: Vec<String>,
    pub density: Vec<String>,
    pub temperature: Vec<String>,
    pub bt: Vec<String>,
    pub bz: Vec<String>,
}

impl SolarWindBatch {
    /// Number of rows.
    pub open spec fn rows(&self) -> nat {
        self.timestamp@.len()
    }

    /// Row `i` of every column is field `i` of `records`, and there are as many rows
    /// as records.
    pub open spec fn projects(&self, records: Seq<SolarWind>) -> bool {
        &&& self.timestamp@.len() == records.len()
        &&& self.time_tag@.len() == records.len()
        &&& self.speed@.len() == records.len()
        &&& self.density@.len() == records.len()
        &&& self.temperature@.len() == records.len()
        &&& self.bt@.len() == records.len()
        &&& self.bz@.len() == records.len()
        &&& forall|i: int|
            0 <= i < records.len() ==> {
                &&& self.timestamp@[i] == (#[trigger] records[i]).timestamp
                &&& self.time_tag@[i] == records[i].time_tag
                &&& self.speed@[i] == records[i].speed
                &&& self.density@[i] == records[i].density
                &&& self.temperature@[i] == records[i].temperature
                &&& self.bt@[i] == records[i].bt
                &&& self.bz@[i] == records[i].bz
            }
    }

    /// Number of rows.
    pub fn num_rows(&self) -> (r: usize)
        ensures
            r == self.rows(),
    {
        self.timestamp.len()
    }
}

/// Lays the samples out column by column for a table with schema `schema`;
/// fails where that schema cannot take them.
pub fn solar_wind_to_batch(schema: &Vec<ColumnSpec>, records: &Vec<SolarWind>) -> (r: Result<
    SolarWindBatch,
    SchemaMismatch,
>)
    ensures
        r is Ok <==> schema_compatible(schema@),
        r matches Ok(b) ==> b.projects(records@),
{
    if !check_schema(schema) {
        return Err(SchemaMismatch {});
    }
    let mut b = SolarWindBatch {
        timestamp: Vec::new(),
        time_tag: Vec::new(),
        speed: Vec::new(),
        density: Vec::new(),
        temperature: Vec::new(),
        bt: Vec::new(),
        bz: Vec::new(),
    };
    let mut i: usize = 0;
    while i < records.len()
        invariant
            i <= records@.len(),
            b.projects(records@.subrange(0, i as int)),
        decreases records@.len() - i,
    {
        let o = &records[i];
        b.timestamp.push(o.timestamp);
        b.time_tag.push(o.time_tag.clone());
        b.speed.push(o.speed.clone());
        b.density.push(o.density.clone());
        b.temperature.push(o.temperature.clone());
        b.bt.push(o.bt.clone());
        b.bz.push(o.bz.clone());
        i = i + 1;
        assert(b.projects(records@.subrange(0, i as int)));
    }
    assert(records@.subrange(0, i as int) =~= records@);
    Ok(b)
}

/// Watermark used when the table exists but holds no rows.
pub const EMPTY_TABLE_WATERMARK: i64 = 1682916954;

/// What the table store answered to the query for the newest stored timestamp.
#[derive(Debug, Clone, Copy, PartialEq, Eq, Structural)]
pub enum WatermarkQuery {
    /// The table could not be opened or queried.
    Unavailable,
    /// The table holds no rows.
    NoRows,
    /// The newest stored timestamp.
    Latest(i64),
}

/// The watermark that a query answer gives at the instant `now`.
pub open spec fn resolved_watermark(query: WatermarkQuery, now: int) -> int {
    match query {
        WatermarkQuery::Unavailable => lookback_watermark(now),
        WatermarkQuery::NoRows => EMPTY_TABLE_WATERMARK as int,
        WatermarkQuery::Latest(m) => m as int,
    }
}

/// The watermark that `query` gives at the instant `now` (seconds since the epoch).
pub fn resolve_watermark(query: WatermarkQuery, now: i64) -> (r: i64)
    requires
        now >= 0,
    ensures
        r == resolved_watermark(query, now as int),
{
    match query {
        WatermarkQuery::Unavailable => lookback_default(now),
        WatermarkQuery::NoRows => EMPTY_TABLE_WATERMARK,
        WatermarkQuery::Latest(m) => m,
    }
}

/// The watermark that `query` gives now: the newest stored timestamp, the
/// empty-table value, or, where the table is out of reach, one day before the
/// start of the current UTC day.
pub fn max_solar_wind_timestamp(query: WatermarkQuery) -> (r: i64)
    ensures
        query matches WatermarkQuery::Latest(m) ==> r == m,
        query is NoRows ==> r == EMPTY_TABLE_WATERMARK,
        query is Unavailable ==> exists|now: int|
            now >= 0 && r == #[trigger] lookback_watermark(now),
{
    let now = now_unix_seconds();
    resolve_watermark(query, now)
}

} // verus!
