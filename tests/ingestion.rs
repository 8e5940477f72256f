use swpc_delta::delta::{
    check_schema, max_solar_wind_timestamp, resolve_watermark, solar_wind_to_batch, sw_columns,
    ColumnKind, SchemaMismatch, WatermarkQuery, EMPTY_TABLE_WATERMARK,
};
use swpc_delta::pipeline::{
    open_action, Action, CommitFailed, Event, MaintenanceWarning, OpenAction, OpenResult, Phase,
    Run,
};
use swpc_delta::swpc::{
    decode_row, feed_rows, filtered_solar_wind_data, new_solar_wind_records,
    payload_to_solarwind, DecodeError, SolarWind,
};
use swpc_delta::time::lookback_default;

fn row(fields: &[&str]) -> Vec<String> {
    fields.iter().map(|f| f.to_string()).collect()
}

fn header() -> Vec<String> {
    row(&["time_tag", "speed", "density", "temperature", "bx", "by", "bz", "bt"])
}

fn sample(timestamp: i64) -> SolarWind {
    SolarWind {
        timestamp,
        time_tag: format!("t{}", timestamp),
        speed: "1".to_string(),
        density: "2".to_string(),
        temperature: "3".to_string(),
        bt: "4".to_string(),
        bz: "5".to_string(),
    }
}

/// Drives a run through `events` and returns it with the calls it asked for.
fn drive(records: usize, events: &[Event]) -> (Run, Vec<Action>) {
    let mut run = Run::start(records);
    let mut actions = Vec::new();
    for e in events {
        actions.push(run.next_action());
        run.step(*e);
    }
    (run, actions)
}

const NEW_YEAR_2024: i64 = 1704067200;

#[test]
fn test_max_solar_wind_timestamp() {
    assert_eq!(max_solar_wind_timestamp(WatermarkQuery::Latest(1704067260)), 1704067260);
    assert_eq!(max_solar_wind_timestamp(WatermarkQuery::NoRows), EMPTY_TABLE_WATERMARK);
}

#[test]
fn unreachable_table_gives_lookback_watermark() {
    let midnight = chrono::Utc::now()
        .date_naive()
        .and_hms_opt(0, 0, 0)
        .unwrap()
        .and_utc()
        .timestamp();
    let w = max_solar_wind_timestamp(WatermarkQuery::Unavailable);
    assert_eq!(w, midnight - 86400);
}

#[test]
fn lookback_default_values() {
    assert_eq!(lookback_default(0), -86400);
    assert_eq!(lookback_default(86400 * 10 + 5), 86400 * 9);
    assert_eq!(lookback_default(NEW_YEAR_2024), NEW_YEAR_2024 - 86400);
    assert_eq!(lookback_default(NEW_YEAR_2024 + 86399), NEW_YEAR_2024 - 86400);
    assert_eq!(resolve_watermark(WatermarkQuery::Unavailable, NEW_YEAR_2024 + 3600), NEW_YEAR_2024 - 86400);
    assert_eq!(resolve_watermark(WatermarkQuery::Latest(42), NEW_YEAR_2024), 42);
}

#[test]
fn scenario_one_row_with_unparseable_temperature() {
    let response = vec![
        header(),
        row(&["2024-01-01 00:00:00.000", "400", "5", "na", "1e5", "0", "3", "2"]),
    ];
    let rows = feed_rows(Some(response));
    assert_eq!(rows.len(), 1);
    let records = new_solar_wind_records(0, &rows).unwrap();
    assert_eq!(records.len(), 1);
    let o = &records[0];
    assert_eq!(o.timestamp, NEW_YEAR_2024);
    assert_eq!(o.time_tag, "2024-01-01 00:00:00.000");
    assert_eq!(o.speed, "400");
    assert_eq!(o.density, "5");
    assert_eq!(o.temperature, "na");
    assert!(o.temperature.parse::<f64>().is_err());
    assert_eq!(o.bz, "3");
    assert_eq!(o.bt, "2");

    let batch = solar_wind_to_batch(&sw_columns(), &records).unwrap();
    assert_eq!(batch.num_rows(), 1);
    assert_eq!(batch.timestamp, vec![NEW_YEAR_2024]);

    let (run, actions) = drive(records.len(), &[Event::Done, Event::Committed(1), Event::Done, Event::Done]);
    assert_eq!(actions, vec![Action::WriteBatch, Action::Commit, Action::Compact, Action::Expire]);
    assert_eq!(run.next_action(), Action::Finish);
    let outcome = run.outcome().unwrap().unwrap();
    assert_eq!(outcome.records_ingested, 1);
    assert_eq!(outcome.new_version, Some(1));
    assert!(outcome.maintenance_warnings.is_empty());
}

#[test]
fn seven_field_row_follows_column_mapping() {
    let rows = vec![row(&["2024-01-01 00:00:00.000", "400", "5", "1e5", "na", "3", "2"])];
    let records = payload_to_solarwind(&rows).unwrap();
    let o = &records[0];
    assert_eq!(o.timestamp, NEW_YEAR_2024);
    assert_eq!(o.temperature, "1e5");
    assert_eq!(o.bz, "2");
    assert_eq!(o.bt, "");
}

#[test]
fn malformed_measurements_never_fail_decoding() {
    let r = row(&["2024-01-01 00:01:00.000", "x", "", "null", "?", "?", "nan?", "-"]);
    let o = decode_row(&r).unwrap();
    assert_eq!(o.timestamp, NEW_YEAR_2024 + 60);
    assert_eq!(o.speed, "x");
    assert_eq!(o.bt, "-");
    let short = row(&["2024-01-01 00:01:00.500"]);
    let o = decode_row(&short).unwrap();
    assert_eq!(o.timestamp, NEW_YEAR_2024 + 60);
    assert_eq!(o.speed, "");
    assert_eq!(o.bz, "");
}

#[test]
fn bad_time_tag_aborts_decoding() {
    let rows = vec![
        row(&["2024-01-01 00:00:00.000", "1", "2", "3", "4", "5", "6", "7"]),
        row(&["2024/01/01 00:01", "1", "2", "3", "4", "5", "6", "7"]),
        row(&["2024-01-01 00:02:00.000", "1", "2", "3", "4", "5", "6", "7"]),
    ];
    assert_eq!(payload_to_solarwind(&rows).unwrap_err(), DecodeError { row: 1 });
    assert_eq!(new_solar_wind_records(0, &rows).unwrap_err(), DecodeError { row: 1 });
    let empty_row: Vec<Vec<String>> = vec![vec![]];
    assert_eq!(payload_to_solarwind(&empty_row).unwrap_err(), DecodeError { row: 0 });
    assert!(decode_row(&row(&["not a time"])).is_none());
}

#[test]
fn feed_rows_skip_the_header() {
    assert!(feed_rows(None).is_empty());
    assert!(feed_rows(Some(vec![])).is_empty());
    assert!(feed_rows(Some(vec![header()])).is_empty());
    let rows = feed_rows(Some(vec![header(), row(&["a"]), row(&["b"])]));
    assert_eq!(rows, vec![row(&["a"]), row(&["b"])]);
}

#[test]
fn filter_is_strict_and_keeps_order() {
    let records = vec![sample(5), sample(10), sample(11), sample(10), sample(20)];
    let kept = filtered_solar_wind_data(10, &records);
    let ts: Vec<i64> = kept.iter().map(|o| o.timestamp).collect();
    assert_eq!(ts, vec![11, 20]);
    assert!(kept.iter().all(|o| o.timestamp > 10));
    assert!(filtered_solar_wind_data(20, &records).is_empty());
    assert!(filtered_solar_wind_data(0, &vec![]).is_empty());
    assert_eq!(filtered_solar_wind_data(i64::MIN, &records).len(), 5);
}

#[test]
fn second_run_on_same_feed_ingests_nothing() {
    let rows = vec![
        row(&["2024-01-01 00:00:00.000", "1", "2", "3", "4", "5", "6", "7"]),
        row(&["2024-01-01 00:01:00.000", "1", "2", "3", "4", "5", "6", "7"]),
        row(&["2024-01-01 00:02:00.000", "1", "2", "3", "4", "5", "6", "7"]),
    ];
    let first = new_solar_wind_records(NEW_YEAR_2024, &rows).unwrap();
    assert_eq!(first.len(), 2);
    let stored_max = first.iter().map(|o| o.timestamp).max().unwrap();
    let watermark = resolve_watermark(WatermarkQuery::Latest(stored_max), NEW_YEAR_2024);
    assert_eq!(watermark, NEW_YEAR_2024 + 120);
    let second = new_solar_wind_records(watermark, &rows).unwrap();
    assert!(second.is_empty());
    let run = Run::start(second.len());
    assert_eq!(run.next_action(), Action::Compact);
}

#[test]
fn empty_batch_skips_write_and_commit() {
    let (run, actions) = drive(0, &[Event::Done, Event::Done, Event::Done]);
    assert_eq!(actions, vec![Action::Compact, Action::Expire, Action::Finish]);
    let outcome = run.outcome().unwrap().unwrap();
    assert_eq!(outcome.records_ingested, 0);
    assert_eq!(outcome.new_version, None);
}

#[test]
fn commit_gives_up_after_three_conflicts() {
    let events = [Event::Done, Event::Conflict, Event::Conflict, Event::Conflict, Event::Done, Event::Done];
    let (run, actions) = drive(4, &events);
    assert_eq!(actions.iter().filter(|a| **a == Action::Commit).count(), 3);
    assert_eq!(run.phase, Phase::Failed);
    assert_eq!(run.outcome().unwrap().unwrap_err(), CommitFailed { attempts: 3 });
}

#[test]
fn commit_success_on_second_attempt_stops_retrying() {
    let events = [Event::Done, Event::Conflict, Event::Committed(8), Event::Done, Event::Done];
    let (run, actions) = drive(4, &events);
    assert_eq!(actions.iter().filter(|a| **a == Action::Commit).count(), 2);
    assert_eq!(run.attempts, 2);
    let outcome = run.outcome().unwrap().unwrap();
    assert_eq!(outcome.new_version, Some(8));
    assert_eq!(outcome.records_ingested, 4);
}

#[test]
fn non_retryable_commit_or_write_failure_fails_at_once() {
    let (run, _) = drive(1, &[Event::Done, Event::Failed]);
    assert_eq!(run.outcome().unwrap().unwrap_err(), CommitFailed { attempts: 1 });
    let (run, actions) = drive(1, &[Event::Failed, Event::Done]);
    assert_eq!(actions, vec![Action::WriteBatch, Action::Finish]);
    assert_eq!(run.outcome().unwrap().unwrap_err(), CommitFailed { attempts: 0 });
}

#[test]
fn maintenance_failures_become_warnings_in_order() {
    let (run, _) = drive(1, &[Event::Done, Event::Committed(3), Event::Failed, Event::Failed]);
    let outcome = run.outcome().unwrap().unwrap();
    assert_eq!(
        outcome.maintenance_warnings,
        vec![MaintenanceWarning::CompactionFailed, MaintenanceWarning::ExpirationFailed]
    );
    let (run, _) = drive(0, &[Event::Done, Event::Failed]);
    let outcome = run.outcome().unwrap().unwrap();
    assert_eq!(outcome.maintenance_warnings, vec![MaintenanceWarning::ExpirationFailed]);
    assert!(drive(1, &[Event::Done]).0.outcome().is_none());
}

#[test]
fn schema_must_have_the_seven_fields() {
    let cols = sw_columns();
    assert_eq!(cols.len(), 7);
    assert_eq!(cols[0].name, "timestamp");
    assert_eq!(cols[0].kind, ColumnKind::Long);
    assert_eq!(cols[1].kind, ColumnKind::Text);
    assert_eq!(cols[5].name, "bt");
    assert_eq!(cols[6].name, "bz");
    assert!(cols.iter().all(|c| c.nullable));
    assert!(check_schema(&cols));

    let mut short = sw_columns();
    short.pop();
    assert!(!check_schema(&short));
    assert_eq!(solar_wind_to_batch(&short, &vec![sample(1)]).unwrap_err(), SchemaMismatch {});

    let mut retyped = sw_columns();
    retyped[2].kind = ColumnKind::Text;
    assert!(!check_schema(&retyped));

    let mut renamed = sw_columns();
    renamed[6].name = "bt".to_string();
    assert!(!check_schema(&renamed));
}

#[test]
fn batch_columns_follow_record_order() {
    let records = vec![sample(3), sample(1), sample(2)];
    let batch = solar_wind_to_batch(&sw_columns(), &records).unwrap();
    assert_eq!(batch.timestamp, vec![3, 1, 2]);
    assert_eq!(batch.time_tag, vec!["t3", "t1", "t2"]);
    assert_eq!(batch.bt, vec!["4", "4", "4"]);
    assert_eq!(batch.bz, vec!["5", "5", "5"]);
    assert_eq!(solar_wind_to_batch(&sw_columns(), &vec![]).unwrap().num_rows(), 0);
}

#[test]
fn missing_table_is_created_other_open_errors_abort() {
    assert_eq!(open_action(OpenResult::Opened), OpenAction::UseTable);
    assert_eq!(open_action(OpenResult::NotATable), OpenAction::CreateTable);
    assert_eq!(open_action(OpenResult::Failed), OpenAction::Abort);
}
