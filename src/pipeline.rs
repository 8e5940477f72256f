use vstd::prelude::*;

use crate::delta::{resolved_watermark, WatermarkQuery};
use crate::swpc::{is_newer, SolarWind};

verus! {

/// Most commit attempts a run makes before it gives up.
pub const MAX_COMMIT_ATTEMPTS: u32 = 3;

/// What opening the table gave.
#[derive(Debug, Clone, Copy, PartialEq, Eq, Structural)]
pub enum OpenResult {
    Opened,
    NotATable,
    Failed,
}

/// What to do after an attempt to open the table.
#[derive(Debug, Clone, Copy, PartialEq, Eq, Structural)]
pub enum OpenAction {
    UseTable,
    CreateTable,
    Abort,
}

/// A missing table is created; any other failure to open it ends the run.
pub fn open_action(result: OpenResult) -> (r: OpenAction)
    ensures
        result is Opened <==> r is UseTable,
        result is NotATable <==> r is CreateTable,
        result is Failed <==> r is Abort,
{
    match result {
        OpenResult::Opened => OpenAction::UseTable,
        OpenResult::NotATable => OpenAction::CreateTable,
        OpenResult::Failed => OpenAction::Abort,
    }
}

/// Where a run stands once its new samples are known.
#[derive(Debug, Clone, Copy, PartialEq, Eq, Structural)]
pub enum Phase {
    Writing,
    Committing,
    Compacting,
    Expiring,
    Finished,
    Failed,
}

/// The table-store call a run asks for next.
#[derive(Debug, Clone, Copy, PartialEq, Eq, Structural)]
pub enum Action {
    WriteBatch,
    Commit,
    Compact,
    Expire,
    Finish,
}

/// How the last requested call went.
#[derive(Debug, Clone, Copy, PartialEq, Eq, Structural)]
pub enum Event {
    /// The call succeeded (a write, a compaction, an expiration).
    Done,
    /// The call failed; for a commit, in a way that a retry cannot mend.
    Failed,
    /// The commit lost to a concurrent writer and may be retried.
    Conflict,
    /// The commit produced this table version.
    Committed(i64),
}

/// The write-commit-maintain part of a run.
#[derive(Debug, Clone, Copy, PartialEq, Eq, Structural)]
pub struct Run {
    pub phase: Phase,
    /// Samples in the batch.
    pub records: usize,
    /// Commits attempted so far.
    pub attempts: u32,
    /// Version that the commit produced.
    pub version: Option<i64>,
    pub compaction_failed: bool,
    pub expiration_failed: bool,
}

/// A run's result once it has finished.
#[derive(Debug)]
pub struct RunOutcome {
    pub records_ingested: usize,
    pub new_version: Option<i64>,
    pub maintenance_warnings: Vec<MaintenanceWarning>,
}

/// A maintenance call that failed without failing the run.
#[derive(Debug, Clone, Copy, PartialEq, Eq, Structural)]
pub enum MaintenanceWarning {
    CompactionFailed,
    ExpirationFailed,
}

/// The run's fatal commit failure: the batch was not committed and the table
/// keeps its prior version.
#[derive(Debug, Clone, Copy, PartialEq, Eq, Structural)]
pub struct CommitFailed {
    pub attempts: u32,
}

/// A run that starts with `records` new samples.
pub open spec fn run_start(records: usize) -> Run {
    Run {
        phase: if records == 0 {
            Phase::Compacting
        } else {
            Phase::Writing
        },
        records,
        attempts: 0,
        version: None,
        compaction_failed: false,
        expiration_failed: false,
    }
}

/// The call that a run in state `run` asks for.
pub open spec fn run_action(run: Run) -> Action {
    match run.phase {
        Phase::Writing => Action::WriteBatch,
        Phase::Committing => Action::Commit,
        Phase::Compacting => Action::Compact,
        Phase::Expiring => Action::Expire,
        Phase::Finished | Phase::Failed => Action::Finish,
    }
}

/// The state that follows `run` once its requested call went as `event` says.
pub open spec fn run_step(run: Run, event: Event) -> Run {
    match run.phase {
        Phase::Writing => match event {
            Event::Done => Run { phase: Phase::Committing, ..run },
            _ => Run { phase: Phase::Failed, ..run },
        },
        Phase::Committing => {
            let attempts = (run.attempts + 1) as u32;
            match event {
                Event::Committed(v) => Run {
                    phase: Phase::Compacting,
                    attempts,
                    version: Some(v),
                    ..run
                },
                Event::Conflict => Run {
                    phase: if attempts < MAX_COMMIT_ATTEMPTS {
                        Phase::Committing
                    } else {
                        Phase::Failed
                    },
                    attempts,
                    ..run
                },
                _ => Run { phase: Phase::Failed, attempts, ..run },
            }
        },
        Phase::Compacting => Run {
            phase: Phase::Expiring,
            compaction_failed: event is Failed,
            ..run
        },
        Phase::Expiring => Run {
            phase: Phase::Finished,
            expiration_failed: event is Failed,
            ..run
        },
        Phase::Finished | Phase::Failed => run,
    }
}

impl Run {
    /// Bounds that every reachable state keeps.
    pub open spec fn wf(self) -> bool {
        &&& self.attempts <= MAX_COMMIT_ATTEMPTS
        &&& self.phase is Committing ==> self.attempts < MAX_COMMIT_ATTEMPTS
        &&& self.phase is Writing ==> self.attempts == 0
        &&& (self.phase is Writing || self.phase is Committing) ==> self.records > 0
        &&& self.version is Some ==> self.records > 0
    }

    /// A run with `records` new samples: with none it goes straight to maintenance.
    pub fn start(records: usize) -> (r: Run)
        ensures
            r == run_start(records),
            r.wf(),
    {
        Run {
            phase: if records == 0 {
                Phase::Compacting
            } else {
                Phase::Writing
            },
            records,
            attempts: 0,
            version: None,
            compaction_failed: false,
            expiration_failed: false,
        }
    }

    /// The call this run asks for next.
    pub fn next_action(&self) -> (r: Action)
        ensures
            r == run_action(*self),
    {
        match self.phase {
            Phase::Writing => Action::WriteBatch,
            Phase::Committing => Action::Commit,
            Phase::Compacting => Action::Compact,
            Phase::Expiring => Action::Expire,
            Phase::Finished | Phase::Failed => Action::Finish,
        }
    }

    /// Moves the run on, given how its requested call went.
    pub fn step(&mut self, event: Event)
        requires
            old(self).wf(),
        ensures
            *final(self) == run_step(*old(self), event),
            final(self).wf(),
    {
        match self.phase {
            Phase::Writing => {
                self.phase = match event {
                    Event::Done => Phase::Committing,
                    _ => Phase::Failed,
                };
            },
            Phase::Committing => {
                self.attempts = self.attempts + 1;
                match event {
                    Event::Committed(v) => {
                        self.phase = Phase::Compacting;
                        self.version = Some(v);
                    },
                    Event::Conflict => {
                        if self.attempts >= MAX_COMMIT_ATTEMPTS {
                            self.phase = Phase::Failed;
                        }
                    },
                    _ => {
                        self.phase = Phase::Failed;
                    },
                }
            },
            Phase::Compacting => {
                self.phase = Phase::Expiring;
                self.compaction_failed = match event {
                    Event::Failed => true,
                    _ => false,
                };
            },
            Phase::Expiring => {
                self.phase = Phase::Finished;
                self.expiration_failed = match event {
                    Event::Failed => true,
                    _ => false,
                };
            },
            Phase::Finished | Phase::Failed => {},
        }
    }

    /// The run's result: `None` while it is still going, the commit failure where
    /// it failed, else what it ingested and the maintenance calls that failed,
    /// compaction first.
    pub fn outcome(&self) -> (r: Option<Result<RunOutcome, CommitFailed>>)
        ensures
            r is None <==> !(self.phase is Finished || self.phase is Failed),
            self.phase is Failed ==> r == Some(Err::<RunOutcome, CommitFailed>(CommitFailed { attempts: self.attempts })),
            self.phase is Finished ==> (r matches Some(Ok(o)) && {
                &&& o.new_version == self.version
                &&& o.records_ingested == (if self.version is Some { self.records } else { 0 })
                &&& o.maintenance_warnings@ == warnings_of(*self)
            }),
    {
        match self.phase {
            Phase::Failed => Some(Err(CommitFailed { attempts: self.attempts })),
            Phase::Finished => {
                let mut warnings: Vec<MaintenanceWarning> = Vec::new();
                if self.compaction_failed {
                    warnings.push(MaintenanceWarning::CompactionFailed);
                }
                if self.expiration_failed {
                    warnings.push(MaintenanceWarning::ExpirationFailed);
                }
                let records_ingested = match self.version {
                    Some(_) => self.records,
                    None => 0,
                };
                Some(
                    Ok(
                        RunOutcome {
                            records_ingested,
                            new_version: self.version,
                            maintenance_warnings: warnings,
                        },
                    ),
                )
            },
            _ => None,
        }
    }
}

/// The warnings of a finished run, compaction first.
pub open spec fn warnings_of(run: Run) -> Seq<MaintenanceWarning> {
    let c: Seq<MaintenanceWarning> = if run.compaction_failed {
        seq![MaintenanceWarning::CompactionFailed]
    } else {
        seq![]
    };
    let e: Seq<MaintenanceWarning> = if run.expiration_failed {
        seq![MaintenanceWarning::ExpirationFailed]
    } else {
        seq![]
    };
    c + e
}


/// The calls that a run starting in state `run` asks for, one per event, while
/// the events say how each call went.
pub open spec fn run_trace(run: Run, events: Seq<Event>) -> Seq<Action>
    decreases events.len(),
{
    if events.len() == 0 {
        Seq::empty()
    } else {
        seq![run_action(run)] + run_trace(run_step(run, events[0]), events.drop_first())
    }
}

/// The state a run in state `run` reaches through `events`.
pub open spec fn run_after(run: Run, events: Seq<Event>) -> Run
    decreases events.len(),
{
    if events.len() == 0 {
        run
    } else {
        run_after(run_step(run, events[0]), events.drop_first())
    }
}

/// Number of commit calls in `actions`.
pub open spec fn commit_count(actions: Seq<Action>) -> nat
    decreases actions.len(),
{
    if actions.len() == 0 {
        0
    } else {
        (if actions[0] is Commit {
            1nat
        } else {
            0nat
        }) + commit_count(actions.drop_first())
    }
}

/// Commits that a run in state `run` may still attempt.
pub open spec fn commit_budget(run: Run) -> nat {
    match run.phase {
        Phase::Writing => MAX_COMMIT_ATTEMPTS as nat,
        Phase::Committing => (MAX_COMMIT_ATTEMPTS - run.attempts) as nat,
        _ => 0,
    }
}

proof fn lemma_step_keeps_wf(run: Run, event: Event)
    requires
        run.wf(),
    ensures
        run_step(run, event).wf(),
{
}

proof fn lemma_trace_within_budget(run: Run, events: Seq<Event>)
    requires
        run.wf(),
    ensures
        commit_count(run_trace(run, events)) <= commit_budget(run),
    decreases events.len(),
{
    if events.len() > 0 {
        let next = run_step(run, events[0]);
        lemma_step_keeps_wf(run, events[0]);
        lemma_trace_within_budget(next, events.drop_first());
        let t = run_trace(run, events);
        assert(t.drop_first() =~= run_trace(next, events.drop_first()));
    }
}

/// Past the commit stage a run never asks for a write or a commit, and its
/// version stays what it was.
proof fn lemma_after_commit_stage(run: Run, events: Seq<Event>)
    requires
        !(run.phase is Writing || run.phase is Committing),
    ensures
        forall|i: int|
            0 <= i < run_trace(run, events).len() ==> !(#[trigger] run_trace(run, events)[i] is WriteBatch
                || run_trace(run, events)[i] is Commit),
        run_after(run, events).version == run.version,
        commit_count(run_trace(run, events)) == 0,
    decreases events.len(),
{
    if events.len() > 0 {
        let next = run_step(run, events[0]);
        lemma_after_commit_stage(next, events.drop_first());
        let t = run_trace(run, events);
        assert(t.drop_first() =~= run_trace(next, events.drop_first()));
        assert forall|i: int| 0 <= i < t.len() implies !(#[trigger] t[i] is WriteBatch || t[i] is Commit) by {
            if i > 0 {
                assert(t[i] == t.drop_first()[i - 1]);
            }
        }
    }
}

/// A run asks for at most `MAX_COMMIT_ATTEMPTS` commits, whatever the table
/// store answers.
pub proof fn lemma_commit_attempts_bounded(records: usize, events: Seq<Event>)
    ensures
        commit_count(run_trace(run_start(records), events)) <= MAX_COMMIT_ATTEMPTS,
{
    lemma_trace_within_budget(run_start(records), events);
}

/// Once a commit succeeds, no further commit is attempted, and the run keeps the
/// version that the commit produced.
pub proof fn lemma_commit_success_ends_attempts(run: Run, version: i64, events: Seq<Event>)
    requires
        run.wf(),
        run.phase is Committing,
    ensures
        commit_count(run_trace(run, seq![Event::Committed(version)] + events)) == 1,
        run_after(run, seq![Event::Committed(version)] + events).version == Some(version),
{
    let all = seq![Event::Committed(version)] + events;
    let next = run_step(run, Event::Committed(version));
    assert(all.drop_first() =~= events);
    lemma_after_commit_stage(next, events);
    assert(run_trace(run, all).drop_first() =~= run_trace(next, events));
}

/// With no new samples a run never writes or commits, and the table version is
/// left as it was.
pub proof fn lemma_no_new_records_no_commit(events: Seq<Event>)
    ensures
        forall|i: int|
            0 <= i < run_trace(run_start(0), events).len() ==> !(
            #[trigger] run_trace(run_start(0), events)[i] is WriteBatch || run_trace(
                run_start(0),
                events,
            )[i] is Commit),
        run_after(run_start(0), events).version is None,
{
    lemma_after_commit_stage(run_start(0), events);
}


/// Largest of the timestamps in `s` (zero for none).
pub open spec fn max_timestamp(s: Seq<i64>) -> i64
    decreases s.len(),
{
    if s.len() == 0 {
        0
    } else if s.len() == 1 {
        s[0]
    } else {
        let m = max_timestamp(s.drop_last());
        if s.last() > m {
            s.last()
        } else {
            m
        }
    }
}

/// What the watermark query answers on a table that holds the timestamps `stored`.
pub open spec fn table_answer(stored: Seq<i64>) -> WatermarkQuery {
    if stored.len() == 0 {
        WatermarkQuery::NoRows
    } else {
        WatermarkQuery::Latest(max_timestamp(stored))
    }
}

/// Timestamps of `records`, in order.
pub open spec fn timestamps(records: Seq<SolarWind>) -> Seq<i64> {
    records.map_values(|o: SolarWind| o.timestamp)
}

proof fn lemma_max_timestamp_bounds(s: Seq<i64>)
    requires
        s.len() > 0,
    ensures
        forall|i: int| 0 <= i < s.len() ==> #[trigger] s[i] <= max_timestamp(s),
        exists|i: int| 0 <= i < s.len() && #[trigger] s[i] == max_timestamp(s),
    decreases s.len(),
{
    if s.len() > 1 {
        let rest = s.drop_last();
        lemma_max_timestamp_bounds(rest);
        assert forall|i: int| 0 <= i < s.len() implies #[trigger] s[i] <= max_timestamp(s) by {
            if i < s.len() - 1 {
                assert(s[i] == rest[i]);
            }
        }
        if s.last() > max_timestamp(rest) {
            assert(s[s.len() - 1] == max_timestamp(s));
        } else {
            let k = choose|k: int| 0 <= k < rest.len() && rest[k] == max_timestamp(rest);
            assert(s[k] == max_timestamp(s));
        }
    } else {
        assert(s[0] == max_timestamp(s));
    }
}

/// Running again on an unchanged feed ingests nothing: once a run has stored
/// the samples newer than its watermark, the watermark that the table then
/// gives is at least every timestamp of the feed, and filtering the feed by it
/// keeps nothing.
///
/// `watermark` is the first run's, `stored` what the table held before it (its
/// newest timestamp being that watermark); the table must hold some row after
/// the first run, else the second run falls back to the empty-table watermark.
pub proof fn lemma_rerun_ingests_nothing(
    watermark: i64,
    feed: Seq<SolarWind>,
    stored: Seq<i64>,
    now: int,
)
    requires
        stored.len() > 0 ==> watermark == max_timestamp(stored),
        stored.len() > 0 || feed.filter(is_newer(watermark)).len() > 0,
        now >= 0,
    ensures
        ({
            let after = stored + timestamps(feed.filter(is_newer(watermark)));
            let second = resolved_watermark(table_answer(after), now);
            &&& forall|i: int| 0 <= i < feed.len() ==> #[trigger] feed[i].timestamp <= second
            &&& feed.filter(is_newer(second as i64)).len() == 0
        }),
{
    broadcast use vstd::seq_lib::group_filter_ensures;

    let first = feed.filter(is_newer(watermark));
    let ts = timestamps(first);
    let after = stored + ts;
    lemma_max_timestamp_bounds(after);
    let m = max_timestamp(after);
    assert(table_answer(after) == WatermarkQuery::Latest(m));
    if stored.len() > 0 {
        lemma_max_timestamp_bounds(stored);
        let k = choose|k: int| 0 <= k < stored.len() && stored[k] == max_timestamp(stored);
        assert(after[k] == stored[k]);
    } else {
        feed.lemma_filter_pred(is_newer(watermark), 0);
        assert(after[0] == ts[0]);
    }
    assert(watermark <= m);
    assert forall|i: int| 0 <= i < feed.len() implies #[trigger] feed[i].timestamp <= m by {
        if feed[i].timestamp > watermark {
            feed.lemma_filter_contains(is_newer(watermark), i);
            let j = choose|j: int| 0 <= j < first.len() && first[j] == feed[i];
            assert(after[stored.len() + j] == ts[j]);
        }
    }
    let second = feed.filter(is_newer(m));
    if second.len() > 0 {
        feed.lemma_filter_pred(is_newer(m), 0);
        assert(second.contains(second[0]));
        feed.lemma_filter_contains_rev(is_newer(m), second[0]);
    }
}

} // verus!
