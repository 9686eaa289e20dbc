//! The state of the scans of a collection: which scan is current, the works and warnings it has
//! produced and not yet handed out, and whether it has finished.
//!
//! Each scan has a generation. Starting a scan makes a new generation current; the workers and the
//! monitor of an earlier scan carry their own generation and, once it is no longer current, what
//! they report is recorded as canceled and they are told to stop.
use crate::text::string_views;
use crate::work::{Work, WorkModel};
use vstd::prelude::*;

verus! {

/// What parsing one group gave.
pub enum UnitOutcome {
    /// The group is a work.
    Parsed(Work),
    /// The group is no work.
    NotAWork,
    /// The group could not be read; the cause.
    Failed(String),
}

/// What an outcome is, as plain values.
pub enum OutcomeModel {
    Parsed(WorkModel),
    NotAWork,
    Failed(Seq<char>),
}

impl View for UnitOutcome {
    type V = OutcomeModel;

    open spec fn view(&self) -> OutcomeModel {
        match self {
            UnitOutcome::Parsed(w) => OutcomeModel::Parsed(w@),
            UnitOutcome::NotAWork => OutcomeModel::NotAWork,
            UnitOutcome::Failed(cause) => OutcomeModel::Failed(cause@),
        }
    }
}

/// What the monitor of a scan does next.
#[derive(Clone, Copy, Debug, PartialEq, Eq, Structural)]
pub enum MonitorAction {
    /// The workers are still busy: look again later.
    Wait,
    /// Every worker is done and the scan is marked finished.
    Finished,
    /// A newer scan has started: stop the workers of this one.
    Abort,
}

/// What a poll hands out: whether the scan has finished, and the works and warnings produced since
/// the last poll.
pub struct PollResponse {
    pub finished: bool,
    pub works: Vec<Work>,
    pub warnings: Vec<String>,
}

/// What the state of the scans is, as plain values.
pub struct ScanModel {
    pub generation: u64,
    pub finished: bool,
    pub next_key: u64,
    pub works: Seq<WorkModel>,
    pub warnings: Seq<Seq<char>>,
}

/// What a poll response is, as plain values.
pub struct PollModel {
    pub finished: bool,
    pub works: Seq<WorkModel>,
    pub warnings: Seq<Seq<char>>,
}

impl View for PollResponse {
    type V = PollModel;

    open spec fn view(&self) -> PollModel {
        PollModel {
            finished: self.finished,
            works: self.works@.map_values(|w: Work| w@),
            warnings: string_views(self.warnings@),
        }
    }
}

/// The scans of one collection.
pub struct ScanState {
    generation: u64,
    finished: bool,
    next_key: u64,
    works: Vec<Work>,
    warnings: Vec<String>,
}

impl View for ScanState {
    type V = ScanModel;

    closed spec fn view(&self) -> ScanModel {
        ScanModel {
            generation: self.generation,
            finished: self.finished,
            next_key: self.next_key,
            works: self.works@.map_values(|w: Work| w@),
            warnings: string_views(self.warnings@),
        }
    }
}

/// The warning for a group that a newer scan kept from being parsed.
pub open spec fn canceled_message(dir: Seq<char>) -> Seq<char> {
    "Parsing work '"@ + dir + "' was canceled"@
}

/// The warning for a group that could not be parsed.
pub open spec fn parse_failure_message(dir: Seq<char>, cause: Seq<char>) -> Seq<char> {
    "Failed to parse '"@ + dir + "': "@ + cause
}

/// The state once a new scan has started: the next generation, nothing produced, not finished.
pub open spec fn started(m: ScanModel) -> ScanModel {
    ScanModel {
        generation: (m.generation + 1) as u64,
        finished: false,
        next_key: 0,
        works: Seq::empty(),
        warnings: Seq::empty(),
    }
}

/// The state after a worker of scan `generation` asked whether to parse the group `dir`, and the
/// answer: yes while that scan is current; otherwise no, and the group is recorded as canceled.
pub open spec fn unit_begun(m: ScanModel, generation: u64, dir: Seq<char>) -> (ScanModel, bool) {
    if generation == m.generation {
        (m, true)
    } else {
        (ScanModel { warnings: m.warnings.push(canceled_message(dir)), ..m }, false)
    }
}

/// The next work key: one more than the last, stopping at the largest.
pub open spec fn key_after(key: u64) -> u64 {
    if key < u64::MAX {
        (key + 1) as u64
    } else {
        key
    }
}

/// The state after a worker of scan `generation` reported what parsing the group `dir` gave: a
/// work is kept with the next key, a failure becomes a warning; while the scan is not current the
/// group is recorded as canceled instead.
pub open spec fn outcome_recorded(
    m: ScanModel,
    generation: u64,
    dir: Seq<char>,
    outcome: OutcomeModel,
) -> ScanModel {
    if generation != m.generation {
        ScanModel { warnings: m.warnings.push(canceled_message(dir)), ..m }
    } else {
        match outcome {
            OutcomeModel::Parsed(w) => ScanModel {
                works: m.works.push(WorkModel { key: m.next_key, ..w }),
                next_key: key_after(m.next_key),
                ..m
            },
            OutcomeModel::NotAWork => m,
            OutcomeModel::Failed(cause) => ScanModel {
                warnings: m.warnings.push(parse_failure_message(dir, cause)),
                ..m
            },
        }
    }
}

/// The state after a warning of scan `generation`, which is kept while that scan is current.
pub open spec fn warning_recorded(m: ScanModel, generation: u64, warning: Seq<char>) -> ScanModel {
    if generation == m.generation {
        ScanModel { warnings: m.warnings.push(warning), ..m }
    } else {
        m
    }
}

/// The state after the monitor of scan `generation` looked, and what it does next.
pub open spec fn monitored(m: ScanModel, generation: u64, workers_done: bool) -> (
    ScanModel,
    MonitorAction,
) {
    if generation != m.generation {
        (m, MonitorAction::Abort)
    } else if workers_done {
        (ScanModel { finished: true, ..m }, MonitorAction::Finished)
    } else {
        (m, MonitorAction::Wait)
    }
}

/// The state after a poll, and what the poll hands out: everything produced since the last poll,
/// which leaves the state.
pub open spec fn polled(m: ScanModel) -> (ScanModel, PollModel) {
    (
        ScanModel { works: Seq::empty(), warnings: Seq::empty(), ..m },
        PollModel { finished: m.finished, works: m.works, warnings: m.warnings },
    )
}

/// Something that a worker or the monitor of a scan reports.
pub enum ScanEvent {
    UnitBegun(Seq<char>),
    OutcomeRecorded(Seq<char>, OutcomeModel),
    WarningRecorded(Seq<char>),
    Monitored(bool),
}

/// The state after one event of scan `generation`.
pub open spec fn event_applied(m: ScanModel, generation: u64, e: ScanEvent) -> ScanModel {
    match e {
        ScanEvent::UnitBegun(dir) => unit_begun(m, generation, dir).0,
        ScanEvent::OutcomeRecorded(dir, outcome) => outcome_recorded(m, generation, dir, outcome),
        ScanEvent::WarningRecorded(w) => warning_recorded(m, generation, w),
        ScanEvent::Monitored(done) => monitored(m, generation, done).0,
    }
}

/// The state after the events of scan `generation`, in order.
pub open spec fn events_applied(m: ScanModel, generation: u64, events: Seq<ScanEvent>) -> ScanModel
    decreases events.len(),
{
    if events.len() == 0 {
        m
    } else {
        event_applied(events_applied(m, generation, events.drop_last()), generation, events.last())
    }
}

/// The warnings that the events of a scan that is no longer current leave: one cancellation for
/// each group it asked about or reported on.
pub open spec fn cancellations(events: Seq<ScanEvent>) -> Seq<Seq<char>>
    decreases events.len(),
{
    if events.len() == 0 {
        Seq::empty()
    } else {
        let rest = cancellations(events.drop_last());
        match events.last() {
            ScanEvent::UnitBegun(dir) => rest.push(canceled_message(dir)),
            ScanEvent::OutcomeRecorded(dir, _) => rest.push(canceled_message(dir)),
            _ => rest,
        }
    }
}

/// A scan that a newer one has superseded delivers nothing: whatever its workers and monitor report
/// after the newer scan started, no work of it is kept, it never marks the state finished, each
/// group it still asks about or reports on is recorded as canceled, and its monitor is told to
/// stop; the monitor of the newer scan, once its workers are done, marks the state finished.
pub proof fn lemma_superseded_scan_is_canceled(m: ScanModel, events: Seq<ScanEvent>)
    requires
        m.generation < u64::MAX,
    ensures
        ({
            let newer = started(m);
            let after = events_applied(newer, m.generation, events);
            &&& after.works == newer.works
            &&& !after.finished
            &&& after.generation == newer.generation
            &&& after.warnings == newer.warnings + cancellations(events)
            &&& monitored(after, m.generation, true).1 == MonitorAction::Abort
            &&& monitored(after, newer.generation, true).0.finished
        }),
    decreases events.len(),
{
    if events.len() > 0 {
        lemma_superseded_scan_is_canceled(m, events.drop_last());
    }
    let newer = started(m);
    let after = events_applied(newer, m.generation, events);
    assert(after.warnings =~= newer.warnings + cancellations(events));
}

/// Polling hands everything out once: a second poll with nothing produced in between hands out no
/// work and no warning, and reports the same finished flag.
pub proof fn lemma_poll_drains(m: ScanModel)
    ensures
        ({
            let first = polled(m);
            let second = polled(first.0);
            &&& first.1.works == m.works
            &&& first.1.warnings == m.warnings
            &&& second.1.works.len() == 0
            &&& second.1.warnings.len() == 0
            &&& second.1.finished == first.1.finished
        }),
{
}

fn canceled(dir: &str) -> (r: String)
    ensures
        r@ == canceled_message(dir@),
{
    let mut r = "Parsing work '".to_string();
    r.append(dir);
    r.append("' was canceled");
    r
}

fn parse_failure(dir: &str, cause: &str) -> (r: String)
    ensures
        r@ == parse_failure_message(dir@, cause@),
{
    let mut r = "Failed to parse '".to_string();
    r.append(dir);
    r.append("': ");
    r.append(cause);
    r
}

impl ScanState {
    /// The state before any scan: generation zero, nothing produced, not finished.
    pub fn new() -> (r: ScanState)
        ensures
            r@ == (ScanModel {
                generation: 0,
                finished: false,
                next_key: 0,
                works: Seq::empty(),
                warnings: Seq::empty(),
            }),
    {
        let r = ScanState {
            generation: 0,
            finished: false,
            next_key: 0,
            works: Vec::new(),
            warnings: Vec::new(),
        };
        assert(r@.works =~= Seq::<WorkModel>::empty());
        assert(r@.warnings =~= Seq::<Seq<char>>::empty());
        r
    }

    /// The generation of the current scan.
    pub fn generation(&self) -> (r: u64)
        ensures
            r == self@.generation,
    {
        self.generation
    }

    /// Whether scan `generation` is the current one.
    pub fn is_current(&self, generation: u64) -> (r: bool)
        ensures
            r == (generation == self@.generation),
    {
        generation == self.generation
    }

    /// Starts a new scan, which supersedes the one before, and returns its generation; `None`, with
    /// nothing changed, where every generation has been used.
    pub fn start_scan(&mut self) -> (r: Option<u64>)
        ensures
            old(self)@.generation < u64::MAX ==> r == Some(final(self)@.generation)
                && final(self)@ == started(old(self)@),
            old(self)@.generation == u64::MAX ==> r is None && final(self)@ == old(self)@,
    {
        if self.generation == u64::MAX {
            return None;
        }
        self.generation = self.generation + 1;
        self.finished = false;
        self.next_key = 0;
        self.works = Vec::new();
        self.warnings = Vec::new();
        assert(self@.works =~= Seq::<WorkModel>::empty());
        assert(self@.warnings =~= Seq::<Seq<char>>::empty());
        Some(self.generation)
    }

    /// Asks, for a worker of scan `generation`, whether to parse the group `dir`: yes while that
    /// scan is current; otherwise no, and the group is recorded as canceled.
    pub fn begin_unit(&mut self, generation: u64, dir: &str) -> (r: bool)
        ensures
            (final(self)@, r) == unit_begun(old(self)@, generation, dir@),
    {
        if generation == self.generation {
            true
        } else {
            let message = canceled(dir);
            self.warnings.push(message);
            assert(string_views(self.warnings@) == string_views(old(self).warnings@).push(
                message@,
            ));
            false
        }
    }

    /// Records what parsing the group `dir` gave a worker of scan `generation`.
    pub fn record_outcome(&mut self, generation: u64, dir: &str, outcome: UnitOutcome)
        ensures
            final(self)@ == outcome_recorded(old(self)@, generation, dir@, outcome@),
    {
        if generation != self.generation {
            let message = canceled(dir);
            self.warnings.push(message);
            assert(string_views(self.warnings@) == string_views(old(self).warnings@).push(
                message@,
            ));
            return ;
        }
        match outcome {
            UnitOutcome::Parsed(work) => {
                let mut work = work;
                work.key = self.next_key;
                let ghost keyed = work@;
                self.works.push(work);
                assert(self.works@.map_values(|w: Work| w@) == old(self).works@.map_values(
                    |w: Work| w@,
                ).push(keyed));
                if self.next_key < u64::MAX {
                    self.next_key = self.next_key + 1;
                }
            },
            UnitOutcome::NotAWork => {},
            UnitOutcome::Failed(cause) => {
                let message = parse_failure(dir, cause.as_str());
                self.warnings.push(message);
                assert(string_views(self.warnings@) == string_views(old(self).warnings@).push(
                    message@,
                ));
            },
        }
    }

    /// Records a warning of scan `generation`, while that scan is current.
    pub fn record_warning(&mut self, generation: u64, warning: String)
        ensures
            final(self)@ == warning_recorded(old(self)@, generation, warning@),
    {
        if generation == self.generation {
            let ghost text = warning@;
            self.warnings.push(warning);
            assert(string_views(self.warnings@) == string_views(old(self).warnings@).push(text));
        }
    }

    /// Looks, for the monitor of scan `generation`, whether the scan has ended: it is marked
    /// finished when its workers are done, and its monitor stops once a newer scan has started.
    pub fn monitor(&mut self, generation: u64, workers_done: bool) -> (r: MonitorAction)
        ensures
            (final(self)@, r) == monitored(old(self)@, generation, workers_done),
    {
        if generation != self.generation {
            MonitorAction::Abort
        } else if workers_done {
            self.finished = true;
            MonitorAction::Finished
        } else {
            MonitorAction::Wait
        }
    }

    /// Hands out whether the scan has finished and everything produced since the last poll, which
    /// leaves the state.
    pub fn poll(&mut self) -> (r: PollResponse)
        ensures
            (final(self)@, r@) == polled(old(self)@),
    {
        let mut works: Vec<Work> = Vec::new();
        let mut warnings: Vec<String> = Vec::new();
        std::mem::swap(&mut works, &mut self.works);
        std::mem::swap(&mut warnings, &mut self.warnings);
        assert(self@.works =~= Seq::<WorkModel>::empty());
        assert(self@.warnings =~= Seq::<Seq<char>>::empty());
        PollResponse { finished: self.finished, works, warnings }
    }
}

} // verus!
