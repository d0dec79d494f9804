use vstd::prelude::*;
use crate::handle_table::{InspectError, PROCESS_HANDLE_TABLE_ENTRY_INFO};
use crate::object_name::{guard_marker, is_guard_name};
use crate::process::{matching_pids, select_targets, ProcessRecord};
use crate::text::contains_text;

verus! {

/// The pause between two passes of a scan that goes on for ever, in
/// milliseconds.
pub const SCAN_INTERVAL_MILLIS: u64 = 100;

/// How a scan ends.
#[derive(Clone, Copy, Debug, PartialEq, Eq, Structural)]
pub enum ScanMode {
    /// Passes are repeated at once until one guard has been closed; then the
    /// scan is over.
    OneShot,
    /// Passes are repeated after a pause, for ever; every guard found is closed.
    Continuous,
}

/// What a scan is waiting for.
#[derive(Clone, Copy, Debug, PartialEq, Eq, Structural)]
pub enum ScanPhase {
    /// A pass begins: the list of processes was asked for.
    AwaitSnapshot,
    /// The handle table of the current process was asked for.
    AwaitTable,
    /// The name of the current handle was asked for.
    AwaitName,
    /// The current handle was asked to be closed in its process.
    AwaitClose,
    /// A guard has been closed and the scan is over.
    Found,
    /// The scan has failed and is over.
    Failed,
}

/// What the driver of a scan is asked to do next.
#[derive(Clone, Copy, Debug, PartialEq, Eq, Structural)]
pub enum ScanAction {
    /// Take a fresh snapshot of the processes and report it.
    TakeSnapshot,
    /// Wait for this many milliseconds, then take a fresh snapshot and report
    /// it.
    PauseThenSnapshot { millis: u64 },
    /// Obtain the handle table of this process and report it.
    Inspect { pid: u32 },
    /// Obtain the name of this handle of this process, leaving the handle
    /// open in the process, and report it.
    QueryName { pid: u32, handle: u64 },
    /// Duplicate this handle out of this process so that the process loses
    /// it, release the copy, and report whether that succeeded.
    CloseSource { pid: u32, handle: u64 },
    /// Nothing: a guard has been closed.
    Done,
    /// Nothing: the scan has failed.
    Fail,
}

/// The state of a scan as contracts see it.
pub struct ScanModel {
    pub mode: ScanMode,
    pub phase: ScanPhase,
    /// The target processes of the current snapshot, in snapshot order.
    pub targets: Seq<u32>,
    /// The index of the current process among the targets.
    pub target_pos: int,
    /// The handle values of the current process, in table order.
    pub handles: Seq<u64>,
    /// The index of the current handle among those.
    pub handle_pos: int,
}

/// What is reported to a scan.
pub enum ScanEvent {
    /// The processes of a fresh snapshot.
    Snapshot(Seq<ProcessRecord>),
    /// No snapshot could be taken.
    SnapshotFailed,
    /// The handle table of the current process, or why there is none.
    Table(Result<Seq<PROCESS_HANDLE_TABLE_ENTRY_INFO>, InspectError>),
    /// The name of the current handle; nothing where it has none or none could
    /// be obtained.
    Name(Option<Seq<char>>),
    /// Whether the current handle was closed in its process.
    Closed(bool),
}

/// The current process and handle lie within what the scan holds.
pub open spec fn model_wf(m: ScanModel) -> bool {
    &&& 0 <= m.target_pos
    &&& 0 <= m.handle_pos
    &&& (m.phase is AwaitTable || m.phase is AwaitName || m.phase is AwaitClose)
        ==> m.target_pos < m.targets.len()
    &&& (m.phase is AwaitName || m.phase is AwaitClose) ==> m.handle_pos < m.handles.len()
}

/// The handle values of the records of a handle table, in table order.
pub open spec fn handle_values(entries: Seq<PROCESS_HANDLE_TABLE_ENTRY_INFO>) -> Seq<u64> {
    Seq::new(entries.len(), |i: int| entries[i].HandleValue)
}

/// The request that opens a pass.
pub open spec fn pass_request(mode: ScanMode) -> ScanAction {
    match mode {
        ScanMode::OneShot => ScanAction::TakeSnapshot,
        ScanMode::Continuous => ScanAction::PauseThenSnapshot { millis: SCAN_INTERVAL_MILLIS },
    }
}

/// A scan before its first pass.
pub open spec fn initial_model(mode: ScanMode) -> ScanModel {
    ScanModel {
        mode,
        phase: ScanPhase::AwaitSnapshot,
        targets: Seq::empty(),
        target_pos: 0,
        handles: Seq::empty(),
        handle_pos: 0,
    }
}

/// The pass is over without an end of the scan: the next pass begins.
pub open spec fn begin_pass(m: ScanModel) -> (ScanModel, ScanAction) {
    (initial_model(m.mode), pass_request(m.mode))
}

/// Turns to the target with index `pos`, or to the next pass where there is none.
pub open spec fn enter_process(m: ScanModel, pos: int) -> (ScanModel, ScanAction) {
    if pos < m.targets.len() {
        (
            ScanModel {
                mode: m.mode,
                phase: ScanPhase::AwaitTable,
                targets: m.targets,
                target_pos: pos,
                handles: Seq::empty(),
                handle_pos: 0,
            },
            ScanAction::Inspect { pid: m.targets[pos] },
        )
    } else {
        begin_pass(m)
    }
}

/// Turns to the handle with index `pos` of the current process, or to the next
/// process where there is none.
pub open spec fn enter_handle(m: ScanModel, pos: int) -> (ScanModel, ScanAction) {
    if pos < m.handles.len() {
        (
            ScanModel {
                mode: m.mode,
                phase: ScanPhase::AwaitName,
                targets: m.targets,
                target_pos: m.target_pos,
                handles: m.handles,
                handle_pos: pos,
            },
            ScanAction::QueryName { pid: m.targets[m.target_pos], handle: m.handles[pos] },
        )
    } else {
        enter_process(m, m.target_pos + 1)
    }
}

/// The same scan in another phase.
pub open spec fn in_phase(m: ScanModel, phase: ScanPhase) -> ScanModel {
    ScanModel {
        mode: m.mode,
        phase,
        targets: m.targets,
        target_pos: m.target_pos,
        handles: m.handles,
        handle_pos: m.handle_pos,
    }
}

/// The request that the scan is waiting for an answer to.
pub open spec fn pending_request(m: ScanModel) -> ScanAction {
    match m.phase {
        ScanPhase::AwaitSnapshot => pass_request(m.mode),
        ScanPhase::AwaitTable => ScanAction::Inspect { pid: m.targets[m.target_pos] },
        ScanPhase::AwaitName => ScanAction::QueryName {
            pid: m.targets[m.target_pos],
            handle: m.handles[m.handle_pos],
        },
        ScanPhase::AwaitClose => ScanAction::CloseSource {
            pid: m.targets[m.target_pos],
            handle: m.handles[m.handle_pos],
        },
        ScanPhase::Found => ScanAction::Done,
        ScanPhase::Failed => ScanAction::Fail,
    }
}

/// Whether `e` answers the request that `m` is waiting on.
pub open spec fn answers(m: ScanModel, e: ScanEvent) -> bool {
    match e {
        ScanEvent::Snapshot(_) => m.phase is AwaitSnapshot,
        ScanEvent::SnapshotFailed => m.phase is AwaitSnapshot,
        ScanEvent::Table(_) => m.phase is AwaitTable,
        ScanEvent::Name(_) => m.phase is AwaitName,
        ScanEvent::Closed(_) => m.phase is AwaitClose,
    }
}

/// The transition rule of a scan: the state and the request that follow when
/// `e` is reported in state `m`. An event that does not answer the pending
/// request changes nothing, and the request is made again.
pub open spec fn step(m: ScanModel, e: ScanEvent) -> (ScanModel, ScanAction) {
    if !answers(m, e) {
        (m, pending_request(m))
    } else {
        match e {
            ScanEvent::Snapshot(records) => enter_process(
                ScanModel {
                    mode: m.mode,
                    phase: m.phase,
                    targets: matching_pids(records),
                    target_pos: 0,
                    handles: Seq::empty(),
                    handle_pos: 0,
                },
                0,
            ),
            ScanEvent::SnapshotFailed => (in_phase(m, ScanPhase::Failed), ScanAction::Fail),
            ScanEvent::Table(Ok(entries)) => enter_handle(
                ScanModel {
                    mode: m.mode,
                    phase: m.phase,
                    targets: m.targets,
                    target_pos: m.target_pos,
                    handles: handle_values(entries),
                    handle_pos: 0,
                },
                0,
            ),
            ScanEvent::Table(Err(InspectError::OpenProcess)) => enter_process(
                m,
                m.target_pos + 1,
            ),
            ScanEvent::Table(Err(_)) => (in_phase(m, ScanPhase::Failed), ScanAction::Fail),
            ScanEvent::Name(Some(name)) => if contains_text(name, guard_marker()) {
                (
                    in_phase(m, ScanPhase::AwaitClose),
                    ScanAction::CloseSource {
                        pid: m.targets[m.target_pos],
                        handle: m.handles[m.handle_pos],
                    },
                )
            } else {
                enter_handle(m, m.handle_pos + 1)
            },
            ScanEvent::Name(None) => enter_handle(m, m.handle_pos + 1),
            ScanEvent::Closed(closed) => if closed && m.mode is OneShot {
                (in_phase(m, ScanPhase::Found), ScanAction::Done)
            } else {
                enter_handle(m, m.handle_pos + 1)
            },
        }
    }
}

/// The event that a reported handle table stands for.
pub open spec fn table_event(
    outcome: Result<Vec<PROCESS_HANDLE_TABLE_ENTRY_INFO>, InspectError>,
) -> ScanEvent {
    match outcome {
        Ok(entries) => ScanEvent::Table(Ok(entries@)),
        Err(e) => ScanEvent::Table(Err(e)),
    }
}

/// The event that a reported name stands for.
pub open spec fn name_event(name: Option<&str>) -> ScanEvent {
    match name {
        Some(s) => ScanEvent::Name(Some(s@)),
        None => ScanEvent::Name(None),
    }
}

/// A scan for the single-instance guard of the target processes. It decides;
/// its driver takes the snapshots, inspects, names and closes, one request at
/// a time, and reports each answer back.
pub struct GuardScan {
    mode: ScanMode,
    phase: ScanPhase,
    targets: Vec<u32>,
    target_pos: usize,
    handles: Vec<u64>,
    handle_pos: usize,
}

impl View for GuardScan {
    type V = ScanModel;

    closed spec fn view(&self) -> ScanModel {
        ScanModel {
            mode: self.mode,
            phase: self.phase,
            targets: self.targets@,
            target_pos: self.target_pos as int,
            handles: self.handles@,
            handle_pos: self.handle_pos as int,
        }
    }
}

impl GuardScan {
    /// The scan's invariant.
    pub open spec fn wf(&self) -> bool {
        model_wf(self@)
    }

    /// A scan in the given mode, with the request that opens its first pass.
    pub fn new(mode: ScanMode) -> (r: (GuardScan, ScanAction))
        ensures
            r.0.wf(),
            r.0@ == initial_model(mode),
            r.1 == pass_request(mode),
    {
        let scan = GuardScan {
            mode,
            phase: ScanPhase::AwaitSnapshot,
            targets: Vec::new(),
            target_pos: 0,
            handles: Vec::new(),
            handle_pos: 0,
        };
        let action = scan.first_request();
        (scan, action)
    }

    fn first_request(&self) -> (a: ScanAction)
        ensures
            a == pass_request(self@.mode),
    {
        match self.mode {
            ScanMode::OneShot => ScanAction::TakeSnapshot,
            ScanMode::Continuous => ScanAction::PauseThenSnapshot { millis: SCAN_INTERVAL_MILLIS },
        }
    }

    /// The mode that the scan was made in.
    pub fn mode(&self) -> (m: ScanMode)
        ensures
            m == self@.mode,
    {
        self.mode
    }

    /// What the scan is waiting for.
    pub fn phase(&self) -> (p: ScanPhase)
        ensures
            p == self@.phase,
    {
        self.phase
    }

    /// The request that the scan is waiting for an answer to.
    pub fn pending(&self) -> (a: ScanAction)
        requires
            self.wf(),
        ensures
            a == pending_request(self@),
    {
        match self.phase {
            ScanPhase::AwaitSnapshot => self.first_request(),
            ScanPhase::AwaitTable => ScanAction::Inspect { pid: self.targets[self.target_pos] },
            ScanPhase::AwaitName => ScanAction::QueryName {
                pid: self.targets[self.target_pos],
                handle: self.handles[self.handle_pos],
            },
            ScanPhase::AwaitClose => ScanAction::CloseSource {
                pid: self.targets[self.target_pos],
                handle: self.handles[self.handle_pos],
            },
            ScanPhase::Found => ScanAction::Done,
            ScanPhase::Failed => ScanAction::Fail,
        }
    }

    fn next_pass(&mut self) -> (a: ScanAction)
        ensures
            final(self).wf(),
            final(self)@ == begin_pass(old(self)@).0,
            a == begin_pass(old(self)@).1,
    {
        self.phase = ScanPhase::AwaitSnapshot;
        self.targets = Vec::new();
        self.target_pos = 0;
        self.handles = Vec::new();
        self.handle_pos = 0;
        self.first_request()
    }

    fn turn_to_process(&mut self, pos: usize) -> (a: ScanAction)
        ensures
            final(self).wf(),
            final(self)@ == enter_process(old(self)@, pos as int).0,
            a == enter_process(old(self)@, pos as int).1,
    {
        if pos < self.targets.len() {
            self.phase = ScanPhase::AwaitTable;
            self.target_pos = pos;
            self.handles = Vec::new();
            self.handle_pos = 0;
            ScanAction::Inspect { pid: self.targets[pos] }
        } else {
            self.next_pass()
        }
    }

    fn turn_to_handle(&mut self, pos: usize) -> (a: ScanAction)
        requires
            old(self)@.target_pos < old(self)@.targets.len(),
        ensures
            final(self).wf(),
            final(self)@ == enter_handle(old(self)@, pos as int).0,
            a == enter_handle(old(self)@, pos as int).1,
    {
        if pos < self.handles.len() {
            self.phase = ScanPhase::AwaitName;
            self.handle_pos = pos;
            ScanAction::QueryName { pid: self.targets[self.target_pos], handle: self.handles[pos] }
        } else {
            let _count: usize = self.targets.len();
            let next: usize = self.target_pos + 1;
            self.turn_to_process(next)
        }
    }

    fn fail(&mut self) -> (a: ScanAction)
        requires
            old(self).wf(),
        ensures
            final(self).wf(),
            final(self)@ == in_phase(old(self)@, ScanPhase::Failed),
            a == ScanAction::Fail,
    {
        self.phase = ScanPhase::Failed;
        ScanAction::Fail
    }

    /// Reports the processes of a fresh snapshot. The scan turns to the first
    /// target among them; with no target the pass is over.
    pub fn on_snapshot(&mut self, records: &Vec<ProcessRecord>) -> (a: ScanAction)
        requires
            old(self).wf(),
        ensures
            final(self).wf(),
            final(self)@ == step(old(self)@, ScanEvent::Snapshot(records@)).0,
            a == step(old(self)@, ScanEvent::Snapshot(records@)).1,
    {
        match self.phase {
            ScanPhase::AwaitSnapshot => {
                self.targets = select_targets(records);
                self.target_pos = 0;
                self.handles = Vec::new();
                self.handle_pos = 0;
                self.turn_to_process(0)
            },
            _ => self.pending(),
        }
    }

    /// Reports that no snapshot could be taken: the scan fails.
    pub fn on_snapshot_failed(&mut self) -> (a: ScanAction)
        requires
            old(self).wf(),
        ensures
            final(self).wf(),
            final(self)@ == step(old(self)@, ScanEvent::SnapshotFailed).0,
            a == step(old(self)@, ScanEvent::SnapshotFailed).1,
    {
        match self.phase {
            ScanPhase::AwaitSnapshot => self.fail(),
            _ => self.pending(),
        }
    }

    /// Reports the handle table of the current process. A process that could
    /// not be opened is passed over; any other error ends the scan.
    pub fn on_handle_table(
        &mut self,
        outcome: Result<Vec<PROCESS_HANDLE_TABLE_ENTRY_INFO>, InspectError>,
    ) -> (a: ScanAction)
        requires
            old(self).wf(),
        ensures
            final(self).wf(),
            final(self)@ == step(old(self)@, table_event(outcome)).0,
            a == step(old(self)@, table_event(outcome)).1,
    {
        match self.phase {
            ScanPhase::AwaitTable => {
                match outcome {
                    Ok(entries) => {
                        self.handles = values_of(&entries);
                        self.handle_pos = 0;
                        self.turn_to_handle(0)
                    },
                    Err(InspectError::OpenProcess) => {
                        let _count: usize = self.targets.len();
            let next: usize = self.target_pos + 1;
                        self.turn_to_process(next)
                    },
                    Err(_) => self.fail(),
                }
            },
            _ => self.pending(),
        }
    }

    /// Reports the name of the current handle, or that there is none to be had.
    /// A name that holds the guard's marker has the handle closed in its
    /// process; any other has the scan turn to the next handle.
    pub fn on_name(&mut self, name: Option<&str>) -> (a: ScanAction)
        requires
            old(self).wf(),
        ensures
            final(self).wf(),
            final(self)@ == step(old(self)@, name_event(name)).0,
            a == step(old(self)@, name_event(name)).1,
    {
        match self.phase {
            ScanPhase::AwaitName => {
                let is_guard: bool = match name {
                    Some(s) => is_guard_name(s),
                    None => false,
                };
                if is_guard {
                    self.phase = ScanPhase::AwaitClose;
                    self.pending()
                } else {
                    let _count: usize = self.handles.len();
                    let next: usize = self.handle_pos + 1;
                    self.turn_to_handle(next)
                }
            },
            _ => self.pending(),
        }
    }

    /// Reports whether the current handle was closed in its process. A scan
    /// that ends with the first guard is then over; otherwise it turns to the
    /// next handle.
    pub fn on_close(&mut self, closed: bool) -> (a: ScanAction)
        requires
            old(self).wf(),
        ensures
            final(self).wf(),
            final(self)@ == step(old(self)@, ScanEvent::Closed(closed)).0,
            a == step(old(self)@, ScanEvent::Closed(closed)).1,
    {
        match self.phase {
            ScanPhase::AwaitClose => {
                let ends: bool = match self.mode {
                    ScanMode::OneShot => closed,
                    ScanMode::Continuous => false,
                };
                if ends {
                    self.phase = ScanPhase::Found;
                    ScanAction::Done
                } else {
                    let _count: usize = self.handles.len();
                    let next: usize = self.handle_pos + 1;
                    self.turn_to_handle(next)
                }
            },
            _ => self.pending(),
        }
    }
}

/// Begins the scan that is made for every launch: it closes one guard and is
/// over.
pub fn modify_processes_once() -> (r: (GuardScan, ScanAction))
    ensures
        r.0.wf(),
        r.0@ == initial_model(ScanMode::OneShot),
        r.1 == ScanAction::TakeSnapshot,
{
    GuardScan::new(ScanMode::OneShot)
}

/// Begins the scan that runs in the background: it closes every guard that it
/// finds, pauses between its passes, and is never over.
pub fn modify_processes() -> (r: (GuardScan, ScanAction))
    ensures
        r.0.wf(),
        r.0@ == initial_model(ScanMode::Continuous),
        r.1 == (ScanAction::PauseThenSnapshot { millis: SCAN_INTERVAL_MILLIS }),
{
    GuardScan::new(ScanMode::Continuous)
}

/// The handle values of a handle table's records.
pub fn values_of(entries: &Vec<PROCESS_HANDLE_TABLE_ENTRY_INFO>) -> (values: Vec<u64>)
    ensures
        values@ == handle_values(entries@),
{
    let mut values: Vec<u64> = Vec::new();
    let mut i: usize = 0;
    while i < entries.len()
        invariant
            i <= entries@.len(),
            values@ == Seq::new(i as nat, |k: int| entries@[k].HandleValue),
        decreases entries@.len() - i,
    {
        values.push(entries[i].HandleValue);
        i += 1;
        assert(values@ =~= Seq::new(i as nat, |k: int| entries@[k].HandleValue));
    }
    values
}

/// A step keeps the current process and handle within what the scan holds.
pub proof fn lemma_step_keeps_wf(m: ScanModel, e: ScanEvent)
    requires
        model_wf(m),
    ensures
        model_wf(step(m, e).0),
{
}

/// A scan ends as found in one way only: it ends with the first guard, it was
/// waiting for a handle to be closed, and the handle is reported closed. The
/// request is `Done` exactly then.
pub proof fn lemma_found_only_by_closing(m: ScanModel, e: ScanEvent)
    requires
        model_wf(m),
        !(m.phase is Found),
    ensures
        step(m, e).0.phase is Found <==> (m.mode is OneShot && m.phase is AwaitClose && e
            == ScanEvent::Closed(true)),
        step(m, e).1 is Done <==> step(m, e).0.phase is Found,
{
}

/// Whenever a step leaves the scan at the beginning of a pass, a snapshot is
/// asked for: at once by a scan that ends with the first guard, after the
/// pause by one that goes on for ever. A pass that closed nothing is thus
/// followed by another pass, never by the end of the scan.
pub proof fn lemma_fruitless_pass_is_repeated(m: ScanModel, e: ScanEvent)
    requires
        model_wf(m),
        step(m, e).0.phase is AwaitSnapshot,
    ensures
        step(m, e).0.mode == m.mode,
        m.mode is OneShot ==> step(m, e).1 == ScanAction::TakeSnapshot,
        m.mode is Continuous ==> step(m, e).1 == (ScanAction::PauseThenSnapshot {
            millis: SCAN_INTERVAL_MILLIS,
        }),
{
}

/// A snapshot without a target process is a whole pass: the next one begins.
pub proof fn lemma_pass_without_target(m: ScanModel, records: Seq<ProcessRecord>)
    requires
        model_wf(m),
        m.phase is AwaitSnapshot,
        matching_pids(records).len() == 0,
    ensures
        step(m, ScanEvent::Snapshot(records)) == (initial_model(m.mode), pass_request(m.mode)),
{
}

/// A handle is asked to be closed only where it is the current handle of the
/// current process and its name has just been reported with the guard's
/// marker in it, or where that request is still unanswered.
pub proof fn lemma_only_a_guard_is_closed(m: ScanModel, e: ScanEvent)
    requires
        model_wf(m),
        step(m, e).1 is CloseSource,
    ensures
        step(m, e).1 == (ScanAction::CloseSource {
            pid: m.targets[m.target_pos],
            handle: m.handles[m.handle_pos],
        }),
        step(m, e).0 == in_phase(m, ScanPhase::AwaitClose),
        (m.phase is AwaitName && e is Name && e->Name_0 is Some && contains_text(
            e->Name_0->Some_0,
            guard_marker(),
        )) || (m.phase is AwaitClose && !answers(m, e)),
{
}

/// Every request names the current process of the snapshot and, where it
/// names a handle, the current handle of that process after the step.
pub proof fn lemma_requests_name_current(m: ScanModel, e: ScanEvent)
    requires
        model_wf(m),
    ensures
        step(m, e).1 == pending_request(step(m, e).0),
{
}

/// A scan that is over stays as it is, whatever is reported to it.
pub proof fn lemma_over_is_final(m: ScanModel, e: ScanEvent)
    requires
        m.phase is Found || m.phase is Failed,
    ensures
        step(m, e).0 == m,
        m.phase is Found ==> step(m, e).1 == ScanAction::Done,
        m.phase is Failed ==> step(m, e).1 == ScanAction::Fail,
{
}

/// Whether an event reports a name that holds the guard's marker.
pub open spec fn names_guard(e: ScanEvent) -> bool {
    e is Name && e->Name_0 is Some && contains_text(e->Name_0->Some_0, guard_marker())
}

/// The state of a scan after a sequence of events was reported to it, one
/// after the other.
pub open spec fn run(m: ScanModel, events: Seq<ScanEvent>) -> ScanModel
    decreases events.len(),
{
    if events.len() == 0 {
        m
    } else {
        step(run(m, events.drop_last()), events.last()).0
    }
}

/// Whatever is reported, the current process and handle stay within what the
/// scan holds.
pub proof fn lemma_run_keeps_wf(m: ScanModel, events: Seq<ScanEvent>)
    requires
        model_wf(m),
    ensures
        model_wf(run(m, events)),
    decreases events.len(),
{
    if events.len() > 0 {
        lemma_run_keeps_wf(m, events.drop_last());
        lemma_step_keeps_wf(run(m, events.drop_last()), events.last());
    }
}

/// As long as no name with the guard's marker is reported, a scan closes
/// nothing and does not end as found, however many passes that takes: it goes
/// on asking.
pub proof fn lemma_never_found_without_guard(mode: ScanMode, events: Seq<ScanEvent>)
    requires
        forall|i: int| 0 <= i < events.len() ==> !names_guard(#[trigger] events[i]),
    ensures
        !(run(initial_model(mode), events).phase is Found),
        !(run(initial_model(mode), events).phase is AwaitClose),
        !(pending_request(run(initial_model(mode), events)) is Done),
        !(pending_request(run(initial_model(mode), events)) is CloseSource),
    decreases events.len(),
{
    if events.len() > 0 {
        let prefix = events.drop_last();
        assert forall|i: int| 0 <= i < prefix.len() implies !names_guard(#[trigger] prefix[i]) by {
            assert(prefix[i] == events[i]);
        }
        lemma_never_found_without_guard(mode, prefix);
        lemma_run_keeps_wf(initial_model(mode), prefix);
        assert(!names_guard(events[events.len() - 1]));
    }
}

/// Once a scan has ended as found, nothing that is reported to it changes it.
pub proof fn lemma_found_is_kept(m: ScanModel, events: Seq<ScanEvent>)
    requires
        m.phase is Found,
    ensures
        run(m, events) == m,
    decreases events.len(),
{
    if events.len() > 0 {
        lemma_found_is_kept(m, events.drop_last());
        lemma_over_is_final(m, events.last());
    }
}

} // verus!
