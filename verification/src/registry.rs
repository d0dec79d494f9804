use vstd::prelude::*;
use crate::guard::{
    initial_model, modify_processes_once, GuardScan, ScanAction, ScanMode, ScanPhase,
};

verus! {

/// A launched process: its identifier and the value of the handle that this
/// program holds on it.
#[derive(Clone, Copy, Debug, PartialEq, Eq, Structural)]
pub struct LaunchedGameRecord {
    pub pid: u32,
    pub process_handle: isize,
}

/// Some record of `s` has the identifier `pid`.
pub open spec fn holds_pid(s: Seq<LaunchedGameRecord>, pid: u32) -> bool {
    exists|i: int| 0 <= i < s.len() && s[i].pid == pid
}

/// `i` is the index of the first record of `s` with the identifier `pid`.
pub open spec fn is_first_with_pid(s: Seq<LaunchedGameRecord>, pid: u32, i: int) -> bool {
    &&& 0 <= i < s.len()
    &&& s[i].pid == pid
    &&& forall|j: int| 0 <= j < i ==> s[j].pid != pid
}

/// The index of the first record of `s` with the identifier `pid`, where there
/// is one.
pub open spec fn first_with_pid(s: Seq<LaunchedGameRecord>, pid: u32) -> int {
    choose|i: int| is_first_with_pid(s, pid, i)
}

/// The registry that is left when the process `pid` is killed: the first record
/// with that identifier is gone, and nothing else has changed.
pub open spec fn after_kill_one(s: Seq<LaunchedGameRecord>, pid: u32) -> Seq<LaunchedGameRecord> {
    if holds_pid(s, pid) {
        s.remove(first_with_pid(s, pid))
    } else {
        s
    }
}

/// The record whose process is to be terminated when `pid` is killed.
pub open spec fn terminated_by_kill_one(s: Seq<LaunchedGameRecord>, pid: u32) -> Option<
    LaunchedGameRecord,
> {
    if holds_pid(s, pid) {
        Some(s[first_with_pid(s, pid)])
    } else {
        None
    }
}

/// The registry that is left when every process is killed.
pub open spec fn after_kill_all(s: Seq<LaunchedGameRecord>) -> Seq<LaunchedGameRecord> {
    Seq::empty()
}

/// The records whose processes are to be terminated when every process is
/// killed.
pub open spec fn terminated_by_kill_all(s: Seq<LaunchedGameRecord>) -> Seq<LaunchedGameRecord> {
    s
}

/// The registry of the processes that were launched and not yet killed, in
/// launch order. It decides which handles are to be terminated and released;
/// its owner does so.
pub struct GameManager {
    children: Vec<LaunchedGameRecord>,
}

impl View for GameManager {
    type V = Seq<LaunchedGameRecord>;

    closed spec fn view(&self) -> Seq<LaunchedGameRecord> {
        self.children@
    }
}

impl GameManager {
    /// An empty registry.
    pub fn new() -> (m: GameManager)
        ensures
            m@ == Seq::<LaunchedGameRecord>::empty(),
    {
        GameManager { children: Vec::new() }
    }

    /// The number of records.
    pub fn len(&self) -> (n: usize)
        ensures
            n == self@.len(),
    {
        self.children.len()
    }

    /// The records, in launch order.
    pub fn records(&self) -> (v: Vec<LaunchedGameRecord>)
        ensures
            v@ == self@,
    {
        let mut v: Vec<LaunchedGameRecord> = Vec::new();
        let mut i: usize = 0;
        while i < self.children.len()
            invariant
                i <= self.children@.len(),
                v@ == self.children@.subrange(0, i as int),
            decreases self.children@.len() - i,
        {
            v.push(self.children[i]);
            i += 1;
            assert(v@ =~= self.children@.subrange(0, i as int));
        }
        assert(v@ =~= self.children@);
        v
    }

    /// Takes in what spawning a process gave. A handle value of zero means that
    /// nothing was spawned: the registry stays as it is and there is nothing to
    /// scan. Otherwise the process is recorded behind the others, and a scan
    /// that ends with the first guard is begun for it.
    pub fn launch_game(&mut self, pid: u32, process_handle: isize) -> (r: Option<
        (GuardScan, ScanAction),
    >)
        ensures
            process_handle == 0 ==> r is None && final(self)@ == old(self)@,
            process_handle != 0 ==> final(self)@ == old(self)@.push(
                LaunchedGameRecord { pid, process_handle },
            ),
            process_handle != 0 ==> r is Some && r->Some_0.0.wf() && r->Some_0.0@ == initial_model(
                ScanMode::OneShot,
            ) && r->Some_0.1 == ScanAction::TakeSnapshot,
    {
        if process_handle == 0 {
            None
        } else {
            self.children.push(LaunchedGameRecord { pid, process_handle });
            Some(modify_processes_once())
        }
    }

    /// Whether a launch is complete: its scan has closed a guard.
    pub fn launch_completed(scan: &GuardScan) -> (r: bool)
        ensures
            r == (scan@.phase is Found),
    {
        match scan.phase() {
            ScanPhase::Found => true,
            _ => false,
        }
    }

    /// Removes the first record of the process `pid` and hands it out, for its
    /// process to be terminated and its handle released. Where no record has
    /// that identifier nothing changes and nothing is handed out.
    pub fn kill_a_game(&mut self, target_pid: u32) -> (terminated: Option<LaunchedGameRecord>)
        ensures
            final(self)@ == after_kill_one(old(self)@, target_pid),
            terminated == terminated_by_kill_one(old(self)@, target_pid),
            !holds_pid(old(self)@, target_pid) ==> final(self)@ == old(self)@ && terminated is None,
            holds_pid(old(self)@, target_pid) ==> final(self)@.len() + 1 == old(self)@.len(),
    {
        let mut i: usize = 0;
        while i < self.children.len()
            invariant
                i <= self.children@.len(),
                self.children@ == old(self).children@,
                forall|j: int| 0 <= j < i ==> self.children@[j].pid != target_pid,
            decreases self.children@.len() - i,
        {
            if self.children[i].pid == target_pid {
                assert(is_first_with_pid(self.children@, target_pid, i as int));
                let record = self.children.remove(i);
                return Some(record);
            }
            i += 1;
        }
        None
    }

    /// Empties the registry and hands out every record, in launch order, for
    /// its process to be terminated and its handle released.
    pub fn kill_all_games(&mut self) -> (terminated: Vec<LaunchedGameRecord>)
        ensures
            final(self)@ == after_kill_all(old(self)@),
            terminated@ == terminated_by_kill_all(old(self)@),
    {
        let terminated = self.records();
        self.children = Vec::new();
        terminated
    }
}

/// Killing a process that the registry does not hold changes nothing and
/// terminates nothing.
pub proof fn lemma_kill_absent_is_noop(s: Seq<LaunchedGameRecord>, pid: u32)
    requires
        !holds_pid(s, pid),
    ensures
        after_kill_one(s, pid) == s,
        after_kill_one(s, pid).len() == s.len(),
        terminated_by_kill_one(s, pid) is None,
{
}

/// Once every process was killed the registry is empty, and it stays empty
/// under any further kill, of one process or of all, none of which terminates
/// anything.
pub proof fn lemma_kill_all_is_idempotent(s: Seq<LaunchedGameRecord>, pid: u32)
    ensures
        after_kill_all(s).len() == 0,
        after_kill_one(after_kill_all(s), pid).len() == 0,
        terminated_by_kill_one(after_kill_all(s), pid) is None,
        after_kill_all(after_kill_all(s)).len() == 0,
        terminated_by_kill_all(after_kill_all(s)).len() == 0,
{
}

/// Killing one process that the registry holds removes exactly one record, the
/// first with that identifier, and terminates exactly that one; the other
/// records keep their order.
pub proof fn lemma_kill_one_removes_first(s: Seq<LaunchedGameRecord>, pid: u32, i: int)
    requires
        is_first_with_pid(s, pid, i),
    ensures
        after_kill_one(s, pid) == s.remove(i),
        terminated_by_kill_one(s, pid) == Some(s[i]),
{
    assert(holds_pid(s, pid));
    let k = first_with_pid(s, pid);
    assert(is_first_with_pid(s, pid, k));
}

} // verus!
