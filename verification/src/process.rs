use vstd::prelude::*;

verus! {

/// One process of a snapshot: its identifier and the file name of its
/// executable, as bytes that end with the terminating zero.
#[derive(Clone, Debug, PartialEq, Eq)]
pub struct ProcessRecord {
    pub pid: u32,
    pub executable_name: Vec<u8>,
}

/// The bytes that the executable name of a target process consists of: the
/// file name followed by one zero byte.
pub open spec fn target_executable() -> Seq<u8> {
    Seq::new(14, |i: int| if i < 13 { "StarCraft.exe"@[i] as u8 } else { 0u8 })
}

/// The identifiers of the records whose executable name is the target's, in
/// snapshot order.
pub open spec fn matching_pids(records: Seq<ProcessRecord>) -> Seq<u32>
    decreases records.len(),
{
    if records.len() == 0 {
        Seq::empty()
    } else {
        let rest = matching_pids(records.drop_last());
        if records.last().executable_name@ == target_executable() {
            rest.push(records.last().pid)
        } else {
            rest
        }
    }
}

/// Whether `name` is the target's executable name, byte for byte and with its
/// terminating zero. No case is folded and no path is accepted.
pub fn is_target_executable(name: &[u8]) -> (r: bool)
    ensures
        r == (name@ == target_executable()),
{
    let t = "StarCraft.exe";
    proof {
        reveal_strlit("StarCraft.exe");
    }
    if name.len() != 14 {
        return false;
    }
    if name[13] != 0 {
        return false;
    }
    let mut i: usize = 0;
    while i < 13
        invariant
            i <= 13,
            name@.len() == 14,
            t@ == "StarCraft.exe"@,
            t@.len() == 13,
            forall|j: int| 0 <= j < i ==> name@[j] == t@[j] as u8,
        decreases 13 - i,
    {
        let c: char = t.get_char(i);
        if name[i] != c as u8 {
            assert(target_executable()[i as int] == t@[i as int] as u8);
            return false;
        }
        i += 1;
    }
    assert(name@ =~= target_executable());
    true
}

/// Selects the target processes of a snapshot.
pub fn select_targets(records: &Vec<ProcessRecord>) -> (pids: Vec<u32>)
    ensures
        pids@ == matching_pids(records@),
{
    let mut pids: Vec<u32> = Vec::new();
    let mut i: usize = 0;
    while i < records.len()
        invariant
            i <= records@.len(),
            pids@ == matching_pids(records@.subrange(0, i as int)),
        decreases records@.len() - i,
    {
        assert(records@.subrange(0, i + 1).drop_last() =~= records@.subrange(0, i as int));
        if is_target_executable(records[i].executable_name.as_slice()) {
            pids.push(records[i].pid);
        }
        i += 1;
    }
    assert(records@.subrange(0, i as int) =~= records@);
    pids
}

} // verus!
