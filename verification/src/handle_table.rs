use vstd::prelude::*;
use crate::bytes::{le_u32, le_u64, read_u32, read_u64};

verus! {

/// Size in bytes of the fixed header that precedes the handle records, as
/// 64-bit Windows lays a handle snapshot out.
pub const HEADER_SIZE: usize = 16;

/// Size in bytes of one handle record in that layout.
pub const ENTRY_SIZE: usize = 40;

/// The fixed header of a process handle snapshot: the number of records that
/// follow it, and a reserved word.
#[derive(Clone, Copy, Debug, PartialEq, Eq, Structural)]
pub struct PROCESS_HANDLE_SNAPSHOT_INFORMATION {
    pub NumberOfHandles: u64,
    pub Reserved: u64,
}

/// One record of a process handle snapshot. It describes a handle that is open
/// inside the inspected process; it is a descriptor, not a capability.
#[derive(Clone, Copy, Debug, PartialEq, Eq, Structural)]
pub struct PROCESS_HANDLE_TABLE_ENTRY_INFO {
    pub HandleValue: u64,
    pub HandleCount: u64,
    pub PointerCount: u64,
    pub GrantedAccess: u32,
    pub ObjectTypeIndex: u32,
    pub HandleAttributes: u32,
    pub Reserved: u32,
}

impl Default for PROCESS_HANDLE_TABLE_ENTRY_INFO {
    /// The record with every field zero.
    fn default() -> (e: PROCESS_HANDLE_TABLE_ENTRY_INFO)
        ensures
            e == (PROCESS_HANDLE_TABLE_ENTRY_INFO {
                HandleValue: 0,
                HandleCount: 0,
                PointerCount: 0,
                GrantedAccess: 0,
                ObjectTypeIndex: 0,
                HandleAttributes: 0,
                Reserved: 0,
            }),
    {
        PROCESS_HANDLE_TABLE_ENTRY_INFO {
            HandleValue: 0,
            HandleCount: 0,
            PointerCount: 0,
            GrantedAccess: 0,
            ObjectTypeIndex: 0,
            HandleAttributes: 0,
            Reserved: 0,
        }
    }
}

/// Why a handle table could not be obtained.
#[derive(Clone, Copy, Debug, PartialEq, Eq, Structural)]
pub enum InspectError {
    /// The process could not be opened.
    OpenProcess,
    /// The query ended with a failure status other than the transient ones.
    Query(i32),
    /// The buffer is too short for its header, or for the records its header counts.
    Malformed,
}

/// The header that `buf` starts with.
pub open spec fn header_of(buf: Seq<u8>) -> PROCESS_HANDLE_SNAPSHOT_INFORMATION {
    PROCESS_HANDLE_SNAPSHOT_INFORMATION {
        NumberOfHandles: le_u64(buf, 0) as u64,
        Reserved: le_u64(buf, 8) as u64,
    }
}

/// The number of bytes that the header and the records it counts take up.
pub open spec fn table_extent(buf: Seq<u8>) -> int {
    HEADER_SIZE as int + (ENTRY_SIZE as int) * (le_u64(buf, 0) as int)
}

/// `buf` holds a header and every record that the header counts.
pub open spec fn table_well_formed(buf: Seq<u8>) -> bool {
    buf.len() >= HEADER_SIZE as int && table_extent(buf) <= buf.len()
}

/// The record with index `i` behind the header of `buf`.
pub open spec fn entry_at(buf: Seq<u8>, i: int) -> PROCESS_HANDLE_TABLE_ENTRY_INFO {
    let base = HEADER_SIZE as int + (ENTRY_SIZE as int) * i;
    PROCESS_HANDLE_TABLE_ENTRY_INFO {
        HandleValue: le_u64(buf, base) as u64,
        HandleCount: le_u64(buf, base + 8) as u64,
        PointerCount: le_u64(buf, base + 16) as u64,
        GrantedAccess: le_u32(buf, base + 24) as u32,
        ObjectTypeIndex: le_u32(buf, base + 28) as u32,
        HandleAttributes: le_u32(buf, base + 32) as u32,
        Reserved: le_u32(buf, base + 36) as u32,
    }
}

/// The records of `buf`: as many as the header counts, in buffer order.
pub open spec fn table_entries(buf: Seq<u8>) -> Seq<PROCESS_HANDLE_TABLE_ENTRY_INFO> {
    Seq::new(le_u64(buf, 0), |i: int| entry_at(buf, i))
}

/// Reads the fixed header, or nothing where the buffer is shorter than a header.
pub fn parse_header(buf: &[u8]) -> (r: Option<PROCESS_HANDLE_SNAPSHOT_INFORMATION>)
    ensures
        buf@.len() >= HEADER_SIZE ==> r == Some(header_of(buf@)),
        buf@.len() < HEADER_SIZE ==> r is None,
{
    if buf.len() < HEADER_SIZE {
        return None;
    }
    let count: u64 = read_u64(buf, 0);
    let reserved: u64 = read_u64(buf, 8);
    Some(PROCESS_HANDLE_SNAPSHOT_INFORMATION { NumberOfHandles: count, Reserved: reserved })
}

fn read_entry(buf: &[u8], i: usize) -> (e: PROCESS_HANDLE_TABLE_ENTRY_INFO)
    requires
        HEADER_SIZE + ENTRY_SIZE * (i + 1) <= buf@.len(),
    ensures
        e == entry_at(buf@, i as int),
{
    let _len: usize = buf.len();
    let base: usize = HEADER_SIZE + ENTRY_SIZE * i;
    PROCESS_HANDLE_TABLE_ENTRY_INFO {
        HandleValue: read_u64(buf, base),
        HandleCount: read_u64(buf, base + 8),
        PointerCount: read_u64(buf, base + 16),
        GrantedAccess: read_u32(buf, base + 24),
        ObjectTypeIndex: read_u32(buf, base + 28),
        HandleAttributes: read_u32(buf, base + 32),
        Reserved: read_u32(buf, base + 36),
    }
}

/// Decodes a handle snapshot buffer: the header first, then exactly as many
/// records as the header counts. A buffer that cannot hold them is rejected;
/// bytes behind the last counted record are never read.
pub fn parse_handle_table(buf: &[u8]) -> (r: Result<Vec<PROCESS_HANDLE_TABLE_ENTRY_INFO>, InspectError>)
    ensures
        table_well_formed(buf@) ==> r is Ok && r->Ok_0@ == table_entries(buf@),
        table_well_formed(buf@) ==> r->Ok_0@.len() == header_of(buf@).NumberOfHandles,
        !table_well_formed(buf@) ==> r == Err::<Vec<PROCESS_HANDLE_TABLE_ENTRY_INFO>, InspectError>(
            InspectError::Malformed,
        ),
{
    let count: u64 = match parse_header(buf) {
        Some(header) => header.NumberOfHandles,
        None => {
            return Err(InspectError::Malformed);
        },
    };
    let room: usize = (buf.len() - HEADER_SIZE) / ENTRY_SIZE;
    if count > room as u64 {
        return Err(InspectError::Malformed);
    }
    let n: usize = count as usize;
    let mut entries: Vec<PROCESS_HANDLE_TABLE_ENTRY_INFO> = Vec::new();
    let mut i: usize = 0;
    while i < n
        invariant
            i <= n,
            n as nat == le_u64(buf@, 0),
            HEADER_SIZE + ENTRY_SIZE * n <= buf@.len(),
            entries@ == Seq::new(i as nat, |k: int| entry_at(buf@, k)),
        decreases n - i,
    {
        let e = read_entry(buf, i);
        entries.push(e);
        i += 1;
        assert(entries@ =~= Seq::new(i as nat, |k: int| entry_at(buf@, k)));
    }
    Ok(entries)
}

/// The records depend on the header and the counted records alone: a buffer
/// that agrees with a well-formed one up to the end of its last counted record
/// decodes to the same records, whatever follows, and their number is the
/// header's count.
pub proof fn lemma_entries_ignore_trailing_bytes(a: Seq<u8>, b: Seq<u8>)
    requires
        table_well_formed(a),
        b.len() >= table_extent(a),
        forall|k: int| 0 <= k < table_extent(a) ==> a[k] == b[k],
    ensures
        table_well_formed(b),
        table_entries(b) == table_entries(a),
        table_entries(a).len() == header_of(a).NumberOfHandles,
{
    assert(le_u64(a, 0) == le_u64(b, 0));
    assert forall|i: int| 0 <= i < le_u64(a, 0) implies entry_at(a, i) == entry_at(b, i) by {
        let base = HEADER_SIZE as int + (ENTRY_SIZE as int) * i;
        assert(base + 40 <= table_extent(a)) by (nonlinear_arith)
            requires
                0 <= i < le_u64(a, 0),
                base == 16 + 40 * i,
                table_extent(a) == 16 + 40 * (le_u64(a, 0) as int),
        ;
    }
    assert(table_entries(b) =~= table_entries(a));
}

} // verus!
