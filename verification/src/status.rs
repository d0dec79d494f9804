use vstd::prelude::*;
use crate::handle_table::{
    parse_handle_table, table_entries, table_well_formed, InspectError,
    PROCESS_HANDLE_TABLE_ENTRY_INFO,
};

verus! {

/// The buffer handed to a query was too small for its answer.
pub const STATUS_INFO_LENGTH_MISMATCH: i32 = -1073741820;

/// The queried process is on its way out.
pub const STATUS_PROCESS_IS_TERMINATING: i32 = -1073741558;

/// The queried object cannot be named.
pub const STATUS_PIPE_DISCONNECTED: i32 = -1073741648;

/// A status reports failure where it is negative.
pub open spec fn status_failed(status: i32) -> bool {
    status < 0
}

/// What to do after one attempt of a query into a caller-sized buffer.
#[derive(Clone, Copy, Debug, PartialEq, Eq, Structural)]
pub enum QueryStep {
    /// The buffer was too small: resize it to this many bytes and ask again.
    Retry(u32),
    /// The query has ended, well or badly: ask no more.
    Finished,
}

/// Decides whether a query is asked again. It is, with a buffer of the size that
/// the attempt reported, as long as the attempt ends with the size mismatch
/// status; how many attempts that takes is not bounded.
pub fn query_step(status: i32, reported_length: u32) -> (r: QueryStep)
    ensures
        status == STATUS_INFO_LENGTH_MISMATCH ==> r == QueryStep::Retry(reported_length),
        status != STATUS_INFO_LENGTH_MISMATCH ==> r == QueryStep::Finished,
{
    if status == STATUS_INFO_LENGTH_MISMATCH {
        QueryStep::Retry(reported_length)
    } else {
        QueryStep::Finished
    }
}

/// What a handle table query that ended with `status` yields: no records where
/// the process is terminating, an error for any other failure status, else
/// exactly the records that the buffer's header counts.
pub fn table_from_query(status: i32, buf: &[u8]) -> (r: Result<
    Vec<PROCESS_HANDLE_TABLE_ENTRY_INFO>,
    InspectError,
>)
    ensures
        status == STATUS_PROCESS_IS_TERMINATING ==> r is Ok && r->Ok_0@
            == Seq::<PROCESS_HANDLE_TABLE_ENTRY_INFO>::empty(),
        status != STATUS_PROCESS_IS_TERMINATING && status_failed(status) ==> r == Err::<
            Vec<PROCESS_HANDLE_TABLE_ENTRY_INFO>,
            InspectError,
        >(InspectError::Query(status)),
        !status_failed(status) && table_well_formed(buf@) ==> r is Ok && r->Ok_0@
            == table_entries(buf@),
        !status_failed(status) && !table_well_formed(buf@) ==> r == Err::<
            Vec<PROCESS_HANDLE_TABLE_ENTRY_INFO>,
            InspectError,
        >(InspectError::Malformed),
{
    if status == STATUS_PROCESS_IS_TERMINATING {
        Ok(Vec::new())
    } else if status < 0 {
        Err(InspectError::Query(status))
    } else {
        parse_handle_table(buf)
    }
}

} // verus!
