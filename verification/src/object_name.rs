use vstd::prelude::*;
use crate::bytes::{le_u16, read_u16};
use crate::status::{status_failed, STATUS_PIPE_DISCONNECTED};
use crate::text::{contains, contains_text};

verus! {

/// Size in bytes of the counted-string header of a name query's answer, as
/// 64-bit Windows lays it out. The name's code units stand directly behind it.
pub const NAME_HEADER_SIZE: usize = 16;

/// Why an object's name could not be obtained.
#[derive(Clone, Copy, Debug, PartialEq, Eq, Structural)]
pub enum NameError {
    /// The query ended with a failure status other than the transient ones.
    Query(i32),
    /// The buffer is too short for its header, or for the bytes its header counts.
    Malformed,
}

/// The marker that the name of a single-instance guard object holds.
pub open spec fn guard_marker() -> Seq<char> {
    "Starcraft Check For Other Instances"@
}

/// The length of the name in bytes, as the header of `buf` gives it.
pub open spec fn name_byte_length(buf: Seq<u8>) -> nat {
    le_u16(buf, 0)
}

/// `buf` holds a header and every byte of the name that the header counts.
pub open spec fn name_well_formed(buf: Seq<u8>) -> bool {
    buf.len() >= NAME_HEADER_SIZE as int && NAME_HEADER_SIZE as int + name_byte_length(buf)
        <= buf.len()
}

/// The 16-bit code units of the name in `buf`: half as many as the header counts
/// bytes, read little-endian from behind the header.
pub open spec fn name_units(buf: Seq<u8>) -> Seq<u16> {
    Seq::new(
        name_byte_length(buf) / 2,
        |i: int| le_u16(buf, NAME_HEADER_SIZE as int + 2 * i) as u16,
    )
}

/// The text that a sequence of UTF-16 code units decodes to, with the
/// replacement character in place of each unpaired surrogate.
pub uninterp spec fn utf16_lossy(units: Seq<u16>) -> Seq<char>;

/// Calls `String::from_utf16_lossy`. The result is the decoding that std gives
/// to these code units; nothing more is claimed of it.
#[verifier::external_body]
fn decode_wide(units: &Vec<u16>) -> (s: String)
    ensures
        s@ == utf16_lossy(units@),
{
    String::from_utf16_lossy(units)
}

/// Reads the code units of the name out of a name query's buffer.
pub fn read_name_units(buf: &[u8]) -> (units: Vec<u16>)
    requires
        name_well_formed(buf@),
    ensures
        units@ == name_units(buf@),
{
    let _len: usize = buf.len();
    let n: usize = (read_u16(buf, 0) / 2) as usize;
    let mut units: Vec<u16> = Vec::new();
    let mut i: usize = 0;
    while i < n
        invariant
            i <= n,
            n == name_byte_length(buf@) / 2,
            name_well_formed(buf@),
            units@ == Seq::new(i as nat, |k: int| le_u16(buf@, NAME_HEADER_SIZE as int + 2 * k) as u16),
        decreases n - i,
    {
        let u: u16 = read_u16(buf, NAME_HEADER_SIZE + 2 * i);
        units.push(u);
        i += 1;
        assert(units@ =~= Seq::new(
            i as nat,
            |k: int| le_u16(buf@, NAME_HEADER_SIZE as int + 2 * k) as u16,
        ));
    }
    units
}

/// Decodes the buffer of a completed name query. A byte length of zero means
/// that the object has no name. A buffer that cannot hold what its header
/// counts is rejected.
pub fn parse_object_name(buf: &[u8]) -> (r: Result<Option<String>, NameError>)
    ensures
        !name_well_formed(buf@) ==> r == Err::<Option<String>, NameError>(NameError::Malformed),
        name_well_formed(buf@) && name_byte_length(buf@) == 0 ==> r == Ok::<
            Option<String>,
            NameError,
        >(None),
        name_well_formed(buf@) && name_byte_length(buf@) > 0 ==> (r matches Ok(Some(s)) && s@
            == utf16_lossy(name_units(buf@))),
{
    if buf.len() < NAME_HEADER_SIZE {
        return Err(NameError::Malformed);
    }
    let length: u16 = read_u16(buf, 0);
    if length as usize > buf.len() - NAME_HEADER_SIZE {
        return Err(NameError::Malformed);
    }
    if length == 0 {
        return Ok(None);
    }
    let units = read_name_units(buf);
    Ok(Some(decode_wide(&units)))
}

/// What a name query that ended with `status` yields: no name where the object
/// cannot be named, an error for any other failure status, else what the
/// buffer decodes to.
pub fn name_from_query(status: i32, buf: &[u8]) -> (r: Result<Option<String>, NameError>)
    ensures
        status == STATUS_PIPE_DISCONNECTED ==> r == Ok::<Option<String>, NameError>(None),
        status != STATUS_PIPE_DISCONNECTED && status_failed(status) ==> r == Err::<
            Option<String>,
            NameError,
        >(NameError::Query(status)),
        !status_failed(status) && !name_well_formed(buf@) ==> r == Err::<
            Option<String>,
            NameError,
        >(NameError::Malformed),
        !status_failed(status) && name_well_formed(buf@) && name_byte_length(buf@) == 0 ==> r
            == Ok::<Option<String>, NameError>(None),
        !status_failed(status) && name_well_formed(buf@) && name_byte_length(buf@) > 0
            ==> (r matches Ok(Some(s)) && s@ == utf16_lossy(name_units(buf@))),
{
    if status == STATUS_PIPE_DISCONNECTED {
        Ok(None)
    } else if status < 0 {
        Err(NameError::Query(status))
    } else {
        parse_object_name(buf)
    }
}

/// Whether a decoded object name is that of the single-instance guard: it holds
/// the marker somewhere, in exactly this spelling.
pub fn is_guard_name(name: &str) -> (r: bool)
    ensures
        r == contains_text(name@, guard_marker()),
{
    contains(name, "Starcraft Check For Other Instances")
}

} // verus!
