use sclauncher::bytes::{read_u16, read_u32, read_u64};
use sclauncher::handle_table::{
    parse_handle_table, parse_header, InspectError, PROCESS_HANDLE_SNAPSHOT_INFORMATION,
    PROCESS_HANDLE_TABLE_ENTRY_INFO, ENTRY_SIZE, HEADER_SIZE,
};
use sclauncher::status::{
    query_step, table_from_query, QueryStep, STATUS_INFO_LENGTH_MISMATCH,
    STATUS_PIPE_DISCONNECTED, STATUS_PROCESS_IS_TERMINATING,
};

fn record(handle: u64, access: u32, type_index: u32, attributes: u32) -> Vec<u8> {
    let mut bytes = Vec::new();
    bytes.extend_from_slice(&handle.to_le_bytes());
    bytes.extend_from_slice(&3u64.to_le_bytes());
    bytes.extend_from_slice(&5u64.to_le_bytes());
    bytes.extend_from_slice(&access.to_le_bytes());
    bytes.extend_from_slice(&type_index.to_le_bytes());
    bytes.extend_from_slice(&attributes.to_le_bytes());
    bytes.extend_from_slice(&0u32.to_le_bytes());
    bytes
}

fn table(count: u64, records: &[Vec<u8>]) -> Vec<u8> {
    let mut bytes = Vec::new();
    bytes.extend_from_slice(&count.to_le_bytes());
    bytes.extend_from_slice(&0u64.to_le_bytes());
    for r in records {
        bytes.extend_from_slice(r);
    }
    bytes
}

#[test]
fn little_endian_reads() {
    let bytes = [0x34u8, 0x12, 0x78, 0x56, 0xbc, 0x9a, 0xf0, 0xde, 0xff];
    assert_eq!(read_u16(&bytes, 0), 0x1234);
    assert_eq!(read_u16(&bytes, 1), 0x7812);
    assert_eq!(read_u32(&bytes, 0), 0x5678_1234);
    assert_eq!(read_u64(&bytes, 0), 0xdef0_9abc_5678_1234);
    assert_eq!(read_u64(&bytes, 1), 0xffde_f09a_bc56_7812);
}

#[test]
fn layout_sizes() {
    assert_eq!(HEADER_SIZE, 16);
    assert_eq!(ENTRY_SIZE, 40);
    assert_eq!(record(1, 2, 3, 4).len(), ENTRY_SIZE);
}

#[test]
fn header_is_read_first() {
    let mut bytes = Vec::new();
    bytes.extend_from_slice(&7u64.to_le_bytes());
    bytes.extend_from_slice(&9u64.to_le_bytes());
    assert_eq!(
        parse_header(&bytes),
        Some(PROCESS_HANDLE_SNAPSHOT_INFORMATION { NumberOfHandles: 7, Reserved: 9 })
    );
    assert_eq!(parse_header(&bytes[..15]), None);
}

#[test]
fn parses_exactly_the_counted_records() {
    let bytes = table(2, &[record(0x44, 0x1f0003, 17, 2), record(0x48, 0x100000, 8, 0)]);
    let entries = parse_handle_table(&bytes).unwrap();
    assert_eq!(
        entries,
        vec![
            PROCESS_HANDLE_TABLE_ENTRY_INFO {
                HandleValue: 0x44,
                HandleCount: 3,
                PointerCount: 5,
                GrantedAccess: 0x1f0003,
                ObjectTypeIndex: 17,
                HandleAttributes: 2,
                Reserved: 0,
            },
            PROCESS_HANDLE_TABLE_ENTRY_INFO {
                HandleValue: 0x48,
                HandleCount: 3,
                PointerCount: 5,
                GrantedAccess: 0x100000,
                ObjectTypeIndex: 8,
                HandleAttributes: 0,
                Reserved: 0,
            },
        ]
    );
}

#[test]
fn larger_buffer_yields_only_the_counted_records() {
    let exact = table(1, &[record(0x10, 1, 2, 3)]);
    let mut larger = table(1, &[record(0x10, 1, 2, 3), record(0x14, 9, 9, 9)]);
    larger.extend_from_slice(&[0xaa; 7]);
    let from_exact = parse_handle_table(&exact).unwrap();
    let from_larger = parse_handle_table(&larger).unwrap();
    assert_eq!(from_larger.len(), 1);
    assert_eq!(from_larger, from_exact);
    assert_eq!(from_larger[0].HandleValue, 0x10);
}

#[test]
fn empty_table_parses_to_nothing() {
    let bytes = table(0, &[]);
    assert_eq!(parse_handle_table(&bytes), Ok(vec![]));
}

#[test]
fn short_buffers_are_malformed() {
    assert_eq!(parse_handle_table(&[]), Err(InspectError::Malformed));
    assert_eq!(parse_handle_table(&[0u8; 15]), Err(InspectError::Malformed));
    let mut bytes = table(2, &[record(1, 1, 1, 1), record(2, 2, 2, 2)]);
    bytes.pop();
    assert_eq!(parse_handle_table(&bytes), Err(InspectError::Malformed));
    let huge = table(u64::MAX, &[record(1, 1, 1, 1)]);
    assert_eq!(parse_handle_table(&huge), Err(InspectError::Malformed));
}

#[test]
fn status_values() {
    assert_eq!(STATUS_INFO_LENGTH_MISMATCH as u32, 0xC000_0004);
    assert_eq!(STATUS_PROCESS_IS_TERMINATING as u32, 0xC000_010A);
    assert_eq!(STATUS_PIPE_DISCONNECTED as u32, 0xC000_00B0);
}

#[test]
fn query_is_retried_while_the_buffer_is_too_small() {
    assert_eq!(query_step(STATUS_INFO_LENGTH_MISMATCH, 0), QueryStep::Retry(0));
    assert_eq!(query_step(STATUS_INFO_LENGTH_MISMATCH, 4096), QueryStep::Retry(4096));
    assert_eq!(query_step(0, 4096), QueryStep::Finished);
    assert_eq!(query_step(STATUS_PROCESS_IS_TERMINATING, 4096), QueryStep::Finished);
    assert_eq!(query_step(-1, 1), QueryStep::Finished);
}

#[test]
fn growing_table_takes_several_retries() {
    let sizes = [56u32, 96, 136];
    let mut buffer: Vec<u8> = Vec::new();
    let mut attempts = 0;
    let mut status = STATUS_INFO_LENGTH_MISMATCH;
    let mut reported = sizes[0];
    while let QueryStep::Retry(size) = query_step(status, reported) {
        buffer.resize(size as usize, 0);
        attempts += 1;
        if attempts < sizes.len() {
            reported = sizes[attempts];
        } else {
            status = 0;
        }
    }
    assert_eq!(attempts, 3);
    assert_eq!(buffer.len(), 136);
}

#[test]
fn terminating_process_has_no_records() {
    let bytes = table(1, &[record(0x10, 1, 2, 3)]);
    assert_eq!(table_from_query(STATUS_PROCESS_IS_TERMINATING, &bytes), Ok(vec![]));
    assert_eq!(table_from_query(STATUS_PROCESS_IS_TERMINATING, &[]), Ok(vec![]));
}

#[test]
fn failed_query_is_an_error() {
    let bytes = table(1, &[record(0x10, 1, 2, 3)]);
    assert_eq!(table_from_query(-1073741790, &bytes), Err(InspectError::Query(-1073741790)));
    assert_eq!(
        table_from_query(STATUS_PIPE_DISCONNECTED, &bytes),
        Err(InspectError::Query(STATUS_PIPE_DISCONNECTED))
    );
}

#[test]
fn successful_query_is_parsed() {
    let bytes = table(1, &[record(0x10, 1, 2, 3)]);
    let entries = table_from_query(0, &bytes).unwrap();
    assert_eq!(entries.len(), 1);
    assert_eq!(entries[0].HandleValue, 0x10);
    assert_eq!(entries[0].GrantedAccess, 1);
    assert_eq!(entries[0].ObjectTypeIndex, 2);
    assert_eq!(entries[0].HandleAttributes, 3);
    assert_eq!(table_from_query(0, &bytes[..20]), Err(InspectError::Malformed));
}

#[test]
fn default_record_is_all_zero() {
    let e = PROCESS_HANDLE_TABLE_ENTRY_INFO::default();
    assert_eq!(e.HandleValue, 0);
    assert_eq!(e.HandleCount, 0);
    assert_eq!(e.PointerCount, 0);
    assert_eq!(e.GrantedAccess, 0);
    assert_eq!(e.ObjectTypeIndex, 0);
    assert_eq!(e.HandleAttributes, 0);
    assert_eq!(e.Reserved, 0);
    let zeroed = [0u8; 56];
    assert_eq!(parse_handle_table(&{ let mut b = zeroed; b[0] = 1; b }), Ok(vec![e]));
}
