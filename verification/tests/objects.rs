//! Tests of the byte-level pieces: control-field codec, response parsing,
//! request formatting, octet-data iteration, counters and error mappings.

use dnp3_master::bytes::{PrefixedBytesIterator, RangedBytesIterator};
use dnp3_master::control::{Control, Response};
use dnp3_master::count::ResponseCount;
use dnp3_master::cursor::ReadCursor;
use dnp3_master::error::{LinkError, ParseError, ResponseError, TaskError};
use dnp3_master::task::{ClassScan, MasterTask, ReadRequest, ReadTask, TaskStatus};

#[test]
fn control_field_decodes_its_bits() {
    let c = Control::from_byte(0xA5);
    assert!(c.fir);
    assert!(!c.fin);
    assert!(c.con);
    assert!(!c.uns);
    assert_eq!(c.seq, 5);
    assert_eq!(c.to_byte(), 0xA5);

    let request = Control::request(3);
    assert_eq!(request.to_byte(), 0xC3);
}

#[test]
fn response_parse_reports_what_is_wrong() {
    assert_eq!(Response::parse(&[0xC0, 0x81, 0x00]).unwrap_err(), ParseError::InsufficientBytes);
    assert_eq!(Response::parse(&[0xC0, 0x05, 0x00, 0x00]).unwrap_err(), ParseError::UnexpectedFunction);

    let response = Response::parse(&[0xC1, 0x81, 0x12, 0x34, 0xAA, 0xBB]).unwrap();
    assert!(!response.header.unsolicited);
    assert_eq!(response.header.control.seq, 1);
    assert_eq!(response.header.iin1, 0x12);
    assert_eq!(response.header.iin2, 0x34);
    assert_eq!(response.objects, &[0xAA, 0xBB][..]);

    let unsolicited = Response::parse(&[0xD0, 0x82, 0x00, 0x00]).unwrap();
    assert!(unsolicited.header.unsolicited);
}

#[test]
fn class_scan_formats_one_header_per_selected_class() {
    let mut out: Vec<u8> = Vec::new();
    ClassScan::new(true, false, false, true).write(&mut out);
    assert_eq!(out, vec![0x3C, 0x02, 0x06, 0x3C, 0x01, 0x06]);

    let task = ReadTask { request: ReadRequest::class_scan(ClassScan::new(false, true, true, false)) };
    assert_eq!(task.format(9), vec![0xC9, 0x01, 0x3C, 0x03, 0x06, 0x3C, 0x04, 0x06]);
}

#[test]
fn read_task_is_complete_exactly_at_the_final_fragment() {
    let task = ReadTask { request: ReadRequest::class_scan(ClassScan::class1()) };
    let fin = Response::parse(&[0x42, 0x81, 0x00, 0x00]).unwrap();
    let mid = Response::parse(&[0x21, 0x81, 0x00, 0x00]).unwrap();
    assert_eq!(task.handle(fin.header), TaskStatus::Complete);
    assert_eq!(task.handle(mid.header), TaskStatus::ReadNextResponse);
}

#[test]
fn command_request_carries_its_encoded_objects() {
    let task = MasterTask::command(9, 0x05, vec![0x0C, 0x01]);
    assert_eq!(task.details.format(2), vec![0xC2, 0x05, 0x0C, 0x01]);
    assert!(!task.details.is_read_request());
}

#[test]
fn ranged_bytes_iterator_walks_indexed_runs() {
    let data: [u8; 7] = [1, 2, 3, 4, 5, 6, 99];
    let mut cursor = ReadCursor::new(&data);
    let mut it = RangedBytesIterator::parse(2, 7, 3, &mut cursor).unwrap();

    let (b, i) = it.next().unwrap();
    assert_eq!((b.value, i), (&[1u8, 2][..], 7));
    let (b, i) = it.next().unwrap();
    assert_eq!((b.value, i), (&[3u8, 4][..], 8));
    let (b, i) = it.next().unwrap();
    assert_eq!((b.value, i), (&[5u8, 6][..], 9));
    assert!(it.next().is_none());

    // the iterator consumed exactly its region
    assert_eq!(cursor.remaining_len(), 1);
}

#[test]
fn ranged_bytes_iterator_rejects_zero_variation() {
    let data: [u8; 4] = [1, 2, 3, 4];
    let mut cursor = ReadCursor::new(&data);
    let err = RangedBytesIterator::parse(0, 0, 4, &mut cursor).unwrap_err();
    assert_eq!(err, ParseError::ZeroLengthOctetData);
}

#[test]
fn ranged_bytes_iterator_rejects_short_region() {
    let data: [u8; 3] = [1, 2, 3];
    let mut cursor = ReadCursor::new(&data);
    let err = RangedBytesIterator::parse(2, 0, 2, &mut cursor).unwrap_err();
    assert_eq!(err, ParseError::InsufficientBytes);
    // the cursor did not move
    assert_eq!(cursor.remaining_len(), 3);
}

#[test]
fn prefixed_bytes_iterator_walks_value_prefix_pairs() {
    let data: [u8; 6] = [0xAA, 0x10, 0x00, 0xBB, 0x01, 0x02];
    let mut cursor = ReadCursor::new(&data);
    let mut it: PrefixedBytesIterator<u16> = PrefixedBytesIterator::parse(1, 2, &mut cursor)
        .unwrap();

    let (b, index) = it.next().unwrap();
    assert_eq!((b.value, index), (&[0xAAu8][..], 0x0010));
    let (b, index) = it.next().unwrap();
    assert_eq!((b.value, index), (&[0xBBu8][..], 0x0201));
    assert!(it.next().is_none());
    assert_eq!(cursor.remaining_len(), 0);
}

#[test]
fn prefixed_bytes_iterator_rejects_zero_variation() {
    let data: [u8; 3] = [1, 2, 3];
    let mut cursor = ReadCursor::new(&data);
    let err = PrefixedBytesIterator::<u16>::parse(0, 1, &mut cursor).unwrap_err();
    assert_eq!(err, ParseError::ZeroLengthOctetData);
}

#[test]
fn response_count_tracks_acceptance() {
    let mut count = ResponseCount::new();
    assert!(count.is_none());
    count.increment();
    assert!(!count.is_none());
    count.reset();
    assert!(count.is_none());
}

#[test]
fn lower_layer_errors_map_into_the_task_taxonomy() {
    assert_eq!(TaskError::from(LinkError::Io), TaskError::Lower(LinkError::Io));
    assert_eq!(
        TaskError::from(ParseError::ZeroLengthOctetData),
        TaskError::MalformedResponse(ParseError::ZeroLengthOctetData)
    );
    assert_eq!(
        TaskError::from(ResponseError::UnexpectedObjectHeaders),
        TaskError::BadResponse(ResponseError::UnexpectedObjectHeaders)
    );
}
