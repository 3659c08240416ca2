use mynacard::error::{AuthFailure, CardError, ProtocolFault};
use mynacard::reader::{FileReader, ReadStep};

/// Runs a read against a device that answers with `responses` in turn and
/// returns how it ended together with the commands that were sent.
fn run(responses: &[Vec<u8>]) -> (Result<Vec<u8>, CardError>, Vec<Vec<u8>>) {
    let mut reader = FileReader::new(0x02);
    let mut sent = Vec::new();
    for response in responses {
        sent.push(reader.command().to_bytes());
        match reader.step(response) {
            ReadStep::Continue(next) => reader = next,
            ReadStep::Done(data) => return (Ok(data), sent),
            ReadStep::Failed(error) => return (Err(error), sent),
        }
    }
    panic!("the device ran out of responses after {} commands", sent.len());
}

fn with_status(payload: &[u8], sw1: u8, sw2: u8) -> Vec<u8> {
    let mut raw = payload.to_vec();
    raw.push(sw1);
    raw.push(sw2);
    raw
}

#[test]
fn reader_starts_at_offset_zero_asking_for_a_full_chunk() {
    let reader = FileReader::new(0x02);
    assert_eq!(reader.offset(), 0);
    assert_eq!(reader.assembled(), 0);
    let cmd = reader.command();
    assert_eq!(cmd.to_bytes(), vec![0x00, 0xB0, 0x82, 0x00, 0x00]);
    assert_eq!(cmd.capacity, 512);
}

#[test]
fn reader_success_ends_with_the_payload() {
    let (result, sent) = run(&[with_status(&[1, 2, 3], 0x90, 0x00)]);
    assert_eq!(result, Ok(vec![1, 2, 3]));
    assert_eq!(sent, vec![vec![0x00, 0xB0, 0x82, 0x00, 0x00]]);
}

#[test]
fn reader_success_without_payload_gives_an_empty_file() {
    let (result, _) = run(&[vec![0x90, 0x00]]);
    assert_eq!(result, Ok(vec![]));
}

#[test]
fn reader_chains_more_data_across_offsets() {
    let first: Vec<u8> = (0..200u8).collect();
    let second: Vec<u8> = (0..100u8).map(|b| b ^ 0xFF).collect();
    let third = vec![7u8, 8, 9];
    let (result, sent) = run(&[
        with_status(&first, 0x61, 0x64),
        with_status(&second, 0x61, 0x03),
        with_status(&third, 0x90, 0x00),
    ]);
    let mut whole = first.clone();
    whole.extend_from_slice(&second);
    whole.extend_from_slice(&third);
    assert_eq!(result, Ok(whole));
    assert_eq!(
        sent,
        vec![
            vec![0x00, 0xB0, 0x82, 0x00, 0x00],
            // offset 200 still fits one byte: short form
            vec![0x00, 0xB0, 0x82, 0xC8, 0x00],
            // offset 300 does not: long form
            vec![0x00, 0xB0, 0x01, 0x2C, 0x00],
        ]
    );
}

#[test]
fn reader_offset_advances_by_the_payload_received() {
    let reader = FileReader::new(0x02);
    let next = match reader.step(&with_status(&[0u8; 255], 0x61, 0x00)) {
        ReadStep::Continue(next) => next,
        other => panic!("unexpected step {:?}", other),
    };
    assert_eq!(next.offset(), 255);
    assert_eq!(next.assembled(), 255);
    assert_eq!(next.command().to_bytes(), vec![0x00, 0xB0, 0x82, 0xFF, 0x00]);
    let next = match next.step(&with_status(&[9u8], 0x61, 0x00)) {
        ReadStep::Continue(next) => next,
        other => panic!("unexpected step {:?}", other),
    };
    assert_eq!(next.offset(), 256);
    assert_eq!(next.command().to_bytes(), vec![0x00, 0xB0, 0x01, 0x00, 0x00]);
}

#[test]
fn reader_wrong_length_retries_once_with_the_corrected_length() {
    let (result, sent) = run(&[
        with_status(&[0xEE], 0x6C, 0x20),
        with_status(&[5, 6, 7, 8], 0x90, 0x00),
    ]);
    // The payload of the refused request is not part of the file.
    assert_eq!(result, Ok(vec![5, 6, 7, 8]));
    assert_eq!(
        sent,
        vec![vec![0x00, 0xB0, 0x82, 0x00, 0x00], vec![0x00, 0xB0, 0x82, 0x00, 0x20]]
    );
}

#[test]
fn reader_retry_ends_the_read_whatever_its_status() {
    for (sw1, sw2) in [(0x61, 0x05), (0x6C, 0x10), (0x6A, 0x82), (0x63, 0xC1), (0x69, 0x84)] {
        let (result, sent) =
            run(&[with_status(&[], 0x6C, 0x08), with_status(&[1, 2], sw1, sw2)]);
        assert_eq!(result, Ok(vec![1, 2]));
        assert_eq!(sent.len(), 2);
    }
}

#[test]
fn reader_retry_after_more_data_keeps_offset_and_data() {
    let (result, sent) = run(&[
        with_status(&[1, 2, 3], 0x61, 0x02),
        with_status(&[], 0x6C, 0x02),
        with_status(&[4, 5], 0x90, 0x00),
    ]);
    assert_eq!(result, Ok(vec![1, 2, 3, 4, 5]));
    assert_eq!(sent[1], vec![0x00, 0xB0, 0x82, 0x03, 0x00]);
    assert_eq!(sent[2], vec![0x00, 0xB0, 0x82, 0x03, 0x02]);
}

#[test]
fn reader_retry_without_status_word_is_a_protocol_error() {
    let missing = Err(CardError::Protocol(ProtocolFault::MissingStatusWord));
    assert_eq!(run(&[with_status(&[], 0x6C, 0x08), vec![0x90]]).0, missing);
    assert_eq!(run(&[with_status(&[], 0x6C, 0x08), vec![]]).0, missing);
}

#[test]
fn reader_short_response_is_a_protocol_error() {
    let missing = Err(CardError::Protocol(ProtocolFault::MissingStatusWord));
    assert_eq!(run(&[vec![]]).0, missing);
    assert_eq!(run(&[vec![0x90]]).0, missing);
    assert_eq!(run(&[with_status(&[1], 0x61, 0x00), vec![0x00]]).0, missing);
}

#[test]
fn reader_aborts_after_two_empty_more_data_responses() {
    let (result, sent) = run(&[vec![0x61, 0x10], vec![0x61, 0x10], vec![0x90, 0x00]]);
    assert_eq!(result, Err(CardError::Protocol(ProtocolFault::NoProgress)));
    assert_eq!(sent.len(), 2);
    assert_eq!(sent[0], sent[1]);
}

#[test]
fn reader_aborts_on_stall_in_the_middle_of_a_file() {
    let (result, sent) = run(&[
        with_status(&[1, 2, 3], 0x61, 0x10),
        vec![0x61, 0x10],
        vec![0x61, 0x00],
        vec![0x90, 0x00],
    ]);
    assert_eq!(result, Err(CardError::Protocol(ProtocolFault::NoProgress)));
    assert_eq!(sent.len(), 3);
}

#[test]
fn reader_one_empty_more_data_is_tolerated() {
    let (result, sent) = run(&[
        vec![0x61, 0x10],
        with_status(&[1], 0x61, 0x10),
        vec![0x61, 0x10],
        with_status(&[2], 0x90, 0x00),
    ]);
    assert_eq!(result, Ok(vec![1, 2]));
    assert_eq!(sent.len(), 4);
    assert_eq!(sent[3], vec![0x00, 0xB0, 0x82, 0x01, 0x00]);
}

#[test]
fn reader_aborts_with_the_error_of_the_status() {
    assert_eq!(
        run(&[vec![0x63, 0xC2]]).0,
        Err(CardError::Auth(AuthFailure::Remaining(2)))
    );
    assert_eq!(run(&[vec![0x69, 0x84]]).0, Err(CardError::Auth(AuthFailure::Locked)));
    assert_eq!(
        run(&[with_status(&[1, 2], 0x69, 0x82)]).0,
        Err(CardError::Protocol(ProtocolFault::UnexpectedStatus(0x69, 0x82)))
    );
    assert_eq!(
        run(&[with_status(&[1], 0x61, 0x00), vec![0x6A, 0x86]]).0,
        Err(CardError::Protocol(ProtocolFault::UnexpectedStatus(0x6A, 0x86)))
    );
}

#[test]
fn reader_stops_where_the_offset_would_leave_sixteen_bits() {
    let chunk = with_status(&[0xAB; 255], 0x61, 0x00);
    let mut reader = FileReader::new(0x02);
    // 257 chunks of 255 bytes reach offset 65535 exactly.
    for _ in 0..257 {
        reader = match reader.step(&chunk) {
            ReadStep::Continue(next) => next,
            other => panic!("unexpected step {:?}", other),
        };
    }
    assert_eq!(reader.offset(), 0xFFFF);
    assert_eq!(reader.assembled(), 0xFFFF);
    assert_eq!(reader.command().to_bytes(), vec![0x00, 0xB0, 0xFF, 0xFF, 0x00]);
    match reader.step(&with_status(&[1], 0x61, 0x00)) {
        ReadStep::Failed(error) => {
            assert_eq!(error, CardError::Protocol(ProtocolFault::OffsetOverflow))
        }
        other => panic!("unexpected step {:?}", other),
    }
}

#[test]
fn reader_last_byte_at_the_highest_offset_can_still_be_read() {
    let chunk = with_status(&[0xAB; 255], 0x61, 0x00);
    let mut reader = FileReader::new(0x02);
    for _ in 0..257 {
        reader = match reader.step(&chunk) {
            ReadStep::Continue(next) => next,
            other => panic!("unexpected step {:?}", other),
        };
    }
    match reader.step(&with_status(&[1], 0x90, 0x00)) {
        ReadStep::Done(data) => {
            assert_eq!(data.len(), 0x10000);
            assert_eq!(data[0xFFFF], 1);
        }
        other => panic!("unexpected step {:?}", other),
    }
}

#[test]
fn reader_always_ends_against_a_device_that_never_says_success() {
    // The device alternates an empty and a one-byte "more data" response, the
    // slowest progress that the guard lets through.
    let mut reader = FileReader::new(0x02);
    let mut commands = 0u32;
    let ended = loop {
        commands += 1;
        let response = if commands % 2 == 1 { vec![0x61, 0x01] } else { vec![0x00, 0x61, 0x01] };
        match reader.step(&response) {
            ReadStep::Continue(next) => reader = next,
            ReadStep::Done(_) => panic!("the device never reported success"),
            ReadStep::Failed(error) => break error,
        }
        assert!(commands <= 131_072);
    };
    assert_eq!(ended, CardError::Protocol(ProtocolFault::OffsetOverflow));
    assert_eq!(commands, 131_072);
}
