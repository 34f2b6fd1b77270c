use bikecmd::response::{classify_response, ResponseOutcome, OPCODE_ACK, OPCODE_NACK};

#[test]
fn opcodes() {
    assert_eq!(OPCODE_ACK, 0xBA);
    assert_eq!(OPCODE_NACK, 0xAA);
}

#[test]
fn classify_ack() {
    assert_eq!(classify_response(1, &[0xBA]), ResponseOutcome::Acknowledged);
}

#[test]
fn classify_nack() {
    assert_eq!(classify_response(1, &[0xAA]), ResponseOutcome::NegativeAcknowledged);
}

#[test]
fn classify_unexpected_opcode() {
    assert_eq!(classify_response(1, &[0x00]), ResponseOutcome::UnexpectedOpcode(0x00));
    assert_eq!(classify_response(1, &[0xFF]), ResponseOutcome::UnexpectedOpcode(0xFF));
    assert_eq!(classify_response(1, &[0xBB]), ResponseOutcome::UnexpectedOpcode(0xBB));
}

#[test]
fn classify_nothing_read() {
    assert_eq!(classify_response(0, &[]), ResponseOutcome::Malformed(0, vec![]));
}

#[test]
fn classify_extra_bytes() {
    assert_eq!(
        classify_response(3, &[0xBA, 0x01, 0x02]),
        ResponseOutcome::Malformed(3, vec![0xBA, 0x01, 0x02])
    );
    assert_eq!(
        classify_response(2, &[0xBA, 0xBA]),
        ResponseOutcome::Malformed(2, vec![0xBA, 0xBA])
    );
}

#[test]
fn classify_reads_only_what_was_read() {
    let mut buffer = [0u8; 100];
    buffer[0] = 0xBA;
    buffer[1] = 0x17;
    assert_eq!(classify_response(1, &buffer), ResponseOutcome::Acknowledged);
    assert_eq!(classify_response(0, &buffer), ResponseOutcome::Malformed(0, vec![]));
    assert_eq!(classify_response(2, &buffer), ResponseOutcome::Malformed(2, vec![0xBA, 0x17]));
    assert_eq!(classify_response(100, &buffer), ResponseOutcome::Malformed(100, buffer.to_vec()));
}

#[test]
fn classify_every_single_byte() {
    for byte in 0..=255u8 {
        let expected = if byte == 0xBA {
            ResponseOutcome::Acknowledged
        } else if byte == 0xAA {
            ResponseOutcome::NegativeAcknowledged
        } else {
            ResponseOutcome::UnexpectedOpcode(byte)
        };
        assert_eq!(classify_response(1, &[byte]), expected);
    }
}
