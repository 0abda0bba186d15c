use dns_decoder::helpers::bytes_to_hex;
use dns_decoder::packet::header::{
    DnsHeader, DnsOpcode, DnsResponseCode, Flags, HeaderParseError,
};
use dns_decoder::packet::parser::DnsPacketParser;

#[test]
fn test_scenario_basic_query_header() {
    let bytes: [u8; 12] = [
        0x12, 0x34, 0x00, 0x00, 0x00, 0x01, 0x00, 0x01, 0x00, 0x00, 0x00, 0x00,
    ];
    let header = DnsHeader::from_bytes(&bytes).unwrap();
    assert_eq!(header.transaction_id, 0x1234);
    assert!(!header.flags.is_response);
    assert_eq!(header.flags.opcode, DnsOpcode::Query);
    assert_eq!(header.flags.response_code, DnsResponseCode::NoError);
    assert_eq!(header.question_count, 1);
    assert_eq!(header.answer_count, 1);
    assert_eq!(header.authority_count, 0);
    assert_eq!(header.additional_count, 0);
}

#[test]
fn test_scenario_flags_word_multiple_bits() {
    let flags = Flags::from_u16(0b1000010110000000).unwrap();
    assert!(flags.is_response);
    assert_eq!(flags.opcode, DnsOpcode::Query);
    assert!(flags.is_authoritative_answer);
    assert!(!flags.is_truncated);
    assert!(flags.is_recursion_desired);
    assert!(flags.is_recursion_enabled);
    assert_eq!(flags.response_code, DnsResponseCode::NoError);
}

#[test]
fn test_scenario_all_bits_set_fails_on_opcode() {
    // Both nibbles are invalid; the opcode is checked first.
    let result = Flags::from_u16(0b1111111111111111);
    assert_eq!(result, Err(HeaderParseError::InvalidOpcode));
}

#[test]
fn test_scenario_one_byte_buffer() {
    let result = DnsHeader::from_bytes(&[0x7f]);
    assert_eq!(result, Err(HeaderParseError::InvalidLength));
}

#[test]
fn test_short_buffers_fail_with_invalid_length() {
    let bytes: [u8; 12] = [0; 12];
    for len in 0..12 {
        let result = DnsHeader::from_bytes(&bytes[..len]);
        assert_eq!(result, Err(HeaderParseError::InvalidLength));
    }
}

#[test]
fn test_invalid_rcode_reported_when_opcode_valid() {
    // Opcode nibble 0 (valid), rcode nibble 6 (invalid).
    let result = Flags::from_u16(0x0006);
    assert_eq!(result, Err(HeaderParseError::InvalidRcode));
    // Highest invalid rcode nibble with a valid opcode.
    let result = Flags::from_u16(0x000F);
    assert_eq!(result, Err(HeaderParseError::InvalidRcode));
}

#[test]
fn test_invalid_opcode_reported() {
    // Opcode nibble 1 (invalid), rcode nibble 0 (valid).
    let result = Flags::from_u16(0b0000100000000000);
    assert_eq!(result, Err(HeaderParseError::InvalidOpcode));
}

#[test]
fn test_header_invalid_opcode_propagates() {
    // A 12-byte buffer whose flags word has opcode nibble 3.
    let bytes: [u8; 12] = [
        0x00, 0x01, 0b00011000, 0x00, 0x00, 0x00, 0x00, 0x00, 0x00, 0x00, 0x00, 0x00,
    ];
    assert_eq!(
        DnsHeader::from_bytes(&bytes),
        Err(HeaderParseError::InvalidOpcode)
    );
}

#[test]
fn test_flags_to_u16_exact_word() {
    let flags = Flags {
        is_response: true,
        opcode: DnsOpcode::Query,
        is_authoritative_answer: true,
        is_truncated: false,
        is_recursion_desired: true,
        is_recursion_enabled: true,
        response_code: DnsResponseCode::NoError,
    };
    assert_eq!(flags.to_u16(), 0b1000010110000000);

    let flags = Flags {
        is_response: false,
        opcode: DnsOpcode::Notify,
        is_authoritative_answer: false,
        is_truncated: true,
        is_recursion_desired: false,
        is_recursion_enabled: false,
        response_code: DnsResponseCode::Refused,
    };
    assert_eq!(flags.to_u16(), 0b0010001000000101);
}

#[test]
fn test_header_to_bytes_exact_octets() {
    let header = DnsHeader {
        transaction_id: 0xABCD,
        flags: Flags {
            is_response: true,
            opcode: DnsOpcode::Status,
            is_authoritative_answer: false,
            is_truncated: false,
            is_recursion_desired: false,
            is_recursion_enabled: false,
            response_code: DnsResponseCode::ServerFailure,
        },
        question_count: 0x0102,
        answer_count: 0x0304,
        authority_count: 0x0506,
        additional_count: 0x0708,
    };
    // Flags word: QR | opcode 2 << 11 | rcode 2.
    assert_eq!(
        header.to_bytes(),
        vec![0xAB, 0xCD, 0x90, 0x02, 0x01, 0x02, 0x03, 0x04, 0x05, 0x06, 0x07, 0x08]
    );
}

#[test]
fn test_header_round_trip() {
    let opcodes = [DnsOpcode::Query, DnsOpcode::Status, DnsOpcode::Notify];
    let rcodes = [
        DnsResponseCode::NoError,
        DnsResponseCode::FormatError,
        DnsResponseCode::ServerFailure,
        DnsResponseCode::NameError,
        DnsResponseCode::NotImplemented,
        DnsResponseCode::Refused,
    ];
    for (i, &opcode) in opcodes.iter().enumerate() {
        for (j, &response_code) in rcodes.iter().enumerate() {
            let header = DnsHeader {
                transaction_id: 0x1000 + (i as u16) * 16 + j as u16,
                flags: Flags {
                    is_response: i % 2 == 0,
                    opcode,
                    is_authoritative_answer: j % 2 == 0,
                    is_truncated: j % 3 == 0,
                    is_recursion_desired: i != j,
                    is_recursion_enabled: j > i,
                    response_code,
                },
                question_count: j as u16,
                answer_count: 0xFFFF,
                authority_count: 0,
                additional_count: i as u16,
            };
            let bytes = header.to_bytes();
            assert_eq!(bytes.len(), 12);
            let decoded = DnsHeader::from_bytes(&bytes).unwrap();
            assert_eq!(decoded, header);
        }
    }
}

#[test]
fn test_decode_idempotent() {
    let bytes: [u8; 12] = [
        0x12, 0x34, 0x85, 0x80, 0x00, 0x01, 0x00, 0x02, 0x00, 0x03, 0x00, 0x04,
    ];
    let first = DnsHeader::from_bytes(&bytes).unwrap();
    let second = DnsHeader::from_bytes(&bytes).unwrap();
    assert_eq!(first, second);
}

#[test]
fn test_parse_splits_header_and_body() {
    let mut packet: Vec<u8> = vec![
        0xBE, 0xEF, 0x00, 0x00, 0x00, 0x01, 0x00, 0x00, 0x00, 0x00, 0x00, 0x00,
    ];
    packet.extend_from_slice(&[0xDE, 0xAD, 0xC0, 0xDE]);
    let message = DnsPacketParser.parse(&packet).unwrap();
    assert_eq!(message.header.transaction_id, 0xBEEF);
    assert_eq!(message.header.question_count, 1);
    assert_eq!(message.body, vec![0xDE, 0xAD, 0xC0, 0xDE]);
}

#[test]
fn test_parse_empty_body() {
    let packet: [u8; 12] = [
        0x00, 0x07, 0x00, 0x00, 0x00, 0x00, 0x00, 0x00, 0x00, 0x00, 0x00, 0x00,
    ];
    let message = DnsPacketParser.parse(&packet).unwrap();
    assert_eq!(message.header.transaction_id, 7);
    assert!(message.body.is_empty());
}

#[test]
fn test_parse_short_packet_fails() {
    let packet: [u8; 3] = [0x01, 0x02, 0x03];
    assert_eq!(
        DnsPacketParser.parse(&packet),
        Err(HeaderParseError::InvalidLength)
    );
}

#[test]
fn test_parse_propagates_flags_error() {
    // Flags word 0xFFFF: invalid opcode nibble, checked before the rcode.
    let packet: [u8; 13] = [
        0x00, 0x01, 0xFF, 0xFF, 0x00, 0x00, 0x00, 0x00, 0x00, 0x00, 0x00, 0x00, 0x55,
    ];
    assert_eq!(
        DnsPacketParser.parse(&packet),
        Err(HeaderParseError::InvalidOpcode)
    );
}

#[test]
fn test_bytes_to_hex_formats_each_byte() {
    let bytes: [u8; 5] = [0x00, 0x1F, 0xAB, 0xFF, 0x09];
    let hex = bytes_to_hex(&bytes);
    assert_eq!(hex, vec!["0x00", "0x1f", "0xab", "0xff", "0x09"]);
}

#[test]
fn test_bytes_to_hex_empty() {
    let bytes: [u8; 0] = [];
    assert!(bytes_to_hex(&bytes).is_empty());
}
