//! The fixed 12-octet header of a DNS message.
//!
//! Wire layout of the header (all fields big-endian):
//!
//! ```text
//! offset  size  field
//! 0       2     transaction id
//! 2       2     flags word (bit layout below)
//! 4       2     question count
//! 6       2     answer count
//! 8       2     authority count
//! 10      2     additional count
//! ```
//!
//! Flags word, MSB (bit 15) first:
//! bit 15 = QR (response), bits 14-11 = opcode, bit 10 = AA,
//! bit 9 = TC, bit 8 = RD, bit 7 = RA, bits 6-4 = Z (ignored),
//! bits 3-0 = RCODE.

use vstd::prelude::*;

verus! {

/// The kind of query carried in the flags word. Only the three values
/// below are representable; any other opcode nibble is a decode error.
#[derive(Debug, PartialEq, Eq, Clone, Copy, Structural)]
pub enum DnsOpcode {
    Query,
    Status,
    Notify,
}

/// The status carried in the low nibble of the flags word. Only the six
/// values below are representable; any other nibble is a decode error.
#[derive(Debug, PartialEq, Eq, Clone, Copy, Structural)]
pub enum DnsResponseCode {
    NoError,
    FormatError,
    ServerFailure,
    NameError,
    NotImplemented,
    Refused,
}

/// Why a header failed to decode.
#[derive(Debug, PartialEq, Eq, Clone, Copy, Structural)]
pub enum HeaderParseError {
    /// The opcode nibble of the flags word is not an enumerated opcode.
    InvalidOpcode,
    /// The response-code nibble of the flags word is not an enumerated code.
    InvalidRcode,
    /// The buffer is shorter than the fixed header, or of odd length.
    InvalidLength,
}

/// The wire value of an opcode.
pub open spec fn opcode_code(op: DnsOpcode) -> u16 {
    match op {
        DnsOpcode::Query => 0,
        DnsOpcode::Status => 2,
        DnsOpcode::Notify => 4,
    }
}

/// Whether a wire value names an opcode.
pub open spec fn opcode_code_valid(v: u16) -> bool {
    v == 0 || v == 2 || v == 4
}

/// The opcode named by a wire value; meaningful only on valid values.
pub open spec fn opcode_of_code(v: u16) -> DnsOpcode
    recommends
        opcode_code_valid(v),
{
    if v == 0 {
        DnsOpcode::Query
    } else if v == 2 {
        DnsOpcode::Status
    } else {
        DnsOpcode::Notify
    }
}

/// The wire value of a response code.
pub open spec fn rcode_code(rc: DnsResponseCode) -> u16 {
    match rc {
        DnsResponseCode::NoError => 0,
        DnsResponseCode::FormatError => 1,
        DnsResponseCode::ServerFailure => 2,
        DnsResponseCode::NameError => 3,
        DnsResponseCode::NotImplemented => 4,
        DnsResponseCode::Refused => 5,
    }
}

/// Whether a wire value names a response code.
pub open spec fn rcode_code_valid(v: u16) -> bool {
    v <= 5
}

/// The response code named by a wire value; meaningful only on valid values.
pub open spec fn rcode_of_code(v: u16) -> DnsResponseCode
    recommends
        rcode_code_valid(v),
{
    if v == 0 {
        DnsResponseCode::NoError
    } else if v == 1 {
        DnsResponseCode::FormatError
    } else if v == 2 {
        DnsResponseCode::ServerFailure
    } else if v == 3 {
        DnsResponseCode::NameError
    } else if v == 4 {
        DnsResponseCode::NotImplemented
    } else {
        DnsResponseCode::Refused
    }
}

impl DnsOpcode {
    /// Maps a wire value to the opcode it names; exactly the values
    /// 0, 2 and 4 succeed, everything else is `InvalidOpcode`.
    pub fn from_u8(value: u8) -> (r: Result<Self, HeaderParseError>)
        ensures
            r matches Ok(op) ==> opcode_code(op) == value as u16,
            opcode_code_valid(value as u16) ==> r == Ok::<DnsOpcode, HeaderParseError>(
                opcode_of_code(value as u16),
            ),
            !opcode_code_valid(value as u16) ==> r == Err::<DnsOpcode, HeaderParseError>(
                HeaderParseError::InvalidOpcode,
            ),
    {
        match value {
            0 => Ok(DnsOpcode::Query),
            2 => Ok(DnsOpcode::Status),
            4 => Ok(DnsOpcode::Notify),
            _ => Err(HeaderParseError::InvalidOpcode),
        }
    }
}

impl DnsResponseCode {
    /// Maps a wire value to the response code it names; exactly the values
    /// 0 through 5 succeed, everything else is `InvalidRcode`.
    pub fn from_u8(value: u8) -> (r: Result<Self, HeaderParseError>)
        ensures
            r matches Ok(rc) ==> rcode_code(rc) == value as u16,
            rcode_code_valid(value as u16) ==> r == Ok::<DnsResponseCode, HeaderParseError>(
                rcode_of_code(value as u16),
            ),
            !rcode_code_valid(value as u16) ==> r == Err::<DnsResponseCode, HeaderParseError>(
                HeaderParseError::InvalidRcode,
            ),
    {
        match value {
            0 => Ok(DnsResponseCode::NoError),
            1 => Ok(DnsResponseCode::FormatError),
            2 => Ok(DnsResponseCode::ServerFailure),
            3 => Ok(DnsResponseCode::NameError),
            4 => Ok(DnsResponseCode::NotImplemented),
            5 => Ok(DnsResponseCode::Refused),
            _ => Err(HeaderParseError::InvalidRcode),
        }
    }
}

/// The semantic fields packed into the 16-bit flags word.
#[derive(Debug, PartialEq, Eq, Clone, Copy, Structural)]
pub struct Flags {
    /// QR, bit 15: whether this message is a response (1) or a query (0).
    pub is_response: bool,
    /// Opcode, bits 14-11: the kind of query in this message.
    pub opcode: DnsOpcode,
    /// AA, bit 10: whether the responding name server is an authority
    /// for the domain name in the question section.
    pub is_authoritative_answer: bool,
    /// TC, bit 9: whether the message was truncated by the transport.
    pub is_truncated: bool,
    /// RD, bit 8: whether the originator asks for recursive resolution.
    pub is_recursion_desired: bool,
    /// RA, bit 7: whether the responding name server offers recursion.
    pub is_recursion_enabled: bool,
    /// RCODE, bits 3-0: the status of a response.
    pub response_code: DnsResponseCode,
}

/// The opcode nibble of a flags word: bits 14-11.
pub open spec fn spec_opcode_nibble(w: u16) -> u16 {
    (w >> 11) & 0xF
}

/// The response-code nibble of a flags word: bits 3-0.
pub open spec fn spec_rcode_nibble(w: u16) -> u16 {
    w & 0xF
}

/// Whether both enumerated sub-fields of a flags word carry named values.
pub open spec fn flags_word_valid(w: u16) -> bool {
    opcode_code_valid(spec_opcode_nibble(w)) && rcode_code_valid(spec_rcode_nibble(w))
}

/// The flag set packed into a word; meaningful only on valid words.
pub open spec fn spec_flags_of(w: u16) -> Flags
    recommends
        flags_word_valid(w),
{
    Flags {
        is_response: w & 0x8000 != 0,
        opcode: opcode_of_code(spec_opcode_nibble(w)),
        is_authoritative_answer: w & 0x0400 != 0,
        is_truncated: w & 0x0200 != 0,
        is_recursion_desired: w & 0x0100 != 0,
        is_recursion_enabled: w & 0x0080 != 0,
        response_code: rcode_of_code(spec_rcode_nibble(w)),
    }
}

/// What decoding a flags word yields: the packed flag set, or the error
/// for the first invalid sub-field, the opcode being checked first.
pub open spec fn spec_flags_result(w: u16) -> Result<Flags, HeaderParseError> {
    if !opcode_code_valid(spec_opcode_nibble(w)) {
        Err(HeaderParseError::InvalidOpcode)
    } else if !rcode_code_valid(spec_rcode_nibble(w)) {
        Err(HeaderParseError::InvalidRcode)
    } else {
        Ok(spec_flags_of(w))
    }
}

impl Flags {
    /// Unpacks a flags word into its seven fields, or fails on the first
    /// invalid enumerated sub-field; bits 6-4 (Z) are ignored.
    pub fn from_u16(value: u16) -> (r: Result<Self, HeaderParseError>)
        ensures
            r == spec_flags_result(value),
    {
        Ok(Flags {
            is_response: Self::is_response(value),
            opcode: Self::get_opcode(value)?,
            is_authoritative_answer: Self::is_authoritative_answer(value),
            is_truncated: Self::is_truncated(value),
            is_recursion_desired: Self::is_recursion_desired(value),
            is_recursion_enabled: Self::is_recursion_enabled(value),
            response_code: Self::get_response_code(value)?,
        })
    }

    /// Reads the QR bit (bit 15) of a flags word.
    pub fn is_response(value: u16) -> (r: bool)
        ensures
            r == (value & 0x8000 != 0),
    {
        value & 0x8000 != 0
    }

    /// Extracts and validates the opcode nibble of a flags word.
    pub fn get_opcode(value: u16) -> (r: Result<DnsOpcode, HeaderParseError>)
        ensures
            opcode_code_valid(spec_opcode_nibble(value)) ==> r == Ok::<
                DnsOpcode,
                HeaderParseError,
            >(opcode_of_code(spec_opcode_nibble(value))),
            !opcode_code_valid(spec_opcode_nibble(value)) ==> r == Err::<
                DnsOpcode,
                HeaderParseError,
            >(HeaderParseError::InvalidOpcode),
    {
        let opcode = ((value >> 11) & 0xF) as u8;
        proof {
            assert(((value >> 11) & 0xF) < 256) by (bit_vector);
        }
        DnsOpcode::from_u8(opcode)
    }

    /// Reads the AA bit (bit 10) of a flags word.
    pub fn is_authoritative_answer(value: u16) -> (r: bool)
        ensures
            r == (value & 0x0400 != 0),
    {
        value & 0x0400 != 0
    }

    /// Reads the TC bit (bit 9) of a flags word.
    pub fn is_truncated(value: u16) -> (r: bool)
        ensures
            r == (value & 0x0200 != 0),
    {
        value & 0x0200 != 0
    }

    /// Reads the RD bit (bit 8) of a flags word.
    pub fn is_recursion_desired(value: u16) -> (r: bool)
        ensures
            r == (value & 0x0100 != 0),
    {
        value & 0x0100 != 0
    }

    /// Reads the RA bit (bit 7) of a flags word.
    pub fn is_recursion_enabled(value: u16) -> (r: bool)
        ensures
            r == (value & 0x0080 != 0),
    {
        value & 0x0080 != 0
    }

    /// Extracts and validates the response-code nibble of a flags word.
    pub fn get_response_code(value: u16) -> (r: Result<DnsResponseCode, HeaderParseError>)
        ensures
            rcode_code_valid(spec_rcode_nibble(value)) ==> r == Ok::<
                DnsResponseCode,
                HeaderParseError,
            >(rcode_of_code(spec_rcode_nibble(value))),
            !rcode_code_valid(spec_rcode_nibble(value)) ==> r == Err::<
                DnsResponseCode,
                HeaderParseError,
            >(HeaderParseError::InvalidRcode),
    {
        let response_code = (value & 0x000F) as u8;
        proof {
            assert((value & 0x000F) < 256) by (bit_vector);
        }
        DnsResponseCode::from_u8(response_code)
    }
}

/// The or of the seven bit groups of a flags word, each already shifted
/// to its place.
pub open spec fn pack_flags_bits(qr: u16, oc: u16, aa: u16, tc: u16, rd: u16, ra: u16, rc: u16) -> u16 {
    qr | (oc << 11) | aa | tc | rd | ra | rc
}

/// The flags word that encodes a flag set, with the reserved Z bits
/// (6-4) cleared.
pub open spec fn spec_flags_word(f: Flags) -> u16 {
    pack_flags_bits(
        if f.is_response {
            0x8000
        } else {
            0
        },
        opcode_code(f.opcode),
        if f.is_authoritative_answer {
            0x0400
        } else {
            0
        },
        if f.is_truncated {
            0x0200
        } else {
            0
        },
        if f.is_recursion_desired {
            0x0100
        } else {
            0
        },
        if f.is_recursion_enabled {
            0x0080
        } else {
            0
        },
        rcode_code(f.response_code),
    )
}

/// Each bit group of a packed flags word reads back unchanged, provided
/// every group sits in its own bits: the enumerated fields stay within
/// their nibbles and each boolean contributes only its own bit.
proof fn lemma_pack_flags_extract(qr: u16, oc: u16, aa: u16, tc: u16, rd: u16, ra: u16, rc: u16)
    by (bit_vector)
    requires
        qr == 0 || qr == 0x8000,
        oc == 0 || oc == 2 || oc == 4,
        aa == 0 || aa == 0x0400,
        tc == 0 || tc == 0x0200,
        rd == 0 || rd == 0x0100,
        ra == 0 || ra == 0x0080,
        rc <= 5,
    ensures
        (pack_flags_bits(qr, oc, aa, tc, rd, ra, rc) >> 11) & 0xF == oc,
        pack_flags_bits(qr, oc, aa, tc, rd, ra, rc) & 0xF == rc,
        (pack_flags_bits(qr, oc, aa, tc, rd, ra, rc) & 0x8000 != 0) == (qr != 0),
        (pack_flags_bits(qr, oc, aa, tc, rd, ra, rc) & 0x0400 != 0) == (aa != 0),
        (pack_flags_bits(qr, oc, aa, tc, rd, ra, rc) & 0x0200 != 0) == (tc != 0),
        (pack_flags_bits(qr, oc, aa, tc, rd, ra, rc) & 0x0100 != 0) == (rd != 0),
        (pack_flags_bits(qr, oc, aa, tc, rd, ra, rc) & 0x0080 != 0) == (ra != 0),
{
}

/// Law: a packed flags word is always valid, and decoding it yields
/// exactly the flag set it was packed from.
pub proof fn lemma_flags_word_round_trip(f: Flags)
    ensures
        flags_word_valid(spec_flags_word(f)),
        spec_flags_result(spec_flags_word(f)) == Ok::<Flags, HeaderParseError>(f),
{
    let qr: u16 = if f.is_response {
        0x8000
    } else {
        0
    };
    let oc: u16 = opcode_code(f.opcode);
    let aa: u16 = if f.is_authoritative_answer {
        0x0400
    } else {
        0
    };
    let tc: u16 = if f.is_truncated {
        0x0200
    } else {
        0
    };
    let rd: u16 = if f.is_recursion_desired {
        0x0100
    } else {
        0
    };
    let ra: u16 = if f.is_recursion_enabled {
        0x0080
    } else {
        0
    };
    let rc: u16 = rcode_code(f.response_code);
    lemma_pack_flags_extract(qr, oc, aa, tc, rd, ra, rc);
    let w = spec_flags_word(f);
    assert(opcode_of_code(spec_opcode_nibble(w)) == f.opcode);
    assert(rcode_of_code(spec_rcode_nibble(w)) == f.response_code);
    assert(spec_flags_of(w) == f);
}

impl Flags {
    /// Packs the seven fields back into a flags word, the reserved Z
    /// bits cleared: the exact inverse of `from_u16` on valid words.
    pub fn to_u16(&self) -> (w: u16)
        ensures
            w == spec_flags_word(*self),
    {
        let qr: u16 = if self.is_response {
            0x8000
        } else {
            0
        };
        let oc: u16 = match self.opcode {
            DnsOpcode::Query => 0,
            DnsOpcode::Status => 2,
            DnsOpcode::Notify => 4,
        };
        let aa: u16 = if self.is_authoritative_answer {
            0x0400
        } else {
            0
        };
        let tc: u16 = if self.is_truncated {
            0x0200
        } else {
            0
        };
        let rd: u16 = if self.is_recursion_desired {
            0x0100
        } else {
            0
        };
        let ra: u16 = if self.is_recursion_enabled {
            0x0080
        } else {
            0
        };
        let rc: u16 = match self.response_code {
            DnsResponseCode::NoError => 0,
            DnsResponseCode::FormatError => 1,
            DnsResponseCode::ServerFailure => 2,
            DnsResponseCode::NameError => 3,
            DnsResponseCode::NotImplemented => 4,
            DnsResponseCode::Refused => 5,
        };
        qr | (oc << 11) | aa | tc | rd | ra | rc
    }
}

/// The fixed 12-octet header of a DNS message.
#[derive(Debug, PartialEq, Eq, Clone, Copy, Structural)]
pub struct DnsHeader {
    /// Opaque correlation token copied from a query into its reply.
    pub transaction_id: u16,
    /// The unpacked flags word.
    pub flags: Flags,
    /// Number of entries in the (unparsed) question section.
    pub question_count: u16,
    /// Number of records in the (unparsed) answer section.
    pub answer_count: u16,
    /// Number of records in the (unparsed) authority section.
    pub authority_count: u16,
    /// Number of records in the (unparsed) additional section.
    pub additional_count: u16,
}

/// The 16-bit value carried big-endian by two consecutive octets.
pub open spec fn be_word(hi: u8, lo: u8) -> u16 {
    (hi * 256 + lo) as u16
}

/// The sequence of big-endian 16-bit values carried by a byte sequence
/// of even length.
pub open spec fn be_words(b: Seq<u8>) -> Seq<u16>
    recommends
        b.len() % 2 == 0,
{
    Seq::new(b.len() / 2, |i: int| be_word(b[2 * i], b[2 * i + 1]))
}

/// What decoding a header from a byte sequence yields: a buffer shorter
/// than the fixed header or of odd length fails with `InvalidLength`
/// before any field is read; otherwise the six big-endian fields of the
/// first 12 octets are extracted and a flags-word failure is propagated
/// unchanged.
pub open spec fn spec_header_result(b: Seq<u8>) -> Result<DnsHeader, HeaderParseError> {
    if b.len() < 12 || b.len() % 2 != 0 {
        Err(HeaderParseError::InvalidLength)
    } else {
        match spec_flags_result(be_word(b[2], b[3])) {
            Ok(flags) => Ok(
                DnsHeader {
                    transaction_id: be_word(b[0], b[1]),
                    flags,
                    question_count: be_word(b[4], b[5]),
                    answer_count: be_word(b[6], b[7]),
                    authority_count: be_word(b[8], b[9]),
                    additional_count: be_word(b[10], b[11]),
                },
            ),
            Err(e) => Err(e),
        }
    }
}

impl DnsHeader {
    /// Decodes the fixed header from the start of a byte buffer.
    ///
    /// Any buffer shorter than 12 octets, or of odd length, fails with
    /// `InvalidLength` and nothing is read out of bounds; a valid-length
    /// buffer fails exactly when its flags word does, with that error.
    pub fn from_bytes(bytes: &[u8]) -> (r: Result<Self, HeaderParseError>)
        ensures
            r == spec_header_result(bytes@),
            bytes@.len() < 12 ==> r == Err::<DnsHeader, HeaderParseError>(
                HeaderParseError::InvalidLength,
            ),
    {
        if bytes.len() < 12 || bytes.len() % 2 != 0 {
            return Err(HeaderParseError::InvalidLength);
        }
        let u16_values = Self::bytes_to_u16_array(bytes)?;

        Ok(DnsHeader {
            transaction_id: u16_values[0],
            flags: Flags::from_u16(u16_values[1])?,
            question_count: u16_values[2],
            answer_count: u16_values[3],
            authority_count: u16_values[4],
            additional_count: u16_values[5],
        })
    }

    /// Encodes the header into its 12-octet wire form, each field
    /// big-endian: the exact inverse of `from_bytes`.
    pub fn to_bytes(&self) -> (r: Vec<u8>)
        ensures
            r@ == spec_encode_header(*self),
    {
        let mut bytes: Vec<u8> = Vec::new();
        push_be_u16(&mut bytes, self.transaction_id);
        push_be_u16(&mut bytes, self.flags.to_u16());
        push_be_u16(&mut bytes, self.question_count);
        push_be_u16(&mut bytes, self.answer_count);
        push_be_u16(&mut bytes, self.authority_count);
        push_be_u16(&mut bytes, self.additional_count);
        proof {
            assert(bytes@ =~= spec_encode_header(*self));
        }
        bytes
    }

    /// Regroups a byte buffer of even length into its big-endian 16-bit
    /// values; a buffer of odd length, or shorter than one value, fails
    /// with `InvalidLength`.
    pub fn bytes_to_u16_array(bytes: &[u8]) -> (r: Result<Vec<u16>, HeaderParseError>)
        ensures
            bytes@.len() % 2 != 0 || bytes@.len() < 2 ==> r == Err::<Vec<u16>, HeaderParseError>(
                HeaderParseError::InvalidLength,
            ),
            bytes@.len() % 2 == 0 && bytes@.len() >= 2 ==> (r matches Ok(v) && v@ == be_words(
                bytes@,
            )),
    {
        if bytes.len() % 2 != 0 || bytes.len() < 2 {
            return Err(HeaderParseError::InvalidLength);
        }
        let mut u16_array: Vec<u16> = Vec::new();
        let mut i: usize = 0;
        while i + 1 < bytes.len()
            invariant
                i % 2 == 0,
                i <= bytes@.len(),
                bytes@.len() % 2 == 0,
                u16_array@.len() == i / 2,
                forall|j: int|
                    0 <= j < i / 2 ==> u16_array@[j] == be_word(bytes@[2 * j], bytes@[2 * j + 1]),
            decreases bytes@.len() - i,
        {
            let hi = bytes[i];
            let lo = bytes[i + 1];
            let value: u16 = (hi as u16) * 256 + (lo as u16);
            u16_array.push(value);
            i = i + 2;
        }
        proof {
            assert(i == bytes@.len());
            assert(u16_array@ =~= be_words(bytes@));
        }
        Ok(u16_array)
    }
}

/// The two octets that carry a 16-bit value big-endian.
pub open spec fn spec_encode_u16(v: u16) -> Seq<u8> {
    seq![(v / 256) as u8, (v % 256) as u8]
}

/// The 12-octet wire form of a header: its six 16-bit fields in wire
/// order, each big-endian, the flags packed with the Z bits cleared.
pub open spec fn spec_encode_header(h: DnsHeader) -> Seq<u8> {
    spec_encode_u16(h.transaction_id) + spec_encode_u16(spec_flags_word(h.flags)) + spec_encode_u16(
        h.question_count,
    ) + spec_encode_u16(h.answer_count) + spec_encode_u16(h.authority_count) + spec_encode_u16(
        h.additional_count,
    )
}

/// Appends the big-endian octets of a 16-bit value.
fn push_be_u16(out: &mut Vec<u8>, v: u16)
    ensures
        final(out)@ == old(out)@ + spec_encode_u16(v),
{
    out.push((v / 256) as u8);
    out.push((v % 256) as u8);
    proof {
        assert(out@ =~= old(out)@ + spec_encode_u16(v));
    }
}

/// The two big-endian octets of a value read back as that value.
proof fn lemma_be_word_round_trip(v: u16)
    ensures
        be_word((v / 256) as u8, (v % 256) as u8) == v,
{
    vstd::arithmetic::div_mod::lemma_fundamental_div_mod(v as int, 256);
}

/// Law: every header, its enumerated fields being valid by type, encodes
/// into 12 octets whose decode succeeds and reproduces the transaction
/// id, all seven flag fields, and all four section counts exactly.
pub proof fn lemma_header_round_trip(h: DnsHeader)
    ensures
        spec_encode_header(h).len() == 12,
        spec_header_result(spec_encode_header(h)) == Ok::<DnsHeader, HeaderParseError>(h),
{
    let b = spec_encode_header(h);
    let w = spec_flags_word(h.flags);
    assert(b.len() == 12);
    assert(b[0] == (h.transaction_id / 256) as u8 && b[1] == (h.transaction_id % 256) as u8);
    assert(b[2] == (w / 256) as u8 && b[3] == (w % 256) as u8);
    assert(b[4] == (h.question_count / 256) as u8 && b[5] == (h.question_count % 256) as u8);
    assert(b[6] == (h.answer_count / 256) as u8 && b[7] == (h.answer_count % 256) as u8);
    assert(b[8] == (h.authority_count / 256) as u8 && b[9] == (h.authority_count % 256) as u8);
    assert(b[10] == (h.additional_count / 256) as u8 && b[11] == (h.additional_count % 256) as u8);
    lemma_be_word_round_trip(h.transaction_id);
    lemma_be_word_round_trip(w);
    lemma_be_word_round_trip(h.question_count);
    lemma_be_word_round_trip(h.answer_count);
    lemma_be_word_round_trip(h.authority_count);
    lemma_be_word_round_trip(h.additional_count);
    lemma_flags_word_round_trip(h.flags);
    assert(spec_header_result(b) == Ok::<DnsHeader, HeaderParseError>(h));
}

/// Law: decoding is a pure function of the buffer contents. The decoder
/// keeps no state and has no side effect, so any two decodes whose
/// results satisfy the contract of `DnsHeader::from_bytes` on the same
/// bytes — in particular two decodes of one immutable buffer — yield
/// equal values.
pub proof fn lemma_decode_deterministic(
    r1: Result<DnsHeader, HeaderParseError>,
    r2: Result<DnsHeader, HeaderParseError>,
    b: Seq<u8>,
)
    requires
        r1 == spec_header_result(b),
        r2 == spec_header_result(b),
    ensures
        r1 == r2,
{
}

/// Law: for every flags word, the opcode carried by a successful decode
/// is the wire nibble (bits 14-11), and the decode fails with
/// `InvalidOpcode` exactly when that nibble names no opcode.
pub proof fn lemma_opcode_extraction(w: u16)
    ensures
        spec_flags_result(w) matches Ok(f) ==> opcode_code(f.opcode) == spec_opcode_nibble(w),
        spec_flags_result(w) == Err::<Flags, HeaderParseError>(HeaderParseError::InvalidOpcode)
            <==> !opcode_code_valid(spec_opcode_nibble(w)),
{
}

/// Law: for every flags word, the response code carried by a successful
/// decode is the wire nibble (bits 3-0); and, on words whose opcode
/// nibble is valid, the decode fails with `InvalidRcode` exactly when
/// the response-code nibble names no code. (On words where both nibbles
/// are invalid the opcode check comes first and `InvalidOpcode` wins.)
pub proof fn lemma_rcode_extraction(w: u16)
    ensures
        spec_flags_result(w) matches Ok(f) ==> rcode_code(f.response_code) == spec_rcode_nibble(w),
        opcode_code_valid(spec_opcode_nibble(w)) ==> (spec_flags_result(w) == Err::<
            Flags,
            HeaderParseError,
        >(HeaderParseError::InvalidRcode) <==> !rcode_code_valid(spec_rcode_nibble(w))),
{
}

} // verus!
