//! Decoder for the fixed 12-octet header of a DNS message.
//!
//! The header carries a transaction identifier, a bit-packed flags word,
//! and four section counts, all big-endian 16-bit fields. Decoding is a
//! pure transformation from bytes to a typed record or a typed error;
//! the surrounding datagram loop lives outside this library.

pub mod helpers;
pub mod packet;
