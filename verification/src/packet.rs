//! Wire-format types of a DNS message: the fixed header and the
//! message assembly around it.

pub mod header;
pub mod parser;
