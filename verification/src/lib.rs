//! Validation and decomposition of the 11-character Finnish personal
//! identity code (henkilötunnus) into its semantic fields: date of birth,
//! century marker, individual number, checksum symbol and derived gender.

pub mod chars;
pub mod checksum;
pub mod henkilotunnus;
