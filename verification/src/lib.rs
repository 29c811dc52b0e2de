//! Canonical DER encoding of X.509 certificate and CRL extension values.
//!
//! Given a typed, already-validated extension value, each encoder produces the
//! exact DER byte sequence RFC 5280 / RFC 6962 / RFC 6960 define for that
//! extension's content octets. The outer Extension SEQUENCE (OID plus
//! criticality) is the caller's concern; so is the encoding of general names
//! and relative distinguished names, which arrive here as pre-encoded bytes.

pub mod der;
pub mod values;
pub mod key_usage;
pub mod encoders;
pub mod dist_points;
pub mod policies;
pub mod dispatch;
