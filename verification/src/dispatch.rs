use vstd::prelude::*;

use crate::der::spec_der_big_uint;
use crate::der::spec_der_null;
use crate::der::spec_der_octet_string;
use crate::der::der_big_uint;
use crate::der::der_null;
use crate::der::der_octet_string;
use crate::dist_points::spec_distribution_points_der;
use crate::dist_points::spec_idp_der;
use crate::dist_points::encode_distribution_points;
use crate::dist_points::encode_issuing_distribution_point;
use crate::encoders::spec_access_descriptions_der;
use crate::encoders::spec_aki_der;
use crate::encoders::spec_aki_wf;
use crate::encoders::spec_basic_constraints_der;
use crate::encoders::spec_crl_reason_der;
use crate::encoders::spec_general_names_der;
use crate::encoders::spec_invalidity_date_der;
use crate::encoders::spec_ms_template_der;
use crate::encoders::spec_name_constraints_der;
use crate::encoders::spec_oid_sequence_der;
use crate::encoders::spec_policy_constraints_der;
use crate::encoders::spec_sct_inner;
use crate::encoders::spec_scts_der;
use crate::encoders::spec_tls_features_der;
use crate::encoders::encode_access_descriptions;
use crate::encoders::encode_authority_key_identifier;
use crate::encoders::encode_basic_constraints;
use crate::encoders::encode_crl_reason;
use crate::encoders::encode_general_names;
use crate::encoders::encode_invalidity_date;
use crate::encoders::encode_ms_certificate_template;
use crate::encoders::encode_name_constraints;
use crate::encoders::encode_oid_sequence;
use crate::encoders::encode_policy_constraints;
use crate::encoders::encode_scts;
use crate::encoders::encode_tls_features;
use crate::key_usage::spec_key_usage_der;
use crate::key_usage::encode_key_usage;
use crate::policies::spec_certificate_policies_der;
use crate::policies::spec_policies_nums_wf;
use crate::policies::spec_policies_ok;
use crate::policies::encode_certificate_policies;
use crate::values::Error;
use crate::values::ExtensionValue;
use crate::values::Oid;
use crate::values::spec_big_uint_wf;
use crate::values::spec_datetime_wf;

verus! {

// ============================================================================
// The extension dispatcher: exact-match dispatch over the fixed table of
// known extension OIDs. An unrecognized OID yields Ok(None) — "no encoding",
// deliberately not an error — so the caller can apply its own policy to
// unknown extensions. Several OIDs share one encoder where the wire shape is
// identical: freshest CRL with CRL distribution points, extended key usage
// with OCSP acceptable responses, CRL number with the delta CRL indicator,
// and OCSP no-check with the precert poison (both a bare NULL).
// ============================================================================

/// The inputs every encoder relies on the host boundary to provide:
/// arbitrary-precision integers arrive as minimal big-endian bytes, and an
/// SCT list fits its two-octet length framing.
pub open spec fn spec_value_wf(v: ExtensionValue) -> bool {
    match v {
        ExtensionValue::AuthorityKeyIdentifier(aki) => spec_aki_wf(aki),
        ExtensionValue::InhibitAnyPolicy(b) => spec_big_uint_wf(b@),
        ExtensionValue::CrlNumber(b) => spec_big_uint_wf(b@),
        ExtensionValue::CertificatePolicies(ps) => spec_policies_nums_wf(ps@),
        ExtensionValue::SignedCertificateTimestamps(s) => spec_sct_inner(s@).len() <= 0xFFFF,
        _ => true,
    }
}

/// What the dispatcher returns, stated over the OID's content octets and the
/// value: the exact DER bytes for every known OID with its matching variant,
/// Ok(None) for an unknown OID, and each error exactly on the inputs that
/// cause it.
pub open spec fn spec_encode_extension(oid: Seq<u8>, v: ExtensionValue) -> Result<
    Option<Seq<u8>>,
    Error,
> {
    if oid == seq![0x55u8, 0x1d, 0x13] {
        // basic constraints
        match v {
            ExtensionValue::BasicConstraints(bc) => Ok(Some(spec_basic_constraints_der(bc))),
            _ => Err(Error::MismatchedValue),
        }
    } else if oid == seq![0x55u8, 0x1d, 0x0e] {
        // subject key identifier
        match v {
            ExtensionValue::SubjectKeyIdentifier(d) => Ok(Some(spec_der_octet_string(d@))),
            _ => Err(Error::MismatchedValue),
        }
    } else if oid == seq![0x55u8, 0x1d, 0x0f] {
        // key usage
        match v {
            ExtensionValue::KeyUsage(ku) => Ok(Some(spec_key_usage_der(ku))),
            _ => Err(Error::MismatchedValue),
        }
    } else if oid == seq![0x2bu8, 0x06, 0x01, 0x05, 0x05, 0x07, 0x01, 0x01] || oid == seq![
        0x2bu8,
        0x06,
        0x01,
        0x05,
        0x05,
        0x07,
        0x01,
        0x0b,
    ] {
        // authority / subject information access
        match v {
            ExtensionValue::AccessDescriptions(ads) => Ok(Some(spec_access_descriptions_der(ads@))),
            _ => Err(Error::MismatchedValue),
        }
    } else if oid == seq![0x55u8, 0x1d, 0x25] || oid == seq![
        0x2bu8,
        0x06,
        0x01,
        0x05,
        0x05,
        0x07,
        0x30,
        0x01,
        0x04,
    ] {
        // extended key usage / OCSP acceptable responses
        match v {
            ExtensionValue::OidSequence(oids) => Ok(Some(spec_oid_sequence_der(oids@))),
            _ => Err(Error::MismatchedValue),
        }
    } else if oid == seq![0x55u8, 0x1d, 0x20] {
        // certificate policies
        match v {
            ExtensionValue::CertificatePolicies(ps) => if spec_policies_ok(ps@) {
                Ok(Some(spec_certificate_policies_der(ps@)))
            } else {
                Err(Error::InvalidIa5String)
            },
            _ => Err(Error::MismatchedValue),
        }
    } else if oid == seq![0x55u8, 0x1d, 0x24] {
        // policy constraints
        match v {
            ExtensionValue::PolicyConstraints(pc) => Ok(Some(spec_policy_constraints_der(pc))),
            _ => Err(Error::MismatchedValue),
        }
    } else if oid == seq![0x55u8, 0x1d, 0x1e] {
        // name constraints
        match v {
            ExtensionValue::NameConstraints(nc) => Ok(Some(spec_name_constraints_der(nc))),
            _ => Err(Error::MismatchedValue),
        }
    } else if oid == seq![0x55u8, 0x1d, 0x36] {
        // inhibit anyPolicy
        match v {
            ExtensionValue::InhibitAnyPolicy(b) => Ok(Some(spec_der_big_uint(b@))),
            _ => Err(Error::MismatchedValue),
        }
    } else if oid == seq![0x55u8, 0x1d, 0x12] || oid == seq![0x55u8, 0x1d, 0x11] || oid == seq![
        0x55u8,
        0x1d,
        0x1d,
    ] {
        // issuer / subject alternative name, certificate issuer
        match v {
            ExtensionValue::GeneralNames(gns) => Ok(Some(spec_general_names_der(gns@))),
            _ => Err(Error::MismatchedValue),
        }
    } else if oid == seq![0x55u8, 0x1d, 0x23] {
        // authority key identifier
        match v {
            ExtensionValue::AuthorityKeyIdentifier(aki) => Ok(Some(spec_aki_der(aki))),
            _ => Err(Error::MismatchedValue),
        }
    } else if oid == seq![0x55u8, 0x1d, 0x2e] || oid == seq![0x55u8, 0x1d, 0x1f] {
        // freshest CRL / CRL distribution points
        match v {
            ExtensionValue::DistributionPoints(dps) => Ok(Some(spec_distribution_points_der(dps@))),
            _ => Err(Error::MismatchedValue),
        }
    } else if oid == seq![0x2bu8, 0x06, 0x01, 0x05, 0x05, 0x07, 0x30, 0x01, 0x05] || oid == seq![
        0x2bu8,
        0x06,
        0x01,
        0x04,
        0x01,
        0xd6,
        0x79,
        0x02,
        0x04,
        0x03,
    ] {
        // OCSP no-check / precert poison: both a bare NULL
        match v {
            ExtensionValue::Null => Ok(Some(spec_der_null())),
            _ => Err(Error::MismatchedValue),
        }
    } else if oid == seq![0x2bu8, 0x06, 0x01, 0x05, 0x05, 0x07, 0x01, 0x18] {
        // TLS features
        match v {
            ExtensionValue::TlsFeatures(els) => Ok(Some(spec_tls_features_der(els@))),
            _ => Err(Error::MismatchedValue),
        }
    } else if oid == seq![0x2bu8, 0x06, 0x01, 0x04, 0x01, 0xd6, 0x79, 0x02, 0x04, 0x02] || oid
        == seq![0x2bu8, 0x06, 0x01, 0x04, 0x01, 0xd6, 0x79, 0x02, 0x04, 0x05] {
        // precertificate / OCSP signed certificate timestamps
        match v {
            ExtensionValue::SignedCertificateTimestamps(s) => Ok(Some(spec_scts_der(s@))),
            _ => Err(Error::MismatchedValue),
        }
    } else if oid == seq![0x55u8, 0x1d, 0x15] {
        // CRL reason
        match v {
            ExtensionValue::CrlReason(reason) => Ok(Some(spec_crl_reason_der(reason))),
            _ => Err(Error::MismatchedValue),
        }
    } else if oid == seq![0x55u8, 0x1d, 0x18] {
        // invalidity date
        match v {
            ExtensionValue::InvalidityDate(dt) => if spec_datetime_wf(dt) {
                Ok(Some(spec_invalidity_date_der(dt)))
            } else {
                Err(Error::InvalidDateTime)
            },
            _ => Err(Error::MismatchedValue),
        }
    } else if oid == seq![0x55u8, 0x1d, 0x14] || oid == seq![0x55u8, 0x1d, 0x1b] {
        // CRL number / delta CRL indicator
        match v {
            ExtensionValue::CrlNumber(b) => Ok(Some(spec_der_big_uint(b@))),
            _ => Err(Error::MismatchedValue),
        }
    } else if oid == seq![0x55u8, 0x1d, 0x1c] {
        // issuing distribution point
        match v {
            ExtensionValue::IssuingDistributionPoint(idp) => Ok(Some(spec_idp_der(idp))),
            _ => Err(Error::MismatchedValue),
        }
    } else if oid == seq![0x2bu8, 0x06, 0x01, 0x05, 0x05, 0x07, 0x30, 0x01, 0x02] {
        // OCSP nonce
        match v {
            ExtensionValue::Nonce(b) => Ok(Some(spec_der_octet_string(b@))),
            _ => Err(Error::MismatchedValue),
        }
    } else if oid == seq![0x2bu8, 0x06, 0x01, 0x04, 0x01, 0x82, 0x37, 0x15, 0x07] {
        // MS certificate template
        match v {
            ExtensionValue::MsCertificateTemplate(t) => Ok(Some(spec_ms_template_der(t))),
            _ => Err(Error::MismatchedValue),
        }
    } else {
        Ok(None)
    }
}

/// The exec result carries exactly the bytes (or outcome) the spec names.
pub open spec fn encode_result_matches(
    r: Result<Option<Vec<u8>>, Error>,
    s: Result<Option<Seq<u8>>, Error>,
) -> bool {
    match r {
        Ok(Some(v)) => s matches Ok(Some(b)) && v@ == b,
        Ok(None) => s == Ok::<Option<Seq<u8>>, Error>(None),
        Err(e1) => s == Err::<Option<Seq<u8>>, Error>(e1),
    }
}

fn oid_is3(d: &Vec<u8>, a0: u8, a1: u8, a2: u8) -> (r: bool)
    ensures
        r == (d@ == seq![a0, a1, a2]),
{
    if d.len() != 3 {
        return false;
    }
    let r = d[0] == a0 && d[1] == a1 && d[2] == a2;
    proof {
        if r {
            assert(d@ =~= seq![a0, a1, a2]);
        } else {
            assert(d@ != seq![a0, a1, a2]) by {
                if d@ == seq![a0, a1, a2] {
                    assert(d@[0] == a0 && d@[1] == a1 && d@[2] == a2);
                }
            }
        }
    }
    r
}

fn oid_is8(d: &Vec<u8>, a0: u8, a1: u8, a2: u8, a3: u8, a4: u8, a5: u8, a6: u8, a7: u8) -> (r:
    bool)
    ensures
        r == (d@ == seq![a0, a1, a2, a3, a4, a5, a6, a7]),
{
    if d.len() != 8 {
        return false;
    }
    let r = d[0] == a0 && d[1] == a1 && d[2] == a2 && d[3] == a3 && d[4] == a4 && d[5] == a5 && d[6]
        == a6 && d[7] == a7;
    proof {
        if r {
            assert(d@ =~= seq![a0, a1, a2, a3, a4, a5, a6, a7]);
        } else {
            assert(d@ != seq![a0, a1, a2, a3, a4, a5, a6, a7]) by {
                if d@ == seq![a0, a1, a2, a3, a4, a5, a6, a7] {
                    assert(d@[0] == a0 && d@[1] == a1 && d@[2] == a2 && d@[3] == a3 && d@[4] == a4
                        && d@[5] == a5 && d@[6] == a6 && d@[7] == a7);
                }
            }
        }
    }
    r
}

fn oid_is9(
    d: &Vec<u8>,
    a0: u8,
    a1: u8,
    a2: u8,
    a3: u8,
    a4: u8,
    a5: u8,
    a6: u8,
    a7: u8,
    a8: u8,
) -> (r: bool)
    ensures
        r == (d@ == seq![a0, a1, a2, a3, a4, a5, a6, a7, a8]),
{
    if d.len() != 9 {
        return false;
    }
    let r = d[0] == a0 && d[1] == a1 && d[2] == a2 && d[3] == a3 && d[4] == a4 && d[5] == a5 && d[6]
        == a6 && d[7] == a7 && d[8] == a8;
    proof {
        if r {
            assert(d@ =~= seq![a0, a1, a2, a3, a4, a5, a6, a7, a8]);
        } else {
            assert(d@ != seq![a0, a1, a2, a3, a4, a5, a6, a7, a8]) by {
                if d@ == seq![a0, a1, a2, a3, a4, a5, a6, a7, a8] {
                    assert(d@[0] == a0 && d@[1] == a1 && d@[2] == a2 && d@[3] == a3 && d@[4] == a4
                        && d@[5] == a5 && d@[6] == a6 && d@[7] == a7 && d@[8] == a8);
                }
            }
        }
    }
    r
}

fn oid_is10(
    d: &Vec<u8>,
    a0: u8,
    a1: u8,
    a2: u8,
    a3: u8,
    a4: u8,
    a5: u8,
    a6: u8,
    a7: u8,
    a8: u8,
    a9: u8,
) -> (r: bool)
    ensures
        r == (d@ == seq![a0, a1, a2, a3, a4, a5, a6, a7, a8, a9]),
{
    if d.len() != 10 {
        return false;
    }
    let r = d[0] == a0 && d[1] == a1 && d[2] == a2 && d[3] == a3 && d[4] == a4 && d[5] == a5 && d[6]
        == a6 && d[7] == a7 && d[8] == a8 && d[9] == a9;
    proof {
        if r {
            assert(d@ =~= seq![a0, a1, a2, a3, a4, a5, a6, a7, a8, a9]);
        } else {
            assert(d@ != seq![a0, a1, a2, a3, a4, a5, a6, a7, a8, a9]) by {
                if d@ == seq![a0, a1, a2, a3, a4, a5, a6, a7, a8, a9] {
                    assert(d@[0] == a0 && d@[1] == a1 && d@[2] == a2 && d@[3] == a3 && d@[4] == a4
                        && d@[5] == a5 && d@[6] == a6 && d@[7] == a7 && d@[8] == a8 && d@[9] == a9);
                }
            }
        }
    }
    r
}

/// Encode one extension value for the given extension OID: the canonical DER
/// content octets for a known OID, Ok(None) for an unknown one.
pub fn encode_extension(oid: &Oid, value: &ExtensionValue) -> (r: Result<Option<Vec<u8>>, Error>)
    requires
        spec_value_wf(*value),
    ensures
        encode_result_matches(r, spec_encode_extension(oid.der@, *value)),
{
    let d = &oid.der;
    if oid_is3(d, 0x55, 0x1d, 0x13) {
        match value {
            ExtensionValue::BasicConstraints(bc) => Ok(Some(encode_basic_constraints(bc))),
            _ => Err(Error::MismatchedValue),
        }
    } else if oid_is3(d, 0x55, 0x1d, 0x0e) {
        match value {
            ExtensionValue::SubjectKeyIdentifier(digest) => Ok(Some(der_octet_string(digest))),
            _ => Err(Error::MismatchedValue),
        }
    } else if oid_is3(d, 0x55, 0x1d, 0x0f) {
        match value {
            ExtensionValue::KeyUsage(ku) => Ok(Some(encode_key_usage(ku))),
            _ => Err(Error::MismatchedValue),
        }
    } else if oid_is8(d, 0x2b, 0x06, 0x01, 0x05, 0x05, 0x07, 0x01, 0x01) || oid_is8(
        d,
        0x2b,
        0x06,
        0x01,
        0x05,
        0x05,
        0x07,
        0x01,
        0x0b,
    ) {
        match value {
            ExtensionValue::AccessDescriptions(ads) => Ok(Some(encode_access_descriptions(ads))),
            _ => Err(Error::MismatchedValue),
        }
    } else if oid_is3(d, 0x55, 0x1d, 0x25) || oid_is9(
        d,
        0x2b,
        0x06,
        0x01,
        0x05,
        0x05,
        0x07,
        0x30,
        0x01,
        0x04,
    ) {
        match value {
            ExtensionValue::OidSequence(oids) => Ok(Some(encode_oid_sequence(oids))),
            _ => Err(Error::MismatchedValue),
        }
    } else if oid_is3(d, 0x55, 0x1d, 0x20) {
        match value {
            ExtensionValue::CertificatePolicies(ps) => match encode_certificate_policies(ps) {
                Ok(v) => Ok(Some(v)),
                Err(e) => Err(e),
            },
            _ => Err(Error::MismatchedValue),
        }
    } else if oid_is3(d, 0x55, 0x1d, 0x24) {
        match value {
            ExtensionValue::PolicyConstraints(pc) => Ok(Some(encode_policy_constraints(pc))),
            _ => Err(Error::MismatchedValue),
        }
    } else if oid_is3(d, 0x55, 0x1d, 0x1e) {
        match value {
            ExtensionValue::NameConstraints(nc) => Ok(Some(encode_name_constraints(nc))),
            _ => Err(Error::MismatchedValue),
        }
    } else if oid_is3(d, 0x55, 0x1d, 0x36) {
        match value {
            ExtensionValue::InhibitAnyPolicy(b) => Ok(Some(der_big_uint(b))),
            _ => Err(Error::MismatchedValue),
        }
    } else if oid_is3(d, 0x55, 0x1d, 0x12) || oid_is3(d, 0x55, 0x1d, 0x11) || oid_is3(
        d,
        0x55,
        0x1d,
        0x1d,
    ) {
        match value {
            ExtensionValue::GeneralNames(gns) => Ok(Some(encode_general_names(gns))),
            _ => Err(Error::MismatchedValue),
        }
    } else if oid_is3(d, 0x55, 0x1d, 0x23) {
        match value {
            ExtensionValue::AuthorityKeyIdentifier(aki) => Ok(
                Some(encode_authority_key_identifier(aki)),
            ),
            _ => Err(Error::MismatchedValue),
        }
    } else if oid_is3(d, 0x55, 0x1d, 0x2e) || oid_is3(d, 0x55, 0x1d, 0x1f) {
        match value {
            ExtensionValue::DistributionPoints(dps) => Ok(Some(encode_distribution_points(dps))),
            _ => Err(Error::MismatchedValue),
        }
    } else if oid_is9(d, 0x2b, 0x06, 0x01, 0x05, 0x05, 0x07, 0x30, 0x01, 0x05) || oid_is10(
        d,
        0x2b,
        0x06,
        0x01,
        0x04,
        0x01,
        0xd6,
        0x79,
        0x02,
        0x04,
        0x03,
    ) {
        match value {
            ExtensionValue::Null => Ok(Some(der_null())),
            _ => Err(Error::MismatchedValue),
        }
    } else if oid_is8(d, 0x2b, 0x06, 0x01, 0x05, 0x05, 0x07, 0x01, 0x18) {
        match value {
            ExtensionValue::TlsFeatures(els) => Ok(Some(encode_tls_features(els))),
            _ => Err(Error::MismatchedValue),
        }
    } else if oid_is10(d, 0x2b, 0x06, 0x01, 0x04, 0x01, 0xd6, 0x79, 0x02, 0x04, 0x02) || oid_is10(
        d,
        0x2b,
        0x06,
        0x01,
        0x04,
        0x01,
        0xd6,
        0x79,
        0x02,
        0x04,
        0x05,
    ) {
        match value {
            ExtensionValue::SignedCertificateTimestamps(s) => Ok(Some(encode_scts(s))),
            _ => Err(Error::MismatchedValue),
        }
    } else if oid_is3(d, 0x55, 0x1d, 0x15) {
        match value {
            ExtensionValue::CrlReason(reason) => Ok(Some(encode_crl_reason(reason))),
            _ => Err(Error::MismatchedValue),
        }
    } else if oid_is3(d, 0x55, 0x1d, 0x18) {
        match value {
            ExtensionValue::InvalidityDate(dt) => match encode_invalidity_date(dt) {
                Ok(v) => Ok(Some(v)),
                Err(e) => Err(e),
            },
            _ => Err(Error::MismatchedValue),
        }
    } else if oid_is3(d, 0x55, 0x1d, 0x14) || oid_is3(d, 0x55, 0x1d, 0x1b) {
        match value {
            ExtensionValue::CrlNumber(b) => Ok(Some(der_big_uint(b))),
            _ => Err(Error::MismatchedValue),
        }
    } else if oid_is3(d, 0x55, 0x1d, 0x1c) {
        match value {
            ExtensionValue::IssuingDistributionPoint(idp) => Ok(
                Some(encode_issuing_distribution_point(idp)),
            ),
            _ => Err(Error::MismatchedValue),
        }
    } else if oid_is9(d, 0x2b, 0x06, 0x01, 0x05, 0x05, 0x07, 0x30, 0x01, 0x02) {
        match value {
            ExtensionValue::Nonce(b) => Ok(Some(der_octet_string(b))),
            _ => Err(Error::MismatchedValue),
        }
    } else if oid_is9(d, 0x2b, 0x06, 0x01, 0x04, 0x01, 0x82, 0x37, 0x15, 0x07) {
        match value {
            ExtensionValue::MsCertificateTemplate(t) => Ok(
                Some(encode_ms_certificate_template(t)),
            ),
            _ => Err(Error::MismatchedValue),
        }
    } else {
        Ok(None)
    }
}

} // verus!
