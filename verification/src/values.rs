use vstd::prelude::*;

verus! {

// ============================================================================
// Extension value views: one tagged variant per extension family, mirroring
// the RFC structure it encodes. Values are constructed at the host boundary,
// consumed by one encode call, and never mutated.
//
// General names, relative-distinguished-name entries and reason-flag bit
// strings are produced by the naming subsystem and arrive here pre-encoded;
// arbitrary-precision non-negative integers arrive as their minimal
// big-endian bytes; text arrives as UTF-8 bytes.
// ============================================================================

/// Structural encoding errors. All are deterministic: DER encoding has no
/// transient failure mode.
#[derive(Clone, Copy, Debug, PartialEq, Eq, Structural)]
pub enum Error {
    /// A CPS-URI qualifier holds a byte outside the ASCII repertoire, so it
    /// cannot be carried in an IA5String.
    InvalidIa5String,
    /// A timestamp's calendar fields do not name a real instant, so it cannot
    /// be carried in a GeneralizedTime.
    InvalidDateTime,
    /// The value variant does not belong to the extension the OID names.
    MismatchedValue,
}

/// An object identifier, held as its DER content octets: an opaque,
/// comparable token produced by the caller's OID registry.
pub struct Oid {
    pub der: Vec<u8>,
}

/// A single general name, pre-encoded to DER by the naming subsystem.
pub struct GeneralName {
    pub der: Vec<u8>,
}

/// One attribute of a relative distinguished name, pre-encoded to DER. A
/// relative name is a SET OF these, so the encoder orders them byte-wise as
/// DER demands, whatever order the caller hands them in.
pub struct NameEntry {
    pub der: Vec<u8>,
}

/// A reason-flags BIT STRING built by a collaborator: content octets plus the
/// unused-bit count of the final octet.
pub struct ReasonFlags {
    pub data: Vec<u8>,
    pub unused: u8,
}

/// Calendar fields of a timestamp, produced by the host's time conversion.
pub struct DateTime {
    pub year: u16,
    pub month: u8,
    pub day: u8,
    pub hour: u8,
    pub minute: u8,
    pub second: u8,
}

/// Minimal big-endian bytes of an arbitrary-precision non-negative integer:
/// non-empty, and without a superfluous leading zero octet.
pub open spec fn spec_big_uint_wf(be: Seq<u8>) -> bool {
    be.len() >= 1 && (be.len() == 1 || be[0] != 0)
}

pub fn big_uint_wf(be: &Vec<u8>) -> (r: bool)
    ensures
        r == spec_big_uint_wf(be@),
{
    be.len() >= 1 && (be.len() == 1 || be[0] != 0)
}

pub open spec fn spec_is_leap_year(y: u16) -> bool {
    y % 4 == 0 && (y % 100 != 0 || y % 400 == 0)
}

pub open spec fn spec_days_in_month(y: u16, m: u8) -> u8 {
    if m == 2 {
        if spec_is_leap_year(y) {
            29
        } else {
            28
        }
    } else if m == 4 || m == 6 || m == 9 || m == 11 {
        30
    } else {
        31
    }
}

/// The fields name a real instant that GeneralizedTime can carry.
pub open spec fn spec_datetime_wf(dt: DateTime) -> bool {
    &&& 1 <= dt.year <= 9999
    &&& 1 <= dt.month <= 12
    &&& 1 <= dt.day <= spec_days_in_month(dt.year, dt.month)
    &&& dt.hour <= 23
    &&& dt.minute <= 59
    &&& dt.second <= 59
}

pub fn datetime_wf(dt: &DateTime) -> (r: bool)
    ensures
        r == spec_datetime_wf(*dt),
{
    let days: u8 = if dt.month == 2 {
        if dt.year % 4 == 0 && (dt.year % 100 != 0 || dt.year % 400 == 0) {
            29
        } else {
            28
        }
    } else if dt.month == 4 || dt.month == 6 || dt.month == 9 || dt.month == 11 {
        30
    } else {
        31
    };
    1 <= dt.year && dt.year <= 9999 && 1 <= dt.month && dt.month <= 12 && 1 <= dt.day && dt.day
        <= days && dt.hour <= 23 && dt.minute <= 59 && dt.second <= 59
}

/// BasicConstraints: whether the subject is a CA, and an optional path-length
/// constraint. An absent path length is omitted from the encoding entirely.
pub struct BasicConstraints {
    pub ca: bool,
    pub path_length: Option<u64>,
}

/// KeyUsage: nine named bits. The encipher_only and decipher_only bits are
/// consulted only when key_agreement is set.
pub struct KeyUsage {
    pub digital_signature: bool,
    pub content_commitment: bool,
    pub key_encipherment: bool,
    pub data_encipherment: bool,
    pub key_agreement: bool,
    pub key_cert_sign: bool,
    pub crl_sign: bool,
    pub encipher_only: bool,
    pub decipher_only: bool,
}

/// AuthorityKeyIdentifier: optional key identifier octets, optional issuer
/// general names, optional serial number (minimal big-endian bytes).
pub struct AuthorityKeyIdentifier {
    pub key_identifier: Option<Vec<u8>>,
    pub authority_cert_issuer: Option<Vec<GeneralName>>,
    pub authority_cert_serial_number: Option<Vec<u8>>,
}

/// One DistributionPoint. full_name and relative_name are mutually exclusive;
/// if a caller supplies both, full_name wins deterministically.
pub struct DistributionPoint {
    pub full_name: Option<Vec<GeneralName>>,
    pub relative_name: Option<Vec<NameEntry>>,
    pub reasons: Option<ReasonFlags>,
    pub crl_issuer: Option<Vec<GeneralName>>,
}

/// IssuingDistributionPoint: the same optional name CHOICE as a
/// DistributionPoint, plus reason flags and four boolean scope flags that are
/// copied through verbatim (false means the RFC default, which DER omits).
pub struct IssuingDistributionPoint {
    pub full_name: Option<Vec<GeneralName>>,
    pub relative_name: Option<Vec<NameEntry>>,
    pub only_contains_user_certs: bool,
    pub only_contains_ca_certs: bool,
    pub only_some_reasons: Option<ReasonFlags>,
    pub indirect_crl: bool,
    pub only_contains_attribute_certs: bool,
}

/// A NoticeReference: organization text (UTF-8 bytes) and an ordered list of
/// notice numbers, each as minimal big-endian bytes.
pub struct NoticeReference {
    pub organization: Vec<u8>,
    pub notice_numbers: Vec<Vec<u8>>,
}

/// A UserNotice qualifier: optional notice reference, optional explicit text.
pub struct UserNotice {
    pub notice_reference: Option<NoticeReference>,
    pub explicit_text: Option<Vec<u8>>,
}

/// A policy qualifier: exactly one of a CPS URI (which must be ASCII) or a
/// user notice.
pub enum PolicyQualifier {
    CpsUri(Vec<u8>),
    UserNotice(UserNotice),
}

/// One PolicyInformation entry: the policy OID and, optionally, an ordered
/// list of qualifiers. An absent list is distinct from a present empty one.
pub struct PolicyInformation {
    pub policy_identifier: Oid,
    pub policy_qualifiers: Option<Vec<PolicyQualifier>>,
}

/// NameConstraints: optional permitted and excluded subtree lists. Each
/// subtree is a bare general name; minimum and maximum take their fixed RFC
/// values (0 and absent) no matter what the caller holds.
pub struct NameConstraints {
    pub permitted_subtrees: Option<Vec<GeneralName>>,
    pub excluded_subtrees: Option<Vec<GeneralName>>,
}

/// PolicyConstraints: two optional skip counts.
pub struct PolicyConstraints {
    pub require_explicit_policy: Option<u64>,
    pub inhibit_policy_mapping: Option<u64>,
}

/// An MS certificate template: template OID and two optional version numbers.
pub struct MsCertificateTemplate {
    pub template_id: Oid,
    pub major_version: Option<u32>,
    pub minor_version: Option<u32>,
}

/// One AccessDescription: an access-method OID and a pre-encoded location.
pub struct AccessDescription {
    pub access_method: Oid,
    pub access_location: GeneralName,
}

/// A CRL revocation reason.
pub enum CrlReason {
    Unspecified,
    KeyCompromise,
    CaCompromise,
    AffiliationChanged,
    Superseded,
    CessationOfOperation,
    CertificateHold,
    RemoveFromCrl,
    PrivilegeWithdrawn,
    AaCompromise,
}

/// The fixed ENUMERATED code of a CRL reason (RFC 5280; code 7 is unused).
pub open spec fn spec_crl_reason_code(r: CrlReason) -> u64 {
    match r {
        CrlReason::Unspecified => 0,
        CrlReason::KeyCompromise => 1,
        CrlReason::CaCompromise => 2,
        CrlReason::AffiliationChanged => 3,
        CrlReason::Superseded => 4,
        CrlReason::CessationOfOperation => 5,
        CrlReason::CertificateHold => 6,
        CrlReason::RemoveFromCrl => 8,
        CrlReason::PrivilegeWithdrawn => 9,
        CrlReason::AaCompromise => 10,
    }
}

pub fn crl_reason_code(r: &CrlReason) -> (c: u64)
    ensures
        c == spec_crl_reason_code(*r),
{
    match r {
        CrlReason::Unspecified => 0,
        CrlReason::KeyCompromise => 1,
        CrlReason::CaCompromise => 2,
        CrlReason::AffiliationChanged => 3,
        CrlReason::Superseded => 4,
        CrlReason::CessationOfOperation => 5,
        CrlReason::CertificateHold => 6,
        CrlReason::RemoveFromCrl => 8,
        CrlReason::PrivilegeWithdrawn => 9,
        CrlReason::AaCompromise => 10,
    }
}

/// One extension value, tagged by family. Several extension OIDs share one
/// variant where the wire shape is identical.
pub enum ExtensionValue {
    BasicConstraints(BasicConstraints),
    /// SubjectKeyIdentifier: the digest octets, wrapped as an OCTET STRING.
    SubjectKeyIdentifier(Vec<u8>),
    KeyUsage(KeyUsage),
    /// ExtendedKeyUsage and OCSP acceptable responses: a SEQUENCE OF OID.
    OidSequence(Vec<Oid>),
    CertificatePolicies(Vec<PolicyInformation>),
    PolicyConstraints(PolicyConstraints),
    NameConstraints(NameConstraints),
    /// InhibitAnyPolicy: the skip-certs count as minimal big-endian bytes.
    InhibitAnyPolicy(Vec<u8>),
    /// Subject/issuer alternative names and certificate issuer: a SEQUENCE OF
    /// pre-encoded general names.
    GeneralNames(Vec<GeneralName>),
    /// Authority and subject information access: a SEQUENCE OF
    /// AccessDescription.
    AccessDescriptions(Vec<AccessDescription>),
    AuthorityKeyIdentifier(AuthorityKeyIdentifier),
    /// CRL distribution points and freshest CRL: a SEQUENCE OF
    /// DistributionPoint.
    DistributionPoints(Vec<DistributionPoint>),
    /// OCSP no-check and precert poison: a bare NULL.
    Null,
    /// TLS features: a SEQUENCE OF INTEGER.
    TlsFeatures(Vec<u64>),
    /// A signed-certificate-timestamp list: ordered opaque SCT blobs.
    SignedCertificateTimestamps(Vec<Vec<u8>>),
    CrlReason(CrlReason),
    InvalidityDate(DateTime),
    /// CRL number and delta CRL indicator: minimal big-endian bytes.
    CrlNumber(Vec<u8>),
    IssuingDistributionPoint(IssuingDistributionPoint),
    /// An OCSP nonce: raw octets, wrapped as an OCTET STRING.
    Nonce(Vec<u8>),
    MsCertificateTemplate(MsCertificateTemplate),
}

} // verus!
