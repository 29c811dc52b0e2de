// Scenario tests: exact DER bytes for each extension family, the dispatch
// behaviour for unknown OIDs, and every error variant.

use x509_ext_der::dispatch::encode_extension;
use x509_ext_der::encoders::scts_fit;
use x509_ext_der::values::big_uint_wf;
use x509_ext_der::values::AccessDescription;
use x509_ext_der::values::AuthorityKeyIdentifier;
use x509_ext_der::values::BasicConstraints;
use x509_ext_der::values::CrlReason;
use x509_ext_der::values::DateTime;
use x509_ext_der::values::DistributionPoint;
use x509_ext_der::values::Error;
use x509_ext_der::values::ExtensionValue;
use x509_ext_der::values::GeneralName;
use x509_ext_der::values::IssuingDistributionPoint;
use x509_ext_der::values::KeyUsage;
use x509_ext_der::values::MsCertificateTemplate;
use x509_ext_der::values::NameConstraints;
use x509_ext_der::values::NameEntry;
use x509_ext_der::values::NoticeReference;
use x509_ext_der::values::Oid;
use x509_ext_der::values::PolicyConstraints;
use x509_ext_der::values::PolicyInformation;
use x509_ext_der::values::PolicyQualifier;
use x509_ext_der::values::ReasonFlags;
use x509_ext_der::values::UserNotice;

fn oid(s: &str) -> Oid {
    let o = asn1::ObjectIdentifier::from_string(s).unwrap();
    let der = asn1::write_single(&o).unwrap();
    Oid { der: der[2..].to_vec() }
}

fn enc(o: &Oid, v: &ExtensionValue) -> Vec<u8> {
    encode_extension(o, v).unwrap().unwrap()
}

fn ku_none() -> KeyUsage {
    KeyUsage {
        digital_signature: false,
        content_commitment: false,
        key_encipherment: false,
        data_encipherment: false,
        key_agreement: false,
        key_cert_sign: false,
        crl_sign: false,
        encipher_only: false,
        decipher_only: false,
    }
}

fn dns_name(n: &str) -> GeneralName {
    // dNSName: implicit [2], primitive, IA5String bytes
    let mut der = vec![0x82, n.len() as u8];
    der.extend_from_slice(n.as_bytes());
    GeneralName { der }
}

fn uri_name(n: &str) -> GeneralName {
    // uniformResourceIdentifier: implicit [6], primitive, IA5String bytes
    let mut der = vec![0x86, n.len() as u8];
    der.extend_from_slice(n.as_bytes());
    GeneralName { der }
}

#[test]
fn key_usage_digital_signature_only() {
    let mut ku = ku_none();
    ku.digital_signature = true;
    let der = enc(&oid("2.5.29.15"), &ExtensionValue::KeyUsage(ku));
    assert_eq!(der, vec![0x03, 0x02, 0x07, 0x80]);
}

#[test]
fn key_usage_key_agreement_encipher_only() {
    // keyAgreement is bit 4 (0x08) and encipherOnly bit 7 (0x01) of the first
    // octet, so one content octet with no trailing zero bits remains.
    let mut ku = ku_none();
    ku.key_agreement = true;
    ku.encipher_only = true;
    let der = enc(&oid("2.5.29.15"), &ExtensionValue::KeyUsage(ku));
    assert_eq!(der, vec![0x03, 0x02, 0x00, 0x09]);
}

#[test]
fn key_usage_decipher_only_needs_second_octet() {
    let mut ku = ku_none();
    ku.key_agreement = true;
    ku.decipher_only = true;
    let der = enc(&oid("2.5.29.15"), &ExtensionValue::KeyUsage(ku));
    assert_eq!(der, vec![0x03, 0x03, 0x07, 0x08, 0x80]);
}

#[test]
fn key_usage_all_false_is_zero_length() {
    let der = enc(&oid("2.5.29.15"), &ExtensionValue::KeyUsage(ku_none()));
    assert_eq!(der, vec![0x03, 0x01, 0x00]);
}

#[test]
fn key_usage_conditional_bits_ignored_without_key_agreement() {
    let mut ku = ku_none();
    ku.digital_signature = true;
    ku.encipher_only = true;
    ku.decipher_only = true;
    let der = enc(&oid("2.5.29.15"), &ExtensionValue::KeyUsage(ku));
    assert_eq!(der, vec![0x03, 0x02, 0x07, 0x80]);
}

#[test]
fn key_usage_all_bits() {
    let ku = KeyUsage {
        digital_signature: true,
        content_commitment: true,
        key_encipherment: true,
        data_encipherment: true,
        key_agreement: true,
        key_cert_sign: true,
        crl_sign: true,
        encipher_only: true,
        decipher_only: true,
    };
    let der = enc(&oid("2.5.29.15"), &ExtensionValue::KeyUsage(ku));
    assert_eq!(der, vec![0x03, 0x03, 0x07, 0xff, 0x80]);
}

#[test]
fn basic_constraints_ca_without_path_length() {
    let bc = BasicConstraints { ca: true, path_length: None };
    let der = enc(&oid("2.5.29.19"), &ExtensionValue::BasicConstraints(bc));
    assert_eq!(der, vec![0x30, 0x03, 0x01, 0x01, 0xff]);
}

#[test]
fn basic_constraints_default_ca_is_omitted() {
    let bc = BasicConstraints { ca: false, path_length: None };
    let der = enc(&oid("2.5.29.19"), &ExtensionValue::BasicConstraints(bc));
    assert_eq!(der, vec![0x30, 0x00]);
}

#[test]
fn basic_constraints_with_path_length() {
    let bc = BasicConstraints { ca: true, path_length: Some(0) };
    let der = enc(&oid("2.5.29.19"), &ExtensionValue::BasicConstraints(bc));
    assert_eq!(der, vec![0x30, 0x06, 0x01, 0x01, 0xff, 0x02, 0x01, 0x00]);
}

#[test]
fn unknown_oid_yields_no_encoding() {
    let bc = BasicConstraints { ca: true, path_length: None };
    let r = encode_extension(&oid("1.2.3.4"), &ExtensionValue::BasicConstraints(bc));
    assert_eq!(r, Ok(None));
}

#[test]
fn mismatched_value_is_an_error() {
    let bc = BasicConstraints { ca: true, path_length: None };
    let r = encode_extension(&oid("2.5.29.15"), &ExtensionValue::BasicConstraints(bc));
    assert_eq!(r, Err(Error::MismatchedValue));
}

#[test]
fn sct_list_two_entries() {
    let scts = vec![vec![1, 2, 3, 4, 5], vec![6, 7, 8]];
    let der = enc(
        &oid("1.3.6.1.4.1.11129.2.4.2"),
        &ExtensionValue::SignedCertificateTimestamps(scts),
    );
    let expected = vec![
        0x04, 0x0e, 0x00, 0x0c, 0x00, 0x05, 1, 2, 3, 4, 5, 0x00, 0x03, 6, 7, 8,
    ];
    assert_eq!(der, expected);
}

#[test]
fn sct_list_order_is_preserved() {
    let a = vec![vec![0xaa], vec![0xbb]];
    let b = vec![vec![0xbb], vec![0xaa]];
    let o = oid("1.3.6.1.4.1.11129.2.4.5");
    let da = enc(&o, &ExtensionValue::SignedCertificateTimestamps(a));
    let db = enc(&o, &ExtensionValue::SignedCertificateTimestamps(b));
    assert_eq!(da, vec![0x04, 0x08, 0x00, 0x06, 0x00, 0x01, 0xaa, 0x00, 0x01, 0xbb]);
    assert_eq!(db, vec![0x04, 0x08, 0x00, 0x06, 0x00, 0x01, 0xbb, 0x00, 0x01, 0xaa]);
}

#[test]
fn cps_uri_must_be_ascii() {
    let ps = vec![PolicyInformation {
        policy_identifier: oid("2.16.840.1.101.3.2.1.48.1"),
        policy_qualifiers: Some(vec![PolicyQualifier::CpsUri(vec![0x68, 0xc3, 0xa9])]),
    }];
    let r = encode_extension(&oid("2.5.29.32"), &ExtensionValue::CertificatePolicies(ps));
    assert_eq!(r, Err(Error::InvalidIa5String));
}

#[test]
fn certificate_policies_with_cps_uri() {
    let ps = vec![PolicyInformation {
        policy_identifier: oid("1.2.3"),
        policy_qualifiers: Some(vec![PolicyQualifier::CpsUri(b"http://a/".to_vec())]),
    }];
    let der = enc(&oid("2.5.29.32"), &ExtensionValue::CertificatePolicies(ps));
    // PolicyInformation { OID 1.2.3, SEQUENCE { SEQUENCE { id-qt-cps, IA5 "http://a/" } } }
    let mut expected = vec![0x30, 0x1f, 0x30, 0x1d, 0x06, 0x02, 0x2a, 0x03];
    expected.extend_from_slice(&[0x30, 0x17, 0x30, 0x15]);
    expected.extend_from_slice(&[0x06, 0x08, 0x2b, 0x06, 0x01, 0x05, 0x05, 0x07, 0x02, 0x01]);
    expected.extend_from_slice(&[0x16, 0x09]);
    expected.extend_from_slice(b"http://a/");
    assert_eq!(der, expected);
}

#[test]
fn policy_without_qualifiers() {
    let ps = vec![PolicyInformation {
        policy_identifier: oid("1.2.3"),
        policy_qualifiers: None,
    }];
    let der = enc(&oid("2.5.29.32"), &ExtensionValue::CertificatePolicies(ps));
    assert_eq!(der, vec![0x30, 0x06, 0x30, 0x04, 0x06, 0x02, 0x2a, 0x03]);
}

#[test]
fn qualifier_order_is_preserved() {
    let quals = |first_uri: &[u8], second_uri: &[u8]| {
        vec![PolicyInformation {
            policy_identifier: oid("1.2.3"),
            policy_qualifiers: Some(vec![
                PolicyQualifier::CpsUri(first_uri.to_vec()),
                PolicyQualifier::CpsUri(second_uri.to_vec()),
            ]),
        }]
    };
    let o = oid("2.5.29.32");
    let d1 = enc(&o, &ExtensionValue::CertificatePolicies(quals(b"a", b"b")));
    let d2 = enc(&o, &ExtensionValue::CertificatePolicies(quals(b"b", b"a")));
    assert_ne!(d1, d2);
    let pos_a1 = d1.iter().position(|&b| b == b'a').unwrap();
    let pos_b1 = d1.iter().position(|&b| b == b'b').unwrap();
    assert!(pos_a1 < pos_b1);
    let pos_a2 = d2.iter().position(|&b| b == b'a').unwrap();
    let pos_b2 = d2.iter().position(|&b| b == b'b').unwrap();
    assert!(pos_b2 < pos_a2);
}

#[test]
fn user_notice_with_reference_and_text() {
    let un = UserNotice {
        notice_reference: Some(NoticeReference {
            organization: b"Org".to_vec(),
            notice_numbers: vec![vec![1], vec![2]],
        }),
        explicit_text: Some(b"hi".to_vec()),
    };
    let ps = vec![PolicyInformation {
        policy_identifier: oid("1.2.3"),
        policy_qualifiers: Some(vec![PolicyQualifier::UserNotice(un)]),
    }];
    let der = enc(&oid("2.5.29.32"), &ExtensionValue::CertificatePolicies(ps));
    // UserNotice: SEQUENCE { SEQUENCE { UTF8 "Org", SEQUENCE { INT 1, INT 2 } }, UTF8 "hi" }
    let user_notice = vec![
        0x30, 0x13, 0x30, 0x0d, 0x0c, 0x03, b'O', b'r', b'g', 0x30, 0x06, 0x02, 0x01, 0x01,
        0x02, 0x01, 0x02, 0x0c, 0x02, b'h', b'i',
    ];
    let mut qual = vec![0x30, 0x1f, 0x06, 0x08, 0x2b, 0x06, 0x01, 0x05, 0x05, 0x07, 0x02, 0x02];
    qual.extend_from_slice(&user_notice);
    let mut expected = vec![0x30, 0x29, 0x30, 0x27, 0x06, 0x02, 0x2a, 0x03, 0x30, 0x21];
    expected.extend_from_slice(&qual);
    assert_eq!(der, expected);
}

#[test]
fn notice_number_order_is_preserved() {
    let make = |nums: Vec<Vec<u8>>| {
        vec![PolicyInformation {
            policy_identifier: oid("1.2.3"),
            policy_qualifiers: Some(vec![PolicyQualifier::UserNotice(UserNotice {
                notice_reference: Some(NoticeReference {
                    organization: b"O".to_vec(),
                    notice_numbers: nums,
                }),
                explicit_text: None,
            })]),
        }]
    };
    let o = oid("2.5.29.32");
    let d1 = enc(&o, &ExtensionValue::CertificatePolicies(make(vec![vec![7], vec![9]])));
    let d2 = enc(&o, &ExtensionValue::CertificatePolicies(make(vec![vec![9], vec![7]])));
    assert_ne!(d1, d2);
    let i7 = d1.iter().position(|&b| b == 7).unwrap();
    let i9 = d1.iter().position(|&b| b == 9).unwrap();
    assert!(i7 < i9);
}

#[test]
fn invalidity_date_encodes_generalized_time() {
    let dt = DateTime { year: 2024, month: 6, day: 15, hour: 12, minute: 34, second: 56 };
    let der = enc(&oid("2.5.29.24"), &ExtensionValue::InvalidityDate(dt));
    let mut expected = vec![0x18, 0x0f];
    expected.extend_from_slice(b"20240615123456Z");
    assert_eq!(der, expected);
}

#[test]
fn invalid_month_is_rejected() {
    let dt = DateTime { year: 2024, month: 13, day: 1, hour: 0, minute: 0, second: 0 };
    let r = encode_extension(&oid("2.5.29.24"), &ExtensionValue::InvalidityDate(dt));
    assert_eq!(r, Err(Error::InvalidDateTime));
}

#[test]
fn leap_day_validity() {
    let good = DateTime { year: 2024, month: 2, day: 29, hour: 0, minute: 0, second: 0 };
    let bad = DateTime { year: 2023, month: 2, day: 29, hour: 0, minute: 0, second: 0 };
    let o = oid("2.5.29.24");
    assert!(encode_extension(&o, &ExtensionValue::InvalidityDate(good)).is_ok());
    assert_eq!(
        encode_extension(&o, &ExtensionValue::InvalidityDate(bad)),
        Err(Error::InvalidDateTime)
    );
}

#[test]
fn crl_reason_codes() {
    let o = oid("2.5.29.21");
    assert_eq!(enc(&o, &ExtensionValue::CrlReason(CrlReason::Superseded)), vec![0x0a, 0x01, 0x04]);
    // removeFromCRL is 8: code 7 is unused by RFC 5280
    assert_eq!(
        enc(&o, &ExtensionValue::CrlReason(CrlReason::RemoveFromCrl)),
        vec![0x0a, 0x01, 0x08]
    );
    assert_eq!(
        enc(&o, &ExtensionValue::CrlReason(CrlReason::AaCompromise)),
        vec![0x0a, 0x01, 0x0a]
    );
}

#[test]
fn crl_number_and_delta_share_an_encoder() {
    let d1 = enc(&oid("2.5.29.20"), &ExtensionValue::CrlNumber(vec![0x01, 0x00]));
    let d2 = enc(&oid("2.5.29.27"), &ExtensionValue::CrlNumber(vec![0x01, 0x00]));
    assert_eq!(d1, vec![0x02, 0x02, 0x01, 0x00]);
    assert_eq!(d1, d2);
}

#[test]
fn integer_sign_octet_is_inserted() {
    let der = enc(&oid("2.5.29.20"), &ExtensionValue::CrlNumber(vec![0xff]));
    assert_eq!(der, vec![0x02, 0x02, 0x00, 0xff]);
}

#[test]
fn inhibit_any_policy_small_value() {
    let der = enc(&oid("2.5.29.54"), &ExtensionValue::InhibitAnyPolicy(vec![0x05]));
    assert_eq!(der, vec![0x02, 0x01, 0x05]);
}

#[test]
fn nonce_and_ski_wrap_octets() {
    let d1 = enc(&oid("1.3.6.1.5.5.7.48.1.2"), &ExtensionValue::Nonce(vec![1, 2, 3]));
    assert_eq!(d1, vec![0x04, 0x03, 1, 2, 3]);
    let d2 = enc(&oid("2.5.29.14"), &ExtensionValue::SubjectKeyIdentifier(vec![9]));
    assert_eq!(d2, vec![0x04, 0x01, 9]);
}

#[test]
fn null_shaped_extensions() {
    let d1 = enc(&oid("1.3.6.1.5.5.7.48.1.5"), &ExtensionValue::Null);
    let d2 = enc(&oid("1.3.6.1.4.1.11129.2.4.3"), &ExtensionValue::Null);
    assert_eq!(d1, vec![0x05, 0x00]);
    assert_eq!(d1, d2);
}

#[test]
fn extended_key_usage_order_is_preserved() {
    let server = oid("1.3.6.1.5.5.7.3.1");
    let client = oid("1.3.6.1.5.5.7.3.2");
    let o = oid("2.5.29.37");
    let d1 = enc(
        &o,
        &ExtensionValue::OidSequence(vec![
            Oid { der: server.der.clone() },
            Oid { der: client.der.clone() },
        ]),
    );
    let mut expected = vec![0x30, 0x14, 0x06, 0x08];
    expected.extend_from_slice(&server.der);
    expected.extend_from_slice(&[0x06, 0x08]);
    expected.extend_from_slice(&client.der);
    assert_eq!(d1, expected);
    let d2 = enc(
        &o,
        &ExtensionValue::OidSequence(vec![
            Oid { der: client.der.clone() },
            Oid { der: server.der.clone() },
        ]),
    );
    assert_ne!(d1, d2);
}

#[test]
fn acceptable_responses_shares_the_oid_sequence_encoder() {
    let basic = oid("1.3.6.1.5.5.7.48.1.1");
    let der = enc(
        &oid("1.3.6.1.5.5.7.48.1.4"),
        &ExtensionValue::OidSequence(vec![Oid { der: basic.der.clone() }]),
    );
    let mut expected = vec![0x30, 0x0b, 0x06, 0x09];
    expected.extend_from_slice(&basic.der);
    assert_eq!(der, expected);
}

#[test]
fn tls_features_sequence_of_integers() {
    let der = enc(&oid("1.3.6.1.5.5.7.1.24"), &ExtensionValue::TlsFeatures(vec![5]));
    assert_eq!(der, vec![0x30, 0x03, 0x02, 0x01, 0x05]);
}

#[test]
fn policy_constraints_both_fields() {
    let pc = PolicyConstraints { require_explicit_policy: Some(1), inhibit_policy_mapping: Some(2) };
    let der = enc(&oid("2.5.29.36"), &ExtensionValue::PolicyConstraints(pc));
    assert_eq!(der, vec![0x30, 0x06, 0x80, 0x01, 0x01, 0x81, 0x01, 0x02]);
}

#[test]
fn policy_constraints_single_field() {
    let pc = PolicyConstraints { require_explicit_policy: None, inhibit_policy_mapping: Some(0) };
    let der = enc(&oid("2.5.29.36"), &ExtensionValue::PolicyConstraints(pc));
    assert_eq!(der, vec![0x30, 0x03, 0x81, 0x01, 0x00]);
}

#[test]
fn ms_certificate_template() {
    let t = MsCertificateTemplate {
        template_id: oid("1.2.3"),
        major_version: Some(100),
        minor_version: Some(0),
    };
    let der = enc(&oid("1.3.6.1.4.1.311.21.7"), &ExtensionValue::MsCertificateTemplate(t));
    assert_eq!(der, vec![0x30, 0x0a, 0x06, 0x02, 0x2a, 0x03, 0x02, 0x01, 0x64, 0x02, 0x01, 0x00]);
}

#[test]
fn name_constraints_fixed_defaults() {
    let nc = NameConstraints {
        permitted_subtrees: Some(vec![dns_name("example.com")]),
        excluded_subtrees: None,
    };
    let der = enc(&oid("2.5.29.30"), &ExtensionValue::NameConstraints(nc));
    // Each subtree is a SEQUENCE holding only the name: minimum keeps its
    // default 0 (omitted) and maximum is absent.
    let mut expected = vec![0x30, 0x11, 0xa0, 0x0f, 0x30, 0x0d, 0x82, 0x0b];
    expected.extend_from_slice(b"example.com");
    assert_eq!(der, expected);
}

#[test]
fn name_constraints_excluded_only() {
    let nc = NameConstraints {
        permitted_subtrees: None,
        excluded_subtrees: Some(vec![dns_name("a.b")]),
    };
    let der = enc(&oid("2.5.29.30"), &ExtensionValue::NameConstraints(nc));
    let mut expected = vec![0x30, 0x09, 0xa1, 0x07, 0x30, 0x05, 0x82, 0x03];
    expected.extend_from_slice(b"a.b");
    assert_eq!(der, expected);
}

#[test]
fn subject_alternative_name() {
    let der = enc(
        &oid("2.5.29.17"),
        &ExtensionValue::GeneralNames(vec![dns_name("x.y"), uri_name("http://z/")]),
    );
    let mut expected = vec![0x30, 0x10, 0x82, 0x03];
    expected.extend_from_slice(b"x.y");
    expected.extend_from_slice(&[0x86, 0x09]);
    expected.extend_from_slice(b"http://z/");
    assert_eq!(der, expected);
}

#[test]
fn authority_key_identifier_all_fields() {
    let aki = AuthorityKeyIdentifier {
        key_identifier: Some(vec![1, 2, 3]),
        authority_cert_issuer: Some(vec![dns_name("ca")]),
        authority_cert_serial_number: Some(vec![0x05]),
    };
    let der = enc(&oid("2.5.29.35"), &ExtensionValue::AuthorityKeyIdentifier(aki));
    let expected = vec![
        0x30, 0x0e, 0x80, 0x03, 1, 2, 3, 0xa1, 0x04, 0x82, 0x02, b'c', b'a', 0x82, 0x01, 0x05,
    ];
    assert_eq!(der, expected);
}

#[test]
fn authority_key_identifier_key_id_only() {
    let aki = AuthorityKeyIdentifier {
        key_identifier: Some(vec![0xab]),
        authority_cert_issuer: None,
        authority_cert_serial_number: None,
    };
    let der = enc(&oid("2.5.29.35"), &ExtensionValue::AuthorityKeyIdentifier(aki));
    assert_eq!(der, vec![0x30, 0x03, 0x80, 0x01, 0xab]);
}

#[test]
fn access_descriptions() {
    let ad = AccessDescription {
        access_method: oid("1.3.6.1.5.5.7.48.1"),
        access_location: uri_name("http://o/"),
    };
    let der = enc(&oid("1.3.6.1.5.5.7.1.1"), &ExtensionValue::AccessDescriptions(vec![ad]));
    let mut expected = vec![0x30, 0x17, 0x30, 0x15, 0x06, 0x08];
    expected.extend_from_slice(&oid("1.3.6.1.5.5.7.48.1").der);
    expected.extend_from_slice(&[0x86, 0x09]);
    expected.extend_from_slice(b"http://o/");
    assert_eq!(der, expected);
}

#[test]
fn distribution_point_full_name_wins_over_relative_name() {
    let both = DistributionPoint {
        full_name: Some(vec![uri_name("http://crl/")]),
        relative_name: Some(vec![NameEntry { der: vec![0x31, 0x00] }]),
        reasons: None,
        crl_issuer: None,
    };
    let full_only = DistributionPoint {
        full_name: Some(vec![uri_name("http://crl/")]),
        relative_name: None,
        reasons: None,
        crl_issuer: None,
    };
    let o = oid("2.5.29.31");
    let d_both = enc(&o, &ExtensionValue::DistributionPoints(vec![both]));
    let d_full = enc(&o, &ExtensionValue::DistributionPoints(vec![full_only]));
    assert_eq!(d_both, d_full);
    // SEQUENCE OF SEQUENCE { [0] explicit { [0] implicit FullName } }
    let mut expected = vec![0x30, 0x13, 0x30, 0x11, 0xa0, 0x0f, 0xa0, 0x0d, 0x86, 0x0b];
    expected.extend_from_slice(b"http://crl/");
    assert_eq!(d_both, expected);
}

#[test]
fn distribution_point_relative_name_and_reasons() {
    // One attribute-type-and-value entry, pre-encoded by the naming subsystem.
    let entry = NameEntry { der: vec![0x30, 0x04, 0x06, 0x02, 0x55, 0x03] };
    let dp = DistributionPoint {
        full_name: None,
        relative_name: Some(vec![entry]),
        reasons: Some(ReasonFlags { data: vec![0x80], unused: 7 }),
        crl_issuer: Some(vec![dns_name("i")]),
    };
    let der = enc(&oid("2.5.29.46"), &ExtensionValue::DistributionPoints(vec![dp]));
    let expected = vec![
        0x30, 0x15, 0x30, 0x13, // SEQUENCE OF, one DistributionPoint
        0xa0, 0x08, 0xa1, 0x06, 0x30, 0x04, 0x06, 0x02, 0x55, 0x03, // [0] { [1] relative }
        0x81, 0x02, 0x07, 0x80, // [1] reasons bit string
        0xa2, 0x03, 0x82, 0x01, b'i', // [2] crl issuer
    ];
    assert_eq!(der, expected);
}

#[test]
fn relative_name_entries_are_set_ordered() {
    // DER orders SET OF elements byte-wise, whatever order they arrive in.
    let e_big = NameEntry { der: vec![0x30, 0x03, 0x0c, 0x01, b'b'] };
    let e_small = NameEntry { der: vec![0x30, 0x03, 0x0c, 0x01, b'a'] };
    let dp = DistributionPoint {
        full_name: None,
        relative_name: Some(vec![e_big, e_small]),
        reasons: None,
        crl_issuer: None,
    };
    let der = enc(&oid("2.5.29.31"), &ExtensionValue::DistributionPoints(vec![dp]));
    let expected = vec![
        0x30, 0x10, 0x30, 0x0e, 0xa0, 0x0c, 0xa1, 0x0a, // [0] { [1] SET OF }
        0x30, 0x03, 0x0c, 0x01, b'a', 0x30, 0x03, 0x0c, 0x01, b'b',
    ];
    assert_eq!(der, expected);
}

#[test]
fn issuing_distribution_point_full_name_wins() {
    let both = IssuingDistributionPoint {
        full_name: Some(vec![uri_name("u:/")]),
        relative_name: Some(vec![NameEntry { der: vec![0x31, 0x00] }]),
        only_contains_user_certs: false,
        only_contains_ca_certs: false,
        only_some_reasons: None,
        indirect_crl: false,
        only_contains_attribute_certs: false,
    };
    let full_only = IssuingDistributionPoint { relative_name: None, ..both_clone(&both) };
    let o = oid("2.5.29.28");
    let d_both = enc(&o, &ExtensionValue::IssuingDistributionPoint(both));
    let d_full = enc(&o, &ExtensionValue::IssuingDistributionPoint(full_only));
    assert_eq!(d_both, d_full);
    let mut expected = vec![0x30, 0x09, 0xa0, 0x07, 0xa0, 0x05, 0x86, 0x03];
    expected.extend_from_slice(b"u:/");
    assert_eq!(d_both, expected);
}

fn both_clone(i: &IssuingDistributionPoint) -> IssuingDistributionPoint {
    IssuingDistributionPoint {
        full_name: i.full_name.as_ref().map(|v| {
            v.iter().map(|g| GeneralName { der: g.der.clone() }).collect()
        }),
        relative_name: i.relative_name.as_ref().map(|v| {
            v.iter().map(|e| NameEntry { der: e.der.clone() }).collect()
        }),
        only_contains_user_certs: i.only_contains_user_certs,
        only_contains_ca_certs: i.only_contains_ca_certs,
        only_some_reasons: i.only_some_reasons.as_ref().map(|r| ReasonFlags {
            data: r.data.clone(),
            unused: r.unused,
        }),
        indirect_crl: i.indirect_crl,
        only_contains_attribute_certs: i.only_contains_attribute_certs,
    }
}

#[test]
fn issuing_distribution_point_scope_flags() {
    let idp = IssuingDistributionPoint {
        full_name: None,
        relative_name: None,
        only_contains_user_certs: true,
        only_contains_ca_certs: false,
        only_some_reasons: Some(ReasonFlags { data: vec![0x60], unused: 5 }),
        indirect_crl: true,
        only_contains_attribute_certs: false,
    };
    let der = enc(&oid("2.5.29.28"), &ExtensionValue::IssuingDistributionPoint(idp));
    let expected = vec![
        0x30, 0x0a, 0x81, 0x01, 0xff, 0x83, 0x02, 0x05, 0x60, 0x84, 0x01, 0xff,
    ];
    assert_eq!(der, expected);
}

#[test]
fn empty_lists_encode_as_empty_wrappers() {
    let d1 = enc(
        &oid("1.3.6.1.4.1.11129.2.4.2"),
        &ExtensionValue::SignedCertificateTimestamps(vec![]),
    );
    assert_eq!(d1, vec![0x04, 0x02, 0x00, 0x00]);
    let d2 = enc(&oid("2.5.29.32"), &ExtensionValue::CertificatePolicies(vec![]));
    assert_eq!(d2, vec![0x30, 0x00]);
    let d3 = enc(&oid("2.5.29.37"), &ExtensionValue::OidSequence(vec![]));
    assert_eq!(d3, vec![0x30, 0x00]);
    let d4 = enc(&oid("2.5.29.17"), &ExtensionValue::GeneralNames(vec![]));
    assert_eq!(d4, vec![0x30, 0x00]);
    // a present-but-empty qualifier list is an empty SEQUENCE OF, distinct
    // from an absent one
    let d5 = enc(
        &oid("2.5.29.32"),
        &ExtensionValue::CertificatePolicies(vec![PolicyInformation {
            policy_identifier: oid("1.2.3"),
            policy_qualifiers: Some(vec![]),
        }]),
    );
    assert_eq!(d5, vec![0x30, 0x08, 0x30, 0x06, 0x06, 0x02, 0x2a, 0x03, 0x30, 0x00]);
}

#[test]
fn sct_framing_bound_checker() {
    assert!(scts_fit(&vec![]));
    assert!(scts_fit(&vec![vec![0u8; 65533]]));
    assert!(!scts_fit(&vec![vec![0u8; 65534]]));
    assert!(!scts_fit(&vec![vec![0u8; 40000], vec![0u8; 40000]]));
}

#[test]
fn big_uint_bytes_checker() {
    assert!(big_uint_wf(&vec![0]));
    assert!(big_uint_wf(&vec![1, 0]));
    assert!(!big_uint_wf(&vec![]));
    assert!(!big_uint_wf(&vec![0, 1]));
}

#[test]
fn freshest_crl_shares_the_distribution_points_encoder() {
    let dp = DistributionPoint {
        full_name: Some(vec![uri_name("u:/")]),
        relative_name: None,
        reasons: None,
        crl_issuer: None,
    };
    let dp2 = DistributionPoint {
        full_name: Some(vec![uri_name("u:/")]),
        relative_name: None,
        reasons: None,
        crl_issuer: None,
    };
    let d1 = enc(&oid("2.5.29.46"), &ExtensionValue::DistributionPoints(vec![dp]));
    let d2 = enc(&oid("2.5.29.31"), &ExtensionValue::DistributionPoints(vec![dp2]));
    assert_eq!(d1, d2);
}
