// Round-trip tests: the produced DER is decoded with an independent decoder
// (the asn1 crate), the value is rebuilt from what was decoded, and
// re-encoding must reproduce byte-identical output. Primitive encodings are
// also cross-checked against the independent encoder directly.

use x509_ext_der::dispatch::encode_extension;
use x509_ext_der::values::BasicConstraints;
use x509_ext_der::values::CrlReason;
use x509_ext_der::values::DateTime;
use x509_ext_der::values::ExtensionValue;
use x509_ext_der::values::GeneralName;
use x509_ext_der::values::KeyUsage;
use x509_ext_der::values::NameConstraints;
use x509_ext_der::values::Oid;
use x509_ext_der::values::PolicyInformation;
use x509_ext_der::values::PolicyQualifier;

fn oid(s: &str) -> Oid {
    let o = asn1::ObjectIdentifier::from_string(s).unwrap();
    let der = asn1::write_single(&o).unwrap();
    Oid { der: der[2..].to_vec() }
}

fn enc(o: &Oid, v: &ExtensionValue) -> Vec<u8> {
    encode_extension(o, v).unwrap().unwrap()
}

fn ku_from_bits(bs: &asn1::BitString<'_>) -> KeyUsage {
    KeyUsage {
        digital_signature: bs.has_bit_set(0),
        content_commitment: bs.has_bit_set(1),
        key_encipherment: bs.has_bit_set(2),
        data_encipherment: bs.has_bit_set(3),
        key_agreement: bs.has_bit_set(4),
        key_cert_sign: bs.has_bit_set(5),
        crl_sign: bs.has_bit_set(6),
        encipher_only: bs.has_bit_set(7),
        decipher_only: bs.has_bit_set(8),
    }
}

#[test]
fn rt_key_usage_all_combinations() {
    // Every combination of the nine flags: decode with the independent
    // decoder, rebuild, re-encode; the bytes must be identical, and the
    // independent encoder must agree on the bit string.
    let o = oid("2.5.29.15");
    for mask in 0u32..512 {
        let ku = KeyUsage {
            digital_signature: mask & 1 != 0,
            content_commitment: mask & 2 != 0,
            key_encipherment: mask & 4 != 0,
            data_encipherment: mask & 8 != 0,
            key_agreement: mask & 16 != 0,
            key_cert_sign: mask & 32 != 0,
            crl_sign: mask & 64 != 0,
            encipher_only: mask & 128 != 0,
            decipher_only: mask & 256 != 0,
        };
        let ka = ku.key_agreement;
        let der = enc(&o, &ExtensionValue::KeyUsage(ku));
        let bs: asn1::BitString<'_> = asn1::parse_single(&der).unwrap();
        // canonical minimality, checked through the independent decoder
        if let Some(last) = bs.as_bytes().last() {
            assert_ne!(*last, 0);
            assert_eq!(bs.padding_bits() as u32, last.trailing_zeros());
        } else {
            assert_eq!(bs.padding_bits(), 0);
        }
        let reencoded = asn1::write_single(
            &asn1::BitString::new(bs.as_bytes(), bs.padding_bits()).unwrap(),
        )
        .unwrap();
        assert_eq!(der, reencoded);
        let mut rebuilt = ku_from_bits(&bs);
        if !ka {
            // the conditional bits were never consulted; restore them before
            // comparing whole values
            rebuilt.key_agreement = false;
        }
        let der2 = enc(&o, &ExtensionValue::KeyUsage(rebuilt));
        assert_eq!(der, der2);
    }
}

#[test]
fn rt_basic_constraints() {
    let o = oid("2.5.29.19");
    for (ca, path) in [
        (false, None),
        (true, None),
        (true, Some(0u64)),
        (true, Some(127)),
        (true, Some(128)),
        (false, Some(300)),
    ] {
        let der = enc(&o, &ExtensionValue::BasicConstraints(BasicConstraints {
            ca,
            path_length: path,
        }));
        let (ca2, path2) = asn1::parse(der.as_slice(), |d| {
            d.read_element::<asn1::Sequence<'_>>()?.parse(|d| {
                let ca = d.read_element::<Option<bool>>()?.unwrap_or(false);
                let path = d.read_element::<Option<u64>>()?;
                Ok::<_, asn1::ParseError>((ca, path))
            })
        })
        .unwrap();
        assert_eq!(ca, ca2);
        assert_eq!(path, path2);
        let der2 = enc(&o, &ExtensionValue::BasicConstraints(BasicConstraints {
            ca: ca2,
            path_length: path2,
        }));
        assert_eq!(der, der2);
    }
}

#[test]
fn rt_oid_sequence() {
    let o = oid("2.5.29.37");
    let input = vec![oid("1.3.6.1.5.5.7.3.1"), oid("1.3.6.1.5.5.7.3.2"), oid("2.5.29.37")];
    let der = enc(&o, &ExtensionValue::OidSequence(input));
    let parsed: asn1::SequenceOf<'_, asn1::ObjectIdentifier> =
        asn1::parse_single(&der).unwrap();
    let rebuilt: Vec<Oid> = parsed
        .map(|el| {
            let d = asn1::write_single(&el).unwrap();
            Oid { der: d[2..].to_vec() }
        })
        .collect();
    assert_eq!(rebuilt.len(), 3);
    let der2 = enc(&o, &ExtensionValue::OidSequence(rebuilt));
    assert_eq!(der, der2);
}

#[test]
fn rt_big_uint() {
    let o = oid("2.5.29.20");
    for magnitude in [
        vec![0u8],
        vec![1],
        vec![127],
        vec![128],
        vec![255],
        vec![1, 0],
        vec![255, 255, 255, 255, 255],
    ] {
        let der = enc(&o, &ExtensionValue::CrlNumber(magnitude.clone()));
        let parsed: asn1::BigUint<'_> = asn1::parse_single(&der).unwrap();
        // the independent decoder accepts the content octets as a valid DER
        // unsigned integer; strip its sign octet to recover the magnitude
        let content = parsed.as_bytes();
        let rebuilt: Vec<u8> = if content.len() > 1 && content[0] == 0 {
            content[1..].to_vec()
        } else {
            content.to_vec()
        };
        assert_eq!(rebuilt, magnitude);
        let der2 = enc(&o, &ExtensionValue::CrlNumber(rebuilt));
        assert_eq!(der, der2);
        // cross-check against the independent encoder
        let cross = asn1::write_single(
            &asn1::OwnedBigUint::new(content.to_vec()).unwrap(),
        )
        .unwrap();
        assert_eq!(der, cross);
    }
}

#[test]
fn rt_generalized_time() {
    let o = oid("2.5.29.24");
    let dt = DateTime { year: 2024, month: 6, day: 15, hour: 12, minute: 34, second: 56 };
    let der = enc(&o, &ExtensionValue::InvalidityDate(dt));
    let parsed: asn1::X509GeneralizedTime = asn1::parse_single(&der).unwrap();
    let inner = parsed.as_datetime();
    let rebuilt = DateTime {
        year: inner.year(),
        month: inner.month(),
        day: inner.day(),
        hour: inner.hour(),
        minute: inner.minute(),
        second: inner.second(),
    };
    let der2 = enc(&o, &ExtensionValue::InvalidityDate(rebuilt));
    assert_eq!(der, der2);
    // cross-check against the independent encoder
    let cross = asn1::write_single(
        &asn1::X509GeneralizedTime::new(
            asn1::DateTime::new(2024, 6, 15, 12, 34, 56).unwrap(),
        )
        .unwrap(),
    )
    .unwrap();
    assert_eq!(der, cross);
}

#[test]
fn rt_crl_reason_enumerated() {
    let o = oid("2.5.29.21");
    let der = enc(&o, &ExtensionValue::CrlReason(CrlReason::CertificateHold));
    let parsed: asn1::Enumerated = asn1::parse_single(&der).unwrap();
    assert_eq!(parsed.value(), 6);
    let cross = asn1::write_single(&asn1::Enumerated::new(6)).unwrap();
    assert_eq!(der, cross);
}

#[test]
fn rt_octet_string_and_null() {
    let nonce = vec![0xde, 0xad, 0xbe, 0xef];
    let der = enc(&oid("1.3.6.1.5.5.7.48.1.2"), &ExtensionValue::Nonce(nonce.clone()));
    let parsed: &[u8] = asn1::parse_single(&der).unwrap();
    assert_eq!(parsed, nonce.as_slice());
    let cross = asn1::write_single(&nonce.as_slice()).unwrap();
    assert_eq!(der, cross);

    let null = enc(&oid("1.3.6.1.5.5.7.48.1.5"), &ExtensionValue::Null);
    let cross_null = asn1::write_single(&()).unwrap();
    assert_eq!(null, cross_null);
}

#[test]
fn rt_certificate_policies() {
    let o = oid("2.5.29.32");
    let ps = vec![PolicyInformation {
        policy_identifier: oid("2.23.140.1.2.1"),
        policy_qualifiers: Some(vec![PolicyQualifier::CpsUri(
            b"https://example.com/cps".to_vec(),
        )]),
    }];
    let der = enc(&o, &ExtensionValue::CertificatePolicies(ps));
    // decode with the independent decoder and rebuild the value
    let rebuilt = asn1::parse(der.as_slice(), |d| {
        d.read_element::<asn1::Sequence<'_>>()?.parse(|d| {
            let mut out = Vec::new();
            while !d.is_empty() {
                let pi = d.read_element::<asn1::Sequence<'_>>()?.parse(|d| {
                    let pid = d.read_element::<asn1::ObjectIdentifier>()?;
                    let pid_der = asn1::write_single(&pid).unwrap();
                    let quals = if d.is_empty() {
                        None
                    } else {
                        Some(d.read_element::<asn1::Sequence<'_>>()?.parse(|d| {
                            let mut list = Vec::new();
                            while !d.is_empty() {
                                let q = d.read_element::<asn1::Sequence<'_>>()?.parse(|d| {
                                    let qid = d.read_element::<asn1::ObjectIdentifier>()?;
                                    assert_eq!(
                                        qid,
                                        asn1::ObjectIdentifier::from_string("1.3.6.1.5.5.7.2.1")
                                            .unwrap()
                                    );
                                    let uri = d.read_element::<asn1::IA5String<'_>>()?;
                                    Ok::<_, asn1::ParseError>(PolicyQualifier::CpsUri(
                                        uri.as_str().as_bytes().to_vec(),
                                    ))
                                })?;
                                list.push(q);
                            }
                            Ok::<_, asn1::ParseError>(list)
                        })?)
                    };
                    Ok::<_, asn1::ParseError>(PolicyInformation {
                        policy_identifier: Oid { der: pid_der[2..].to_vec() },
                        policy_qualifiers: quals,
                    })
                })?;
                out.push(pi);
            }
            Ok::<_, asn1::ParseError>(out)
        })
    })
    .unwrap();
    let der2 = enc(&o, &ExtensionValue::CertificatePolicies(rebuilt));
    assert_eq!(der, der2);
}

#[test]
fn rt_name_constraints_fixed_defaults() {
    let o = oid("2.5.29.30");
    let nc = NameConstraints {
        permitted_subtrees: Some(vec![GeneralName {
            der: {
                let mut d = vec![0x82, 0x07];
                d.extend_from_slice(b"example");
                d
            },
        }]),
        excluded_subtrees: None,
    };
    let der = enc(&o, &ExtensionValue::NameConstraints(nc));
    // decode each GeneralSubtree with the independent decoder: the base name
    // is all it holds, minimum reads as its default 0, maximum is absent
    let names = asn1::parse(der.as_slice(), |d| {
        d.read_element::<asn1::Sequence<'_>>()?.parse(|d| {
            d.read_implicit_element::<asn1::Sequence<'_>>(0)?.parse(|d| {
                let mut names: Vec<Vec<u8>> = Vec::new();
                while !d.is_empty() {
                    let base = d.read_element::<asn1::Sequence<'_>>()?.parse(|d| {
                        let base = d.read_element::<asn1::Tlv<'_>>()?;
                        let minimum = d.read_element::<Option<asn1::Implicit<u64, 0>>>()?;
                        assert!(minimum.is_none());
                        let maximum = d.read_element::<Option<asn1::Implicit<u64, 1>>>()?;
                        assert!(maximum.is_none());
                        Ok::<_, asn1::ParseError>(base.full_data().to_vec())
                    })?;
                    names.push(base);
                }
                Ok::<_, asn1::ParseError>(names)
            })
        })
    })
    .unwrap();
    assert_eq!(names.len(), 1);
    let rebuilt = NameConstraints {
        permitted_subtrees: Some(vec![GeneralName { der: names[0].clone() }]),
        excluded_subtrees: None,
    };
    let der2 = enc(&o, &ExtensionValue::NameConstraints(rebuilt));
    assert_eq!(der, der2);
}

#[test]
fn rt_sct_list() {
    let o = oid("1.3.6.1.4.1.11129.2.4.2");
    let scts = vec![vec![1u8, 2, 3, 4, 5], vec![6, 7, 8]];
    let der = enc(&o, &ExtensionValue::SignedCertificateTimestamps(scts.clone()));
    // decode the OCTET STRING with the independent decoder, then unpack the
    // RFC 6962 framing by hand
    let payload: &[u8] = asn1::parse_single(&der).unwrap();
    let total = u16::from_be_bytes([payload[0], payload[1]]) as usize;
    assert_eq!(total, payload.len() - 2);
    let mut rest = &payload[2..];
    let mut rebuilt: Vec<Vec<u8>> = Vec::new();
    while !rest.is_empty() {
        let n = u16::from_be_bytes([rest[0], rest[1]]) as usize;
        rebuilt.push(rest[2..2 + n].to_vec());
        rest = &rest[2 + n..];
    }
    assert_eq!(rebuilt, scts);
    let der2 = enc(&o, &ExtensionValue::SignedCertificateTimestamps(rebuilt));
    assert_eq!(der, der2);
}

#[test]
fn long_form_lengths_match_the_independent_encoder() {
    // more than 127 content octets force the long length form
    let big = vec![0xabu8; 300];
    let der = enc(&oid("1.3.6.1.5.5.7.48.1.2"), &ExtensionValue::Nonce(big.clone()));
    let cross = asn1::write_single(&big.as_slice()).unwrap();
    assert_eq!(der, cross);
    let parsed: &[u8] = asn1::parse_single(&der).unwrap();
    assert_eq!(parsed, big.as_slice());
}
