use vstd::prelude::*;

use crate::der::spec_concat_map;
use crate::der::lemma_concat_map_push;
use crate::der::lemma_concat_map_append;
use crate::der::spec_der_bool;
use crate::der::spec_der_uint;
use crate::der::spec_der_oid;
use crate::der::spec_der_sequence;
use crate::der::spec_der_octet_string;
use crate::der::spec_der_enumerated;
use crate::der::spec_tlv;
use crate::der::spec_uint_content;
use crate::der::spec_uint_content_of_bytes;
use crate::der::append_bytes;
use crate::der::der_tlv;
use crate::der::der_bool;
use crate::der::der_uint;
use crate::der::der_enumerated;
use crate::der::uint_content_u64;
use crate::der::uint_content_of_bytes;
use crate::values::AccessDescription;
use crate::values::AuthorityKeyIdentifier;
use crate::values::BasicConstraints;
use crate::values::CrlReason;
use crate::values::DateTime;
use crate::values::Error;
use crate::values::GeneralName;
use crate::values::MsCertificateTemplate;
use crate::values::NameConstraints;
use crate::values::Oid;
use crate::values::PolicyConstraints;
use crate::values::datetime_wf;
use crate::values::crl_reason_code;
use crate::values::spec_big_uint_wf;
use crate::values::spec_crl_reason_code;
use crate::values::spec_datetime_wf;

verus! {

// ============================================================================
// Per-extension encoders for the scalar and list-shaped extension families.
// Each executable encoder is proved to produce exactly the bytes of its spec
// function; the spec functions state the canonical DER form directly.
// ============================================================================

// ---- general names ----------------------------------------------------------

/// Content octets of a GeneralNames list: the pre-encoded names, in order.
pub open spec fn spec_general_names_content(gns: Seq<GeneralName>) -> Seq<u8> {
    spec_concat_map(gns, |g: GeneralName| g.der@)
}

/// SEQUENCE OF GeneralName: subject/issuer alternative names and the CRL
/// certificate-issuer extension.
pub open spec fn spec_general_names_der(gns: Seq<GeneralName>) -> Seq<u8> {
    spec_der_sequence(spec_general_names_content(gns))
}

/// Concatenate the pre-encoded general names, preserving their order.
pub fn general_names_content(gns: &Vec<GeneralName>) -> (r: Vec<u8>)
    ensures
        r@ == spec_general_names_content(gns@),
{
    let mut content: Vec<u8> = Vec::new();
    let mut i: usize = 0;
    while i < gns.len()
        invariant
            i <= gns@.len(),
            content@ == spec_general_names_content(gns@.take(i as int)),
        decreases gns@.len() - i,
    {
        append_bytes(&mut content, &gns[i].der);
        proof {
            assert(gns@.take(i as int).push(gns@[i as int]) =~= gns@.take(i as int + 1));
            lemma_concat_map_push(gns@.take(i as int), |g: GeneralName| g.der@, gns@[i as int]);
        }
        i = i + 1;
    }
    proof {
        assert(gns@.take(gns@.len() as int) =~= gns@);
    }
    content
}

/// Encode a SEQUENCE OF pre-encoded general names.
pub fn encode_general_names(gns: &Vec<GeneralName>) -> (r: Vec<u8>)
    ensures
        r@ == spec_general_names_der(gns@),
{
    let content = general_names_content(gns);
    der_tlv(0x30, &content)
}

// ---- basic constraints ------------------------------------------------------

/// BasicConstraints content: the CA BOOLEAN only when true (false is the DER
/// default and is omitted), then the path length INTEGER only when present.
pub open spec fn spec_basic_constraints_content(bc: BasicConstraints) -> Seq<u8> {
    (if bc.ca {
        spec_der_bool(true)
    } else {
        Seq::<u8>::empty()
    }) + (match bc.path_length {
        Some(n) => spec_der_uint(n as nat),
        None => Seq::<u8>::empty(),
    })
}

pub open spec fn spec_basic_constraints_der(bc: BasicConstraints) -> Seq<u8> {
    spec_der_sequence(spec_basic_constraints_content(bc))
}

/// Encode a BasicConstraints value.
pub fn encode_basic_constraints(bc: &BasicConstraints) -> (r: Vec<u8>)
    ensures
        r@ == spec_basic_constraints_der(*bc),
{
    let mut content: Vec<u8> = Vec::new();
    if bc.ca {
        let e = der_bool(true);
        append_bytes(&mut content, &e);
    }
    match bc.path_length {
        Some(n) => {
            let e = der_uint(n);
            append_bytes(&mut content, &e);
        },
        None => {},
    }
    proof {
        assert(content@ =~= spec_basic_constraints_content(*bc));
    }
    der_tlv(0x30, &content)
}

// ---- OID sequences ----------------------------------------------------------

/// Content of a SEQUENCE OF OBJECT IDENTIFIER, preserving input order with no
/// de-duplication: extended key usage and OCSP acceptable responses.
pub open spec fn spec_oid_sequence_content(oids: Seq<Oid>) -> Seq<u8> {
    spec_concat_map(oids, |o: Oid| spec_der_oid(o.der@))
}

pub open spec fn spec_oid_sequence_der(oids: Seq<Oid>) -> Seq<u8> {
    spec_der_sequence(spec_oid_sequence_content(oids))
}

/// Encode a SEQUENCE OF OBJECT IDENTIFIER.
pub fn encode_oid_sequence(oids: &Vec<Oid>) -> (r: Vec<u8>)
    ensures
        r@ == spec_oid_sequence_der(oids@),
{
    let mut content: Vec<u8> = Vec::new();
    let mut i: usize = 0;
    while i < oids.len()
        invariant
            i <= oids@.len(),
            content@ == spec_oid_sequence_content(oids@.take(i as int)),
        decreases oids@.len() - i,
    {
        let e = der_tlv(0x06, &oids[i].der);
        append_bytes(&mut content, &e);
        proof {
            assert(oids@.take(i as int).push(oids@[i as int]) =~= oids@.take(i as int + 1));
            lemma_concat_map_push(
                oids@.take(i as int),
                |o: Oid| spec_der_oid(o.der@),
                oids@[i as int],
            );
        }
        i = i + 1;
    }
    proof {
        assert(oids@.take(oids@.len() as int) =~= oids@);
    }
    der_tlv(0x30, &content)
}

/// Order preservation for OID lists: appending inputs appends their
/// encodings, so output order equals input order exactly.
pub proof fn lemma_oid_sequence_order(a: Seq<Oid>, b: Seq<Oid>)
    ensures
        spec_oid_sequence_content(a + b) == spec_oid_sequence_content(a)
            + spec_oid_sequence_content(b),
{
    lemma_concat_map_append(a, b, |o: Oid| spec_der_oid(o.der@));
}

// ---- access descriptions ----------------------------------------------------

/// One AccessDescription: SEQUENCE { accessMethod OID, accessLocation name }.
pub open spec fn spec_access_description_der(a: AccessDescription) -> Seq<u8> {
    spec_der_sequence(spec_der_oid(a.access_method.der@) + a.access_location.der@)
}

pub open spec fn spec_access_descriptions_content(ads: Seq<AccessDescription>) -> Seq<u8> {
    spec_concat_map(ads, |a: AccessDescription| spec_access_description_der(a))
}

/// Authority/subject information access: SEQUENCE OF AccessDescription.
pub open spec fn spec_access_descriptions_der(ads: Seq<AccessDescription>) -> Seq<u8> {
    spec_der_sequence(spec_access_descriptions_content(ads))
}

/// Encode a SEQUENCE OF AccessDescription.
pub fn encode_access_descriptions(ads: &Vec<AccessDescription>) -> (r: Vec<u8>)
    ensures
        r@ == spec_access_descriptions_der(ads@),
{
    let mut content: Vec<u8> = Vec::new();
    let mut i: usize = 0;
    while i < ads.len()
        invariant
            i <= ads@.len(),
            content@ == spec_access_descriptions_content(ads@.take(i as int)),
        decreases ads@.len() - i,
    {
        let mut elem = der_tlv(0x06, &ads[i].access_method.der);
        append_bytes(&mut elem, &ads[i].access_location.der);
        let e = der_tlv(0x30, &elem);
        append_bytes(&mut content, &e);
        proof {
            assert(elem@ =~= spec_der_oid(ads@[i as int].access_method.der@)
                + ads@[i as int].access_location.der@);
            assert(ads@.take(i as int).push(ads@[i as int]) =~= ads@.take(i as int + 1));
            lemma_concat_map_push(
                ads@.take(i as int),
                |a: AccessDescription| spec_access_description_der(a),
                ads@[i as int],
            );
        }
        i = i + 1;
    }
    proof {
        assert(ads@.take(ads@.len() as int) =~= ads@);
    }
    der_tlv(0x30, &content)
}

// ---- TLS features -----------------------------------------------------------

pub open spec fn spec_tls_features_content(els: Seq<u64>) -> Seq<u8> {
    spec_concat_map(els, |n: u64| spec_der_uint(n as nat))
}

/// TLS features: SEQUENCE OF INTEGER, preserving input order.
pub open spec fn spec_tls_features_der(els: Seq<u64>) -> Seq<u8> {
    spec_der_sequence(spec_tls_features_content(els))
}

/// Encode the TLS-feature extension.
pub fn encode_tls_features(els: &Vec<u64>) -> (r: Vec<u8>)
    ensures
        r@ == spec_tls_features_der(els@),
{
    let mut content: Vec<u8> = Vec::new();
    let mut i: usize = 0;
    while i < els.len()
        invariant
            i <= els@.len(),
            content@ == spec_tls_features_content(els@.take(i as int)),
        decreases els@.len() - i,
    {
        let e = der_uint(els[i]);
        append_bytes(&mut content, &e);
        proof {
            assert(els@.take(i as int).push(els@[i as int]) =~= els@.take(i as int + 1));
            lemma_concat_map_push(els@.take(i as int), |n: u64| spec_der_uint(n as nat), els@[i as int]);
        }
        i = i + 1;
    }
    proof {
        assert(els@.take(els@.len() as int) =~= els@);
    }
    der_tlv(0x30, &content)
}

// ---- CRL reason -------------------------------------------------------------

pub open spec fn spec_crl_reason_der(r: CrlReason) -> Seq<u8> {
    spec_der_enumerated(spec_crl_reason_code(r) as nat)
}

/// Encode a CRL reason as an ENUMERATED of its fixed code.
pub fn encode_crl_reason(reason: &CrlReason) -> (r: Vec<u8>)
    ensures
        r@ == spec_crl_reason_der(*reason),
{
    let code = crl_reason_code(reason);
    der_enumerated(code)
}

// ---- policy constraints -----------------------------------------------------

/// PolicyConstraints content: requireExplicitPolicy as implicit [0], then
/// inhibitPolicyMapping as implicit [1], each only when present.
pub open spec fn spec_policy_constraints_content(pc: PolicyConstraints) -> Seq<u8> {
    (match pc.require_explicit_policy {
        Some(n) => spec_tlv(0x80, spec_uint_content(n as nat)),
        None => Seq::<u8>::empty(),
    }) + (match pc.inhibit_policy_mapping {
        Some(n) => spec_tlv(0x81, spec_uint_content(n as nat)),
        None => Seq::<u8>::empty(),
    })
}

pub open spec fn spec_policy_constraints_der(pc: PolicyConstraints) -> Seq<u8> {
    spec_der_sequence(spec_policy_constraints_content(pc))
}

/// Encode a PolicyConstraints value.
pub fn encode_policy_constraints(pc: &PolicyConstraints) -> (r: Vec<u8>)
    ensures
        r@ == spec_policy_constraints_der(*pc),
{
    let mut content: Vec<u8> = Vec::new();
    match pc.require_explicit_policy {
        Some(n) => {
            let c = uint_content_u64(n);
            let e = der_tlv(0x80, &c);
            append_bytes(&mut content, &e);
        },
        None => {},
    }
    match pc.inhibit_policy_mapping {
        Some(n) => {
            let c = uint_content_u64(n);
            let e = der_tlv(0x81, &c);
            append_bytes(&mut content, &e);
        },
        None => {},
    }
    proof {
        assert(content@ =~= spec_policy_constraints_content(*pc));
    }
    der_tlv(0x30, &content)
}

// ---- MS certificate template ------------------------------------------------

/// MSCertificateTemplate content: template OID, then the two version
/// INTEGERs, each only when present.
pub open spec fn spec_ms_template_content(t: MsCertificateTemplate) -> Seq<u8> {
    spec_der_oid(t.template_id.der@) + (match t.major_version {
        Some(n) => spec_der_uint(n as nat),
        None => Seq::<u8>::empty(),
    }) + (match t.minor_version {
        Some(n) => spec_der_uint(n as nat),
        None => Seq::<u8>::empty(),
    })
}

pub open spec fn spec_ms_template_der(t: MsCertificateTemplate) -> Seq<u8> {
    spec_der_sequence(spec_ms_template_content(t))
}

/// Encode an MS certificate template value.
pub fn encode_ms_certificate_template(t: &MsCertificateTemplate) -> (r: Vec<u8>)
    ensures
        r@ == spec_ms_template_der(*t),
{
    let mut content = der_tlv(0x06, &t.template_id.der);
    match t.major_version {
        Some(n) => {
            let e = der_uint(n as u64);
            append_bytes(&mut content, &e);
        },
        None => {},
    }
    match t.minor_version {
        Some(n) => {
            let e = der_uint(n as u64);
            append_bytes(&mut content, &e);
        },
        None => {},
    }
    proof {
        assert(content@ =~= spec_ms_template_content(*t));
    }
    der_tlv(0x30, &content)
}

// ---- authority key identifier -----------------------------------------------

/// AuthorityKeyIdentifier content, in tag order: keyIdentifier as implicit
/// [0] octets, authorityCertIssuer as implicit [1] GeneralNames,
/// authorityCertSerialNumber as implicit [2] INTEGER; each only when present.
pub open spec fn spec_aki_content(aki: AuthorityKeyIdentifier) -> Seq<u8> {
    (match aki.key_identifier {
        Some(kid) => spec_tlv(0x80, kid@),
        None => Seq::<u8>::empty(),
    }) + (match aki.authority_cert_issuer {
        Some(gns) => spec_tlv(0xa1, spec_general_names_content(gns@)),
        None => Seq::<u8>::empty(),
    }) + (match aki.authority_cert_serial_number {
        Some(sn) => spec_tlv(0x82, spec_uint_content_of_bytes(sn@)),
        None => Seq::<u8>::empty(),
    })
}

pub open spec fn spec_aki_der(aki: AuthorityKeyIdentifier) -> Seq<u8> {
    spec_der_sequence(spec_aki_content(aki))
}

/// The serial number, when present, is held as well-formed minimal
/// big-endian bytes.
pub open spec fn spec_aki_wf(aki: AuthorityKeyIdentifier) -> bool {
    match aki.authority_cert_serial_number {
        Some(sn) => spec_big_uint_wf(sn@),
        None => true,
    }
}

/// Encode an AuthorityKeyIdentifier value.
pub fn encode_authority_key_identifier(aki: &AuthorityKeyIdentifier) -> (r: Vec<u8>)
    requires
        spec_aki_wf(*aki),
    ensures
        r@ == spec_aki_der(*aki),
{
    let mut content: Vec<u8> = Vec::new();
    match &aki.key_identifier {
        Some(kid) => {
            let e = der_tlv(0x80, kid);
            append_bytes(&mut content, &e);
        },
        None => {},
    }
    match &aki.authority_cert_issuer {
        Some(gns) => {
            let c = general_names_content(gns);
            let e = der_tlv(0xa1, &c);
            append_bytes(&mut content, &e);
        },
        None => {},
    }
    match &aki.authority_cert_serial_number {
        Some(sn) => {
            let c = uint_content_of_bytes(sn);
            let e = der_tlv(0x82, &c);
            append_bytes(&mut content, &e);
        },
        None => {},
    }
    proof {
        assert(content@ =~= spec_aki_content(*aki));
    }
    der_tlv(0x30, &content)
}

// ---- invalidity date (GeneralizedTime) ---------------------------------------

/// The fifteen ASCII octets of a GeneralizedTime: YYYYMMDDHHMMSSZ.
pub open spec fn spec_generalized_time_content(dt: DateTime) -> Seq<u8> {
    seq![
        (0x30 + (dt.year / 1000) % 10) as u8,
        (0x30 + (dt.year / 100) % 10) as u8,
        (0x30 + (dt.year / 10) % 10) as u8,
        (0x30 + dt.year % 10) as u8,
        (0x30 + (dt.month / 10) % 10) as u8,
        (0x30 + dt.month % 10) as u8,
        (0x30 + (dt.day / 10) % 10) as u8,
        (0x30 + dt.day % 10) as u8,
        (0x30 + (dt.hour / 10) % 10) as u8,
        (0x30 + dt.hour % 10) as u8,
        (0x30 + (dt.minute / 10) % 10) as u8,
        (0x30 + dt.minute % 10) as u8,
        (0x30 + (dt.second / 10) % 10) as u8,
        (0x30 + dt.second % 10) as u8,
        0x5au8,
    ]
}

pub open spec fn spec_invalidity_date_der(dt: DateTime) -> Seq<u8> {
    spec_tlv(0x18, spec_generalized_time_content(dt))
}

/// Encode an invalidity date as a GeneralizedTime, rejecting calendar fields
/// that name no real instant.
pub fn encode_invalidity_date(dt: &DateTime) -> (r: Result<Vec<u8>, Error>)
    ensures
        r is Ok <==> spec_datetime_wf(*dt),
        r matches Ok(v) ==> v@ == spec_invalidity_date_der(*dt),
        r matches Err(e) ==> e == Error::InvalidDateTime,
{
    if !datetime_wf(dt) {
        return Err(Error::InvalidDateTime);
    }
    let mut content: Vec<u8> = Vec::new();
    content.push((0x30 + (dt.year / 1000) % 10) as u8);
    content.push((0x30 + (dt.year / 100) % 10) as u8);
    content.push((0x30 + (dt.year / 10) % 10) as u8);
    content.push((0x30 + dt.year % 10) as u8);
    content.push(0x30 + (dt.month / 10) % 10);
    content.push(0x30 + dt.month % 10);
    content.push(0x30 + (dt.day / 10) % 10);
    content.push(0x30 + dt.day % 10);
    content.push(0x30 + (dt.hour / 10) % 10);
    content.push(0x30 + dt.hour % 10);
    content.push(0x30 + (dt.minute / 10) % 10);
    content.push(0x30 + dt.minute % 10);
    content.push(0x30 + (dt.second / 10) % 10);
    content.push(0x30 + dt.second % 10);
    content.push(0x5a);
    proof {
        assert(content@ =~= spec_generalized_time_content(*dt));
    }
    Ok(der_tlv(0x18, &content))
}

// ---- signed certificate timestamps -------------------------------------------

/// Two big-endian length octets.
pub open spec fn spec_u16_be(n: nat) -> Seq<u8> {
    seq![(n / 256) as u8, (n % 256) as u8]
}

/// One list entry of the RFC 6962 framing: a two-octet big-endian length
/// prefix, then the opaque SCT bytes.
pub open spec fn spec_sct_entry(s: Vec<u8>) -> Seq<u8> {
    spec_u16_be(s@.len() as nat) + s@
}

/// The length-prefixed entries, concatenated in input order. Its length is
/// also the value of the leading total-length prefix.
pub open spec fn spec_sct_inner(scts: Seq<Vec<u8>>) -> Seq<u8> {
    spec_concat_map(scts, |s: Vec<u8>| spec_sct_entry(s))
}

/// The whole extension: total-length prefix and entries, wrapped as an
/// OCTET STRING.
pub open spec fn spec_scts_der(scts: Seq<Vec<u8>>) -> Seq<u8> {
    spec_der_octet_string(spec_u16_be(spec_sct_inner(scts).len() as nat) + spec_sct_inner(scts))
}

/// Order preservation for SCT lists: appending inputs appends their framed
/// entries, so output order equals input order exactly.
pub proof fn lemma_scts_order(a: Seq<Vec<u8>>, b: Seq<Vec<u8>>)
    ensures
        spec_sct_inner(a + b) == spec_sct_inner(a) + spec_sct_inner(b),
{
    lemma_concat_map_append(a, b, |s: Vec<u8>| spec_sct_entry(s));
}

/// Whether an SCT list fits its two-octet length framing: what
/// `encode_scts` requires of its input.
pub fn scts_fit(scts: &Vec<Vec<u8>>) -> (r: bool)
    ensures
        r == (spec_sct_inner(scts@).len() <= 0xFFFF),
{
    let mut total: usize = 0;
    let mut i: usize = 0;
    while i < scts.len()
        invariant
            i <= scts@.len(),
            total == spec_sct_inner(scts@.take(i as int)).len(),
            total <= 0xFFFF,
        decreases scts@.len() - i,
    {
        let l = scts[i].len();
        proof {
            assert(scts@.take(i as int).push(scts@[i as int]) =~= scts@.take(i as int + 1));
            lemma_concat_map_push(scts@.take(i as int), |s: Vec<u8>| spec_sct_entry(s), scts@[
            i as int]);
            assert(scts@.take(i as int + 1) + scts@.skip(i as int + 1) =~= scts@);
            lemma_concat_map_append(
                scts@.take(i as int + 1),
                scts@.skip(i as int + 1),
                |s: Vec<u8>| spec_sct_entry(s),
            );
        }
        if l > 0xFFFF || total + 2 > 0xFFFF - l {
            return false;
        }
        total = total + 2 + l;
        i = i + 1;
    }
    proof {
        assert(scts@.take(scts@.len() as int) =~= scts@);
    }
    true
}

/// Encode a signed-certificate-timestamp list. The two-octet framing bounds
/// the total entry length at 65535.
pub fn encode_scts(scts: &Vec<Vec<u8>>) -> (r: Vec<u8>)
    requires
        spec_sct_inner(scts@).len() <= 0xFFFF,
    ensures
        r@ == spec_scts_der(scts@),
{
    let mut inner: Vec<u8> = Vec::new();
    let mut i: usize = 0;
    while i < scts.len()
        invariant
            i <= scts@.len(),
            inner@ == spec_sct_inner(scts@.take(i as int)),
            spec_sct_inner(scts@).len() <= 0xFFFF,
        decreases scts@.len() - i,
    {
        proof {
            assert(scts@.take(i as int).push(scts@[i as int]) =~= scts@.take(i as int + 1));
            lemma_concat_map_push(scts@.take(i as int), |s: Vec<u8>| spec_sct_entry(s), scts@[
            i as int]);
            assert(scts@.take(i as int + 1) + scts@.skip(i as int + 1) =~= scts@);
            lemma_concat_map_append(
                scts@.take(i as int + 1),
                scts@.skip(i as int + 1),
                |s: Vec<u8>| spec_sct_entry(s),
            );
            assert(spec_sct_inner(scts@.take(i as int + 1)).len() <= 0xFFFF);
        }
        let sct = &scts[i];
        let l = sct.len();
        inner.push((l / 256) as u8);
        inner.push((l % 256) as u8);
        append_bytes(&mut inner, sct);
        proof {
            assert(inner@ =~= spec_sct_inner(scts@.take(i as int + 1)));
        }
        i = i + 1;
    }
    proof {
        assert(scts@.take(scts@.len() as int) =~= scts@);
    }
    let total = inner.len();
    let mut payload: Vec<u8> = Vec::new();
    payload.push((total / 256) as u8);
    payload.push((total % 256) as u8);
    append_bytes(&mut payload, &inner);
    proof {
        assert(payload@ =~= spec_u16_be(spec_sct_inner(scts@).len() as nat) + spec_sct_inner(
        scts@));
    }
    der_tlv(0x04, &payload)
}

// ---- name constraints ---------------------------------------------------------

/// One GeneralSubtree: a SEQUENCE holding only the base name. minimum keeps
/// its DER default 0 (and so is omitted) and maximum is absent, whatever the
/// caller holds.
pub open spec fn spec_general_subtree_der(g: GeneralName) -> Seq<u8> {
    spec_der_sequence(g.der@)
}

pub open spec fn spec_subtrees_content(gns: Seq<GeneralName>) -> Seq<u8> {
    spec_concat_map(gns, |g: GeneralName| spec_general_subtree_der(g))
}

/// NameConstraints content: permitted subtrees as implicit [0], excluded as
/// implicit [1], each only when present.
pub open spec fn spec_name_constraints_content(nc: NameConstraints) -> Seq<u8> {
    (match nc.permitted_subtrees {
        Some(gns) => spec_tlv(0xa0, spec_subtrees_content(gns@)),
        None => Seq::<u8>::empty(),
    }) + (match nc.excluded_subtrees {
        Some(gns) => spec_tlv(0xa1, spec_subtrees_content(gns@)),
        None => Seq::<u8>::empty(),
    })
}

pub open spec fn spec_name_constraints_der(nc: NameConstraints) -> Seq<u8> {
    spec_der_sequence(spec_name_constraints_content(nc))
}

/// Fixed defaults: an encoded GeneralSubtree holds nothing besides its base
/// name, so minimum always reads as its default 0 and maximum is always
/// absent, independent of any other input.
pub proof fn lemma_subtree_fixed_defaults(g: GeneralName)
    ensures
        spec_general_subtree_der(g) == spec_der_sequence(g.der@),
{
}

/// Order preservation for subtree lists.
pub proof fn lemma_subtrees_order(a: Seq<GeneralName>, b: Seq<GeneralName>)
    ensures
        spec_subtrees_content(a + b) == spec_subtrees_content(a) + spec_subtrees_content(b),
{
    lemma_concat_map_append(a, b, |g: GeneralName| spec_general_subtree_der(g));
}

/// Concatenate the GeneralSubtree records for a subtree list, in order.
pub fn encode_general_subtrees(gns: &Vec<GeneralName>) -> (r: Vec<u8>)
    ensures
        r@ == spec_subtrees_content(gns@),
{
    let mut content: Vec<u8> = Vec::new();
    let mut i: usize = 0;
    while i < gns.len()
        invariant
            i <= gns@.len(),
            content@ == spec_subtrees_content(gns@.take(i as int)),
        decreases gns@.len() - i,
    {
        let e = der_tlv(0x30, &gns[i].der);
        append_bytes(&mut content, &e);
        proof {
            assert(gns@.take(i as int).push(gns@[i as int]) =~= gns@.take(i as int + 1));
            lemma_concat_map_push(
                gns@.take(i as int),
                |g: GeneralName| spec_general_subtree_der(g),
                gns@[i as int],
            );
        }
        i = i + 1;
    }
    proof {
        assert(gns@.take(gns@.len() as int) =~= gns@);
    }
    content
}

/// Encode a NameConstraints value.
pub fn encode_name_constraints(nc: &NameConstraints) -> (r: Vec<u8>)
    ensures
        r@ == spec_name_constraints_der(*nc),
{
    let mut content: Vec<u8> = Vec::new();
    match &nc.permitted_subtrees {
        Some(gns) => {
            let c = encode_general_subtrees(gns);
            let e = der_tlv(0xa0, &c);
            append_bytes(&mut content, &e);
        },
        None => {},
    }
    match &nc.excluded_subtrees {
        Some(gns) => {
            let c = encode_general_subtrees(gns);
            let e = der_tlv(0xa1, &c);
            append_bytes(&mut content, &e);
        },
        None => {},
    }
    proof {
        assert(content@ =~= spec_name_constraints_content(*nc));
    }
    der_tlv(0x30, &content)
}

} // verus!
