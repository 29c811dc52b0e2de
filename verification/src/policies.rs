use vstd::prelude::*;

use crate::der::spec_concat_map;
use crate::der::lemma_concat_map_push;
use crate::der::lemma_concat_map_append;
use crate::der::spec_der_big_uint;
use crate::der::spec_der_ia5;
use crate::der::spec_der_oid;
use crate::der::spec_der_sequence;
use crate::der::spec_der_utf8;
use crate::der::append_bytes;
use crate::der::der_big_uint;
use crate::der::der_tlv;
use crate::values::Error;
use crate::values::NoticeReference;
use crate::values::PolicyInformation;
use crate::values::PolicyQualifier;
use crate::values::UserNotice;
use crate::values::spec_big_uint_wf;

verus! {

// ============================================================================
// CertificatePolicies: a SEQUENCE OF PolicyInformation, each a policy OID
// plus an optional ordered list of qualifiers. A qualifier is either a
// CPS URI (an IA5String, so it must be ASCII) or a UserNotice. Qualifier and
// notice-number order is preserved exactly as given.
// ============================================================================

/// Content octets of the policyQualifierId OID for a CPS URI (1.3.6.1.5.5.7.2.1).
pub open spec fn spec_oid_cps_uri() -> Seq<u8> {
    seq![0x2bu8, 0x06, 0x01, 0x05, 0x05, 0x07, 0x02, 0x01]
}

/// Content octets of the policyQualifierId OID for a user notice (1.3.6.1.5.5.7.2.2).
pub open spec fn spec_oid_user_notice() -> Seq<u8> {
    seq![0x2bu8, 0x06, 0x01, 0x05, 0x05, 0x07, 0x02, 0x02]
}

/// Every byte lies in the ASCII repertoire, so the text fits an IA5String.
pub open spec fn spec_all_ascii(b: Seq<u8>) -> bool {
    forall|i: int| 0 <= i < b.len() ==> b[i] < 0x80
}

pub open spec fn spec_notice_numbers_content(ns: Seq<Vec<u8>>) -> Seq<u8> {
    spec_concat_map(ns, |n: Vec<u8>| spec_der_big_uint(n@))
}

/// NoticeReference: SEQUENCE { organization UTF8String, noticeNumbers
/// SEQUENCE OF INTEGER }.
pub open spec fn spec_notice_reference_der(nr: NoticeReference) -> Seq<u8> {
    spec_der_sequence(
        spec_der_utf8(nr.organization@) + spec_der_sequence(
            spec_notice_numbers_content(nr.notice_numbers@),
        ),
    )
}

/// UserNotice: SEQUENCE { noticeRef OPTIONAL, explicitText UTF8String OPTIONAL }.
pub open spec fn spec_user_notice_der(un: UserNotice) -> Seq<u8> {
    spec_der_sequence(
        (match un.notice_reference {
            Some(nr) => spec_notice_reference_der(nr),
            None => Seq::<u8>::empty(),
        }) + (match un.explicit_text {
            Some(t) => spec_der_utf8(t@),
            None => Seq::<u8>::empty(),
        }),
    )
}

/// PolicyQualifierInfo: SEQUENCE { policyQualifierId OID, qualifier }.
pub open spec fn spec_qualifier_der(q: PolicyQualifier) -> Seq<u8> {
    match q {
        PolicyQualifier::CpsUri(u) => spec_der_sequence(
            spec_der_oid(spec_oid_cps_uri()) + spec_der_ia5(u@),
        ),
        PolicyQualifier::UserNotice(un) => spec_der_sequence(
            spec_der_oid(spec_oid_user_notice()) + spec_user_notice_der(un),
        ),
    }
}

/// A qualifier can be encoded: a CPS URI must be ASCII, a user notice always can.
pub open spec fn spec_qualifier_ok(q: PolicyQualifier) -> bool {
    match q {
        PolicyQualifier::CpsUri(u) => spec_all_ascii(u@),
        PolicyQualifier::UserNotice(_) => true,
    }
}

/// Every notice number of a user-notice qualifier is held as well-formed
/// minimal big-endian bytes.
pub open spec fn spec_qualifier_nums_wf(q: PolicyQualifier) -> bool {
    match q {
        PolicyQualifier::CpsUri(_) => true,
        PolicyQualifier::UserNotice(un) => match un.notice_reference {
            Some(nr) => forall|k: int|
                0 <= k < nr.notice_numbers@.len() ==> spec_big_uint_wf(nr.notice_numbers@[k]@),
            None => true,
        },
    }
}

pub open spec fn spec_qualifiers_content(qs: Seq<PolicyQualifier>) -> Seq<u8> {
    spec_concat_map(qs, |q: PolicyQualifier| spec_qualifier_der(q))
}

/// PolicyInformation: SEQUENCE { policyIdentifier OID, policyQualifiers
/// SEQUENCE OF PolicyQualifierInfo OPTIONAL }. An absent qualifier list is
/// omitted; a present empty one encodes as an empty SEQUENCE OF.
pub open spec fn spec_policy_info_der(p: PolicyInformation) -> Seq<u8> {
    spec_der_sequence(
        spec_der_oid(p.policy_identifier.der@) + (match p.policy_qualifiers {
            Some(qs) => spec_der_sequence(spec_qualifiers_content(qs@)),
            None => Seq::<u8>::empty(),
        }),
    )
}

pub open spec fn spec_policy_info_ok(p: PolicyInformation) -> bool {
    match p.policy_qualifiers {
        Some(qs) => forall|j: int| 0 <= j < qs@.len() ==> spec_qualifier_ok(qs@[j]),
        None => true,
    }
}

pub open spec fn spec_policy_info_nums_wf(p: PolicyInformation) -> bool {
    match p.policy_qualifiers {
        Some(qs) => forall|j: int| 0 <= j < qs@.len() ==> spec_qualifier_nums_wf(qs@[j]),
        None => true,
    }
}

pub open spec fn spec_policies_content(ps: Seq<PolicyInformation>) -> Seq<u8> {
    spec_concat_map(ps, |p: PolicyInformation| spec_policy_info_der(p))
}

pub open spec fn spec_certificate_policies_der(ps: Seq<PolicyInformation>) -> Seq<u8> {
    spec_der_sequence(spec_policies_content(ps))
}

pub open spec fn spec_policies_ok(ps: Seq<PolicyInformation>) -> bool {
    forall|i: int| 0 <= i < ps.len() ==> spec_policy_info_ok(ps[i])
}

pub open spec fn spec_policies_nums_wf(ps: Seq<PolicyInformation>) -> bool {
    forall|i: int| 0 <= i < ps.len() ==> spec_policy_info_nums_wf(ps[i])
}

// ---- laws ---------------------------------------------------------------------

/// Order preservation for policy-qualifier lists.
pub proof fn lemma_qualifiers_order(a: Seq<PolicyQualifier>, b: Seq<PolicyQualifier>)
    ensures
        spec_qualifiers_content(a + b) == spec_qualifiers_content(a) + spec_qualifiers_content(b),
{
    lemma_concat_map_append(a, b, |q: PolicyQualifier| spec_qualifier_der(q));
}

/// Order preservation for notice-number lists.
pub proof fn lemma_notice_numbers_order(a: Seq<Vec<u8>>, b: Seq<Vec<u8>>)
    ensures
        spec_notice_numbers_content(a + b) == spec_notice_numbers_content(a)
            + spec_notice_numbers_content(b),
{
    lemma_concat_map_append(a, b, |n: Vec<u8>| spec_der_big_uint(n@));
}

/// Order preservation for policy-information lists.
pub proof fn lemma_policies_order(a: Seq<PolicyInformation>, b: Seq<PolicyInformation>)
    ensures
        spec_policies_content(a + b) == spec_policies_content(a) + spec_policies_content(b),
{
    lemma_concat_map_append(a, b, |p: PolicyInformation| spec_policy_info_der(p));
}

// ---- executable encoders -------------------------------------------------------

fn all_ascii(b: &Vec<u8>) -> (r: bool)
    ensures
        r == spec_all_ascii(b@),
{
    let mut i: usize = 0;
    while i < b.len()
        invariant
            i <= b@.len(),
            forall|j: int| 0 <= j < i ==> b@[j] < 0x80,
        decreases b@.len() - i,
    {
        if b[i] >= 0x80 {
            return false;
        }
        i = i + 1;
    }
    true
}

/// Encode a NoticeReference.
fn encode_notice_reference(nr: &NoticeReference) -> (r: Vec<u8>)
    ensures
        r@ == spec_notice_reference_der(*nr),
{
    let mut nums: Vec<u8> = Vec::new();
    let mut i: usize = 0;
    while i < nr.notice_numbers.len()
        invariant
            i <= nr.notice_numbers@.len(),
            nums@ == spec_notice_numbers_content(nr.notice_numbers@.take(i as int)),
        decreases nr.notice_numbers@.len() - i,
    {
        let e = der_big_uint(&nr.notice_numbers[i]);
        append_bytes(&mut nums, &e);
        proof {
            assert(nr.notice_numbers@.take(i as int).push(nr.notice_numbers@[i as int])
                =~= nr.notice_numbers@.take(i as int + 1));
            lemma_concat_map_push(
                nr.notice_numbers@.take(i as int),
                |n: Vec<u8>| spec_der_big_uint(n@),
                nr.notice_numbers@[i as int],
            );
        }
        i = i + 1;
    }
    proof {
        assert(nr.notice_numbers@.take(nr.notice_numbers@.len() as int) =~= nr.notice_numbers@);
    }
    let mut content = der_tlv(0x0c, &nr.organization);
    let nums_seq = der_tlv(0x30, &nums);
    append_bytes(&mut content, &nums_seq);
    der_tlv(0x30, &content)
}

/// Encode a UserNotice.
fn encode_user_notice(un: &UserNotice) -> (r: Vec<u8>)
    ensures
        r@ == spec_user_notice_der(*un),
{
    let mut content: Vec<u8> = Vec::new();
    match &un.notice_reference {
        Some(nr) => {
            let e = encode_notice_reference(nr);
            append_bytes(&mut content, &e);
        },
        None => {},
    }
    match &un.explicit_text {
        Some(t) => {
            let e = der_tlv(0x0c, t);
            append_bytes(&mut content, &e);
        },
        None => {},
    }
    proof {
        assert(content@ =~= (match un.notice_reference {
            Some(nr) => spec_notice_reference_der(nr),
            None => Seq::<u8>::empty(),
        }) + (match un.explicit_text {
            Some(t) => spec_der_utf8(t@),
            None => Seq::<u8>::empty(),
        }));
    }
    der_tlv(0x30, &content)
}

fn cps_uri_oid_der() -> (r: Vec<u8>)
    ensures
        r@ == spec_der_oid(spec_oid_cps_uri()),
{
    let mut c: Vec<u8> = Vec::new();
    c.push(0x2b);
    c.push(0x06);
    c.push(0x01);
    c.push(0x05);
    c.push(0x05);
    c.push(0x07);
    c.push(0x02);
    c.push(0x01);
    proof {
        assert(c@ =~= spec_oid_cps_uri());
    }
    der_tlv(0x06, &c)
}

fn user_notice_oid_der() -> (r: Vec<u8>)
    ensures
        r@ == spec_der_oid(spec_oid_user_notice()),
{
    let mut c: Vec<u8> = Vec::new();
    c.push(0x2b);
    c.push(0x06);
    c.push(0x01);
    c.push(0x05);
    c.push(0x05);
    c.push(0x07);
    c.push(0x02);
    c.push(0x02);
    proof {
        assert(c@ =~= spec_oid_user_notice());
    }
    der_tlv(0x06, &c)
}

/// Encode one policy qualifier, rejecting a CPS URI that is not ASCII.
fn encode_qualifier(q: &PolicyQualifier) -> (r: Result<Vec<u8>, Error>)
    requires
        spec_qualifier_nums_wf(*q),
    ensures
        r is Ok <==> spec_qualifier_ok(*q),
        r matches Ok(v) ==> v@ == spec_qualifier_der(*q),
        r matches Err(e) ==> e == Error::InvalidIa5String,
{
    match q {
        PolicyQualifier::CpsUri(u) => {
            if !all_ascii(u) {
                return Err(Error::InvalidIa5String);
            }
            let mut content = cps_uri_oid_der();
            let e = der_tlv(0x16, u);
            append_bytes(&mut content, &e);
            Ok(der_tlv(0x30, &content))
        },
        PolicyQualifier::UserNotice(un) => {
            let mut content = user_notice_oid_der();
            let e = encode_user_notice(un);
            append_bytes(&mut content, &e);
            Ok(der_tlv(0x30, &content))
        },
    }
}

/// Encode one PolicyInformation entry.
pub fn encode_policy_information(p: &PolicyInformation) -> (r: Result<Vec<u8>, Error>)
    requires
        spec_policy_info_nums_wf(*p),
    ensures
        r is Ok <==> spec_policy_info_ok(*p),
        r matches Ok(v) ==> v@ == spec_policy_info_der(*p),
        r matches Err(e) ==> e == Error::InvalidIa5String,
{
    let mut content = der_tlv(0x06, &p.policy_identifier.der);
    match &p.policy_qualifiers {
        Some(qs) => {
            let mut qcontent: Vec<u8> = Vec::new();
            let mut i: usize = 0;
            while i < qs.len()
                invariant
                    i <= qs@.len(),
                    qcontent@ == spec_qualifiers_content(qs@.take(i as int)),
                    forall|j: int| 0 <= j < i ==> spec_qualifier_ok(qs@[j]),
                    forall|j: int| 0 <= j < qs@.len() ==> spec_qualifier_nums_wf(qs@[j]),
                    p.policy_qualifiers matches Some(v) && v@ == qs@,
                decreases qs@.len() - i,
            {
                let qe = match encode_qualifier(&qs[i]) {
                    Ok(v) => v,
                    Err(e) => {
                        proof {
                            assert(!spec_qualifier_ok(qs@[i as int]));
                            assert(!spec_policy_info_ok(*p)) by {
                                if spec_policy_info_ok(*p) {
                                    assert(spec_qualifier_ok(qs@[i as int]));
                                }
                            }
                        }
                        return Err(e);
                    },
                };
                append_bytes(&mut qcontent, &qe);
                proof {
                    assert(qs@.take(i as int).push(qs@[i as int]) =~= qs@.take(i as int + 1));
                    lemma_concat_map_push(
                        qs@.take(i as int),
                        |q: PolicyQualifier| spec_qualifier_der(q),
                        qs@[i as int],
                    );
                }
                i = i + 1;
            }
            proof {
                assert(qs@.take(qs@.len() as int) =~= qs@);
            }
            let e = der_tlv(0x30, &qcontent);
            append_bytes(&mut content, &e);
            proof {
                assert(content@ =~= spec_der_oid(p.policy_identifier.der@) + spec_der_sequence(
                spec_qualifiers_content(qs@)));
            }
            Ok(der_tlv(0x30, &content))
        },
        None => {
            proof {
                assert(content@ =~= spec_der_oid(p.policy_identifier.der@) + Seq::<u8>::empty());
            }
            Ok(der_tlv(0x30, &content))
        },
    }
}

/// Encode a CertificatePolicies list. Succeeds exactly when every CPS-URI
/// qualifier is ASCII; otherwise nothing is produced and the IA5 error is
/// surfaced immediately.
pub fn encode_certificate_policies(ps: &Vec<PolicyInformation>) -> (r: Result<Vec<u8>, Error>)
    requires
        spec_policies_nums_wf(ps@),
    ensures
        r is Ok <==> spec_policies_ok(ps@),
        r matches Ok(v) ==> v@ == spec_certificate_policies_der(ps@),
        r matches Err(e) ==> e == Error::InvalidIa5String,
{
    let mut content: Vec<u8> = Vec::new();
    let mut i: usize = 0;
    while i < ps.len()
        invariant
            i <= ps@.len(),
            content@ == spec_policies_content(ps@.take(i as int)),
            forall|j: int| 0 <= j < i ==> spec_policy_info_ok(ps@[j]),
            spec_policies_nums_wf(ps@),
        decreases ps@.len() - i,
    {
        let e = match encode_policy_information(&ps[i]) {
            Ok(v) => v,
            Err(e) => {
                proof {
                    assert(!spec_policy_info_ok(ps@[i as int]));
                }
                return Err(e);
            },
        };
        append_bytes(&mut content, &e);
        proof {
            assert(ps@.take(i as int).push(ps@[i as int]) =~= ps@.take(i as int + 1));
            lemma_concat_map_push(
                ps@.take(i as int),
                |p: PolicyInformation| spec_policy_info_der(p),
                ps@[i as int],
            );
        }
        i = i + 1;
    }
    proof {
        assert(ps@.take(ps@.len() as int) =~= ps@);
    }
    Ok(der_tlv(0x30, &content))
}

} // verus!
