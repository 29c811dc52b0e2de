use vstd::prelude::*;

use crate::der::spec_concat_map;
use crate::der::lemma_concat_map_push;
use crate::der::lemma_concat_map_append;
use crate::der::lemma_set_insert_at;
use crate::der::spec_bytes_lt;
use crate::der::spec_der_sequence;
use crate::der::spec_set_sort;
use crate::der::spec_tlv;
use crate::der::append_bytes;
use crate::der::bytes_lt;
use crate::der::der_tlv;
use crate::encoders::spec_general_names_content;
use crate::encoders::general_names_content;
use crate::values::DistributionPoint;
use crate::values::GeneralName;
use crate::values::IssuingDistributionPoint;
use crate::values::NameEntry;
use crate::values::ReasonFlags;

verus! {

// ============================================================================
// DistributionPoint and IssuingDistributionPoint share the DER CHOICE between
// a FullName general-name list (implicit [0]) and a NameRelativeToCRLIssuer
// attribute set (implicit [1]), wrapped in an explicit [0] because a CHOICE
// cannot carry an implicit tag itself. When a caller supplies both, FullName
// wins deterministically: full_name is checked first in both encoders.
// ============================================================================

/// The encoded bytes of each relative-name attribute entry.
pub open spec fn spec_name_entry_views(es: Seq<NameEntry>) -> Seq<Seq<u8>> {
    es.map_values(|e: NameEntry| e.der@)
}

/// Content octets of a relative name: its pre-encoded attribute entries,
/// brought into the byte-wise order DER demands of a SET OF.
pub open spec fn spec_name_entries_content(es: Seq<NameEntry>) -> Seq<u8> {
    spec_concat_map(spec_set_sort(spec_name_entry_views(es)), |b: Seq<u8>| b)
}

/// The optional distributionPoint field: empty when neither name form is
/// present; otherwise the explicit [0] wrapper around the chosen form.
pub open spec fn spec_dp_name_field(
    full: Option<Vec<GeneralName>>,
    rel: Option<Vec<NameEntry>>,
) -> Seq<u8> {
    match full {
        Some(gns) => spec_tlv(0xa0, spec_tlv(0xa0, spec_general_names_content(gns@))),
        None => match rel {
            Some(es) => spec_tlv(0xa0, spec_tlv(0xa1, spec_name_entries_content(es@))),
            None => Seq::<u8>::empty(),
        },
    }
}

/// A reason-flags BIT STRING under an implicit context tag: the unused-bit
/// octet, then the content octets.
pub open spec fn spec_reason_flags_field(tag: u8, rf: ReasonFlags) -> Seq<u8> {
    spec_tlv(tag, seq![rf.unused] + rf.data@)
}

/// One DistributionPoint, in tag order: distributionPoint [0] explicit,
/// reasons [1] implicit, cRLIssuer [2] implicit; each only when present.
pub open spec fn spec_distribution_point_der(dp: DistributionPoint) -> Seq<u8> {
    spec_der_sequence(
        spec_dp_name_field(dp.full_name, dp.relative_name) + (match dp.reasons {
            Some(rf) => spec_reason_flags_field(0x81, rf),
            None => Seq::<u8>::empty(),
        }) + (match dp.crl_issuer {
            Some(gns) => spec_tlv(0xa2, spec_general_names_content(gns@)),
            None => Seq::<u8>::empty(),
        }),
    )
}

pub open spec fn spec_distribution_points_content(dps: Seq<DistributionPoint>) -> Seq<u8> {
    spec_concat_map(dps, |dp: DistributionPoint| spec_distribution_point_der(dp))
}

/// CRL distribution points and freshest CRL: SEQUENCE OF DistributionPoint.
pub open spec fn spec_distribution_points_der(dps: Seq<DistributionPoint>) -> Seq<u8> {
    spec_der_sequence(spec_distribution_points_content(dps))
}

/// IssuingDistributionPoint content, in tag order: the name CHOICE [0], then
/// onlyContainsUserCerts [1], onlyContainsCACerts [2], onlySomeReasons [3],
/// indirectCRL [4], onlyContainsAttributeCerts [5]. A false boolean is the
/// RFC default and is omitted; a true one encodes as a one-octet 0xff.
pub open spec fn spec_idp_content(idp: IssuingDistributionPoint) -> Seq<u8> {
    spec_dp_name_field(idp.full_name, idp.relative_name) + (if idp.only_contains_user_certs {
        spec_tlv(0x81, seq![0xffu8])
    } else {
        Seq::<u8>::empty()
    }) + (if idp.only_contains_ca_certs {
        spec_tlv(0x82, seq![0xffu8])
    } else {
        Seq::<u8>::empty()
    }) + (match idp.only_some_reasons {
        Some(rf) => spec_reason_flags_field(0x83, rf),
        None => Seq::<u8>::empty(),
    }) + (if idp.indirect_crl {
        spec_tlv(0x84, seq![0xffu8])
    } else {
        Seq::<u8>::empty()
    }) + (if idp.only_contains_attribute_certs {
        spec_tlv(0x85, seq![0xffu8])
    } else {
        Seq::<u8>::empty()
    })
}

pub open spec fn spec_idp_der(idp: IssuingDistributionPoint) -> Seq<u8> {
    spec_der_sequence(spec_idp_content(idp))
}

// ---- laws ---------------------------------------------------------------------

/// Mutual exclusivity: whenever full_name is supplied, exactly the FullName
/// form appears in the output, whatever relative_name holds.
pub proof fn lemma_dp_name_full_precedence(
    full: Vec<GeneralName>,
    rel: Option<Vec<NameEntry>>,
)
    ensures
        spec_dp_name_field(Some(full), rel) == spec_tlv(
            0xa0,
            spec_tlv(0xa0, spec_general_names_content(full@)),
        ),
        spec_dp_name_field(Some(full), rel) == spec_dp_name_field(Some(full), None),
{
}

/// Mutual exclusivity at the DistributionPoint level: a point carrying both
/// name forms encodes exactly as the same point without its relative name.
pub proof fn lemma_distribution_point_full_precedence(dp: DistributionPoint)
    requires
        dp.full_name is Some,
    ensures
        spec_distribution_point_der(dp) == spec_distribution_point_der(
            DistributionPoint {
                full_name: dp.full_name,
                relative_name: None,
                reasons: dp.reasons,
                crl_issuer: dp.crl_issuer,
            },
        ),
{
}

/// Mutual exclusivity at the IssuingDistributionPoint level, identically.
pub proof fn lemma_idp_full_precedence(idp: IssuingDistributionPoint)
    requires
        idp.full_name is Some,
    ensures
        spec_idp_der(idp) == spec_idp_der(
            IssuingDistributionPoint {
                full_name: idp.full_name,
                relative_name: None,
                only_contains_user_certs: idp.only_contains_user_certs,
                only_contains_ca_certs: idp.only_contains_ca_certs,
                only_some_reasons: idp.only_some_reasons,
                indirect_crl: idp.indirect_crl,
                only_contains_attribute_certs: idp.only_contains_attribute_certs,
            },
        ),
{
}

// ---- executable encoders -------------------------------------------------------

/// Encode the optional distributionPoint name field, preferring FullName.
fn encode_dp_name(full: &Option<Vec<GeneralName>>, rel: &Option<Vec<NameEntry>>) -> (r: Vec<u8>)
    ensures
        r@ == spec_dp_name_field(*full, *rel),
{
    match full {
        Some(gns) => {
            let c = general_names_content(gns);
            let choice = der_tlv(0xa0, &c);
            der_tlv(0xa0, &choice)
        },
        None => match rel {
            Some(es) => {
                // bring the pre-encoded entries into DER SET OF order
                let mut sorted: Vec<Vec<u8>> = Vec::new();
                let mut i: usize = 0;
                while i < es.len()
                    invariant
                        i <= es@.len(),
                        sorted@.map_values(|b: Vec<u8>| b@) == spec_set_sort(
                            spec_name_entry_views(es@.take(i as int)),
                        ),
                    decreases es@.len() - i,
                {
                    let mut e: Vec<u8> = Vec::new();
                    append_bytes(&mut e, &es[i].der);
                    proof {
                        assert(e@ =~= es@[i as int].der@);
                    }
                    let mut j: usize = 0;
                    let mut stop = false;
                    while !stop && j < sorted.len()
                        invariant
                            j <= sorted@.len(),
                            forall|k: int| 0 <= k < j ==> !spec_bytes_lt(e@, #[trigger] sorted@[k]@),
                            stop ==> j < sorted@.len() && spec_bytes_lt(e@, sorted@[j as int]@),
                        decreases 2 * (sorted@.len() - j) + (if stop {
                            0int
                        } else {
                            1int
                        }),
                    {
                        if bytes_lt(&e, &sorted[j]) {
                            stop = true;
                        } else {
                            j = j + 1;
                        }
                    }
                    let ghost views_before = sorted@.map_values(|b: Vec<u8>| b@);
                    let ghost ev = e@;
                    proof {
                        assert forall|k: int| 0 <= k < j implies !spec_bytes_lt(
                            ev,
                            views_before[k],
                        ) by {
                            assert(views_before[k] == sorted@[k]@);
                        }
                        if (j as int) < views_before.len() {
                            assert(views_before[j as int] == sorted@[j as int]@);
                        }
                    }
                    sorted.insert(j, e);
                    proof {
                        lemma_set_insert_at(views_before, ev, j as int);
                        assert(sorted@.map_values(|b: Vec<u8>| b@) =~= views_before.insert(
                            j as int,
                            ev,
                        ));
                        assert(spec_name_entry_views(es@.take(i as int + 1))
                            =~= spec_name_entry_views(es@.take(i as int)).push(es@[i as int].der@));
                        assert(spec_name_entry_views(es@.take(i as int + 1)).drop_last()
                            =~= spec_name_entry_views(es@.take(i as int)));
                    }
                    i = i + 1;
                }
                proof {
                    assert(es@.take(es@.len() as int) =~= es@);
                }
                // concatenate the ordered entries
                let mut c: Vec<u8> = Vec::new();
                let mut k: usize = 0;
                while k < sorted.len()
                    invariant
                        k <= sorted@.len(),
                        sorted@.map_values(|b: Vec<u8>| b@) == spec_set_sort(
                            spec_name_entry_views(es@),
                        ),
                        c@ == spec_concat_map(
                            sorted@.map_values(|b: Vec<u8>| b@).take(k as int),
                            |b: Seq<u8>| b,
                        ),
                    decreases sorted@.len() - k,
                {
                    append_bytes(&mut c, &sorted[k]);
                    proof {
                        let views = sorted@.map_values(|b: Vec<u8>| b@);
                        assert(views[k as int] == sorted@[k as int]@);
                        assert(views.take(k as int).push(views[k as int]) =~= views.take(
                        k as int + 1));
                        lemma_concat_map_push(views.take(k as int), |b: Seq<u8>| b, views[k as int]);
                    }
                    k = k + 1;
                }
                proof {
                    let views = sorted@.map_values(|b: Vec<u8>| b@);
                    assert(views.take(views.len() as int) =~= views);
                }
                let choice = der_tlv(0xa1, &c);
                der_tlv(0xa0, &choice)
            },
            None => Vec::new(),
        },
    }
}

/// Encode a reason-flags BIT STRING under the given implicit tag.
fn encode_reason_flags(tag: u8, rf: &ReasonFlags) -> (r: Vec<u8>)
    ensures
        r@ == spec_reason_flags_field(tag, *rf),
{
    let mut c: Vec<u8> = Vec::new();
    c.push(rf.unused);
    append_bytes(&mut c, &rf.data);
    proof {
        assert(c@ =~= seq![rf.unused] + rf.data@);
    }
    der_tlv(tag, &c)
}

/// Encode one DistributionPoint.
pub fn encode_distribution_point(dp: &DistributionPoint) -> (r: Vec<u8>)
    ensures
        r@ == spec_distribution_point_der(*dp),
{
    let mut content = encode_dp_name(&dp.full_name, &dp.relative_name);
    match &dp.reasons {
        Some(rf) => {
            let e = encode_reason_flags(0x81, rf);
            append_bytes(&mut content, &e);
        },
        None => {},
    }
    match &dp.crl_issuer {
        Some(gns) => {
            let c = general_names_content(gns);
            let e = der_tlv(0xa2, &c);
            append_bytes(&mut content, &e);
        },
        None => {},
    }
    proof {
        assert(content@ =~= spec_dp_name_field(dp.full_name, dp.relative_name) + (
        match dp.reasons {
            Some(rf) => spec_reason_flags_field(0x81, rf),
            None => Seq::<u8>::empty(),
        }) + (match dp.crl_issuer {
            Some(gns) => spec_tlv(0xa2, spec_general_names_content(gns@)),
            None => Seq::<u8>::empty(),
        }));
    }
    der_tlv(0x30, &content)
}

/// Encode a SEQUENCE OF DistributionPoint.
pub fn encode_distribution_points(dps: &Vec<DistributionPoint>) -> (r: Vec<u8>)
    ensures
        r@ == spec_distribution_points_der(dps@),
{
    let mut content: Vec<u8> = Vec::new();
    let mut i: usize = 0;
    while i < dps.len()
        invariant
            i <= dps@.len(),
            content@ == spec_distribution_points_content(dps@.take(i as int)),
        decreases dps@.len() - i,
    {
        let e = encode_distribution_point(&dps[i]);
        append_bytes(&mut content, &e);
        proof {
            assert(dps@.take(i as int).push(dps@[i as int]) =~= dps@.take(i as int + 1));
            lemma_concat_map_push(
                dps@.take(i as int),
                |dp: DistributionPoint| spec_distribution_point_der(dp),
                dps@[i as int],
            );
        }
        i = i + 1;
    }
    proof {
        assert(dps@.take(dps@.len() as int) =~= dps@);
    }
    der_tlv(0x30, &content)
}

/// Encode an IssuingDistributionPoint.
pub fn encode_issuing_distribution_point(idp: &IssuingDistributionPoint) -> (r: Vec<u8>)
    ensures
        r@ == spec_idp_der(*idp),
{
    let mut content = encode_dp_name(&idp.full_name, &idp.relative_name);
    if idp.only_contains_user_certs {
        let mut c: Vec<u8> = Vec::new();
        c.push(0xff);
        let e = der_tlv(0x81, &c);
        append_bytes(&mut content, &e);
        proof {
            assert(c@ =~= seq![0xffu8]);
        }
    }
    if idp.only_contains_ca_certs {
        let mut c: Vec<u8> = Vec::new();
        c.push(0xff);
        let e = der_tlv(0x82, &c);
        append_bytes(&mut content, &e);
        proof {
            assert(c@ =~= seq![0xffu8]);
        }
    }
    match &idp.only_some_reasons {
        Some(rf) => {
            let e = encode_reason_flags(0x83, rf);
            append_bytes(&mut content, &e);
        },
        None => {},
    }
    if idp.indirect_crl {
        let mut c: Vec<u8> = Vec::new();
        c.push(0xff);
        let e = der_tlv(0x84, &c);
        append_bytes(&mut content, &e);
        proof {
            assert(c@ =~= seq![0xffu8]);
        }
    }
    if idp.only_contains_attribute_certs {
        let mut c: Vec<u8> = Vec::new();
        c.push(0xff);
        let e = der_tlv(0x85, &c);
        append_bytes(&mut content, &e);
        proof {
            assert(c@ =~= seq![0xffu8]);
        }
    }
    proof {
        assert(content@ =~= spec_idp_content(*idp));
    }
    der_tlv(0x30, &content)
}

/// Order preservation for distribution-point lists.
pub proof fn lemma_distribution_points_order(a: Seq<DistributionPoint>, b: Seq<DistributionPoint>)
    ensures
        spec_distribution_points_content(a + b) == spec_distribution_points_content(a)
            + spec_distribution_points_content(b),
{
    lemma_concat_map_append(a, b, |dp: DistributionPoint| spec_distribution_point_der(dp));
}

} // verus!
