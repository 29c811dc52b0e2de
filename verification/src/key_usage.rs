use vstd::prelude::*;

use crate::der::spec_der_bit_string;
use crate::der::der_bit_string;
use crate::values::KeyUsage;

verus! {

// ============================================================================
// KeyUsage: nine named flags packed into a BIT STRING, MSB-first within each
// octet (bit 0 = digital_signature ... bit 8 = decipher_only), then trimmed to
// DER's minimal form: a trailing all-zero octet is dropped, and the unused-bit
// count is the number of trailing zero bits of the last retained octet.
// ============================================================================

/// First content octet: bits 0 through 7. The encipher_only bit is consulted
/// only when key_agreement is set.
pub open spec fn spec_ku_byte0(ku: KeyUsage) -> u8 {
    (if ku.digital_signature {
        0x80u8
    } else {
        0u8
    }) | (if ku.content_commitment {
        0x40u8
    } else {
        0u8
    }) | (if ku.key_encipherment {
        0x20u8
    } else {
        0u8
    }) | (if ku.data_encipherment {
        0x10u8
    } else {
        0u8
    }) | (if ku.key_agreement {
        0x08u8
    } else {
        0u8
    }) | (if ku.key_cert_sign {
        0x04u8
    } else {
        0u8
    }) | (if ku.crl_sign {
        0x02u8
    } else {
        0u8
    }) | (if ku.key_agreement && ku.encipher_only {
        0x01u8
    } else {
        0u8
    })
}

/// Second content octet: bit 8 (decipher_only), consulted only when
/// key_agreement is set.
pub open spec fn spec_ku_byte1(ku: KeyUsage) -> u8 {
    if ku.key_agreement && ku.decipher_only {
        0x80u8
    } else {
        0u8
    }
}

/// The number of trailing zero bits of an octet (8 for zero).
pub open spec fn spec_trailing_zeros(b: u8) -> u8 {
    if b & 0x01 != 0 {
        0
    } else if b & 0x02 != 0 {
        1
    } else if b & 0x04 != 0 {
        2
    } else if b & 0x08 != 0 {
        3
    } else if b & 0x10 != 0 {
        4
    } else if b & 0x20 != 0 {
        5
    } else if b & 0x40 != 0 {
        6
    } else if b & 0x80 != 0 {
        7
    } else {
        8
    }
}

/// Content octets after DER trimming: drop the second octet when it is zero,
/// and the first too when both are.
pub open spec fn spec_ku_content(ku: KeyUsage) -> Seq<u8> {
    if spec_ku_byte1(ku) == 0 {
        if spec_ku_byte0(ku) == 0 {
            Seq::empty()
        } else {
            seq![spec_ku_byte0(ku)]
        }
    } else {
        seq![spec_ku_byte0(ku), spec_ku_byte1(ku)]
    }
}

/// Unused-bit count of the trimmed bit string: the trailing zero bits of the
/// last retained octet, or zero for the empty bit string.
pub open spec fn spec_ku_unused(ku: KeyUsage) -> u8 {
    if spec_ku_byte1(ku) == 0 {
        if spec_ku_byte0(ku) == 0 {
            0
        } else {
            spec_trailing_zeros(spec_ku_byte0(ku))
        }
    } else {
        spec_trailing_zeros(spec_ku_byte1(ku))
    }
}

/// The full DER element for a KeyUsage value.
pub open spec fn spec_key_usage_der(ku: KeyUsage) -> Seq<u8> {
    spec_der_bit_string(spec_ku_content(ku), spec_ku_unused(ku))
}

fn trailing_zeros_u8(b: u8) -> (r: u8)
    ensures
        r == spec_trailing_zeros(b),
{
    if b & 0x01 != 0 {
        0
    } else if b & 0x02 != 0 {
        1
    } else if b & 0x04 != 0 {
        2
    } else if b & 0x08 != 0 {
        3
    } else if b & 0x10 != 0 {
        4
    } else if b & 0x20 != 0 {
        5
    } else if b & 0x40 != 0 {
        6
    } else if b & 0x80 != 0 {
        7
    } else {
        8
    }
}

/// Encode a KeyUsage value as its canonical DER BIT STRING.
pub fn encode_key_usage(ku: &KeyUsage) -> (r: Vec<u8>)
    ensures
        r@ == spec_key_usage_der(*ku),
{
    let b0: u8 = (if ku.digital_signature {
        0x80u8
    } else {
        0u8
    }) | (if ku.content_commitment {
        0x40u8
    } else {
        0u8
    }) | (if ku.key_encipherment {
        0x20u8
    } else {
        0u8
    }) | (if ku.data_encipherment {
        0x10u8
    } else {
        0u8
    }) | (if ku.key_agreement {
        0x08u8
    } else {
        0u8
    }) | (if ku.key_cert_sign {
        0x04u8
    } else {
        0u8
    }) | (if ku.crl_sign {
        0x02u8
    } else {
        0u8
    }) | (if ku.key_agreement && ku.encipher_only {
        0x01u8
    } else {
        0u8
    });
    let b1: u8 = if ku.key_agreement && ku.decipher_only {
        0x80u8
    } else {
        0u8
    };
    let mut content: Vec<u8> = Vec::new();
    let unused: u8;
    if b1 == 0 {
        if b0 == 0 {
            unused = 0;
        } else {
            content.push(b0);
            unused = trailing_zeros_u8(b0);
        }
    } else {
        content.push(b0);
        content.push(b1);
        unused = trailing_zeros_u8(b1);
    }
    proof {
        assert(content@ =~= spec_ku_content(*ku));
    }
    der_bit_string(&content, unused)
}

/// What the trailing-zero count means for a non-zero octet: the bit just
/// above the counted padding is set, and the padding bits themselves are all
/// zero. Together with `lemma_key_usage_canonical` this pins the unused-bit
/// count as exactly the zero padding after the last set bit.
pub proof fn lemma_trailing_zeros_padding(b: u8)
    ensures
        b != 0 ==> (b >> spec_trailing_zeros(b)) & 1 == 1,
        b & (((1u8 << spec_trailing_zeros(b)) - 1) as u8) == 0,
{
    assert(b != 0 ==> (b >> spec_trailing_zeros(b)) & 1 == 1) by (bit_vector);
    assert(b & (((1u8 << spec_trailing_zeros(b)) - 1) as u8) == 0) by (bit_vector);
}

/// Canonical-minimality of the KeyUsage BIT STRING, for every combination of
/// flags: the content has no trailing zero octet; the unused-bit count equals
/// the number of trailing zero bits after the last set bit; and when no bit
/// is set at all, the bit string is zero-length with unused-bit count zero.
pub proof fn lemma_key_usage_canonical(ku: KeyUsage)
    ensures
        spec_ku_content(ku).len() > 0 ==> spec_ku_content(ku).last() != 0,
        spec_ku_content(ku).len() > 0 ==> spec_ku_unused(ku) == spec_trailing_zeros(
            spec_ku_content(ku).last(),
        ),
        spec_ku_byte0(ku) == 0 && spec_ku_byte1(ku) == 0 ==> spec_key_usage_der(ku)
            == spec_der_bit_string(Seq::<u8>::empty(), 0),
{
}

} // verus!
