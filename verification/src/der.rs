use vstd::prelude::*;

verus! {

// ============================================================================
// Specification of the DER byte format for the primitives this crate composes.
//
// DER (the Distinguished Encoding Rules) assigns exactly one byte sequence to
// each abstract value: every element is a tag octet, followed by the shortest
// possible length octets, followed by the content octets.
// ============================================================================

/// Minimal big-endian byte representation of `n`; empty for `n == 0`.
pub open spec fn spec_be_bytes(n: nat) -> Seq<u8>
    decreases n,
{
    if n == 0 {
        Seq::empty()
    } else {
        spec_be_bytes(n / 256).push((n % 256) as u8)
    }
}

/// 256 to the power `k`; used to bound the length of `spec_be_bytes`.
pub open spec fn pow256(k: nat) -> nat
    decreases k,
{
    if k == 0 {
        1
    } else {
        256 * pow256((k - 1) as nat)
    }
}

/// DER length octets for a content of `n` bytes: one octet below 128 (short
/// form), otherwise `0x80 + count` followed by the minimal big-endian count.
pub open spec fn spec_der_len(n: nat) -> Seq<u8> {
    if n < 128 {
        seq![n as u8]
    } else {
        seq![(0x80 + spec_be_bytes(n).len()) as u8] + spec_be_bytes(n)
    }
}

/// A complete DER element: tag, length octets, content octets.
pub open spec fn spec_tlv(tag: u8, content: Seq<u8>) -> Seq<u8> {
    seq![tag] + spec_der_len(content.len() as nat) + content
}

/// Content octets of an ASN.1 INTEGER holding the non-negative value whose
/// minimal big-endian bytes are `be` (`be` empty stands for zero): a leading
/// zero octet is inserted exactly when the top bit would read as a sign bit.
pub open spec fn spec_uint_content_of_bytes(be: Seq<u8>) -> Seq<u8> {
    if be.len() == 0 {
        seq![0u8]
    } else if be[0] >= 0x80 {
        seq![0u8] + be
    } else {
        be
    }
}

/// Content octets of an ASN.1 INTEGER holding the non-negative value `n`.
pub open spec fn spec_uint_content(n: nat) -> Seq<u8> {
    spec_uint_content_of_bytes(spec_be_bytes(n))
}

// ---- whole elements -------------------------------------------------------

pub open spec fn spec_der_bool(b: bool) -> Seq<u8> {
    spec_tlv(0x01, seq![if b { 0xffu8 } else { 0x00u8 }])
}

pub open spec fn spec_der_null() -> Seq<u8> {
    spec_tlv(0x05, Seq::empty())
}

/// INTEGER from a machine integer.
pub open spec fn spec_der_uint(n: nat) -> Seq<u8> {
    spec_tlv(0x02, spec_uint_content(n))
}

/// INTEGER from the minimal big-endian bytes of an arbitrary-precision
/// non-negative integer.
pub open spec fn spec_der_big_uint(be: Seq<u8>) -> Seq<u8> {
    spec_tlv(0x02, spec_uint_content_of_bytes(be))
}

/// ENUMERATED; same content form as INTEGER, tag 0x0a.
pub open spec fn spec_der_enumerated(n: nat) -> Seq<u8> {
    spec_tlv(0x0a, spec_uint_content(n))
}

/// BIT STRING: the unused-bit count octet, then the content octets.
pub open spec fn spec_der_bit_string(content: Seq<u8>, unused: u8) -> Seq<u8> {
    spec_tlv(0x03, seq![unused] + content)
}

pub open spec fn spec_der_octet_string(b: Seq<u8>) -> Seq<u8> {
    spec_tlv(0x04, b)
}

/// OBJECT IDENTIFIER whose content octets are `der`.
pub open spec fn spec_der_oid(der: Seq<u8>) -> Seq<u8> {
    spec_tlv(0x06, der)
}

/// IA5String over bytes of the ASCII repertoire.
pub open spec fn spec_der_ia5(b: Seq<u8>) -> Seq<u8> {
    spec_tlv(0x16, b)
}

/// UTF8String over UTF-8 encoded bytes.
pub open spec fn spec_der_utf8(b: Seq<u8>) -> Seq<u8> {
    spec_tlv(0x0c, b)
}

/// SEQUENCE (or SEQUENCE OF) with the given content octets.
pub open spec fn spec_der_sequence(content: Seq<u8>) -> Seq<u8> {
    spec_tlv(0x30, content)
}

/// Concatenation, in order, of the encodings `f` gives to the elements of a
/// list. Every SEQUENCE OF / SET OF / length-prefixed list in this crate is a
/// `spec_concat_map`, so output element order always equals input order.
pub open spec fn spec_concat_map<T>(s: Seq<T>, f: spec_fn(T) -> Seq<u8>) -> Seq<u8>
    decreases s.len(),
{
    if s.len() == 0 {
        Seq::empty()
    } else {
        spec_concat_map(s.drop_last(), f) + f(s.last())
    }
}

/// Byte-wise lexicographic order, shorter prefixes first: the order DER
/// demands of SET OF elements.
pub open spec fn spec_bytes_lt(a: Seq<u8>, b: Seq<u8>) -> bool
    decreases a.len(),
{
    if b.len() == 0 {
        false
    } else if a.len() == 0 {
        true
    } else if a[0] < b[0] {
        true
    } else if a[0] > b[0] {
        false
    } else {
        spec_bytes_lt(a.drop_first(), b.drop_first())
    }
}

/// Insert an encoded element before the first strictly greater one, after
/// any equal one: a stable insertion step.
pub open spec fn spec_set_insert(s: Seq<Seq<u8>>, e: Seq<u8>) -> Seq<Seq<u8>>
    decreases s.len(),
{
    if s.len() == 0 {
        seq![e]
    } else if spec_bytes_lt(e, s[0]) {
        seq![e] + s
    } else {
        seq![s[0]] + spec_set_insert(s.drop_first(), e)
    }
}

/// Stable insertion sort of encoded elements into DER SET OF order.
pub open spec fn spec_set_sort(s: Seq<Seq<u8>>) -> Seq<Seq<u8>>
    decreases s.len(),
{
    if s.len() == 0 {
        Seq::empty()
    } else {
        spec_set_insert(spec_set_sort(s.drop_last()), s.last())
    }
}

// ---- lemmas ----------------------------------------------------------------

/// Inserting at the first position holding a strictly greater element is
/// what `spec_set_insert` does.
pub proof fn lemma_set_insert_at(s: Seq<Seq<u8>>, e: Seq<u8>, j: int)
    requires
        0 <= j <= s.len(),
        forall|k: int| 0 <= k < j ==> !spec_bytes_lt(e, s[k]),
        j < s.len() ==> spec_bytes_lt(e, s[j]),
    ensures
        spec_set_insert(s, e) == s.insert(j, e),
    decreases s.len(),
{
    if s.len() == 0 {
        assert(seq![e] =~= s.insert(0, e));
    } else if j == 0 {
        assert(spec_bytes_lt(e, s[0]));
        assert(seq![e] + s =~= s.insert(0, e));
    } else {
        assert(!spec_bytes_lt(e, s[0]));
        assert forall|k: int| 0 <= k < j - 1 implies !spec_bytes_lt(e, s.drop_first()[k]) by {
            assert(s.drop_first()[k] == s[k + 1]);
        }
        if j - 1 < s.drop_first().len() {
            assert(s.drop_first()[j - 1] == s[j]);
        }
        lemma_set_insert_at(s.drop_first(), e, j - 1);
        assert(seq![s[0]] + s.drop_first().insert(j - 1, e) =~= s.insert(j, e));
    }
}

pub proof fn lemma_concat_map_push<T>(s: Seq<T>, f: spec_fn(T) -> Seq<u8>, e: T)
    ensures
        spec_concat_map(s.push(e), f) == spec_concat_map(s, f) + f(e),
{
    assert(s.push(e).drop_last() =~= s);
    assert(s.push(e).last() == e);
}

/// Concatenation distributes over appending of element lists: the encodings
/// of the first list form an unchanged prefix, those of the second follow.
pub proof fn lemma_concat_map_append<T>(a: Seq<T>, b: Seq<T>, f: spec_fn(T) -> Seq<u8>)
    ensures
        spec_concat_map(a + b, f) == spec_concat_map(a, f) + spec_concat_map(b, f),
    decreases b.len(),
{
    if b.len() == 0 {
        assert(a + b =~= a);
        assert(spec_concat_map(a, f) + spec_concat_map(b, f) =~= spec_concat_map(a, f));
    } else {
        lemma_concat_map_append(a, b.drop_last(), f);
        assert((a + b).drop_last() =~= a + b.drop_last());
        assert((a + b).last() == b.last());
        assert(spec_concat_map(a, f) + spec_concat_map(b.drop_last(), f) + f(b.last())
            =~= spec_concat_map(a, f) + (spec_concat_map(b.drop_last(), f) + f(b.last())));
    }
}

pub proof fn lemma_be_bytes_len(n: nat, k: nat)
    requires
        n < pow256(k),
    ensures
        spec_be_bytes(n).len() <= k,
    decreases k,
{
    if n > 0 {
        assert(pow256(0) == 1);
        assert(k > 0);
        assert(n / 256 < pow256((k - 1) as nat)) by (nonlinear_arith)
            requires
                n < pow256(k),
                pow256(k) == 256 * pow256((k - 1) as nat),
        ;
        lemma_be_bytes_len(n / 256, (k - 1) as nat);
    }
}

/// Any usize-sized length has at most 8 big-endian bytes.
pub proof fn lemma_be_bytes_len8(n: nat)
    requires
        n <= 0xFFFF_FFFF_FFFF_FFFF,
    ensures
        spec_be_bytes(n).len() <= 8,
{
    reveal_with_fuel(pow256, 9);
    assert(pow256(8) == 0x1_0000_0000_0000_0000);
    lemma_be_bytes_len(n, 8);
}

// ============================================================================
// Executable builders, each proved to produce exactly the bytes of its spec.
// ============================================================================

/// Append all bytes of `b` to `out`.
pub fn append_bytes(out: &mut Vec<u8>, b: &Vec<u8>)
    ensures
        final(out)@ == old(out)@ + b@,
{
    let mut i: usize = 0;
    while i < b.len()
        invariant
            i <= b@.len(),
            out@ == old(out)@ + b@.take(i as int),
        decreases b@.len() - i,
    {
        out.push(b[i]);
        proof {
            assert(old(out)@ + b@.take(i as int) + seq![b@[i as int]] =~= old(out)@ + b@.take(
            i as int + 1));
        }
        i = i + 1;
    }
    proof {
        assert(b@.take(b@.len() as int) =~= b@);
    }
}

/// Lexicographic comparison of two byte strings.
pub fn bytes_lt(a: &Vec<u8>, b: &Vec<u8>) -> (r: bool)
    ensures
        r == spec_bytes_lt(a@, b@),
{
    proof {
        assert(a@.skip(0) =~= a@);
        assert(b@.skip(0) =~= b@);
    }
    let mut i: usize = 0;
    while i < a.len() && i < b.len()
        invariant
            i <= a@.len(),
            i <= b@.len(),
            spec_bytes_lt(a@, b@) == spec_bytes_lt(a@.skip(i as int), b@.skip(i as int)),
        decreases a@.len() - i,
    {
        if a[i] < b[i] {
            proof {
                assert(spec_bytes_lt(a@.skip(i as int), b@.skip(i as int)));
            }
            return true;
        }
        if a[i] > b[i] {
            proof {
                assert(!spec_bytes_lt(a@.skip(i as int), b@.skip(i as int)));
            }
            return false;
        }
        proof {
            assert(a@.skip(i as int).drop_first() =~= a@.skip(i as int + 1));
            assert(b@.skip(i as int).drop_first() =~= b@.skip(i as int + 1));
        }
        i = i + 1;
    }
    // the common prefix is equal: the shorter operand is the smaller one
    let r = a.len() < b.len();
    proof {
        assert(a@.skip(i as int).len() == 0 || b@.skip(i as int).len() == 0);
    }
    r
}

/// Minimal big-endian bytes of `n`.
pub fn be_bytes(n: usize) -> (r: Vec<u8>)
    ensures
        r@ == spec_be_bytes(n as nat),
{
    let mut digits: Vec<u8> = Vec::new();
    let mut m: usize = n;
    while m > 0
        invariant
            spec_be_bytes(n as nat) == spec_be_bytes(m as nat) + digits@,
        decreases m,
    {
        digits.insert(0, (m % 256) as u8);
        proof {
            assert(spec_be_bytes(m as nat) == spec_be_bytes((m as nat) / 256).push(
            ((m as nat) % 256) as u8));
            assert(spec_be_bytes((m as nat) / 256) + digits@.insert(0, (m % 256) as u8)
                =~= spec_be_bytes(m as nat) + digits@);
        }
        m = m / 256;
    }
    proof {
        assert(spec_be_bytes(0nat) + digits@ =~= digits@);
    }
    digits
}

/// Append the DER length octets for a content of `n` bytes.
pub fn write_len(out: &mut Vec<u8>, n: usize)
    ensures
        final(out)@ == old(out)@ + spec_der_len(n as nat),
{
    if n < 128 {
        out.push(n as u8);
        proof {
            assert(out@ =~= old(out)@ + spec_der_len(n as nat));
        }
    } else {
        let digits = be_bytes(n);
        proof {
            assert(n as nat <= 0xFFFF_FFFF_FFFF_FFFF);
            lemma_be_bytes_len8(n as nat);
        }
        out.push(0x80 + digits.len() as u8);
        append_bytes(out, &digits);
        proof {
            assert(out@ =~= old(out)@ + spec_der_len(n as nat));
        }
    }
}

/// Build a complete DER element from a tag and its content octets.
pub fn der_tlv(tag: u8, content: &Vec<u8>) -> (r: Vec<u8>)
    ensures
        r@ == spec_tlv(tag, content@),
{
    let mut out: Vec<u8> = Vec::new();
    out.push(tag);
    write_len(&mut out, content.len());
    append_bytes(&mut out, content);
    proof {
        assert(out@ =~= spec_tlv(tag, content@));
    }
    out
}

/// Encode an ASN.1 BOOLEAN.
pub fn der_bool(b: bool) -> (r: Vec<u8>)
    ensures
        r@ == spec_der_bool(b),
{
    let mut content: Vec<u8> = Vec::new();
    content.push(if b { 0xff } else { 0x00 });
    let r = der_tlv(0x01, &content);
    proof {
        assert(content@ =~= seq![if b { 0xffu8 } else { 0x00u8 }]);
    }
    r
}

/// Encode an ASN.1 NULL (zero-length content).
pub fn der_null() -> (r: Vec<u8>)
    ensures
        r@ == spec_der_null(),
{
    let content: Vec<u8> = Vec::new();
    let r = der_tlv(0x05, &content);
    proof {
        assert(content@ =~= Seq::<u8>::empty());
    }
    r
}

/// INTEGER content octets from minimal big-endian bytes.
pub fn uint_content_of_bytes(be: &Vec<u8>) -> (r: Vec<u8>)
    ensures
        r@ == spec_uint_content_of_bytes(be@),
{
    let mut content: Vec<u8> = Vec::new();
    if be.len() == 0 {
        content.push(0x00);
        proof {
            assert(content@ =~= spec_uint_content_of_bytes(be@));
        }
    } else if be[0] >= 0x80 {
        content.push(0x00);
        append_bytes(&mut content, be);
        proof {
            assert(content@ =~= spec_uint_content_of_bytes(be@));
        }
    } else {
        append_bytes(&mut content, be);
        proof {
            assert(content@ =~= spec_uint_content_of_bytes(be@));
        }
    }
    content
}

/// Encode an ASN.1 INTEGER from the minimal big-endian bytes of an
/// arbitrary-precision non-negative integer.
pub fn der_big_uint(be: &Vec<u8>) -> (r: Vec<u8>)
    ensures
        r@ == spec_der_big_uint(be@),
{
    let content = uint_content_of_bytes(be);
    der_tlv(0x02, &content)
}

/// Encode an ASN.1 INTEGER from a machine integer.
pub fn der_uint(n: u64) -> (r: Vec<u8>)
    ensures
        r@ == spec_der_uint(n as nat),
{
    let be = be_bytes_u64(n);
    let content = uint_content_of_bytes(&be);
    der_tlv(0x02, &content)
}

/// Minimal big-endian bytes of a u64.
pub fn be_bytes_u64(n: u64) -> (r: Vec<u8>)
    ensures
        r@ == spec_be_bytes(n as nat),
{
    let mut digits: Vec<u8> = Vec::new();
    let mut m: u64 = n;
    while m > 0
        invariant
            spec_be_bytes(n as nat) == spec_be_bytes(m as nat) + digits@,
        decreases m,
    {
        digits.insert(0, (m % 256) as u8);
        proof {
            assert(spec_be_bytes(m as nat) == spec_be_bytes((m as nat) / 256).push(
            ((m as nat) % 256) as u8));
            assert(spec_be_bytes((m as nat) / 256) + digits@.insert(0, (m % 256) as u8)
                =~= spec_be_bytes(m as nat) + digits@);
        }
        m = m / 256;
    }
    proof {
        assert(spec_be_bytes(0nat) + digits@ =~= digits@);
    }
    digits
}

/// INTEGER content octets from a machine integer.
pub fn uint_content_u64(n: u64) -> (r: Vec<u8>)
    ensures
        r@ == spec_uint_content(n as nat),
{
    let be = be_bytes_u64(n);
    uint_content_of_bytes(&be)
}

/// Encode an ASN.1 ENUMERATED from a machine integer.
pub fn der_enumerated(n: u64) -> (r: Vec<u8>)
    ensures
        r@ == spec_der_enumerated(n as nat),
{
    let be = be_bytes_u64(n);
    let content = uint_content_of_bytes(&be);
    der_tlv(0x0a, &content)
}

/// Encode an ASN.1 BIT STRING from content octets and an unused-bit count.
pub fn der_bit_string(content: &Vec<u8>, unused: u8) -> (r: Vec<u8>)
    ensures
        r@ == spec_der_bit_string(content@, unused),
{
    let mut c: Vec<u8> = Vec::new();
    c.push(unused);
    append_bytes(&mut c, content);
    proof {
        assert(c@ =~= seq![unused] + content@);
    }
    der_tlv(0x03, &c)
}

/// Encode an ASN.1 OCTET STRING.
pub fn der_octet_string(b: &Vec<u8>) -> (r: Vec<u8>)
    ensures
        r@ == spec_der_octet_string(b@),
{
    der_tlv(0x04, b)
}

} // verus!
