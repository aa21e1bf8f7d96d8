//! Content identifiers: the MD5 digest of the bytes, written in Crockford's
//! base-32 alphabet.

use vstd::prelude::*;

verus! {

/// The 32 symbols of Crockford's alphabet by value: digits, then capital
/// letters without `I`, `L`, `O` and `U`.
pub open spec fn crockford_alphabet() -> Seq<char> {
    seq![
        '0', '1', '2', '3', '4', '5', '6', '7', '8', '9', 'A', 'B', 'C', 'D', 'E', 'F',
        'G', 'H', 'J', 'K', 'M', 'N', 'P', 'Q', 'R', 'S', 'T', 'V', 'W', 'X', 'Y', 'Z',
    ]
}

/// The weight of the bit at position `j` of a byte, counted from the most
/// significant bit.
pub open spec fn bit_weight(j: int) -> int {
    if j == 0 {
        128
    } else if j == 1 {
        64
    } else if j == 2 {
        32
    } else if j == 3 {
        16
    } else if j == 4 {
        8
    } else if j == 5 {
        4
    } else if j == 6 {
        2
    } else {
        1
    }
}

/// Bit `j` of a byte, counted from the most significant bit.
pub open spec fn bit_of(byte: u8, j: int) -> int {
    (byte as int / bit_weight(j)) % 2
}

/// Bit `k` of `data` read as one stream, most significant bit of the first
/// byte first. Past the end the stream continues with zeros.
pub open spec fn bit_at(data: Seq<u8>, k: int) -> int {
    if 0 <= k < 8 * data.len() {
        bit_of(data[k / 8], k % 8)
    } else {
        0
    }
}

/// The value of the `i`-th group of five bits of the stream.
pub open spec fn quintet(data: Seq<u8>, i: int) -> int {
    16 * bit_at(data, 5 * i) + 8 * bit_at(data, 5 * i + 1) + 4 * bit_at(data, 5 * i + 2) + 2
        * bit_at(data, 5 * i + 3) + bit_at(data, 5 * i + 4)
}

/// The number of symbols that encode `n` bytes: one for every five bits
/// begun.
pub open spec fn crockford_len(n: nat) -> nat {
    ((8 * n + 4) / 5) as nat
}

/// The unpadded base-32 encoding of `data` in Crockford's alphabet: one
/// symbol per group of five bits, the last group filled up with zeros.
pub open spec fn crockford_base32(data: Seq<u8>) -> Seq<char> {
    Seq::new(crockford_len(data.len()), |i: int| crockford_alphabet()[quintet(data, i)])
}

/// The MD5 digest of `data`, as the `md5` crate computes it.
pub uninterp spec fn md5_digest(data: Seq<u8>) -> Seq<u8>;

/// The identifier of `data`: its digest in Crockford's base 32.
pub open spec fn content_id(data: Seq<u8>) -> Seq<char> {
    crockford_base32(md5_digest(data))
}

/// Calls `md5::compute`. Trusted: the sixteen bytes returned are the digest
/// that the crate computes, which depends on the bytes given and on nothing
/// else.
#[verifier::external_body]
fn md5_compute(data: &[u8]) -> (digest: [u8; 16])
    ensures
        digest@ == md5_digest(data@),
{
    md5::compute(data).0
}

/// Calls `base32::encode` with `base32::Alphabet::Crockford` on a digest.
/// Trusted: the text returned is the unpadded base-32 encoding of the
/// sixteen bytes, five bits to a symbol from the first byte's most
/// significant bit on, the symbols taken from Crockford's alphabet.
#[verifier::external_body]
fn base32_encode_crockford(digest: &[u8; 16]) -> (text: String)
    ensures
        text@ == crockford_base32(digest@),
{
    base32::encode(base32::Alphabet::Crockford, digest)
}

/// A digest together with the identifier that names it.
#[derive(Debug)]
pub struct ContentId {
    /// The MD5 digest, for the storage service to check what it received.
    pub digest: [u8; 16],
    /// The digest in Crockford's base 32, for use in object names.
    pub text: String,
}

/// Writes a digest as an identifier.
pub fn identifier_of_digest(digest: &[u8; 16]) -> (text: String)
    ensures
        text@ == crockford_base32(digest@),
{
    base32_encode_crockford(digest)
}

/// Computes the content identifier of `bytes`.
pub fn content_identifier(bytes: &[u8]) -> (id: ContentId)
    ensures
        id.digest@ == md5_digest(bytes@),
        id.text@ == content_id(bytes@),
{
    let digest = md5_compute(bytes);
    let text = identifier_of_digest(&digest);
    ContentId { digest, text }
}

/// Every bit of the stream is 0 or 1, so every group of five is a value
/// below 32.
pub proof fn lemma_quintet_range(data: Seq<u8>, i: int)
    ensures
        0 <= quintet(data, i) < 32,
{
    assert forall|k: int| 0 <= #[trigger] bit_at(data, k) <= 1 by {}
}

/// The alphabet, symbol by symbol.
pub proof fn lemma_alphabet_symbols()
    ensures
        crockford_alphabet().len() == 32,
        crockford_alphabet()[0] == '0' && crockford_alphabet()[1] == '1',
        crockford_alphabet()[2] == '2' && crockford_alphabet()[3] == '3',
        crockford_alphabet()[4] == '4' && crockford_alphabet()[5] == '5',
        crockford_alphabet()[6] == '6' && crockford_alphabet()[7] == '7',
        crockford_alphabet()[8] == '8' && crockford_alphabet()[9] == '9',
        crockford_alphabet()[10] == 'A' && crockford_alphabet()[11] == 'B',
        crockford_alphabet()[12] == 'C' && crockford_alphabet()[13] == 'D',
        crockford_alphabet()[14] == 'E' && crockford_alphabet()[15] == 'F',
        crockford_alphabet()[16] == 'G' && crockford_alphabet()[17] == 'H',
        crockford_alphabet()[18] == 'J' && crockford_alphabet()[19] == 'K',
        crockford_alphabet()[20] == 'M' && crockford_alphabet()[21] == 'N',
        crockford_alphabet()[22] == 'P' && crockford_alphabet()[23] == 'Q',
        crockford_alphabet()[24] == 'R' && crockford_alphabet()[25] == 'S',
        crockford_alphabet()[26] == 'T' && crockford_alphabet()[27] == 'V',
        crockford_alphabet()[28] == 'W' && crockford_alphabet()[29] == 'X',
        crockford_alphabet()[30] == 'Y' && crockford_alphabet()[31] == 'Z',
{
}

/// No symbol of Crockford's alphabet is a path separator, a dot or a percent
/// sign.
pub proof fn lemma_alphabet_plain(v: int)
    requires
        0 <= v < 32,
    ensures
        crockford_alphabet()[v] != '/',
        crockford_alphabet()[v] != '.',
        crockford_alphabet()[v] != '%',
        crockford_alphabet()[v] != '-',
{
    lemma_alphabet_symbols();
}

/// An encoding has one symbol for every five bits begun, each taken from
/// Crockford's alphabet; so it holds no path separator, dot, percent sign or
/// hyphen, and a sixteen-byte digest is written in 26 symbols.
pub proof fn lemma_encoding_shape(data: Seq<u8>)
    ensures
        crockford_base32(data).len() == crockford_len(data.len()),
        data.len() == 16 ==> crockford_base32(data).len() == 26,
        forall|i: int|
            0 <= i < crockford_base32(data).len() ==> crockford_alphabet().contains(
                #[trigger] crockford_base32(data)[i],
            ),
        !crockford_base32(data).contains('/'),
        !crockford_base32(data).contains('.'),
        !crockford_base32(data).contains('%'),
        !crockford_base32(data).contains('-'),
{
    let text = crockford_base32(data);
    assert forall|i: int| 0 <= i < text.len() implies crockford_alphabet().contains(
        #[trigger] text[i],
    ) && text[i] != '/' && text[i] != '.' && text[i] != '%' && text[i] != '-' by {
        lemma_quintet_range(data, i);
        lemma_alphabet_plain(quintet(data, i));
        assert(crockford_alphabet().len() == 32);
        assert(text[i] == crockford_alphabet()[quintet(data, i)]);
    }
}

/// Different values have different symbols.
pub proof fn lemma_alphabet_distinct(v: int, w: int)
    requires
        0 <= v < 32,
        0 <= w < 32,
        crockford_alphabet()[v] == crockford_alphabet()[w],
    ensures
        v == w,
{
    lemma_alphabet_symbols();
}

/// Groups of five bits with the same value hold the same bits.
pub proof fn lemma_quintet_bits(a: Seq<u8>, b: Seq<u8>, i: int)
    requires
        quintet(a, i) == quintet(b, i),
    ensures
        bit_at(a, 5 * i) == bit_at(b, 5 * i),
        bit_at(a, 5 * i + 1) == bit_at(b, 5 * i + 1),
        bit_at(a, 5 * i + 2) == bit_at(b, 5 * i + 2),
        bit_at(a, 5 * i + 3) == bit_at(b, 5 * i + 3),
        bit_at(a, 5 * i + 4) == bit_at(b, 5 * i + 4),
{
    assert forall|k: int| 0 <= #[trigger] bit_at(a, k) <= 1 by {}
    assert forall|k: int| 0 <= #[trigger] bit_at(b, k) <= 1 by {}
}

/// Bytes with the same eight bits are the same byte.
pub proof fn lemma_byte_bits(x: u8, y: u8)
    requires
        forall|j: int| 0 <= j < 8 ==> #[trigger] bit_of(x, j) == bit_of(y, j),
    ensures
        x == y,
{
    assert(bit_of(x, 0) == bit_of(y, 0));
    assert(bit_of(x, 1) == bit_of(y, 1));
    assert(bit_of(x, 2) == bit_of(y, 2));
    assert(bit_of(x, 3) == bit_of(y, 3));
    assert(bit_of(x, 4) == bit_of(y, 4));
    assert(bit_of(x, 5) == bit_of(y, 5));
    assert(bit_of(x, 6) == bit_of(y, 6));
    assert(bit_of(x, 7) == bit_of(y, 7));
}

/// Longer data has a longer encoding.
pub proof fn lemma_encoding_length(n: nat, m: nat)
    requires
        crockford_len(n) == crockford_len(m),
    ensures
        n == m,
{
}

/// Data with the same encoding has the same stream of bits.
pub proof fn lemma_encoding_bits(a: Seq<u8>, b: Seq<u8>, k: int)
    requires
        crockford_base32(a) == crockford_base32(b),
        a.len() == b.len(),
        0 <= k < 8 * a.len(),
    ensures
        bit_at(a, k) == bit_at(b, k),
{
    let i = k / 5;
    assert(0 <= i < crockford_len(a.len()));
    assert(crockford_base32(a)[i] == crockford_alphabet()[quintet(a, i)]);
    assert(crockford_base32(b)[i] == crockford_alphabet()[quintet(b, i)]);
    lemma_quintet_range(a, i);
    lemma_quintet_range(b, i);
    lemma_alphabet_distinct(quintet(a, i), quintet(b, i));
    lemma_quintet_bits(a, b, i);
    let r = k % 5;
    assert(k == 5 * i + r);
    if r == 0 {
        assert(k == 5 * i);
    } else if r == 1 {
        assert(k == 5 * i + 1);
    } else if r == 2 {
        assert(k == 5 * i + 2);
    } else if r == 3 {
        assert(k == 5 * i + 3);
    } else {
        assert(k == 5 * i + 4);
    }
}

/// The encoding loses nothing: bytes with the same encoding are the same
/// bytes.
pub proof fn lemma_encoding_injective(a: Seq<u8>, b: Seq<u8>)
    requires
        crockford_base32(a) == crockford_base32(b),
    ensures
        a == b,
{
    assert(crockford_base32(a).len() == crockford_len(a.len()));
    assert(crockford_base32(b).len() == crockford_len(b.len()));
    lemma_encoding_length(a.len(), b.len());
    assert forall|t: int| 0 <= t < a.len() implies a[t] == b[t] by {
        assert forall|j: int| 0 <= j < 8 implies #[trigger] bit_of(a[t], j) == bit_of(b[t], j) by {
            let k = 8 * t + j;
            lemma_encoding_bits(a, b, k);
            assert(k / 8 == t && k % 8 == j);
        }
        lemma_byte_bits(a[t], b[t]);
    }
    assert(a =~= b);
}

/// Identifiers differ exactly where digests do: two contents share an
/// identifier only if they share their digest.
pub proof fn lemma_content_id_faithful(first: Seq<u8>, second: Seq<u8>)
    ensures
        content_id(first) == content_id(second) <==> md5_digest(first) == md5_digest(second),
{
    if content_id(first) == content_id(second) {
        lemma_encoding_injective(md5_digest(first), md5_digest(second));
    }
}

/// The identifier is a function of the bytes: equal bytes have equal
/// identifiers, however often and wherever they are computed.
pub proof fn lemma_content_id_deterministic(first: Seq<u8>, second: Seq<u8>)
    requires
        first == second,
    ensures
        content_id(first) == content_id(second),
{
}

} // verus!
