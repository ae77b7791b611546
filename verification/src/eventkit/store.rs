//! The dedup key of the local cache of calendar events.
//!
//! Events are deduplicated on the pair `(ical_uid, calendar_id)`: the key is
//! the lower-case hex SHA-256 of the UID's UTF-8 length (eight bytes, least
//! significant first), the UID, a `|`, and the calendar id, as UTF-8. The
//! length prefix keeps pairs apart: different pairs give different bytes,
//! even when a part itself holds a `|`.

use sha2::Digest;
use vstd::prelude::*;
use vstd::utf8::encode_utf8;

verus! {

/// The SHA-256 digest of `data`.
pub uninterp spec fn sha256(data: Seq<u8>) -> Seq<u8>;

/// One hex digit, lower case.
pub open spec fn hex_digit(n: int) -> char {
    if n < 10 {
        (48 + n) as char
    } else {
        (87 + n) as char
    }
}

/// The lower-case hex rendering of `bytes`: two digits per byte, high
/// nibble first.
pub open spec fn hex_lower(bytes: Seq<u8>) -> Seq<char>
    decreases bytes.len(),
{
    if bytes.len() == 0 {
        Seq::empty()
    } else {
        seq![hex_digit((bytes[0] / 16) as int), hex_digit((bytes[0] % 16) as int)] + hex_lower(bytes.drop_first())
    }
}

/// `n` as eight bytes, least significant first.
pub open spec fn len_prefix(n: u64) -> Seq<u8> {
    seq![
        (n & 0xff) as u8,
        ((n >> 8u64) & 0xff) as u8,
        ((n >> 16u64) & 0xff) as u8,
        ((n >> 24u64) & 0xff) as u8,
        ((n >> 32u64) & 0xff) as u8,
        ((n >> 40u64) & 0xff) as u8,
        ((n >> 48u64) & 0xff) as u8,
        ((n >> 56u64) & 0xff) as u8,
    ]
}

/// The bytes that are hashed for the pair `(ical_uid, calendar_id)`.
pub open spec fn dedup_bytes(ical_uid: Seq<char>, calendar_id: Seq<char>) -> Seq<u8> {
    len_prefix(encode_utf8(ical_uid).len() as u64) + encode_utf8(ical_uid) + seq![124u8] + encode_utf8(
        calendar_id,
    )
}

proof fn lemma_len_prefix_bytes(a: u64, b: u64)
    by (bit_vector)
    requires
        (a & 0xff) as u8 == (b & 0xff) as u8,
        ((a >> 8u64) & 0xff) as u8 == ((b >> 8u64) & 0xff) as u8,
        ((a >> 16u64) & 0xff) as u8 == ((b >> 16u64) & 0xff) as u8,
        ((a >> 24u64) & 0xff) as u8 == ((b >> 24u64) & 0xff) as u8,
        ((a >> 32u64) & 0xff) as u8 == ((b >> 32u64) & 0xff) as u8,
        ((a >> 40u64) & 0xff) as u8 == ((b >> 40u64) & 0xff) as u8,
        ((a >> 48u64) & 0xff) as u8 == ((b >> 48u64) & 0xff) as u8,
        ((a >> 56u64) & 0xff) as u8 == ((b >> 56u64) & 0xff) as u8,
    ensures
        a == b,
{
}

/// Different pairs give different bytes: the hashed bytes determine the
/// UID and the calendar id (for parts whose UTF-8 length fits in 64 bits,
/// as the length of any string does).
pub proof fn law_dedup_bytes_keep_pairs_apart(u1: Seq<char>, c1: Seq<char>, u2: Seq<char>, c2: Seq<char>)
    requires
        encode_utf8(u1).len() <= u64::MAX,
        encode_utf8(u2).len() <= u64::MAX,
        dedup_bytes(u1, c1) == dedup_bytes(u2, c2),
    ensures
        u1 == u2,
        c1 == c2,
{
    let b = dedup_bytes(u1, c1);
    let e1 = encode_utf8(u1);
    let e2 = encode_utf8(u2);
    let p1 = len_prefix(e1.len() as u64);
    let p2 = len_prefix(e2.len() as u64);
    assert(b.subrange(0, 8) =~= p1);
    assert(dedup_bytes(u2, c2).subrange(0, 8) =~= p2);
    assert(p1[0] == p2[0] && p1[1] == p2[1] && p1[2] == p2[2] && p1[3] == p2[3]);
    assert(p1[4] == p2[4] && p1[5] == p2[5] && p1[6] == p2[6] && p1[7] == p2[7]);
    lemma_len_prefix_bytes(e1.len() as u64, e2.len() as u64);
    assert(e1.len() == e2.len());
    let n = e1.len() as int;
    assert(b.subrange(8, 8 + n) =~= e1);
    assert(dedup_bytes(u2, c2).subrange(8, 8 + n) =~= e2);
    let tail = b.len() as int;
    assert(b.subrange(9 + n, tail) =~= encode_utf8(c1));
    assert(dedup_bytes(u2, c2).subrange(9 + n, tail) =~= encode_utf8(c2));
    vstd::utf8::encode_utf8_decode_utf8(u1);
    vstd::utf8::encode_utf8_decode_utf8(u2);
    vstd::utf8::encode_utf8_decode_utf8(c1);
    vstd::utf8::encode_utf8_decode_utf8(c2);
}

/// The cache key of the pair `(ical_uid, calendar_id)`.
pub open spec fn store_key(ical_uid: Seq<char>, calendar_id: Seq<char>) -> Seq<char> {
    hex_lower(sha256(dedup_bytes(ical_uid, calendar_id)))
}

/// `sha2::Sha256::digest`: the 32-byte SHA-256 digest of `data`. The digest
/// is named, not described: SHA-256 itself is not restated here.
#[verifier::external_body]
fn sha256_digest(data: &[u8]) -> (d: Vec<u8>)
    ensures
        d@ == sha256(data@),
        d@.len() == 32,
{
    sha2::Sha256::digest(data).to_vec()
}

/// `hex::encode`: each byte as two lower-case hex digits, high nibble
/// first, as the crate documents.
#[verifier::external_body]
fn hex_encode(bytes: &[u8]) -> (s: String)
    ensures
        s@ == hex_lower(bytes@),
{
    hex::encode(bytes)
}

/// The UTF-8 length of `ical_uid` (eight bytes, least significant
/// first), the UTF-8 bytes of `ical_uid`, a `|`, and the UTF-8 bytes of
/// `calendar_id`; different pairs give different bytes.
pub fn dedup_key_bytes(ical_uid: &str, calendar_id: &str) -> (b: Vec<u8>)
    ensures
        b@ == dedup_bytes(ical_uid@, calendar_id@),
        forall|u: &str, c: &str|
            dedup_bytes(u@, c@) == b@ ==> u@ == ical_uid@ && c@ == calendar_id@,
{
    let uid = ical_uid.as_bytes();
    let cal = calendar_id.as_bytes();
    let n: u64 = uid.len() as u64;
    let mut out: Vec<u8> = Vec::new();
    out.push((n & 0xff) as u8);
    out.push(((n >> 8u64) & 0xff) as u8);
    out.push(((n >> 16u64) & 0xff) as u8);
    out.push(((n >> 24u64) & 0xff) as u8);
    out.push(((n >> 32u64) & 0xff) as u8);
    out.push(((n >> 40u64) & 0xff) as u8);
    out.push(((n >> 48u64) & 0xff) as u8);
    out.push(((n >> 56u64) & 0xff) as u8);
    let ghost pre = out@;
    assert(pre =~= len_prefix(n));
    let mut i: usize = 0;
    while i < uid.len()
        invariant
            i <= uid@.len(),
            out@ == pre + uid@.subrange(0, i as int),
        decreases uid@.len() - i,
    {
        out.push(uid[i]);
        assert(uid@.subrange(0, i + 1) =~= uid@.subrange(0, i as int).push(uid@[i as int]));
        i = i + 1;
    }
    out.push(124u8);
    let mut j: usize = 0;
    while j < cal.len()
        invariant
            j <= cal@.len(),
            out@ == pre + uid@ + seq![124u8] + cal@.subrange(0, j as int),
        decreases cal@.len() - j,
    {
        out.push(cal[j]);
        assert(cal@.subrange(0, j + 1) =~= cal@.subrange(0, j as int).push(cal@[j as int]));
        j = j + 1;
    }
    assert(uid@.subrange(0, uid@.len() as int) =~= uid@);
    assert(cal@.subrange(0, cal@.len() as int) =~= cal@);
    assert(out@ =~= dedup_bytes(ical_uid@, calendar_id@));
    let olen = out.len();
    proof {
        assert forall|u: &str, c: &str| dedup_bytes(u@, c@) == out@ implies u@ == ical_uid@ && c@
            == calendar_id@ by {
            let pu = len_prefix(encode_utf8(u@).len() as u64);
            assert(dedup_bytes(u@, c@).len() == 8 + encode_utf8(u@).len() + 1 + encode_utf8(c@).len());
            assert(encode_utf8(u@).len() <= olen);
            law_dedup_bytes_keep_pairs_apart(u@, c@, ical_uid@, calendar_id@);
        }
    }
    out
}

/// The cache key for a digest: its lower-case hex rendering.
pub fn store_id_from_digest(digest: &[u8]) -> (s: String)
    ensures
        s@ == hex_lower(digest@),
{
    hex_encode(digest)
}

/// Compute the SHA-256 dedup key for `(ical_uid, calendar_id)`.
pub fn store_id(ical_uid: &str, calendar_id: &str) -> (s: String)
    ensures
        s@ == store_key(ical_uid@, calendar_id@),
        s@.len() == 64,
{
    let bytes = dedup_key_bytes(ical_uid, calendar_id);
    let digest = sha256_digest(bytes.as_slice());
    proof {
        lemma_hex_lower_len(digest@);
    }
    store_id_from_digest(digest.as_slice())
}

/// The hex rendering has two digits per byte.
pub proof fn lemma_hex_lower_len(bytes: Seq<u8>)
    ensures
        hex_lower(bytes).len() == 2 * bytes.len(),
    decreases bytes.len(),
{
    if bytes.len() > 0 {
        lemma_hex_lower_len(bytes.drop_first());
    }
}

} // verus!
