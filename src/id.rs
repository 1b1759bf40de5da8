use vstd::prelude::*;
use vstd::utf8::encode_utf8;

verus! {

/// The SHA-256 digest of a byte string.
pub uninterp spec fn sha256_of(data: Seq<u8>) -> Seq<u8>;

/// Relies on sha2's `Sha256::digest`: the 32-byte SHA-256 digest of `data`.
#[verifier::external_body]
fn sha256(data: &Vec<u8>) -> (r: Vec<u8>)
    ensures
        r@ == sha256_of(data@),
        r@.len() == 32,
{
    <sha2::Sha256 as sha2::Digest>::digest(data).to_vec()
}

/// Relies on `String::from_utf8`: ASCII bytes are valid UTF-8, and each
/// gives the character of the same code.
#[verifier::external_body]
fn ascii_to_string(bytes: Vec<u8>) -> (r: String)
    requires
        forall|i: int| 0 <= i < bytes@.len() ==> bytes@[i] < 128,
    ensures
        r@ == bytes@.map_values(|b: u8| b as char),
{
    String::from_utf8(bytes).unwrap_or_default()
}

/// The ASCII code of the hex digit for `n < 16`, in lower or upper case.
pub open spec fn hex_digit(n: u8, upper: bool) -> u8 {
    if n < 10 {
        (48 + n) as u8
    } else if upper {
        (55 + n) as u8
    } else {
        (87 + n) as u8
    }
}

/// Two hex digits for each byte, high half first.
pub open spec fn hex_of(data: Seq<u8>, upper: bool) -> Seq<u8>
    decreases data.len(),
{
    if data.len() == 0 {
        Seq::empty()
    } else {
        hex_of(data.drop_last(), upper) + seq![
            hex_digit(data.last() / 16, upper),
            hex_digit(data.last() % 16, upper),
        ]
    }
}

fn hex_digit_exec(n: u8, upper: bool) -> (r: u8)
    requires
        n < 16,
    ensures
        r == hex_digit(n, upper),
        r < 128,
{
    if n < 10 {
        48 + n
    } else if upper {
        55 + n
    } else {
        87 + n
    }
}

proof fn lemma_hex_ascii(data: Seq<u8>, upper: bool)
    ensures
        hex_of(data, upper).len() == 2 * data.len(),
        forall|i: int| 0 <= i < hex_of(data, upper).len() ==> #[trigger] hex_of(data, upper)[i] < 128,
    decreases data.len(),
{
    if data.len() > 0 {
        lemma_hex_ascii(data.drop_last(), upper);
    }
}

/// Appends the hex digits of `data` to `out`.
fn push_hex(out: &mut Vec<u8>, data: &[u8], upper: bool)
    ensures
        final(out)@ == old(out)@ + hex_of(data@, upper),
{
    let ghost start = out@;
    let mut i: usize = 0;
    while i < data.len()
        invariant
            i <= data@.len(),
            out@ == start + hex_of(data@.take(i as int), upper),
        decreases data@.len() - i,
    {
        assert(data@.take(i + 1).drop_last() =~= data@.take(i as int));
        out.push(hex_digit_exec(data[i] / 16, upper));
        out.push(hex_digit_exec(data[i] % 16, upper));
        assert(out@ =~= start + hex_of(data@.take(i + 1), upper));
        i += 1;
    }
    assert(data@.take(data@.len() as int) =~= data@);
}

/// What is hashed for a graph's id: the peg-in graph's id, then the
/// operator's public key in lower-case hex.
pub open spec fn id_preimage(peg_in_graph_id: Seq<char>, operator_public_key: Seq<u8>) -> Seq<u8> {
    encode_utf8(peg_in_graph_id) + hex_of(operator_public_key, false)
}

/// A peg-out graph's id: the upper-case hex of the SHA-256 digest of its
/// preimage.
pub open spec fn spec_generate_id(peg_in_graph_id: Seq<char>, operator_public_key: Seq<u8>) -> Seq<char> {
    hex_of(sha256_of(id_preimage(peg_in_graph_id, operator_public_key)), true).map_values(
        |b: u8| b as char,
    )
}

pub fn generate_id(peg_in_graph_id: &String, operator_public_key: &Vec<u8>) -> (r: String)
    ensures
        r@ == spec_generate_id(peg_in_graph_id@, operator_public_key@),
        r@.len() == 64,
{
    let mut preimage: Vec<u8> = Vec::new();
    let id_bytes = peg_in_graph_id.as_str().as_bytes();
    let mut i: usize = 0;
    while i < id_bytes.len()
        invariant
            i <= id_bytes@.len(),
            preimage@ == id_bytes@.take(i as int),
        decreases id_bytes@.len() - i,
    {
        preimage.push(id_bytes[i]);
        assert(preimage@ =~= id_bytes@.take(i + 1));
        i += 1;
    }
    assert(id_bytes@.take(id_bytes@.len() as int) =~= id_bytes@);
    push_hex(&mut preimage, operator_public_key.as_slice(), false);
    let digest = sha256(&preimage);
    let mut hex: Vec<u8> = Vec::new();
    push_hex(&mut hex, digest.as_slice(), true);
    proof {
        lemma_hex_ascii(digest@, true);
        assert(hex@ =~= hex_of(digest@, true));
    }
    ascii_to_string(hex)
}

/// Keys of one length are spelled by as many hex digits, so the preimage
/// determines both the peg-in graph's id and the operator's key: distinct
/// inputs are hashed from distinct preimages.
pub proof fn lemma_id_preimage_injective(
    id1: Seq<char>,
    key1: Seq<u8>,
    id2: Seq<char>,
    key2: Seq<u8>,
)
    requires
        key1.len() == key2.len(),
        id_preimage(id1, key1) == id_preimage(id2, key2),
    ensures
        encode_utf8(id1) == encode_utf8(id2),
        key1 == key2,
{
    let h1 = hex_of(key1, false);
    let h2 = hex_of(key2, false);
    lemma_hex_ascii(key1, false);
    lemma_hex_ascii(key2, false);
    let p = id_preimage(id1, key1);
    let n1 = encode_utf8(id1).len();
    let n2 = encode_utf8(id2).len();
    assert(p.len() == n1 + h1.len());
    assert(id_preimage(id2, key2).len() == n2 + h2.len());
    assert(n1 == n2);
    assert(encode_utf8(id1) =~= p.take(n1 as int));
    assert(encode_utf8(id2) =~= p.take(n2 as int));
    assert(h1 =~= p.skip(n1 as int));
    assert(h2 =~= p.skip(n2 as int));
    lemma_hex_injective(key1, key2);
}

proof fn lemma_hex_digit_injective(a: u8, b: u8)
    requires
        a < 16,
        b < 16,
        hex_digit(a, false) == hex_digit(b, false),
    ensures
        a == b,
{
}

proof fn lemma_hex_injective(k1: Seq<u8>, k2: Seq<u8>)
    requires
        k1.len() == k2.len(),
        hex_of(k1, false) == hex_of(k2, false),
    ensures
        k1 == k2,
    decreases k1.len(),
{
    if k1.len() > 0 {
        lemma_hex_ascii(k1.drop_last(), false);
        lemma_hex_ascii(k2.drop_last(), false);
        let n = hex_of(k1.drop_last(), false).len();
        let h = hex_of(k1, false);
        assert(hex_of(k1.drop_last(), false) =~= h.take(n as int));
        assert(hex_of(k2.drop_last(), false) =~= h.take(n as int));
        lemma_hex_injective(k1.drop_last(), k2.drop_last());
        assert(h[n as int] == hex_digit(k1.last() / 16, false));
        assert(h[n as int] == hex_digit(k2.last() / 16, false));
        assert(h[n as int + 1] == hex_digit(k1.last() % 16, false));
        assert(h[n as int + 1] == hex_digit(k2.last() % 16, false));
        lemma_hex_digit_injective(k1.last() / 16, k2.last() / 16);
        lemma_hex_digit_injective(k1.last() % 16, k2.last() % 16);
        assert(k1.last() == 16 * (k1.last() / 16) + k1.last() % 16);
        assert(k2.last() == 16 * (k2.last() / 16) + k2.last() % 16);
        assert(k1 =~= k2.drop_last().push(k2.last()));
    }
}

} // verus!
