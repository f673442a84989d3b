use vstd::prelude::*;
use base64::Engine;
use rand::Rng;
use sha2::Digest;

verus! {

/// The SHA-256 digest of `data` (FIPS 180-4), as `sha2` computes it.
pub uninterp spec fn sha256_of(data: Seq<u8>) -> Seq<u8>;


/// `sha2::Sha256::digest`: the 32-byte SHA-256 digest of `data`.
#[verifier::external_body]
pub(crate) fn sha256(data: &[u8]) -> (r: Vec<u8>)
    ensures
        r@ == sha256_of(data@),
        r@.len() == 32,
{
    sha2::Sha256::digest(data).to_vec()
}

/// A running SHA-256 state of `sha2`, fed piece by piece. Its contents are
/// known to the library only through `sha256_fed`.
#[verifier::external_body]
pub struct Sha256Stream {
    inner: sha2::Sha256,
}

/// The bytes fed so far into a running SHA-256 state, in order.
pub uninterp spec fn sha256_fed(s: Sha256Stream) -> Seq<u8>;

/// `sha2::Sha256::new` (through `Digest`): a state that has been fed nothing.
#[verifier::external_body]
pub(crate) fn sha256_stream_new() -> (s: Sha256Stream)
    ensures
        sha256_fed(s) == Seq::<u8>::empty(),
{
    Sha256Stream { inner: sha2::Sha256::new() }
}

/// `Digest::update` on `sha2::Sha256`: appends `chunk` to what the state has
/// been fed.
#[verifier::external_body]
pub(crate) fn sha256_stream_update(s: &mut Sha256Stream, chunk: &[u8])
    ensures
        sha256_fed(*final(s)) == sha256_fed(*old(s)) + chunk@,
{
    Digest::update(&mut s.inner, chunk);
}

/// `Digest::finalize` on `sha2::Sha256`: the 32-byte SHA-256 digest of all
/// the bytes the state was fed, the same digest that `sha2::Sha256::digest`
/// gives for them at once.
#[verifier::external_body]
pub(crate) fn sha256_stream_finish(s: Sha256Stream) -> (d: Vec<u8>)
    ensures
        d@ == sha256_of(sha256_fed(s)),
        d@.len() == 32,
{
    s.inner.finalize().to_vec()
}

/// The lower-case hexadecimal digit of `n` (below 16).
pub open spec fn hex_digit(n: nat) -> char {
    if n < 10 {
        (0x30 + n) as char
    } else {
        (0x61 + n - 10) as char
    }
}

/// Two lower-case hexadecimal digits for each byte, high nibble first.
pub open spec fn hex_lower(data: Seq<u8>) -> Seq<char>
    decreases data.len(),
{
    if data.len() == 0 {
        seq![]
    } else {
        hex_lower(data.drop_last()) + seq![
            hex_digit((data.last() / 16) as nat),
            hex_digit((data.last() % 16) as nat),
        ]
    }
}

/// Hexadecimal text has two digits for each byte.
pub proof fn lemma_hex_lower_len(data: Seq<u8>)
    ensures
        hex_lower(data).len() == 2 * data.len(),
    decreases data.len(),
{
    if data.len() > 0 {
        lemma_hex_lower_len(data.drop_last());
    }
}

/// `hex::encode`: lower-case hexadecimal text of `data`.
#[verifier::external_body]
pub(crate) fn hex_encode(data: &[u8]) -> (r: String)
    ensures
        r@ == hex_lower(data@),
{
    hex::encode(data)
}

/// The base64 symbol of the six-bit value `v`, in the standard alphabet or
/// in the URL-safe one.
pub open spec fn base64_symbol(v: nat, url_safe: bool) -> char {
    if v < 26 {
        (0x41 + v) as char
    } else if v < 52 {
        (0x61 + v - 26) as char
    } else if v < 62 {
        (0x30 + v - 52) as char
    } else if v == 62 {
        if url_safe {
            '-'
        } else {
            '+'
        }
    } else {
        if url_safe {
            '_'
        } else {
            '/'
        }
    }
}

/// Base64 (RFC 4648): each group of three bytes becomes four symbols; a last
/// group of one or two bytes becomes two or three symbols, followed by `=`
/// up to four where `padded`.
pub open spec fn base64_encode(data: Seq<u8>, url_safe: bool, padded: bool) -> Seq<char>
    decreases data.len(),
{
    if data.len() == 0 {
        seq![]
    } else if data.len() == 1 {
        let a = data[0] as nat;
        seq![base64_symbol(a / 4, url_safe), base64_symbol((a % 4) * 16, url_safe)] + if padded {
            seq!['=', '=']
        } else {
            seq![]
        }
    } else if data.len() == 2 {
        let a = data[0] as nat;
        let b = data[1] as nat;
        seq![
            base64_symbol(a / 4, url_safe),
            base64_symbol((a % 4) * 16 + b / 16, url_safe),
            base64_symbol((b % 16) * 4, url_safe),
        ] + if padded {
            seq!['=']
        } else {
            seq![]
        }
    } else {
        let a = data[0] as nat;
        let b = data[1] as nat;
        let c = data[2] as nat;
        seq![
            base64_symbol(a / 4, url_safe),
            base64_symbol((a % 4) * 16 + b / 16, url_safe),
            base64_symbol((b % 16) * 4 + c / 64, url_safe),
            base64_symbol(c % 64, url_safe),
        ] + base64_encode(data.skip(3), url_safe, padded)
    }
}

proof fn lemma_base64_symbol_injective(v: nat, w: nat, url_safe: bool)
    requires
        v < 64,
        w < 64,
        base64_symbol(v, url_safe) == base64_symbol(w, url_safe),
    ensures
        v == w,
{
}

proof fn lemma_base64_symbol_not_pad(v: nat, url_safe: bool)
    requires
        v < 64,
    ensures
        base64_symbol(v, url_safe) != '=',
{
}

proof fn lemma_group_bytes(a: nat, b: nat, c: nat)
    requires
        a < 256,
        b < 256,
        c < 256,
    ensures
        a == (a / 4) * 4 + ((a % 4) * 16 + b / 16) / 16,
        b == (((a % 4) * 16 + b / 16) % 16) * 16 + ((b % 16) * 4 + c / 64) / 4,
        c == (((b % 16) * 4 + c / 64) % 4) * 64 + c % 64,
{
}

/// Padded base64 in the standard alphabet tells bytes apart: two byte strings
/// with the same text are the same.
pub proof fn lemma_base64_padded_injective(d1: Seq<u8>, d2: Seq<u8>)
    requires
        base64_encode(d1, false, true) == base64_encode(d2, false, true),
    ensures
        d1 == d2,
    decreases d1.len(),
{
    let e1 = base64_encode(d1, false, true);
    let e2 = base64_encode(d2, false, true);
    if d1.len() == 0 || d2.len() == 0 {
        assert(e1.len() == 0 && e2.len() == 0);
        assert(d1 =~= d2);
    } else {
        let a1 = d1[0] as nat;
        let a2 = d2[0] as nat;
        assert(e1[0] == e2[0]);
        assert(e1[1] == e2[1]);
        assert(e1.len() >= 4 && e2.len() >= 4);
        assert(e1[2] == e2[2]);
        assert(e1[3] == e2[3]);
        if d1.len() >= 2 {
            let b1 = d1[1] as nat;
            lemma_base64_symbol_not_pad((b1 % 16) * 4 + if d1.len() >= 3 { d1[2] as nat / 64 } else { 0 }, false);
        }
        if d2.len() >= 2 {
            let b2 = d2[1] as nat;
            lemma_base64_symbol_not_pad((b2 % 16) * 4 + if d2.len() >= 3 { d2[2] as nat / 64 } else { 0 }, false);
        }
        if d1.len() >= 3 {
            lemma_base64_symbol_not_pad(d1[2] as nat % 64, false);
        }
        if d2.len() >= 3 {
            lemma_base64_symbol_not_pad(d2[2] as nat % 64, false);
        }
        lemma_base64_symbol_injective(a1 / 4, a2 / 4, false);
        if d1.len() == 1 {
            assert(d2.len() == 1);
            lemma_base64_symbol_injective((a1 % 4) * 16, (a2 % 4) * 16, false);
            lemma_group_bytes(a1, 0, 0);
            lemma_group_bytes(a2, 0, 0);
            assert(d1 =~= d2);
        } else if d1.len() == 2 {
            assert(d2.len() == 2);
            let b1 = d1[1] as nat;
            let b2 = d2[1] as nat;
            lemma_base64_symbol_injective((a1 % 4) * 16 + b1 / 16, (a2 % 4) * 16 + b2 / 16, false);
            lemma_base64_symbol_injective((b1 % 16) * 4, (b2 % 16) * 4, false);
            lemma_group_bytes(a1, b1, 0);
            lemma_group_bytes(a2, b2, 0);
            assert(d1 =~= d2);
        } else {
            assert(d2.len() >= 3);
            let b1 = d1[1] as nat;
            let b2 = d2[1] as nat;
            let c1 = d1[2] as nat;
            let c2 = d2[2] as nat;
            lemma_base64_symbol_injective((a1 % 4) * 16 + b1 / 16, (a2 % 4) * 16 + b2 / 16, false);
            lemma_base64_symbol_injective((b1 % 16) * 4 + c1 / 64, (b2 % 16) * 4 + c2 / 64, false);
            lemma_base64_symbol_injective(c1 % 64, c2 % 64, false);
            lemma_group_bytes(a1, b1, c1);
            lemma_group_bytes(a2, b2, c2);
            assert(e1.skip(4) =~= base64_encode(d1.skip(3), false, true));
            assert(e2.skip(4) =~= base64_encode(d2.skip(3), false, true));
            lemma_base64_padded_injective(d1.skip(3), d2.skip(3));
            assert forall|k: int| 0 <= k < d1.len() implies d1[k] == d2[k] by {
                if k >= 3 {
                    assert(d1[k] == d1.skip(3)[k - 3]);
                    assert(d2[k] == d2.skip(3)[k - 3]);
                }
            }
            assert(d1.len() == d2.len()) by {
                assert(d1.skip(3).len() == d2.skip(3).len());
            }
            assert(d1 =~= d2);
        }
    }
}

/// The bytes whose padded base64 in the standard alphabet is `text`, or
/// `None` where no bytes have that text.
pub open spec fn base64_std_decode(text: Seq<char>) -> Option<Seq<u8>> {
    if exists|b: Seq<u8>| base64_encode(b, false, true) == text {
        Some(choose|b: Seq<u8>| base64_encode(b, false, true) == text)
    } else {
        None
    }
}

/// Decoding gives back the bytes that were encoded.
pub proof fn lemma_base64_std_decode_encoded(data: Seq<u8>)
    ensures
        base64_std_decode(base64_encode(data, false, true)) == Some(data),
{
    let text = base64_encode(data, false, true);
    assert(exists|b: Seq<u8>| base64_encode(b, false, true) == text);
    let b = choose|b: Seq<u8>| base64_encode(b, false, true) == text;
    lemma_base64_padded_injective(b, data);
}

/// `base64::engine::general_purpose::STANDARD.encode`: padded base64 in the
/// standard alphabet.
#[verifier::external_body]
pub(crate) fn base64_encode_standard(data: &[u8]) -> (r: String)
    ensures
        r@ == base64_encode(data@, false, true),
{
    base64::engine::general_purpose::STANDARD.encode(data)
}

/// `base64::engine::general_purpose::URL_SAFE_NO_PAD.encode`: base64 in the
/// URL-safe alphabet without padding.
#[verifier::external_body]
pub(crate) fn base64_encode_url_no_pad(data: &[u8]) -> (r: String)
    ensures
        r@ == base64_encode(data@, true, false),
{
    base64::engine::general_purpose::URL_SAFE_NO_PAD.encode(data)
}

/// `base64::engine::general_purpose::STANDARD.decode` of the bytes of `text`;
/// `None` where the engine returns an error. The engine's `PAD` configuration
/// requires canonical padding and refuses non-zero trailing bits, so it
/// accepts exactly the texts that `STANDARD.encode` produces, and gives back
/// the bytes they were produced from.
#[verifier::external_body]
pub(crate) fn base64_decode_standard(text: &str) -> (r: Option<Vec<u8>>)
    ensures
        r is Some <==> exists|b: Seq<u8>| base64_encode(b, false, true) == text@,
        r matches Some(b) ==> base64_encode(b@, false, true) == text@,
{
    base64::engine::general_purpose::STANDARD.decode(text).ok()
}

/// `rand::Rng::fill` on the thread-local generator of `rand::rng()`: the
/// bytes of `buf` become random. The contract states only that the length
/// stays; the values are chance. The generator panics where the operating
/// system gives it no seed, which no `requires` can rule out.
#[verifier::external_body]
pub(crate) fn fill_random(buf: &mut Vec<u8>)
    ensures
        final(buf)@.len() == old(buf)@.len(),
{
    rand::rng().fill(buf.as_mut_slice())
}

/// Lower-case hexadecimal SHA-256 of `data`.
pub fn sha256_hex(data: &[u8]) -> (r: String)
    ensures
        r@ == hex_lower(sha256_of(data@)),
{
    let digest = sha256(data);
    hex_encode(digest.as_slice())
}

/// Lower-case hexadecimal SHA-256 of the UTF-8 bytes of `value`: the form in
/// which session tokens are stored.
pub fn hex_hash(value: &str) -> (r: String)
    ensures
        r@ == hex_lower(sha256_of(vstd::utf8::encode_utf8(value@))),
{
    sha256_hex(value.as_bytes())
}

/// A new random token: 32 random bytes in unpadded URL-safe base64.
pub fn random_token() -> (r: String)
    ensures
        exists|bytes: Seq<u8>| bytes.len() == 32 && r@ == #[trigger] base64_encode(bytes, true, false),
{
    let mut bytes: Vec<u8> = vec![0u8; 32];
    fill_random(&mut bytes);
    let r = base64_encode_url_no_pad(bytes.as_slice());
    proof {
        assert(bytes@.len() == 32);
    }
    r
}

} // verus!
