//! The HMAC-SHA512 signature that SolidGate uses for API requests and webhook
//! callbacks: `base64(hex(HMAC-SHA512(secret_key, public_key ++ data ++ public_key)))`,
//! where the hex digits are lower case and base64 is the standard alphabet with
//! padding.

use vstd::prelude::*;
use vstd::utf8::*;
use base64::Engine as _;
use hmac::Mac as _;

verus! {

broadcast use vstd::std_specs::vec::group_vec_axioms;

/// The HMAC-SHA512 tag of `message` under `key`.
pub uninterp spec fn hmac_sha512(key: Seq<u8>, message: Seq<u8>) -> Seq<u8>;

/// HMAC-SHA512 through the `hmac` and `sha2` crates (`Hmac::<Sha512>::new_from_slice`,
/// `update`, `finalize`). Claimed: the tag is a function of the key and the message
/// (named `hmac_sha512`) and has 64 bytes, SHA-512's output size. `new_from_slice`
/// accepts keys of every length (longer keys are hashed first), so it never fails.
#[verifier::external_body]
fn hmac_sha512_tag(key: &[u8], message: &[u8]) -> (tag: Vec<u8>)
    ensures
        tag@ == hmac_sha512(key@, message@),
        tag@.len() == 64,
{
    let mut mac = hmac::Hmac::<sha2::Sha512>::new_from_slice(key).expect("HMAC takes keys of any size");
    mac.update(message);
    mac.finalize().into_bytes().to_vec()
}

/// The lower-case hexadecimal digit for `v` (`v < 16`).
pub open spec fn hex_digit_lower(v: nat) -> char {
    if v < 10 {
        (48 + v) as char
    } else {
        (87 + v) as char
    }
}

/// Lower-case hexadecimal text of `bytes`: two digits per byte, high nibble first.
pub open spec fn hex_lower(bytes: Seq<u8>) -> Seq<char>
    decreases bytes.len(),
{
    if bytes.len() == 0 {
        seq![]
    } else {
        hex_lower(bytes.drop_last()) + seq![
            hex_digit_lower((bytes.last() / 16) as nat),
            hex_digit_lower((bytes.last() % 16) as nat),
        ]
    }
}

/// Hex text has two digits per byte, in byte order: at `2i` the digit of byte `i`'s high
/// nibble, at `2i + 1` that of its low nibble; every digit is `0`-`9` or `a`-`f`.
pub proof fn hex_lower_is_high_nibble_first(bytes: Seq<u8>)
    ensures
        hex_lower(bytes).len() == 2 * bytes.len(),
        forall|i: int| #![trigger bytes[i]] 0 <= i < bytes.len() ==> {
            &&& hex_lower(bytes)[2 * i] == hex_digit_lower((bytes[i] / 16) as nat)
            &&& hex_lower(bytes)[2 * i + 1] == hex_digit_lower((bytes[i] % 16) as nat)
        },
        forall|j: int| 0 <= j < hex_lower(bytes).len() ==> {
            let u = #[trigger] hex_lower(bytes)[j] as u32;
            (48 <= u <= 57) || (97 <= u <= 102)
        },
    decreases bytes.len(),
{
    if bytes.len() > 0 {
        let init = bytes.drop_last();
        hex_lower_is_high_nibble_first(init);
        let h = hex_lower(bytes);
        let hi = hex_lower(init);
        assert forall|i: int| #![trigger bytes[i]] 0 <= i < bytes.len() implies {
            &&& h[2 * i] == hex_digit_lower((bytes[i] / 16) as nat)
            &&& h[2 * i + 1] == hex_digit_lower((bytes[i] % 16) as nat)
        } by {
            if i < init.len() {
                assert(init[i] == bytes[i]);
                assert(h[2 * i] == hi[2 * i]);
                assert(h[2 * i + 1] == hi[2 * i + 1]);
            }
        }
        assert forall|j: int| 0 <= j < h.len() implies {
            let u = #[trigger] h[j] as u32;
            (48 <= u <= 57) || (97 <= u <= 102)
        } by {
            if j < hi.len() {
                assert(h[j] == hi[j]);
            }
        }
    }
}

/// `hex::encode`. Claimed (its source: a table `0123456789abcdef`, high nibble
/// first): the text is `hex_lower` of the bytes.
#[verifier::external_body]
fn hex_encode_lower(bytes: &[u8]) -> (text: String)
    ensures
        text@ == hex_lower(bytes@),
{
    hex::encode(bytes)
}

/// The symbol of the standard base64 alphabet for the 6-bit value `v`.
pub open spec fn base64_symbol(v: nat) -> char {
    if v < 26 {
        (65 + v) as char
    } else if v < 52 {
        (71 + v) as char
    } else if v < 62 {
        (v - 4) as char
    } else if v == 62 {
        '+'
    } else {
        '/'
    }
}

/// Standard base64 (RFC 4648 alphabet, `=` padding) of `bytes`: every group of
/// three bytes becomes four symbols; a last group of one or two bytes is padded.
pub open spec fn base64_standard(bytes: Seq<u8>) -> Seq<char>
    decreases bytes.len(),
{
    if bytes.len() == 0 {
        seq![]
    } else if bytes.len() == 1 {
        let b0 = bytes[0] as nat;
        seq![base64_symbol(b0 / 4), base64_symbol((b0 % 4) * 16), '=', '=']
    } else if bytes.len() == 2 {
        let b0 = bytes[0] as nat;
        let b1 = bytes[1] as nat;
        seq![
            base64_symbol(b0 / 4),
            base64_symbol((b0 % 4) * 16 + b1 / 16),
            base64_symbol((b1 % 16) * 4),
            '=',
        ]
    } else {
        let b0 = bytes[0] as nat;
        let b1 = bytes[1] as nat;
        let b2 = bytes[2] as nat;
        seq![
            base64_symbol(b0 / 4),
            base64_symbol((b0 % 4) * 16 + b1 / 16),
            base64_symbol((b1 % 16) * 4 + b2 / 64),
            base64_symbol(b2 % 64),
        ] + base64_standard(bytes.skip(3))
    }
}

/// Base64 text has four symbols per group of three bytes, in order: group `k` (bytes
/// `3k`, `3k+1`, `3k+2`) gives the four 6-bit slices of its 24 bits, high bits first. A
/// last group of one byte gives two symbols and `==`, one of two bytes three symbols
/// and `=`.
#[verifier::spinoff_prover]
#[verifier::rlimit(50)]
pub proof fn base64_standard_is_grouped(bytes: Seq<u8>)
    ensures
        base64_standard(bytes).len() == 4 * ((bytes.len() + 2) / 3),
        forall|k: int| #![trigger bytes[3 * k]] 0 <= k && 3 * k + 2 < bytes.len() ==> {
            let out = base64_standard(bytes);
            let b0 = bytes[3 * k] as nat;
            let b1 = bytes[3 * k + 1] as nat;
            let b2 = bytes[3 * k + 2] as nat;
            &&& out[4 * k] == base64_symbol(b0 / 4)
            &&& out[4 * k + 1] == base64_symbol((b0 % 4) * 16 + b1 / 16)
            &&& out[4 * k + 2] == base64_symbol((b1 % 16) * 4 + b2 / 64)
            &&& out[4 * k + 3] == base64_symbol(b2 % 64)
        },
        bytes.len() % 3 == 1 ==> {
            let out = base64_standard(bytes);
            let b0 = bytes[bytes.len() - 1] as nat;
            &&& out[out.len() - 4] == base64_symbol(b0 / 4)
            &&& out[out.len() - 3] == base64_symbol((b0 % 4) * 16)
            &&& out[out.len() - 2] == '='
            &&& out[out.len() - 1] == '='
        },
        bytes.len() % 3 == 2 ==> {
            let out = base64_standard(bytes);
            let b0 = bytes[bytes.len() - 2] as nat;
            let b1 = bytes[bytes.len() - 1] as nat;
            &&& out[out.len() - 4] == base64_symbol(b0 / 4)
            &&& out[out.len() - 3] == base64_symbol((b0 % 4) * 16 + b1 / 16)
            &&& out[out.len() - 2] == base64_symbol((b1 % 16) * 4)
            &&& out[out.len() - 1] == '='
        },
    decreases bytes.len(),
{
    if bytes.len() >= 3 {
        let rest = bytes.skip(3);
        base64_standard_is_grouped(rest);
        let out = base64_standard(bytes);
        let tail = base64_standard(rest);
        assert(out.len() == 4 + tail.len());
        assert forall|k: int| #![trigger bytes[3 * k]] 0 <= k && 3 * k + 2 < bytes.len() implies {
            let b0 = bytes[3 * k] as nat;
            let b1 = bytes[3 * k + 1] as nat;
            let b2 = bytes[3 * k + 2] as nat;
            &&& out[4 * k] == base64_symbol(b0 / 4)
            &&& out[4 * k + 1] == base64_symbol((b0 % 4) * 16 + b1 / 16)
            &&& out[4 * k + 2] == base64_symbol((b1 % 16) * 4 + b2 / 64)
            &&& out[4 * k + 3] == base64_symbol(b2 % 64)
        } by {
            if k > 0 {
                let j = k - 1;
                assert(rest[3 * j] == bytes[3 * k]);
                assert(rest[3 * j + 1] == bytes[3 * k + 1]);
                assert(rest[3 * j + 2] == bytes[3 * k + 2]);
                assert(out[4 * k] == tail[4 * j]);
                assert(out[4 * k + 1] == tail[4 * j + 1]);
                assert(out[4 * k + 2] == tail[4 * j + 2]);
                assert(out[4 * k + 3] == tail[4 * j + 3]);
            }
        }
        if bytes.len() % 3 != 0 {
            assert(rest[rest.len() - 1] == bytes[bytes.len() - 1]);
            assert(out[out.len() - 1] == tail[tail.len() - 1]);
            assert(out[out.len() - 2] == tail[tail.len() - 2]);
            assert(out[out.len() - 3] == tail[tail.len() - 3]);
            assert(out[out.len() - 4] == tail[tail.len() - 4]);
            if bytes.len() % 3 == 2 {
                assert(rest[rest.len() - 2] == bytes[bytes.len() - 2]);
            }
        }
    }
}

/// `base64::engine::general_purpose::STANDARD.encode`. Claimed (the crate's
/// documentation: RFC 4648 standard alphabet, padded): the text is
/// `base64_standard` of the bytes. The crate panics when the encoded length
/// overflows `usize`; the bound on the input rules that out.
#[verifier::external_body]
fn base64_encode_standard(bytes: &[u8]) -> (text: String)
    requires
        bytes@.len() <= usize::MAX / 4 * 3,
    ensures
        text@ == base64_standard(bytes@),
{
    base64::engine::general_purpose::STANDARD.encode(bytes)
}

/// The bytes that are signed: the public key, the data, the public key again.
pub open spec fn signed_payload(public_key: Seq<char>, data: Seq<u8>) -> Seq<u8> {
    encode_utf8(public_key) + data + encode_utf8(public_key)
}

/// The signature of `data` for a key pair.
pub open spec fn spec_signature(public_key: Seq<char>, secret_key: Seq<char>, data: Seq<u8>) -> Seq<char> {
    base64_standard(
        encode_utf8(hex_lower(hmac_sha512(encode_utf8(secret_key), signed_payload(public_key, data)))),
    )
}

/// A symbol of the standard base64 alphabet: `A`-`Z`, `a`-`z`, `0`-`9`, `+`, `/`.
pub open spec fn is_base64_symbol(c: char) -> bool {
    let u = c as u32;
    ||| 65 <= u <= 90
    ||| 97 <= u <= 122
    ||| 48 <= u <= 57
    ||| u == 43
    ||| u == 47
}

/// The length of every signature: base64 of the 128 hex digits of a 64-byte tag.
pub open spec fn signature_len() -> nat {
    172
}

/// What every signature looks like: 172 ASCII characters, 171 base64 symbols and one
/// `=` of padding at the end.
pub open spec fn is_signature_shaped(signature: Seq<char>) -> bool {
    &&& signature.len() == signature_len()
    &&& is_ascii_chars(signature)
    &&& signature.last() == '='
    &&& forall|i: int| 0 <= i < signature.len() - 1 ==> is_base64_symbol(#[trigger] signature[i])
}

/// HMAC-SHA512 signature used by SolidGate for both API requests and webhook callbacks:
/// `base64(hex(HMAC-SHA512(public_key + data + public_key, secret_key)))`.
pub fn generate_signature(public_key: &str, secret_key: &str, data: &[u8]) -> (signature: String)
    ensures
        signature@ == spec_signature(public_key@, secret_key@, data@),
        signature@ == base64_standard(encode_utf8(hex_lower(hmac_sha512(
            encode_utf8(secret_key@),
            encode_utf8(public_key@) + data@ + encode_utf8(public_key@),
        )))),
        is_signature_shaped(signature@),
{
    let mut payload: Vec<u8> = Vec::new();
    payload.extend_from_slice(public_key.as_bytes());
    payload.extend_from_slice(data);
    payload.extend_from_slice(public_key.as_bytes());
    proof {
        assert(payload@ =~= signed_payload(public_key@, data@));
    }
    let tag = hmac_sha512_tag(secret_key.as_bytes(), payload.as_slice());
    let hex_text = hex_encode_lower(tag.as_slice());
    proof {
        lemma_hex_lower_len(tag@);
        lemma_ascii_encode_len(hex_text@);
    }
    let signature = base64_encode_standard(hex_text.as_str().as_bytes());
    proof {
        lemma_base64_shape(encode_utf8(hex_text@));
    }
    signature
}

proof fn lemma_base64_symbol(v: nat)
    requires
        v < 64,
    ensures
        is_base64_symbol(base64_symbol(v)),
        base64_symbol(v) != '=',
{
}

proof fn lemma_base64_shape(bytes: Seq<u8>)
    ensures
        base64_standard(bytes).len() == 4 * ((bytes.len() + 2) / 3),
        is_ascii_chars(base64_standard(bytes)),
        bytes.len() % 3 == 2 ==> base64_standard(bytes).last() == '=',
        bytes.len() % 3 == 2 ==> forall|i: int|
            0 <= i < base64_standard(bytes).len() - 1 ==> is_base64_symbol(#[trigger] base64_standard(bytes)[i]),
    decreases bytes.len(),
{
    let out = base64_standard(bytes);
    if bytes.len() == 0 {
    } else if bytes.len() == 1 {
        let b0 = bytes[0] as nat;
        lemma_base64_symbol(b0 / 4);
        lemma_base64_symbol((b0 % 4) * 16);
    } else if bytes.len() == 2 {
        let b0 = bytes[0] as nat;
        let b1 = bytes[1] as nat;
        lemma_base64_symbol(b0 / 4);
        lemma_base64_symbol((b0 % 4) * 16 + b1 / 16);
        lemma_base64_symbol((b1 % 16) * 4);
        assert forall|i: int| 0 <= i < out.len() - 1 implies is_base64_symbol(#[trigger] out[i]) by {
            assert(i == 0 || i == 1 || i == 2);
        }
    } else {
        let b0 = bytes[0] as nat;
        let b1 = bytes[1] as nat;
        let b2 = bytes[2] as nat;
        lemma_base64_symbol(b0 / 4);
        lemma_base64_symbol((b0 % 4) * 16 + b1 / 16);
        lemma_base64_symbol((b1 % 16) * 4 + b2 / 64);
        lemma_base64_symbol(b2 % 64);
        let head = seq![
            base64_symbol(b0 / 4),
            base64_symbol((b0 % 4) * 16 + b1 / 16),
            base64_symbol((b1 % 16) * 4 + b2 / 64),
            base64_symbol(b2 % 64),
        ];
        let rest = bytes.skip(3);
        lemma_base64_shape(rest);
        let tail = base64_standard(rest);
        assert(out == head + tail);
        assert forall|i: int| 0 <= i < out.len() implies '\0' <= #[trigger] out[i] <= '\u{7f}' by {
            if i >= 4 {
                assert(out[i] == tail[i - 4]);
            }
        }
        if bytes.len() % 3 == 2 {
            assert forall|i: int| 0 <= i < out.len() - 1 implies is_base64_symbol(#[trigger] out[i]) by {
                if i >= 4 {
                    assert(out[i] == tail[i - 4]);
                }
            }
        }
    }
}

proof fn lemma_hex_lower_len(bytes: Seq<u8>)
    ensures
        hex_lower(bytes).len() == 2 * bytes.len(),
        forall|i: int| 0 <= i < hex_lower(bytes).len() ==> (#[trigger] hex_lower(bytes)[i] as u32) < 128,
    decreases bytes.len(),
{
    if bytes.len() > 0 {
        lemma_hex_lower_len(bytes.drop_last());
    }
}

proof fn lemma_ascii_encode_len(chars: Seq<char>)
    requires
        forall|i: int| 0 <= i < chars.len() ==> (#[trigger] chars[i] as u32) < 128,
    ensures
        encode_utf8(chars).len() == chars.len(),
    decreases chars.len(),
{
    if chars.len() > 0 {
        assert forall|i: int| 0 <= i < chars.drop_first().len() implies (#[trigger] chars.drop_first()[i] as u32) < 128 by {
            assert(chars.drop_first()[i] == chars[i + 1]);
        }
        lemma_ascii_encode_len(chars.drop_first());
    }
}

/// Whether `received` is the signature of `data` for the key pair.
pub open spec fn signature_matches(public_key: Seq<char>, secret_key: Seq<char>, data: Seq<u8>, received: Seq<char>) -> bool {
    received == spec_signature(public_key, secret_key, data)
}

/// For every key pair and every data, the signed bytes are the public key, the data and
/// the public key again, MACed with the secret key, written in lower-case hex and
/// encoded in standard base64.
pub proof fn signature_covers_key_data_key(public_key: Seq<char>, secret_key: Seq<char>, data: Seq<u8>)
    ensures
        spec_signature(public_key, secret_key, data) == base64_standard(encode_utf8(hex_lower(hmac_sha512(
            encode_utf8(secret_key),
            encode_utf8(public_key) + data + encode_utf8(public_key),
        )))),
{
}

/// A signature made by `generate_signature` is accepted by `verify_signature` for the
/// same key pair and data.
pub proof fn generated_signature_verifies(public_key: Seq<char>, secret_key: Seq<char>, data: Seq<u8>)
    ensures
        signature_matches(public_key, secret_key, data, spec_signature(public_key, secret_key, data)),
{
}

/// `verify_signature` accepts one text at most for a key pair and data: two accepted
/// signatures are the same text.
pub proof fn accepted_signature_is_unique(
    public_key: Seq<char>,
    secret_key: Seq<char>,
    data: Seq<u8>,
    first: Seq<char>,
    second: Seq<char>,
)
    requires
        signature_matches(public_key, secret_key, data, first),
        signature_matches(public_key, secret_key, data, second),
    ensures
        first == second,
{
}

/// Checks a received signature against the one computed for `data`, comparing every
/// byte with no early exit once the lengths agree.
pub fn verify_signature(public_key: &str, secret_key: &str, data: &[u8], received: &str) -> (valid: bool)
    ensures
        valid == signature_matches(public_key@, secret_key@, data@, received@),
        encode_utf8(received@).len() != signature_len() ==> !valid,
{
    let expected = generate_signature(public_key, secret_key, data);
    proof {
        vstd::utf8::is_ascii_chars_encode_utf8(expected@);
    }
    let e = expected.as_str().as_bytes();
    let r = received.as_bytes();
    proof {
        broadcast use encode_utf8_decode_utf8;
        assert(decode_utf8(e@) == expected@);
        assert(decode_utf8(r@) == received@);
    }
    if e.len() != r.len() {
        return false;
    }
    let mut acc: u8 = 0;
    let mut i: usize = 0;
    while i < e.len()
        invariant
            i <= e@.len(),
            e@.len() == r@.len(),
            (acc == 0) <==> (forall|j: int| 0 <= j < i ==> e@[j] == r@[j]),
        decreases e@.len() - i,
    {
        let a = e[i];
        let b = r[i];
        let next = acc | (a ^ b);
        assert((next == 0) <==> (acc == 0 && a == b)) by (bit_vector)
            requires
                next == acc | (a ^ b),
        ;
        acc = next;
        i = i + 1;
    }
    proof {
        if acc == 0 {
            assert(e@ =~= r@);
        }
    }
    acc == 0
}

} // verus!
