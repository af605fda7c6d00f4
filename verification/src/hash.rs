//! Content digests: 160-bit SHA-1 values, their hexadecimal form, and the
//! incremental hasher that computes them.

use crate::error::{result_view, Error, ErrorView};
use vstd::prelude::*;
use vstd::string::{StringExecFns, StringSliceAdditionalSpecFns};
use crate::text::{append_quoted, spec_quoted};
use vstd::utf8::encode_utf8;

verus! {

/// Number of bytes in a digest.
pub const DIGEST_LEN: usize = 20;

/// Number of hexadecimal digits that spell a digest.
pub const HEX_LEN: usize = 40;

/// The value of an ASCII hexadecimal digit, in either case.
pub open spec fn hex_value(b: u8) -> Option<u8> {
    if 0x30 <= b <= 0x39 {
        Some((b - 0x30) as u8)
    } else if 0x61 <= b <= 0x66 {
        Some((b - 0x61 + 10) as u8)
    } else if 0x41 <= b <= 0x46 {
        Some((b - 0x41 + 10) as u8)
    } else {
        None
    }
}

/// Whether every byte of `s` is a hexadecimal digit.
pub open spec fn is_hex(s: Seq<u8>) -> bool {
    forall|i: int| 0 <= i < s.len() ==> (#[trigger] hex_value(s[i])) is Some
}

/// The bytes that the hexadecimal digits of `s` spell, two digits to a byte,
/// the first of them the high nibble.
pub open spec fn hex_decoded(s: Seq<u8>) -> Seq<u8>
    recommends
        is_hex(s),
        s.len() % 2 == 0,
{
    Seq::new(
        s.len() / 2,
        |i: int| (hex_value(s[2 * i]).unwrap() * 16 + hex_value(s[2 * i + 1]).unwrap()) as u8,
    )
}

/// The message for a digest string of the wrong length.
pub open spec fn bad_length_message(text: Seq<char>) -> Seq<char> {
    "SHA-1 hash string is not 40 characters long: "@ + text
}

/// The message for a digest string with a byte that is no hexadecimal digit:
/// the byte is shown as a quoted character.
pub open spec fn bad_digit_message(b: u8) -> Seq<char> {
    "Unexpected character in SHA-1 hash string: "@ + spec_quoted(b)
}

/// The index of the first byte of `s` that is no hexadecimal digit.
pub open spec fn first_non_hex(s: Seq<u8>) -> Option<int>
    decreases s.len(),
{
    if s.len() == 0 {
        None
    } else {
        match first_non_hex(s.drop_last()) {
            Some(i) => Some(i),
            None => if hex_value(s.last()) is None {
                Some(s.len() - 1)
            } else {
                None
            },
        }
    }
}

/// What [`first_non_hex`] finds is the least index of a byte that is no
/// hexadecimal digit, and `None` exactly when every byte is one.
pub proof fn first_non_hex_is_first(s: Seq<u8>)
    ensures
        match first_non_hex(s) {
            Some(i) => 0 <= i < s.len() && hex_value(s[i]) is None && is_hex(s.take(i)),
            None => is_hex(s),
        },
    decreases s.len(),
{
    if s.len() > 0 {
        let init = s.drop_last();
        first_non_hex_is_first(init);
        match first_non_hex(init) {
            Some(i) => {
                assert(init.take(i) =~= s.take(i));
            },
            None => {
                if hex_value(s.last()) is None {
                    assert(s.take(s.len() - 1) =~= init);
                } else {
                    assert forall|j: int| 0 <= j < s.len() implies (#[trigger] hex_value(
                        s[j],
                    )) is Some by {
                        if j < s.len() - 1 {
                            assert(s[j] == init[j]);
                        }
                    }
                }
            },
        }
    }
}

/// What parsing a digest string gives: the 20 bytes that its 40 hexadecimal
/// digits spell. A string with a byte that is no hexadecimal digit is rejected
/// with the first such byte; a string of hexadecimal digits whose length is not
/// 40 is rejected for its length. Nothing is padded or cut.
pub open spec fn spec_sha_from_hash_str(text: Seq<char>) -> Result<Seq<u8>, ErrorView> {
    let bytes = encode_utf8(text);
    match first_non_hex(bytes) {
        Some(i) => Err(ErrorView::BadManifestFormat(bad_digit_message(bytes[i]))),
        None => if bytes.len() != 40 {
            Err(ErrorView::BadManifestFormat(bad_length_message(text)))
        } else {
            Ok(hex_decoded(bytes))
        },
    }
}

/// The value of one hexadecimal digit.
fn nibble(b: u8) -> (v: Option<u8>)
    ensures
        v == hex_value(b),
        v matches Some(n) ==> n < 16,
{
    if 0x30 <= b && b <= 0x39 {
        Some(b - 0x30)
    } else if 0x61 <= b && b <= 0x66 {
        Some(b - 0x61 + 10)
    } else if 0x41 <= b && b <= 0x46 {
        Some(b - 0x41 + 10)
    } else {
        None
    }
}

/// The value of a byte that is a hexadecimal digit.
fn digit_value(b: u8) -> (v: u8)
    requires
        hex_value(b) is Some,
    ensures
        hex_value(b) == Some(v),
        v < 16,
{
    match nibble(b) {
        Some(v) => v,
        None => 0,
    }
}

/// Once a prefix holds a byte that is no hexadecimal digit, the first of the
/// whole sequence is the first of the prefix.
proof fn non_hex_stays_first(s: Seq<u8>, n: int)
    requires
        0 <= n <= s.len(),
        first_non_hex(s.take(n)) is Some,
    ensures
        first_non_hex(s) == first_non_hex(s.take(n)),
    decreases s.len() - n,
{
    if n < s.len() {
        assert(s.take(n + 1).drop_last() =~= s.take(n));
        non_hex_stays_first(s, n + 1);
    } else {
        assert(s.take(n) =~= s);
    }
}

/// Looks for the first byte that is no hexadecimal digit.
fn find_non_hex(bytes: &[u8]) -> (found: Option<usize>)
    ensures
        match found {
            Some(i) => first_non_hex(bytes@) == Some(i as int) && i < bytes@.len(),
            None => first_non_hex(bytes@) is None,
        },
{
    let n: usize = bytes.len();
    let mut i: usize = 0;
    assert(bytes@.take(0) =~= Seq::<u8>::empty());
    while i < n
        invariant
            i <= n == bytes@.len(),
            first_non_hex(bytes@.take(i as int)) is None,
        decreases n - i,
    {
        let ghost upto = bytes@.take(i + 1);
        proof {
            assert(upto.drop_last() =~= bytes@.take(i as int));
            assert(upto.last() == bytes@[i as int]);
        }
        if nibble(bytes[i]).is_none() {
            proof {
                non_hex_stays_first(bytes@, i + 1);
            }
            return Some(i);
        }
        i += 1;
    }
    assert(bytes@.take(i as int) =~= bytes@);
    None
}

/// Parses the 40 hexadecimal digits of a digest.
pub fn sha_from_hash_str(hash_str: &str) -> (res: Result<[u8; 20], Error>)
    ensures
        result_view(res) == spec_sha_from_hash_str(hash_str@),
{
    let bytes = hash_str.as_bytes();
    match find_non_hex(bytes) {
        Some(i) => {
            let mut message = String::from_str("Unexpected character in SHA-1 hash string: ");
            append_quoted(&mut message, bytes[i]);
            return Err(Error::BadManifestFormat(message));
        },
        None => {},
    }
    if bytes.len() != HEX_LEN {
        let mut message = String::from_str("SHA-1 hash string is not 40 characters long: ");
        message.append(hash_str);
        return Err(Error::BadManifestFormat(message));
    }
    proof {
        first_non_hex_is_first(bytes@);
    }
    let mut sha: [u8; 20] = [0u8;20];
    let mut i: usize = 0;
    while i < DIGEST_LEN
        invariant
            i <= 20,
            bytes@.len() == 40,
            is_hex(bytes@),
            forall|j: int| 0 <= j < i ==> sha@[j] == #[trigger] hex_decoded(bytes@)[j],
        decreases 20 - i,
    {
        assert(hex_value(bytes@[2 * i]) is Some && hex_value(bytes@[2 * i + 1]) is Some);
        let high: u8 = digit_value(bytes[2 * i]);
        let low: u8 = digit_value(bytes[2 * i + 1]);
        sha[i] = high * 16 + low;
        i += 1;
    }
    assert(sha@ =~= hex_decoded(bytes@));
    Ok(sha)
}

/// The SHA-1 digest of a byte sequence: what `finalize` returns of a hasher
/// that has absorbed exactly those bytes.
pub uninterp spec fn sha1_of(data: Seq<u8>) -> Seq<u8>;

/// The bytes that a hasher has absorbed since it was made, in order.
pub uninterp spec fn absorbed(hasher: sha1::Sha1) -> Seq<u8>;

/// The hasher of the `sha1` crate; nothing inside it is visible here.
#[verifier::external_type_specification]
#[verifier::external_body]
pub struct ExSha1(sha1::Sha1);

/// Makes a hasher with `Sha1::default`.
///
/// Trusted: a new hasher has absorbed nothing.
#[verifier::external_body]
fn hasher_new() -> (hasher: sha1::Sha1)
    ensures
        absorbed(hasher) == Seq::<u8>::empty(),
{
    sha1::Sha1::default()
}

/// Feeds `data` to a hasher with `Digest::update`.
///
/// Trusted: the hasher has then absorbed what it had before, followed by `data`.
#[verifier::external_body]
fn hasher_update(hasher: &mut sha1::Sha1, data: &[u8])
    ensures
        absorbed(*final(hasher)) == absorbed(*old(hasher)) + data@,
{
    sha1::Digest::update(hasher, data)
}

/// Ends a hasher with `Digest::finalize`.
///
/// Trusted: the 20 bytes returned are the SHA-1 digest, named [`sha1_of`], of
/// all that the hasher has absorbed.
#[verifier::external_body]
fn hasher_finalize(hasher: sha1::Sha1) -> (digest: [u8; 20])
    ensures
        digest@ == sha1_of(absorbed(hasher)),
{
    sha1::Digest::finalize(hasher).into()
}

/// An incremental digest computation: bytes are fed in chunks of any size, and
/// the digest of their concatenation is taken at the end. Memory use does not
/// grow with the amount of data.
pub struct Digester {
    hasher: sha1::Sha1,
}

impl Digester {
    /// All bytes fed so far, in order.
    pub closed spec fn fed(&self) -> Seq<u8> {
        absorbed(self.hasher)
    }

    /// A computation that has been fed nothing.
    pub fn new() -> (digester: Digester)
        ensures
            digester.fed() == Seq::<u8>::empty(),
    {
        Digester { hasher: hasher_new() }
    }

    /// Feeds one more chunk.
    pub fn update(&mut self, chunk: &[u8])
        ensures
            final(self).fed() == old(self).fed() + chunk@,
    {
        hasher_update(&mut self.hasher, chunk)
    }

    /// The digest of everything fed.
    pub fn finish(self) -> (digest: [u8; 20])
        ensures
            digest@ == sha1_of(self.fed()),
    {
        hasher_finalize(self.hasher)
    }
}

/// The digest of `data`.
pub fn sha_of_bytes(data: &[u8]) -> (digest: [u8; 20])
    ensures
        digest@ == sha1_of(data@),
{
    let mut digester = Digester::new();
    digester.update(data);
    assert(Seq::<u8>::empty() + data@ =~= data@);
    digester.finish()
}

/// The digest of the concatenation of `chunks`, fed one chunk at a time.
pub fn sha_of_chunks(chunks: &Vec<Vec<u8>>) -> (digest: [u8; 20])
    ensures
        digest@ == sha1_of(concat(chunks@.map_values(|c: Vec<u8>| c@))),
{
    let mut digester = Digester::new();
    let ghost parts = chunks@.map_values(|c: Vec<u8>| c@);
    let mut i: usize = 0;
    while i < chunks.len()
        invariant
            i <= chunks@.len(),
            parts == chunks@.map_values(|c: Vec<u8>| c@),
            digester.fed() == concat(parts.take(i as int)),
        decreases chunks@.len() - i,
    {
        digester.update(chunks[i].as_slice());
        proof {
            let before = parts.take(i as int);
            let after = parts.take(i + 1);
            assert(after.drop_last() =~= before);
            assert(after.last() == chunks@[i as int]@);
        }
        i += 1;
    }
    assert(parts.take(i as int) =~= parts);
    digester.finish()
}

/// The concatenation of a sequence of byte sequences.
pub open spec fn concat(parts: Seq<Seq<u8>>) -> Seq<u8>
    decreases parts.len(),
{
    if parts.len() == 0 {
        Seq::empty()
    } else {
        concat(parts.drop_last()) + parts.last()
    }
}

/// Whether two digests are the same, byte for byte.
pub fn same_digest(a: &[u8; 20], b: &[u8; 20]) -> (same: bool)
    ensures
        same == (a@ == b@),
{
    let mut i: usize = 0;
    while i < DIGEST_LEN
        invariant
            i <= 20,
            forall|j: int| 0 <= j < i ==> a@[j] == b@[j],
        decreases 20 - i,
    {
        if a[i] != b[i] {
            return false;
        }
        i += 1;
    }
    assert(a@ =~= b@);
    true
}

} // verus!
