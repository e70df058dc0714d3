//! Small utilities: the SHA-512 digest type and a displayable optional value.

use vstd::prelude::*;
use openssl::hash::MessageDigest;
use openssl::nid::Nid;

verus! {

broadcast use vstd::string::to_string_from_display_ensures_for_str;

#[verifier::external_type_specification]
#[verifier::external_body]
pub struct ExMessageDigest(openssl::hash::MessageDigest);

/// The SHA-512 digest of `data`, as computed by OpenSSL.
pub uninterp spec fn sha512(data: Seq<u8>) -> Seq<u8>;

/// Hashes `data` with SHA-512.
///
/// Calls `openssl::sha::sha512`; the 64-byte result is claimed to be
/// [`sha512`] of `data`, a name for the digest and nothing more.
#[verifier::external_body]
fn sha512_digest(data: &[u8]) -> (r: [u8; 64])
    ensures
        r@ == sha512(data@),
{
    openssl::sha::sha512(data)
}

/// An OpenSSL message digest together with the numeric identifier it was
/// looked up by.
pub struct NidDigest {
    digest: MessageDigest,
    nid: Ghost<i32>,
}

impl NidDigest {
    /// The numeric identifier of the digest.
    pub closed spec fn nid(&self) -> i32 {
        self.nid@
    }

    /// The OpenSSL message digest.
    pub fn digest(&self) -> MessageDigest {
        self.digest
    }
}

/// The OpenSSL message digest with the numeric identifier `nid`.
///
/// Calls `openssl::hash::MessageDigest::from_nid(Nid::from_raw(nid))`, which
/// looks the digest up with `EVP_get_digestbynid` and gives the digest of that
/// identifier where the linked crypto library has one, else `None`. Claimed:
/// a result, where there is one, is the digest of `nid`. Whether there is one
/// depends on the crypto library linked on the machine, and is left unsaid.
#[verifier::external_body]
fn message_digest_from_nid(nid: i32) -> (r: Option<NidDigest>)
    ensures
        r is Some ==> r->Some_0.nid() == nid,
{
    match MessageDigest::from_nid(Nid::from_raw(nid)) {
        Some(digest) => Some(NidDigest { digest, nid: Ghost(nid) }),
        None => None,
    }
}

/// The lower-case hexadecimal digit of a nibble.
pub open spec fn hex_digit_lower(nibble: int) -> char {
    if nibble < 10 {
        (48 + nibble) as char
    } else {
        (87 + nibble) as char
    }
}

/// Base16 in lower case: two digits per byte, the high nibble first.
pub open spec fn hex_lower(bytes: Seq<u8>) -> Seq<char> {
    Seq::new(
        2 * bytes.len(),
        |i: int|
            if i % 2 == 0 {
                hex_digit_lower(bytes[i / 2] as int / 16)
            } else {
                hex_digit_lower(bytes[i / 2] as int % 16)
            },
    )
}

/// Encodes `bytes` in base16, lower case.
///
/// Calls `base16::encode_lower`, documented to encode each byte as two
/// hexadecimal digits, high nibble first, with `a` to `f` for 10 to 15: claimed
/// to be [`hex_lower`] of `bytes`.
#[verifier::external_body]
fn encode_lower(bytes: &[u8]) -> (r: String)
    ensures
        r@ == hex_lower(bytes@),
{
    base16::encode_lower(bytes)
}

/// SHA512 hash.
#[derive(Clone, Copy, Eq, PartialOrd, Ord, Hash)]
pub struct Sha512(pub [u8; 64]);

impl PartialEq for Sha512 {
    fn eq(&self, other: &Self) -> (r: bool) {
        let mut i: usize = 0;
        while i < 64
            invariant
                i <= 64,
                forall|j: int| 0 <= j < i ==> self.0@[j] == other.0@[j],
            decreases 64 - i,
        {
            if self.0[i] != other.0[i] {
                return false;
            }
            i = i + 1;
        }
        proof {
            assert(self.0@ =~= other.0@);
        }
        true
    }
}

impl vstd::std_specs::cmp::PartialEqSpecImpl for Sha512 {
    open spec fn obeys_eq_spec() -> bool {
        true
    }

    open spec fn eq_spec(&self, other: &Self) -> bool {
        self.0@ == other.0@
    }
}

impl Sha512 {
    /// Size of digest in bytes.
    pub const SIZE: usize = 64;

    /// OpenSSL's numeric identifier of SHA-512 (`Nid::SHA512`).
    pub const NID: i32 = 674;

    /// Create a new Sha512 by hashing a slice.
    pub fn new(data: &[u8]) -> (r: Self)
        ensures
            r.0@ == sha512(data@),
    {
        Sha512(sha512_digest(data))
    }

    /// Returns bytestring of the hash, with length `Self::SIZE`.
    pub fn bytes(&self) -> (r: &[u8])
        ensures
            r@ == self.0@,
            r@.len() == Self::SIZE,
    {
        self.0.as_slice()
    }

    /// Returns a new OpenSSL message digest set to SHA-512, looked up by its
    /// numeric identifier [`Self::NID`]; `None` where the linked crypto
    /// library has no digest with that identifier.
    pub fn create_message_digest() -> (r: Option<NidDigest>)
        ensures
            r is Some ==> r->Some_0.nid() == Self::NID,
    {
        message_digest_from_nid(Self::NID)
    }

    /// The debug form of the hash: its bytes in base16, lower case.
    pub fn to_hex(&self) -> (r: String)
        ensures
            r@ == hex_lower(self.0@),
    {
        encode_lower(self.bytes())
    }
}

/// Wrapper around `Option` that implements `Display`.
pub struct OptDisplay<'a, T> {
    /// The actual `Option` being displayed.
    inner: Option<T>,
    /// Value to substitute if `inner` is `None`.
    empty_display: &'a str,
}

impl<'a, T: std::fmt::Display> OptDisplay<'a, T> {
    /// The value displayed, if any.
    pub closed spec fn spec_inner(&self) -> Option<T> {
        self.inner
    }

    /// What is displayed where there is no value.
    pub closed spec fn spec_empty_display(&self) -> Seq<char> {
        self.empty_display@
    }

    /// Creates a new `OptDisplay`.
    pub fn new(maybe_display: Option<T>, empty_display: &'a str) -> (r: Self)
        ensures
            r.spec_inner() == maybe_display,
            r.spec_empty_display() == empty_display@,
    {
        Self { inner: maybe_display, empty_display }
    }

    /// The displayed form: that of the value, or the substitute where there
    /// is none.
    pub fn to_string(&self) -> (r: String)
        ensures
            self.spec_inner() is None ==> r@ == self.spec_empty_display(),
            self.spec_inner() is Some ==> vstd::string::to_string_from_display_ensures::<T>(
                &self.spec_inner()->Some_0,
                r,
            ),
    {
        match &self.inner {
            None => self.empty_display.to_string(),
            Some(val) => val.to_string(),
        }
    }
}

} // verus!
