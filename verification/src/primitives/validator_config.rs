//! Validator account configuration: a bonded amount and a delegation rate.

use vstd::prelude::*;
use casper_types::bytesrepr::{FromBytes, ToBytes};
use casper_types::U512;

use crate::bytesrepr::Error;

verus! {

broadcast use vstd::array::array_len_matches_n;

/// An amount of motes, a 512-bit unsigned integer, by its 64 little-endian
/// bytes.
#[derive(Clone, Copy, Debug, PartialEq, Eq)]
pub struct Motes(pub [u8; 64]);

/// The number of bytes of the little-endian `le` that remain after dropping
/// its most significant zero bytes.
pub open spec fn significant_len(le: Seq<u8>) -> nat
    decreases le.len(),
{
    if le.len() == 0 {
        0
    } else if le.last() == 0 {
        significant_len(le.drop_last())
    } else {
        le.len()
    }
}

/// The `bytesrepr` encoding of an amount given by its little-endian bytes: the
/// number of its significant bytes, then those bytes.
pub open spec fn amount_encoding(le: Seq<u8>) -> Seq<u8> {
    seq![significant_len(le) as u8] + le.take(significant_len(le) as int)
}

/// What reading an amount from the front of `bytes` gives: its 64
/// little-endian bytes and the rest; `EarlyEndOfStream` where bytes are
/// missing, `Formatting` where the amount would have more than 64 bytes.
pub open spec fn parse_amount(bytes: Seq<u8>) -> Result<(Seq<u8>, Seq<u8>), Error> {
    if bytes.len() == 0 {
        Err(Error::EarlyEndOfStream)
    } else if bytes[0] > 64 {
        Err(Error::Formatting)
    } else if bytes.len() < 1 + bytes[0] {
        Err(Error::EarlyEndOfStream)
    } else {
        let n = bytes[0] as int;
        Ok((bytes.subrange(1, 1 + n) + Seq::new((64 - n) as nat, |i: int| 0u8), bytes.skip(1 + n)))
    }
}

/// Writes an amount of motes in the `bytesrepr` format.
///
/// Calls `<casper_types::Motes as ToBytes>::to_bytes` on the amount built from
/// the little-endian bytes; the source writes the count of significant bytes
/// and then those bytes, and never fails: claimed to be [`amount_encoding`].
#[verifier::external_body]
fn motes_to_bytes(amount: &Motes) -> (r: Result<Vec<u8>, Error>)
    ensures
        r is Ok,
        r->Ok_0@ == amount_encoding(amount.0@),
{
    match casper_types::Motes::new(U512::from_little_endian(&amount.0)).to_bytes() {
        Ok(bytes) => Ok(bytes),
        Err(casper_types::bytesrepr::Error::EarlyEndOfStream) => Err(Error::EarlyEndOfStream),
        Err(casper_types::bytesrepr::Error::Formatting) => Err(Error::Formatting),
        Err(casper_types::bytesrepr::Error::LeftOverBytes) => Err(Error::LeftOverBytes),
        Err(casper_types::bytesrepr::Error::OutOfMemory) => Err(Error::OutOfMemory),
        Err(casper_types::bytesrepr::Error::NotRepresentable) => Err(Error::NotRepresentable),
        Err(_) => Err(Error::ExceededRecursionDepth),
    }
}

/// The serialized length of an amount of motes.
///
/// Calls `<casper_types::Motes as ToBytes>::serialized_length`, one byte of
/// count plus the significant bytes: claimed to be the length of
/// [`amount_encoding`].
#[verifier::external_body]
fn motes_serialized_length(amount: &Motes) -> (r: usize)
    ensures
        r == amount_encoding(amount.0@).len(),
{
    casper_types::Motes::new(U512::from_little_endian(&amount.0)).serialized_length()
}

/// Reads an amount of motes in the `bytesrepr` format from the front of
/// `bytes`.
///
/// Calls `<casper_types::Motes as FromBytes>::from_bytes`, which reads the
/// count byte, fails with `Formatting` above 64 and with `EarlyEndOfStream`
/// where bytes are missing, and reads the amount from that many little-endian
/// bytes: claimed to be [`parse_amount`].
#[verifier::external_body]
fn motes_from_bytes(bytes: &[u8]) -> (r: Result<(Motes, &[u8]), Error>)
    ensures
        parse_amount(bytes@) is Ok ==> r is Ok && r->Ok_0.0.0@ == parse_amount(bytes@)->Ok_0.0
            && r->Ok_0.1@ == parse_amount(bytes@)->Ok_0.1,
        parse_amount(bytes@) is Err ==> r is Err && r->Err_0 == parse_amount(bytes@)->Err_0,
{
    match casper_types::Motes::from_bytes(bytes) {
        Ok((motes, rem)) => {
            let mut le = [0u8; 64];
            motes.value().to_little_endian(&mut le);
            Ok((Motes(le), rem))
        },
        Err(casper_types::bytesrepr::Error::EarlyEndOfStream) => Err(Error::EarlyEndOfStream),
        Err(casper_types::bytesrepr::Error::Formatting) => Err(Error::Formatting),
        Err(casper_types::bytesrepr::Error::LeftOverBytes) => Err(Error::LeftOverBytes),
        Err(casper_types::bytesrepr::Error::OutOfMemory) => Err(Error::OutOfMemory),
        Err(casper_types::bytesrepr::Error::NotRepresentable) => Err(Error::NotRepresentable),
        Err(_) => Err(Error::ExceededRecursionDepth),
    }
}

/// Writes a `u8` in the `bytesrepr` format.
///
/// Calls `<u8 as casper_types::bytesrepr::ToBytes>::to_bytes`, which is
/// `Ok(vec![*self])`.
#[verifier::external_body]
fn u8_to_bytes(value: &u8) -> (r: Result<Vec<u8>, Error>)
    ensures
        r is Ok,
        r->Ok_0@ == seq![*value],
{
    match ToBytes::to_bytes(value) {
        Ok(bytes) => Ok(bytes),
        Err(casper_types::bytesrepr::Error::EarlyEndOfStream) => Err(Error::EarlyEndOfStream),
        Err(casper_types::bytesrepr::Error::Formatting) => Err(Error::Formatting),
        Err(casper_types::bytesrepr::Error::LeftOverBytes) => Err(Error::LeftOverBytes),
        Err(casper_types::bytesrepr::Error::OutOfMemory) => Err(Error::OutOfMemory),
        Err(casper_types::bytesrepr::Error::NotRepresentable) => Err(Error::NotRepresentable),
        Err(_) => Err(Error::ExceededRecursionDepth),
    }
}

/// The serialized length of a `u8`.
///
/// Calls `<u8 as casper_types::bytesrepr::ToBytes>::serialized_length`, which
/// returns `U8_SERIALIZED_LENGTH`: claimed to be 1.
#[verifier::external_body]
fn u8_serialized_length(value: &u8) -> (r: usize)
    ensures
        r == 1,
{
    ToBytes::serialized_length(value)
}

/// Reads a `u8` in the `bytesrepr` format from the front of `bytes`.
///
/// Calls `<u8 as casper_types::bytesrepr::FromBytes>::from_bytes`, which splits
/// off the first byte, failing with `EarlyEndOfStream` on no bytes.
#[verifier::external_body]
fn u8_from_bytes(bytes: &[u8]) -> (r: Result<(u8, &[u8]), Error>)
    ensures
        r is Ok <==> bytes@.len() > 0,
        r is Err ==> r->Err_0 == Error::EarlyEndOfStream,
        r is Ok ==> r->Ok_0.0 == bytes@[0] && r->Ok_0.1@ == bytes@.skip(1),
{
    match <u8 as FromBytes>::from_bytes(bytes) {
        Ok(pair) => Ok(pair),
        Err(casper_types::bytesrepr::Error::EarlyEndOfStream) => Err(Error::EarlyEndOfStream),
        Err(casper_types::bytesrepr::Error::Formatting) => Err(Error::Formatting),
        Err(casper_types::bytesrepr::Error::LeftOverBytes) => Err(Error::LeftOverBytes),
        Err(casper_types::bytesrepr::Error::OutOfMemory) => Err(Error::OutOfMemory),
        Err(casper_types::bytesrepr::Error::NotRepresentable) => Err(Error::NotRepresentable),
        Err(_) => Err(Error::ExceededRecursionDepth),
    }
}

/// Validator account configuration.
#[derive(Clone, Copy, Debug, PartialEq, Eq)]
pub struct ValidatorConfig {
    bonded_amount: Motes,
    delegation_rate: u8,
}

/// A validator configuration as the little-endian bytes of the bonded amount
/// and the delegation rate.
pub type ValidatorConfigView = (Seq<u8>, u8);

impl View for ValidatorConfig {
    type V = ValidatorConfigView;

    closed spec fn view(&self) -> ValidatorConfigView {
        (self.bonded_amount.0@, self.delegation_rate)
    }
}

/// The `bytesrepr` encoding of a validator configuration: the bonded amount,
/// then the delegation rate.
pub open spec fn validator_config_encoding(v: ValidatorConfigView) -> Seq<u8> {
    amount_encoding(v.0) + seq![v.1]
}

/// What reading a validator configuration from the front of `bytes` gives.
pub open spec fn parse_validator_config(bytes: Seq<u8>) -> Result<(ValidatorConfigView, Seq<u8>), Error> {
    match parse_amount(bytes) {
        Err(e) => Err(e),
        Ok((le, rest)) => if rest.len() == 0 {
            Err(Error::EarlyEndOfStream)
        } else {
            Ok(((le, rest[0]), rest.skip(1)))
        },
    }
}

proof fn lemma_significant_len(le: Seq<u8>)
    ensures
        significant_len(le) <= le.len(),
        forall|k: int| significant_len(le) <= k < le.len() ==> le[k] == 0,
        significant_len(le) > 0 ==> le[significant_len(le) - 1] != 0,
    decreases le.len(),
{
    if le.len() > 0 && le.last() == 0 {
        assert(significant_len(le) == significant_len(le.drop_last()));
        lemma_significant_len(le.drop_last());
        assert forall|k: int| significant_len(le) <= k < le.len() implies le[k] == 0 by {
            if k < le.len() - 1 {
                assert(le.drop_last()[k] == le[k]);
            }
        }
    }
}

/// The encoding of a validator configuration is: one byte `n`, the number of
/// bytes of the bonded amount up to its last non-zero byte; those `n`
/// little-endian bytes; then the delegation rate.
pub proof fn lemma_validator_config_layout(v: ValidatorConfigView)
    requires
        v.0.len() == 64,
    ensures
        ({
            let e = validator_config_encoding(v);
            let n = e[0] as int;
            &&& n <= 64
            &&& e.len() == n + 2
            &&& e.subrange(1, 1 + n) == v.0.take(n)
            &&& forall|k: int| n <= k < 64 ==> v.0[k] == 0
            &&& n > 0 ==> v.0[n - 1] != 0
            &&& e[n + 1] == v.1
        }),
{
    lemma_significant_len(v.0);
    let e = validator_config_encoding(v);
    let n = significant_len(v.0) as int;
    assert(e[0] == n as u8);
    assert(e.subrange(1, 1 + n) =~= v.0.take(n));
}

/// An amount is read back from its encoding, and whatever followed is left.
pub proof fn lemma_parse_amount_encoding(le: Seq<u8>, rest: Seq<u8>)
    requires
        le.len() == 64,
    ensures
        parse_amount(amount_encoding(le) + rest) == Ok::<(Seq<u8>, Seq<u8>), Error>((le, rest)),
{
    lemma_significant_len(le);
    let n = significant_len(le) as int;
    let bytes = amount_encoding(le) + rest;
    assert(bytes[0] == n as u8);
    assert(bytes.subrange(1, 1 + n) =~= le.take(n));
    assert(le.take(n) + Seq::new((64 - n) as nat, |i: int| 0u8) =~= le);
    assert(bytes.skip(1 + n) =~= rest);
}

/// A validator configuration is read back from its encoding, and whatever
/// followed is left.
pub proof fn lemma_parse_validator_config_encoding(v: ValidatorConfigView, rest: Seq<u8>)
    requires
        v.0.len() == 64,
    ensures
        parse_validator_config(validator_config_encoding(v) + rest) == Ok::<(ValidatorConfigView, Seq<u8>), Error>((v, rest)),
{
    let bytes = validator_config_encoding(v) + rest;
    assert(bytes =~= amount_encoding(v.0) + (seq![v.1] + rest));
    lemma_parse_amount_encoding(v.0, seq![v.1] + rest);
    assert((seq![v.1] + rest).skip(1) =~= rest);
}

impl ValidatorConfig {
    /// Creates a new `ValidatorConfig`.
    pub fn new(bonded_amount: Motes, delegation_rate: u8) -> (r: Self)
        ensures
            r@ == (bonded_amount.0@, delegation_rate),
    {
        Self { bonded_amount, delegation_rate }
    }

    /// Delegation rate.
    pub fn delegation_rate(&self) -> (r: u8)
        ensures
            r == self@.1,
    {
        self.delegation_rate
    }

    /// Bonded amount.
    pub fn bonded_amount(&self) -> (r: Motes)
        ensures
            r.0@ == self@.0,
    {
        self.bonded_amount
    }

    /// Serializes the configuration: the bonded amount, then the delegation
    /// rate.
    pub fn to_bytes(&self) -> (r: Result<Vec<u8>, Error>)
        ensures
            r is Ok,
            r->Ok_0@ == validator_config_encoding(self@),
    {
        let length = self.serialized_length();
        proof {
            lemma_significant_len(self.bonded_amount.0@);
        }
        if length > u32::MAX as usize {
            return Err(Error::OutOfMemory);
        }
        let mut buffer: Vec<u8> = Vec::with_capacity(length);
        let mut amount = match motes_to_bytes(&self.bonded_amount) {
            Ok(bytes) => bytes,
            Err(e) => return Err(e),
        };
        buffer.append(&mut amount);
        let mut rate = match u8_to_bytes(&self.delegation_rate) {
            Ok(bytes) => bytes,
            Err(e) => return Err(e),
        };
        buffer.append(&mut rate);
        Ok(buffer)
    }

    /// The length of the serialized configuration in bytes.
    pub fn serialized_length(&self) -> (r: usize)
        ensures
            r == validator_config_encoding(self@).len(),
    {
        proof {
            lemma_significant_len(self.bonded_amount.0@);
        }
        motes_serialized_length(&self.bonded_amount) + u8_serialized_length(&self.delegation_rate)
    }

    /// Deserializes a configuration from the front of `bytes`, handing back
    /// the rest.
    pub fn from_bytes(bytes: &[u8]) -> (r: Result<(ValidatorConfig, &[u8]), Error>)
        ensures
            parse_validator_config(bytes@) is Ok ==> r is Ok && r->Ok_0.0@
                == parse_validator_config(bytes@)->Ok_0.0 && r->Ok_0.1@ == parse_validator_config(
                bytes@,
            )->Ok_0.1,
            parse_validator_config(bytes@) is Err ==> r is Err && r->Err_0 == parse_validator_config(
                bytes@,
            )->Err_0,
    {
        let (bonded_amount, remainder) = match motes_from_bytes(bytes) {
            Ok(pair) => pair,
            Err(e) => return Err(e),
        };
        let (delegation_rate, remainder) = match u8_from_bytes(remainder) {
            Ok(pair) => pair,
            Err(e) => return Err(e),
        };
        let account_config = ValidatorConfig { bonded_amount, delegation_rate };
        Ok((account_config, remainder))
    }
}

} // verus!
