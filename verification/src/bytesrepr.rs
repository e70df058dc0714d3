//! The `bytesrepr` wire format of Casper, as used by the chainspec cost tables.
//!
//! Every value in the cost tables is a sequence of `u32` words, each written as
//! its four little-endian bytes.  The encoding of a word sequence is modelled by
//! [`encode_words`]; the single-word encoding and decoding are done by
//! `casper_types` itself, behind the two trusted wrappers of this module.

use vstd::prelude::*;
use casper_types::bytesrepr::{FromBytes, ToBytes};

verus! {

/// Serialization and deserialization errors of the `bytesrepr` format.
#[derive(Clone, Copy, Debug, PartialEq, Eq, Structural)]
pub enum Error {
    /// Early end of stream while deserializing.
    EarlyEndOfStream,
    /// Formatting error while deserializing.
    Formatting,
    /// Not all input bytes were consumed.
    LeftOverBytes,
    /// Out of memory error.
    OutOfMemory,
    /// No serialized representation is available for a value.
    NotRepresentable,
    /// Exceeded a recursion depth limit.
    ExceededRecursionDepth,
}

/// The four bytes of a `u32`, least significant first.
pub open spec fn le_bytes(x: u32) -> Seq<u8> {
    seq![(x % 256) as u8, (x / 256 % 256) as u8, (x / 65536 % 256) as u8, (x / 16777216) as u8]
}

/// The `u32` of four bytes, least significant first.
pub open spec fn from_le_bytes(s: Seq<u8>) -> u32 {
    (s[0] + 256 * s[1] + 65536 * s[2] + 16777216 * s[3]) as u32
}

/// Reading the bytes of a `u32` gives it back.
pub proof fn lemma_le_bytes_of(x: u32)
    ensures
        from_le_bytes(le_bytes(x)) == x,
        le_bytes(x).len() == 4,
{
    let b = le_bytes(x);
    assert(b[0] + 256 * b[1] + 65536 * b[2] + 16777216 * b[3] == x) by (nonlinear_arith)
        requires
            b[0] == x % 256,
            b[1] == x / 256 % 256,
            b[2] == x / 65536 % 256,
            b[3] == x / 16777216,
            0 <= x < 0x1_0000_0000,
    ;
}

/// Every four bytes are the bytes of the `u32` they are read as.
pub proof fn lemma_from_le_bytes_of(s: Seq<u8>)
    requires
        s.len() == 4,
    ensures
        le_bytes(from_le_bytes(s)) == s,
{
    let x = s[0] + 256 * s[1] + 65536 * s[2] + 16777216 * s[3];
    assert(x % 256 == s[0] && x / 256 % 256 == s[1] && x / 65536 % 256 == s[2] && x / 16777216
        == s[3] && x < 0x1_0000_0000) by (nonlinear_arith)
        requires
            x == s[0] + 256 * s[1] + 65536 * s[2] + 16777216 * s[3],
            0 <= s[0] < 256,
            0 <= s[1] < 256,
            0 <= s[2] < 256,
            0 <= s[3] < 256,
    ;
    assert(le_bytes(from_le_bytes(s)) =~= s);
}

/// Reading the bytes of a `u32` gives it back, and every four bytes are the
/// bytes of the `u32` they are read as.
pub proof fn lemma_le_bytes_roundtrip()
    ensures
        forall|x: u32| #[trigger] from_le_bytes(le_bytes(x)) == x && le_bytes(x).len() == 4,
        forall|s: Seq<u8>| s.len() == 4 ==> #[trigger] le_bytes(from_le_bytes(s)) == s,
{
    assert forall|x: u32| #[trigger] from_le_bytes(le_bytes(x)) == x && le_bytes(x).len() == 4 by {
        lemma_le_bytes_of(x);
    }
    assert forall|s: Seq<u8>| s.len() == 4 implies #[trigger] le_bytes(from_le_bytes(s)) == s by {
        lemma_from_le_bytes_of(s);
    }
}

/// The bytes of a sequence of `u32` words, each in little-endian order.
#[verifier::opaque]
pub open spec fn encode_words(ws: Seq<u32>) -> Seq<u8>
    decreases ws.len(),
{
    if ws.len() == 0 {
        Seq::empty()
    } else {
        encode_words(ws.drop_last()) + le_bytes(ws.last())
    }
}

/// No words, no bytes.
pub proof fn lemma_encode_words_empty()
    ensures
        encode_words(Seq::empty()) == Seq::<u8>::empty(),
{
    reveal_with_fuel(encode_words, 1);
}

/// Four bytes per word.
pub proof fn lemma_encode_words_len(ws: Seq<u32>)
    ensures
        encode_words(ws).len() == 4 * ws.len(),
    decreases ws.len(),
{
    reveal_with_fuel(encode_words, 1);
    lemma_le_bytes_roundtrip();
    if ws.len() > 0 {
        lemma_encode_words_len(ws.drop_last());
    }
}

/// Appending a word appends its four bytes.
pub proof fn lemma_encode_words_push(ws: Seq<u32>, w: u32)
    ensures
        encode_words(ws.push(w)) == encode_words(ws) + le_bytes(w),
{
    reveal_with_fuel(encode_words, 1);
    assert(ws.push(w).drop_last() =~= ws);
}

/// The encoding of a concatenation is the concatenation of the encodings.
pub proof fn lemma_encode_words_concat(a: Seq<u32>, b: Seq<u32>)
    ensures
        encode_words(a + b) == encode_words(a) + encode_words(b),
    decreases b.len(),
{
    reveal_with_fuel(encode_words, 1);
    if b.len() == 0 {
        assert(a + b =~= a);
        assert(encode_words(a) + encode_words(b) =~= encode_words(a));
    } else {
        lemma_encode_words_concat(a, b.drop_last());
        assert((a + b).drop_last() =~= a + b.drop_last());
        assert((a + b).last() == b.last());
        assert(encode_words(a) + encode_words(b) =~= encode_words(a) + encode_words(
            b.drop_last(),
        ) + le_bytes(b.last()));
    }
}

/// Word `i` occupies bytes `4 * i .. 4 * i + 4` of the encoding.
pub proof fn lemma_encode_words_index(ws: Seq<u32>, i: int)
    requires
        0 <= i < ws.len(),
    ensures
        encode_words(ws).subrange(4 * i, 4 * i + 4) == le_bytes(ws[i]),
    decreases ws.len(),
{
    reveal_with_fuel(encode_words, 1);
    lemma_le_bytes_roundtrip();
    lemma_encode_words_len(ws.drop_last());
    if i == ws.len() - 1 {
        assert(encode_words(ws).subrange(4 * i, 4 * i + 4) =~= le_bytes(ws[i]));
    } else {
        lemma_encode_words_index(ws.drop_last(), i);
        assert(encode_words(ws).subrange(4 * i, 4 * i + 4) =~= encode_words(
            ws.drop_last(),
        ).subrange(4 * i, 4 * i + 4));
    }
}

/// Words `a .. b` occupy bytes `4 * a .. 4 * b` of the encoding.
pub proof fn lemma_encode_words_subrange(ws: Seq<u32>, a: int, b: int)
    requires
        0 <= a <= b <= ws.len(),
    ensures
        encode_words(ws).subrange(4 * a, 4 * b) == encode_words(ws.subrange(a, b)),
{
    let x = ws.subrange(0, a);
    let y = ws.subrange(a, b);
    let z = ws.subrange(b, ws.len() as int);
    assert(ws =~= x + y + z);
    lemma_encode_words_concat(x + y, z);
    lemma_encode_words_concat(x, y);
    lemma_encode_words_len(x);
    lemma_encode_words_len(y);
    assert(encode_words(ws).subrange(4 * a, 4 * b) =~= encode_words(y));
}

/// Two word sequences with the same encoding are equal.
pub proof fn lemma_encode_words_injective(a: Seq<u32>, b: Seq<u32>)
    requires
        encode_words(a) == encode_words(b),
    ensures
        a == b,
{
    lemma_encode_words_len(a);
    lemma_encode_words_len(b);
    assert forall|i: int| 0 <= i < a.len() implies a[i] == b[i] by {
        lemma_encode_words_index(a, i);
        lemma_encode_words_index(b, i);
        lemma_le_bytes_of(a[i]);
        lemma_le_bytes_of(b[i]);
    }
    assert(a =~= b);
}

/// Writes a `u32` in the `bytesrepr` format.
///
/// Calls `<u32 as casper_types::bytesrepr::ToBytes>::to_bytes`, which is
/// `Ok(self.to_le_bytes().to_vec())`: the result is claimed to be `Ok` with
/// the four little-endian bytes of `value`.
#[verifier::external_body]
pub(crate) fn u32_to_bytes(value: &u32) -> (r: Result<Vec<u8>, Error>)
    ensures
        r is Ok,
        r->Ok_0@ == le_bytes(*value),
{
    match ToBytes::to_bytes(value) {
        Ok(bytes) => Ok(bytes),
        Err(casper_types::bytesrepr::Error::EarlyEndOfStream) => Err(Error::EarlyEndOfStream),
        Err(casper_types::bytesrepr::Error::Formatting) => Err(Error::Formatting),
        Err(casper_types::bytesrepr::Error::LeftOverBytes) => Err(Error::LeftOverBytes),
        Err(casper_types::bytesrepr::Error::OutOfMemory) => Err(Error::OutOfMemory),
        Err(casper_types::bytesrepr::Error::NotRepresentable) => Err(Error::NotRepresentable),
        Err(_) => Err(Error::ExceededRecursionDepth),
    }
}

/// The serialized length of a `u32`.
///
/// Calls `<u32 as casper_types::bytesrepr::ToBytes>::serialized_length`, which
/// returns `U32_SERIALIZED_LENGTH`, the size of a `u32`: claimed to be 4.
#[verifier::external_body]
pub(crate) fn u32_serialized_length(value: &u32) -> (r: usize)
    ensures
        r == 4,
{
    ToBytes::serialized_length(value)
}

/// The number of bytes of a serialized `u32`.
///
/// Returns `casper_types::bytesrepr::U32_SERIALIZED_LENGTH`, defined as the size
/// of a `u32`: claimed to be 4.
#[verifier::external_body]
pub(crate) fn u32_serialized_size() -> (r: usize)
    ensures
        r == 4,
{
    casper_types::bytesrepr::U32_SERIALIZED_LENGTH
}

/// Reads a `u32` in the `bytesrepr` format from the front of `bytes`.
///
/// Calls `<u32 as casper_types::bytesrepr::FromBytes>::from_bytes`, which splits
/// off four bytes (failing with `EarlyEndOfStream` when fewer are left) and
/// decodes them little-endian; the remainder is handed back.
#[verifier::external_body]
pub(crate) fn u32_from_bytes(bytes: &[u8]) -> (r: Result<(u32, &[u8]), Error>)
    ensures
        r is Ok <==> bytes@.len() >= 4,
        r is Err ==> r->Err_0 == Error::EarlyEndOfStream,
        bytes@.len() >= 4 ==> r->Ok_0.0 == from_le_bytes(bytes@.take(4)),
        bytes@.len() >= 4 ==> r->Ok_0.1@ == bytes@.skip(4),
{
    match <u32 as FromBytes>::from_bytes(bytes) {
        Ok(pair) => Ok(pair),
        Err(casper_types::bytesrepr::Error::EarlyEndOfStream) => Err(Error::EarlyEndOfStream),
        Err(casper_types::bytesrepr::Error::Formatting) => Err(Error::Formatting),
        Err(casper_types::bytesrepr::Error::LeftOverBytes) => Err(Error::LeftOverBytes),
        Err(casper_types::bytesrepr::Error::OutOfMemory) => Err(Error::OutOfMemory),
        Err(casper_types::bytesrepr::Error::NotRepresentable) => Err(Error::NotRepresentable),
        Err(_) => Err(Error::ExceededRecursionDepth),
    }
}

/// Appends the encoding of `value` to `buf`.
pub(crate) fn append_word(buf: &mut Vec<u8>, value: u32, Ghost(ws): Ghost<Seq<u32>>)
    requires
        old(buf)@ == encode_words(ws),
    ensures
        final(buf)@ == encode_words(ws.push(value)),
{
    let r = u32_to_bytes(&value);
    let mut bytes = match r {
        Ok(bytes) => bytes,
        Err(_) => {
            proof { assert(false); }
            Vec::new()
        },
    };
    buf.append(&mut bytes);
    proof {
        lemma_encode_words_push(ws, value);
    }
}

/// Reads the next word of `whole`, of which the words `ws` have been read and
/// `rem` is what is left.
pub(crate) fn read_word<'a>(rem: &'a [u8], Ghost(whole): Ghost<Seq<u8>>, Ghost(ws): Ghost<Seq<u32>>) -> (r: Result<(u32, &'a [u8]), Error>)
    requires
        4 * (ws.len() as int) <= whole.len(),
        rem@ == whole.skip(4 * (ws.len() as int)),
        encode_words(ws) == whole.take(4 * (ws.len() as int)),
    ensures
        whole.len() < 4 * (ws.len() + 1) as int ==> r == Err::<(u32, &[u8]), Error>(Error::EarlyEndOfStream),
        whole.len() >= 4 * (ws.len() + 1) as int ==> (r matches Ok((w, rest)) && rest@ == whole.skip(
            4 * (ws.len() + 1) as int,
        ) && encode_words(ws.push(w)) == whole.take(4 * (ws.len() + 1) as int)),
{
    let r = u32_from_bytes(rem);
    proof {
        lemma_le_bytes_roundtrip();
        if let Ok((w, rest)) = r {
            lemma_encode_words_push(ws, w);
            let k: int = 4 * (ws.len() as int);
            assert(rem@.take(4) =~= whole.subrange(k, k + 4));
            assert(whole.take(k + 4) =~= whole.take(k) + whole.subrange(k, k + 4));
            assert(rest@ =~= whole.skip(k + 4));
        }
    }
    r
}


/// The words encoded by `bytes`, four bytes each (a trailing partial word is
/// dropped).
pub open spec fn decode_words(bytes: Seq<u8>) -> Seq<u32> {
    Seq::new(bytes.len() / 4, |i: int| from_le_bytes(bytes.subrange(4 * i, 4 * i + 4)))
}

/// Decoding an encoding gives back the words.
pub proof fn lemma_decode_encode_words(ws: Seq<u32>)
    ensures
        decode_words(encode_words(ws)) == ws,
{
    lemma_encode_words_len(ws);
    assert forall|i: int| 0 <= i < ws.len() implies #[trigger] decode_words(encode_words(ws))[i]
        == ws[i] by {
        lemma_encode_words_index(ws, i);
        lemma_le_bytes_of(ws[i]);
    }
    assert(decode_words(encode_words(ws)) =~= ws);
}

/// Encoding a decoding gives back the bytes, when they are whole words.
pub proof fn lemma_encode_decode_words(bytes: Seq<u8>)
    requires
        bytes.len() % 4 == 0,
    ensures
        encode_words(decode_words(bytes)) == bytes,
    decreases bytes.len(),
{
    reveal_with_fuel(encode_words, 1);
    if bytes.len() > 0 {
        let n = bytes.len() - 4;
        let front = bytes.take(n);
        lemma_encode_decode_words(front);
        let q = bytes.len() / 4;
        assert(front.len() / 4 == q - 1) by (nonlinear_arith)
            requires
                front.len() == bytes.len() - 4,
                bytes.len() % 4 == 0,
                bytes.len() > 0,
                q == bytes.len() / 4,
        ;
        assert forall|i: int| 0 <= i < q - 1 implies #[trigger] decode_words(bytes)[i]
            == decode_words(front)[i] by {
            assert(front.subrange(4 * i, 4 * i + 4) =~= bytes.subrange(4 * i, 4 * i + 4));
        }
        assert(decode_words(bytes).drop_last() =~= decode_words(front));
        let last = bytes.subrange(n, n + 4);
        assert(last.len() == 4);
        assert(decode_words(bytes).last() == from_le_bytes(last));
        lemma_from_le_bytes_of(last);
        assert(bytes =~= front + last);
    } else {
        assert(decode_words(bytes) =~= Seq::<u32>::empty());
        assert(bytes =~= Seq::<u8>::empty());
    }
}

/// A value laid out as a fixed number of `u32` words, which is how every cost
/// table of the chainspec is written in the `bytesrepr` format.
pub trait WordLayout: Sized {
    /// The words of the value, in the order they are written.
    spec fn words(&self) -> Seq<u32>;

    /// The value with the given words.
    spec fn from_words(ws: Seq<u32>) -> Self;

    /// The number of words of every value of the type.
    spec fn word_count() -> nat;

    /// A value has `word_count` words and is rebuilt from them.
    proof fn lemma_words(&self)
        ensures
            self.words().len() == Self::word_count(),
            Self::from_words(self.words()) == *self,
    ;

    /// Every sequence of `word_count` words is the words of a value.
    proof fn lemma_from_words(ws: Seq<u32>)
        requires
            ws.len() == Self::word_count(),
        ensures
            Self::from_words(ws).words() == ws,
    ;
}

/// The `bytesrepr` encoding of a value.
pub open spec fn encoding<T: WordLayout>(value: T) -> Seq<u8> {
    encode_words(value.words())
}

/// The number of bytes of the encoding of every value of `T`.
pub open spec fn encoded_len<T: WordLayout>() -> int {
    4 * (T::word_count() as int)
}

/// What reading a `T` from the front of `bytes` gives: the value and the rest,
/// or `EarlyEndOfStream` when `bytes` is too short.
pub open spec fn parse<T: WordLayout>(bytes: Seq<u8>) -> Result<(T, Seq<u8>), Error> {
    if bytes.len() < encoded_len::<T>() {
        Err(Error::EarlyEndOfStream)
    } else {
        Ok((T::from_words(decode_words(bytes.take(encoded_len::<T>()))), bytes.skip(encoded_len::<T>())))
    }
}

/// The result `r` of reading a `T` from `bytes` is what [`parse`] says.
#[verifier::opaque]
pub open spec fn parsed_as<T: WordLayout>(bytes: Seq<u8>, r: Result<(T, &[u8]), Error>) -> bool {
    match parse::<T>(bytes) {
        Ok((value, rest)) => r is Ok && r->Ok_0.0 == value && r->Ok_0.1@ == rest,
        Err(e) => r is Err && r->Err_0 == e,
    }
}

/// The encoding of a value is `encoded_len` bytes long.
pub proof fn lemma_encoding_len<T: WordLayout>(value: T)
    ensures
        encoding(value).len() == encoded_len::<T>(),
{
    value.lemma_words();
    lemma_encode_words_len(value.words());
}

/// Two values with the same encoding are equal.
pub proof fn lemma_encoding_injective<T: WordLayout>(a: T, b: T)
    requires
        encoding(a) == encoding(b),
    ensures
        a == b,
{
    a.lemma_words();
    b.lemma_words();
    lemma_encode_words_injective(a.words(), b.words());
}

/// Reading back what was written gives the value, and leaves whatever followed.
pub proof fn lemma_parse_encoding<T: WordLayout>(value: T, rest: Seq<u8>)
    ensures
        parse::<T>(encoding(value) + rest) == Ok::<(T, Seq<u8>), Error>((value, rest)),
{
    value.lemma_words();
    lemma_encoding_len(value);
    let n = encoded_len::<T>();
    assert((encoding(value) + rest).take(n) =~= encoding(value));
    assert((encoding(value) + rest).skip(n) =~= rest);
    lemma_decode_encode_words(value.words());
}

/// What a successful read consumed is the encoding of the value read.
pub proof fn lemma_encoding_of_parse<T: WordLayout>(bytes: Seq<u8>)
    requires
        parse::<T>(bytes) is Ok,
    ensures
        encoding(parse::<T>(bytes)->Ok_0.0) + parse::<T>(bytes)->Ok_0.1 == bytes,
{
    let n = encoded_len::<T>();
    let prefix = bytes.take(n);
    assert(prefix.len() % 4 == 0);
    T::lemma_from_words(decode_words(prefix));
    lemma_encode_decode_words(prefix);
    assert(prefix + bytes.skip(n) =~= bytes);
}

/// A successful read gives the value whose words are the words read, word `i`
/// from bytes `4 * i .. 4 * i + 4`.
pub proof fn lemma_parse_words<T: WordLayout>(bytes: Seq<u8>)
    requires
        parse::<T>(bytes) is Ok,
    ensures
        parse::<T>(bytes)->Ok_0.0.words().len() == T::word_count(),
        forall|i: int|
            0 <= i < T::word_count() ==> #[trigger] parse::<T>(bytes)->Ok_0.0.words()[i]
                == from_le_bytes(bytes.subrange(4 * i, 4 * i + 4)),
{
    let n = encoded_len::<T>();
    let prefix = bytes.take(n);
    let ws = decode_words(prefix);
    assert(ws.len() == T::word_count());
    T::lemma_from_words(ws);
    assert forall|i: int| 0 <= i < T::word_count() implies #[trigger] parse::<T>(bytes)->Ok_0.0.words()[i]
        == from_le_bytes(bytes.subrange(4 * i, 4 * i + 4)) by {
        assert(prefix.subrange(4 * i, 4 * i + 4) =~= bytes.subrange(4 * i, 4 * i + 4));
    }
}

/// The two halves of a concatenation.
pub proof fn lemma_concat_subrange(a: Seq<u32>, b: Seq<u32>)
    ensures
        (a + b).subrange(0, a.len() as int) == a,
        (a + b).subrange(a.len() as int, (a.len() + b.len()) as int) == b,
{
    assert((a + b).subrange(0, a.len() as int) =~= a);
    assert((a + b).subrange(a.len() as int, (a.len() + b.len()) as int) =~= b);
}

/// A subrange of a prefix is a subrange of the whole.
pub proof fn lemma_subrange_of_prefix(s: Seq<u32>, i: int, j: int, m: int)
    requires
        0 <= i <= j <= m <= s.len(),
    ensures
        s.subrange(0, m).subrange(i, j) == s.subrange(i, j),
{
    assert(s.subrange(0, m).subrange(i, j) =~= s.subrange(i, j));
}

/// Adjacent subranges join.
pub proof fn lemma_subrange_join(s: Seq<u32>, i: int, j: int, k: int)
    requires
        0 <= i <= j <= k <= s.len(),
    ensures
        s.subrange(i, j) + s.subrange(j, k) == s.subrange(i, k),
{
    assert(s.subrange(i, j) + s.subrange(j, k) =~= s.subrange(i, k));
}

/// The subrange of everything is the whole.
pub proof fn lemma_subrange_all(s: Seq<u32>)
    ensures
        s.subrange(0, s.len() as int) == s,
{
    assert(s.subrange(0, s.len() as int) =~= s);
}

/// A read of a `T` from `rem`, the rest of `whole` after the words `ws`,
/// extends what has been read by the words of the value.
pub proof fn lemma_read_value<T: WordLayout>(whole: Seq<u8>, ws: Seq<u32>, rem: Seq<u8>)
    requires
        4 * ws.len() <= whole.len(),
        rem == whole.skip(4 * (ws.len() as int)),
        encode_words(ws) == whole.take(4 * (ws.len() as int)),
    ensures
        parse::<T>(rem) is Err ==> whole.len() < 4 * (ws.len() + T::word_count()) && parse::<T>(rem)->Err_0 == Error::EarlyEndOfStream,
        parse::<T>(rem) is Ok ==> ({
            let value = parse::<T>(rem)->Ok_0.0;
            let k = 4 * (ws.len() + T::word_count()) as int;
            &&& value.words().len() == T::word_count()
            &&& k <= whole.len()
            &&& encode_words(ws + value.words()) == whole.take(k)
            &&& parse::<T>(rem)->Ok_0.1 == whole.skip(k)
        }),
{
    if parse::<T>(rem) is Ok {
        let value = parse::<T>(rem)->Ok_0.0;
        let n = encoded_len::<T>();
        let k0 = 4 * (ws.len() as int);
        lemma_encoding_of_parse::<T>(rem);
        value.lemma_words();
        lemma_encoding_len(value);
        lemma_encode_words_concat(ws, value.words());
        assert(rem.take(n) =~= encoding(value));
        assert(whole.take(k0 + n) =~= whole.take(k0) + rem.take(n));
        assert(rem.skip(n) =~= whole.skip(k0 + n));
    }
}

/// A read of a `T` from `rem`, the rest of `whole` after the words `ws`,
/// that gave `r`: either `whole` is too short for the words of a `T` after
/// `ws`, or the words read are extended by those of the value read.
pub proof fn lemma_read_step<T: WordLayout>(whole: Seq<u8>, ws: Seq<u32>, rem: Seq<u8>, r: Result<(T, &[u8]), Error>)
    requires
        4 * ws.len() <= whole.len(),
        rem == whole.skip(4 * (ws.len() as int)),
        encode_words(ws) == whole.take(4 * (ws.len() as int)),
        parsed_as::<T>(rem, r),
    ensures
        r is Err ==> whole.len() < 4 * (ws.len() + T::word_count()) && r->Err_0 == Error::EarlyEndOfStream,
        r is Ok ==> ({
            let k = 4 * (ws.len() + T::word_count()) as int;
            &&& r->Ok_0.0.words().len() == T::word_count()
            &&& k <= whole.len()
            &&& encode_words(ws + r->Ok_0.0.words()) == whole.take(k)
            &&& r->Ok_0.1@ == whole.skip(k)
        }),
{
    reveal(parsed_as);
    lemma_read_value::<T>(whole, ws, rem);
}

/// A read of a `T` from `bytes` that is too short fails with
/// `EarlyEndOfStream`.
pub proof fn lemma_parsed_short<T: WordLayout>(bytes: Seq<u8>, r: Result<(T, &[u8]), Error>)
    requires
        bytes.len() < encoded_len::<T>(),
        r == Err::<(T, &[u8]), Error>(Error::EarlyEndOfStream),
    ensures
        parsed_as::<T>(bytes, r),
{
    reveal(parsed_as);
}

/// When the words read from `whole` are all the words of `value`, reading a
/// value of its type from `whole` gives `value` and what is left.
pub proof fn lemma_parsed_complete<T: WordLayout>(whole: Seq<u8>, value: T, rem: &[u8])
    requires
        4 * value.words().len() <= whole.len(),
        encode_words(value.words()) == whole.take(4 * (value.words().len() as int)),
        rem@ == whole.skip(4 * (value.words().len() as int)),
    ensures
        parsed_as::<T>(whole, Ok::<(T, &[u8]), Error>((value, rem))),
{
    reveal(parsed_as);
    value.lemma_words();
    lemma_read_complete(whole, value);
}

/// When the words read so far are all the words of `value`, reading a value of
/// its type from `whole` gives `value` and the rest.
pub proof fn lemma_read_complete<T: WordLayout>(whole: Seq<u8>, value: T)
    requires
        4 * value.words().len() <= whole.len(),
        encode_words(value.words()) == whole.take(4 * (value.words().len() as int)),
    ensures
        parse::<T>(whole) == Ok::<(T, Seq<u8>), Error>((value, whole.skip(encoded_len::<T>()))),
{
    value.lemma_words();
    lemma_decode_encode_words(value.words());
}

} // verus!
