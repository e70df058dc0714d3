//! The cost of calling one host function.

use vstd::prelude::*;
use casper_types::{Gas, U512};

use super::{
    Cost, DEFAULT_FIXED_COST, NOT_USED,
};
use crate::bytesrepr::{
    append_word, encode_words, encoding, decode_words, from_le_bytes, le_bytes,
    lemma_encode_words_empty, lemma_encode_words_index, lemma_encoding_len,
    lemma_encoding_of_parse, lemma_le_bytes_of, lemma_parsed_complete,
    lemma_parsed_short, parse, parsed_as, read_word, u32_serialized_length, u32_serialized_size,
    Error, WordLayout,
};

verus! {

broadcast use {
    vstd::array::axiom_spec_array_update,
    vstd::array::axiom_spec_array_fill_for_copy_type,
    vstd::array::array_len_matches_n,
    vstd::array::axiom_array_ext_equal,
};

#[verifier::external_type_specification]
#[verifier::external_body]
pub struct ExGas(casper_types::Gas);

/// The gas of `units` units: what `Gas::new(U512::from(units))` gives.
pub uninterp spec fn gas_of_units(units: u128) -> Gas;

/// Builds the gas value of `units` units.
///
/// Calls `casper_types::Gas::new` on `U512::from(units)`; the result is named
/// [`gas_of_units`], nothing more is stated of it.
#[verifier::external_body]
fn gas_from_units(units: u128) -> (r: Gas)
    ensures
        r == gas_of_units(units),
{
    Gas::new(U512::from(units))
}

/// The sequence of `n` zeros.
pub open spec fn zeros(n: nat) -> Seq<u32> {
    Seq::new(n, |i: int| 0u32)
}

/// The sum of `arguments[i] * weights[i]` over the first `k` arguments.
pub open spec fn weighted_sum(arguments: Seq<u32>, weights: Seq<u32>, k: nat) -> int
    decreases k,
{
    if k == 0 {
        0
    } else {
        weighted_sum(arguments, weights, (k - 1) as nat) + arguments[k - 1] * weights[k - 1]
    }
}

proof fn lemma_weighted_sum_bound(arguments: Seq<u32>, weights: Seq<u32>, k: nat)
    ensures
        0 <= weighted_sum(arguments, weights, k) <= k * 0xffff_ffff * 0xffff_ffff,
    decreases k,
{
    if k > 0 {
        lemma_weighted_sum_bound(arguments, weights, (k - 1) as nat);
        let a = arguments[k - 1];
        let w = weights[k - 1];
        assert(0 <= a * w <= 0xffff_ffff * 0xffff_ffff) by (nonlinear_arith)
            requires
                0 <= a <= 0xffff_ffff,
                0 <= w <= 0xffff_ffff,
        ;
        assert((k - 1) * 0xffff_ffff * 0xffff_ffff + 0xffff_ffff * 0xffff_ffff == k * 0xffff_ffff
            * 0xffff_ffff) by (nonlinear_arith);
    }
}

proof fn lemma_weighted_sum_zeros(weights: Seq<u32>, n: nat, k: nat)
    requires
        k <= n,
    ensures
        weighted_sum(zeros(n), weights, k) == 0,
    decreases k,
{
    if k > 0 {
        lemma_weighted_sum_zeros(weights, n, (k - 1) as nat);
    }
}

/// The array whose first `k` entries are those of `s`, the rest zero.
spec fn array_prefix<const N: usize>(s: Seq<u32>, k: nat) -> [u32; N]
    decreases k,
{
    if k == 0 {
        vstd::array::spec_array_fill_for_copy_type::<u32, N>(0)
    } else {
        vstd::array::spec_array_update(array_prefix::<N>(s, (k - 1) as nat), k - 1, s[k - 1])
    }
}

proof fn lemma_array_prefix<const N: usize>(s: Seq<u32>, k: nat)
    requires
        k <= N,
    ensures
        forall|i: int| 0 <= i < k ==> #[trigger] array_prefix::<N>(s, k)@[i] == s[i],
    decreases k,
{
    if k > 0 {
        let prev = array_prefix::<N>(s, (k - 1) as nat);
        lemma_array_prefix::<N>(s, (k - 1) as nat);
        assert(array_prefix::<N>(s, k)@ == prev@.update(k - 1, s[k - 1]));
        assert forall|i: int| 0 <= i < k implies #[trigger] array_prefix::<N>(s, k)@[i] == s[i] by {
            if i < k - 1 {
                assert(prev@[i] == s[i]);
            }
        }
    }
}

/// The array with the entries of `s`, of which there are `N`.
spec fn array_of<const N: usize>(s: Seq<u32>) -> [u32; N] {
    array_prefix::<N>(s, N as nat)
}

proof fn lemma_array_of<const N: usize>(s: Seq<u32>)
    requires
        s.len() == N,
    ensures
        array_of::<N>(s)@ == s,
{
    lemma_array_prefix::<N>(s, N as nat);
    assert(array_of::<N>(s)@ =~= s);
}

/// Representation of a host function cost.
///
/// The total gas cost is equal to `cost` + sum of each argument weight
/// multiplied by the byte size of the data.
#[derive(Clone, Copy, Debug, PartialEq, Eq)]
pub struct HostFunction<const N: usize> {
    /// How much the user is charged for calling the host function.
    cost: Cost,
    /// Weights of the function arguments.
    arguments: [Cost; N],
}

impl<const N: usize> HostFunction<N> {
    /// The base gas fee for calling the host function.
    pub closed spec fn spec_cost(&self) -> u32 {
        self.cost
    }

    /// The weights of the function arguments.
    pub closed spec fn spec_arguments(&self) -> Seq<u32> {
        self.arguments@
    }

    /// The host function costs `cost` and weighs its arguments by `arguments`.
    pub open spec fn has(&self, cost: u32, arguments: Seq<u32>) -> bool {
        self.spec_cost() == cost && self.spec_arguments() == arguments
    }

    /// The host function costs `cost` and all its argument weights are zero.
    pub open spec fn is_fixed(&self, cost: u32) -> bool {
        self.has(cost, zeros(N as nat))
    }

    /// The gas charged for a call whose arguments have the byte sizes `weights`.
    pub open spec fn spec_gas_units(&self, weights: Seq<u32>) -> int {
        self.spec_cost() + weighted_sum(self.spec_arguments(), weights, N as nat)
    }

    /// Creates a new instance of `HostFunction` with a fixed call cost and
    /// argument weights.
    pub fn new(cost: Cost, arguments: [Cost; N]) -> (r: Self)
        ensures
            r.has(cost, arguments@),
    {
        Self { cost, arguments }
    }

    /// Returns the base gas fee for calling the host function.
    pub fn cost(&self) -> (r: Cost)
        ensures
            r == self.spec_cost(),
    {
        self.cost
    }

    /// Creates a new fixed host function cost with argument weights of zero.
    pub fn fixed(cost: Cost) -> (r: Self)
        ensures
            r.is_fixed(cost),
    {
        Self { cost, ..Self::default() }
    }

    /// Returns a slice containing the argument weights.
    pub fn arguments(&self) -> (r: &[Cost])
        ensures
            r@ == self.spec_arguments(),
    {
        self.arguments.as_slice()
    }

    /// The gas units charged for a call whose arguments have the byte sizes
    /// `weights`: `cost` plus the sum of each argument weight multiplied by
    /// the byte size of the argument.
    pub fn gas_units(&self, weights: [Cost; N]) -> (r: u128)
        requires
            4 * (N + 1) <= usize::MAX,
        ensures
            r == self.spec_gas_units(weights@),
    {
        let mut gas: u128 = self.cost as u128;
        let mut i: usize = 0;
        while i < N
            invariant
                i <= N,
                4 * (N + 1) <= usize::MAX,
                gas == self.cost + weighted_sum(self.arguments@, weights@, i as nat),
            decreases N - i,
        {
            proof {
                lemma_weighted_sum_bound(self.arguments@, weights@, (i + 1) as nat);
                assert((i + 1) * 0xffff_ffff * 0xffff_ffff <= 0x4000_0000_0000_0000 * 0xffff_ffff
                    * 0xffff_ffff) by (nonlinear_arith)
                    requires
                        i + 1 <= 0x4000_0000_0000_0000,
                ;
            }
            let product: u128 = (self.arguments[i] as u128) * (weights[i] as u128);
            gas = gas + product;
            i = i + 1;
        }
        gas
    }

    /// Calculate gas cost for a host function: the gas of
    /// [`Self::gas_units`].
    pub fn calculate_gas_cost(&self, weights: [Cost; N]) -> (r: Gas)
        requires
            4 * (N + 1) <= usize::MAX,
        ensures
            r == gas_of_units(self.spec_gas_units(weights@) as u128),
    {
        let units = self.gas_units(weights);
        gas_from_units(units)
    }

    /// Serializes the host function cost: the call cost, then each argument
    /// weight, each as four little-endian bytes.
    pub fn to_bytes(&self) -> (r: Result<Vec<u8>, Error>)
        requires
            4 * (N + 1) <= usize::MAX,
        ensures
            r is Ok,
            r->Ok_0@ == encoding(*self),
            r->Ok_0@.len() == 4 * (N + 1),
            r->Ok_0@.subrange(0, 4) == le_bytes(self.spec_cost()),
            forall|i: int|
                0 <= i < N ==> r->Ok_0@.subrange(4 * i + 4, 4 * i + 8) == le_bytes(
                    #[trigger] self.spec_arguments()[i],
                ),
    {
        let mut ret = Vec::with_capacity(self.serialized_length());
        proof {
            lemma_encode_words_empty();
        }
        append_word(&mut ret, self.cost, Ghost(Seq::empty()));
        let mut i: usize = 0;
        while i < N
            invariant
                i <= N,
                ret@ == encode_words(seq![self.cost] + self.arguments@.take(i as int)),
            decreases N - i,
        {
            let ghost ws = seq![self.cost] + self.arguments@.take(i as int);
            proof {
                assert(seq![self.cost] =~= Seq::<u32>::empty().push(self.cost));
            }
            append_word(&mut ret, self.arguments[i], Ghost(ws));
            proof {
                assert(ws.push(self.arguments@[i as int]) =~= seq![self.cost] + self.arguments@.take(
                    i + 1,
                ));
            }
            i = i + 1;
        }
        proof {
            assert(self.arguments@.take(N as int) =~= self.arguments@);
            let ws = self.words();
            lemma_encoding_len(*self);
            lemma_encode_words_index(ws, 0);
            assert forall|i: int| 0 <= i < N implies ret@.subrange(4 * i + 4, 4 * i + 8) == le_bytes(
                #[trigger] self.spec_arguments()[i],
            ) by {
                lemma_encode_words_index(ws, i + 1);
                assert(4 * (i + 1) == 4 * i + 4);
            }
        }
        Ok(ret)
    }

    /// The length of the serialized host function cost in bytes.
    pub fn serialized_length(&self) -> (r: usize)
        requires
            4 * (N + 1) <= usize::MAX,
        ensures
            r == encoding(*self).len(),
    {
        proof {
            lemma_encoding_len(*self);
        }
        u32_serialized_length(&self.cost) + (u32_serialized_size() * N)
    }

    /// Deserializes a host function cost from the front of `bytes`, handing
    /// back the rest.
    pub fn from_bytes(bytes: &[u8]) -> (r: Result<(HostFunction<N>, &[u8]), Error>)
        ensures
            parsed_as::<HostFunction<N>>(bytes@, r),
            r is Ok <==> bytes@.len() >= 4 * (N + 1),
            r is Err ==> r->Err_0 == Error::EarlyEndOfStream,
            r is Ok ==> r->Ok_0.0.words() == decode_words(bytes@.take(4 * (N + 1))),
            r is Ok ==> r->Ok_0.1@ == bytes@.skip(4 * (N + 1)),
    {
        let ghost whole = bytes@;
        proof {
            lemma_encode_words_empty();
            assert(whole.take(0) =~= Seq::<u8>::empty());
            assert(whole.skip(0) =~= whole);
        }
        let (cost, rest) = match read_word(bytes, Ghost(whole), Ghost(Seq::empty())) {
            Ok(pair) => pair,
            Err(e) => {
                let r = Err(e);
                proof {
                    lemma_parsed_short::<HostFunction<N>>(whole, r);
                    lemma_read_layout::<N>(whole, r);
                }
                return r;
            },
        };
        proof {
            assert(Seq::<u32>::empty().push(cost) =~= seq![cost]);
        }
        let mut rem = rest;
        let mut arguments: [Cost; N] = [NOT_USED; N];
        let mut i: usize = 0;
        while i < N
            invariant
                i <= N,
                whole == bytes@,
                4 * (1 + i) <= whole.len(),
                rem@ == whole.skip(4 * (1 + i)),
                encode_words(seq![cost] + arguments@.take(i as int)) == whole.take(4 * (1 + i)),
            decreases N - i,
        {
            let ghost ws = seq![cost] + arguments@.take(i as int);
            let (w, rest) = match read_word(rem, Ghost(whole), Ghost(ws)) {
                Ok(pair) => pair,
                Err(e) => {
                    let r = Err(e);
                    proof {
                        lemma_parsed_short::<HostFunction<N>>(whole, r);
                        lemma_read_layout::<N>(whole, r);
                    }
                    return r;
                },
            };
            arguments[i] = w;
            proof {
                assert(ws.push(w) =~= seq![cost] + arguments@.take(i + 1));
            }
            rem = rest;
            i = i + 1;
        }
        let value = HostFunction { cost, arguments };
        proof {
            assert(arguments@.take(N as int) =~= arguments@);
            assert(seq![cost] + arguments@ =~= value.words());
            lemma_parsed_complete(whole, value, rem);
        }
        let r = Ok((value, rem));
        proof {
            lemma_read_layout::<N>(whole, r);
        }
        r
    }
}

/// What [`parsed_as`] says of a read host function: it succeeds exactly when
/// `bytes` holds its `N + 1` words, which it reads, call cost first, and
/// leaves the rest.
proof fn lemma_read_layout<const N: usize>(bytes: Seq<u8>, r: Result<(HostFunction<N>, &[u8]), Error>)
    requires
        parsed_as::<HostFunction<N>>(bytes, r),
    ensures
        r is Ok <==> bytes.len() >= 4 * (N + 1),
        r is Err ==> r->Err_0 == Error::EarlyEndOfStream,
        r is Ok ==> r->Ok_0.0.words() == decode_words(bytes.take(4 * (N + 1))),
        r is Ok ==> r->Ok_0.1@ == bytes.skip(4 * (N + 1)),
{
    reveal(parsed_as);
    if parse::<HostFunction<N>>(bytes) is Ok {
        let ws = decode_words(bytes.take(4 * (N + 1)));
        assert(ws.len() == N + 1);
        HostFunction::<N>::lemma_from_words(ws);
    }
}

/// The encoding of a host function cost is its call cost, then each argument
/// weight in order, each as its four little-endian bytes.
pub proof fn lemma_host_function_layout<const N: usize>(h: HostFunction<N>)
    ensures
        encoding(h).len() == 4 * (N + 1),
        h.spec_arguments().len() == N,
        encoding(h).subrange(0, 4) == le_bytes(h.spec_cost()),
        forall|i: int|
            0 <= i < N ==> encoding(h).subrange(4 * i + 4, 4 * i + 8) == le_bytes(
                #[trigger] h.spec_arguments()[i],
            ),
{
    let ws = h.words();
    lemma_encoding_len(h);
    lemma_encode_words_index(ws, 0);
    assert forall|i: int| 0 <= i < N implies encoding(h).subrange(4 * i + 4, 4 * i + 8) == le_bytes(
        #[trigger] h.spec_arguments()[i],
    ) by {
        lemma_encode_words_index(ws, i + 1);
        assert(4 * (i + 1) == 4 * i + 4);
    }
}

/// A read of a host function cost takes the call cost from the first four
/// little-endian bytes and argument weight `i` from the four after
/// `4 * i + 4`, and leaves the rest.
pub proof fn lemma_host_function_read<const N: usize>(bytes: Seq<u8>, r: Result<(HostFunction<N>, &[u8]), Error>)
    requires
        parsed_as::<HostFunction<N>>(bytes, r),
        r is Ok,
    ensures
        r->Ok_0.0.spec_cost() == from_le_bytes(bytes.subrange(0, 4)),
        r->Ok_0.0.spec_arguments().len() == N,
        forall|i: int|
            0 <= i < N ==> #[trigger] r->Ok_0.0.spec_arguments()[i] == from_le_bytes(
                bytes.subrange(4 * i + 4, 4 * i + 8),
            ),
        r->Ok_0.1@ == bytes.skip(4 * (N + 1)),
{
    reveal(parsed_as);
    let v = r->Ok_0.0;
    lemma_encoding_of_parse::<HostFunction<N>>(bytes);
    lemma_host_function_layout(v);
    let e = encoding(v);
    assert(bytes.take(4 * (N + 1)) =~= e);
    assert(bytes.subrange(0, 4) =~= e.subrange(0, 4));
    lemma_le_bytes_of(v.spec_cost());
    assert forall|i: int| 0 <= i < N implies #[trigger] v.spec_arguments()[i] == from_le_bytes(
        bytes.subrange(4 * i + 4, 4 * i + 8),
    ) by {
        assert(bytes.subrange(4 * i + 4, 4 * i + 8) =~= e.subrange(4 * i + 4, 4 * i + 8));
        lemma_le_bytes_of(v.spec_arguments()[i]);
    }
}

/// Raising the byte size of one argument by one raises the gas by that
/// argument's weight: every argument is charged, at its own weight.
pub proof fn lemma_gas_units_per_argument<const N: usize>(h: HostFunction<N>, weights: Seq<u32>, i: int)
    requires
        weights.len() == N,
        0 <= i < N,
        weights[i] < u32::MAX,
    ensures
        h.spec_gas_units(weights.update(i, (weights[i] + 1) as u32)) == h.spec_gas_units(weights)
            + h.spec_arguments()[i],
{
    lemma_weighted_sum_update(h.spec_arguments(), weights, i, N as nat);
}

/// With all argument sizes zero, the gas is the call cost.
pub proof fn lemma_gas_units_of_no_arguments<const N: usize>(h: HostFunction<N>)
    ensures
        h.spec_gas_units(Seq::new(N as nat, |i: int| 0u32)) == h.spec_cost(),
{
    lemma_weighted_sum_no_weights(h.spec_arguments(), Seq::new(N as nat, |i: int| 0u32), N as nat);
}

proof fn lemma_weighted_sum_update(arguments: Seq<u32>, weights: Seq<u32>, i: int, k: nat)
    requires
        0 <= i < weights.len(),
        k <= weights.len(),
        weights[i] < u32::MAX,
    ensures
        weighted_sum(arguments, weights.update(i, (weights[i] + 1) as u32), k) == weighted_sum(
            arguments,
            weights,
            k,
        ) + (if i < k { arguments[i] as int } else { 0 }),
    decreases k,
{
    if k > 0 {
        lemma_weighted_sum_update(arguments, weights, i, (k - 1) as nat);
        let w2 = weights.update(i, (weights[i] + 1) as u32);
        if k - 1 == i {
            assert(arguments[k - 1] * w2[k - 1] == arguments[k - 1] * weights[k - 1] + arguments[k - 1])
                by (nonlinear_arith)
                requires
                    w2[k - 1] == weights[k - 1] + 1,
            ;
        } else {
            assert(w2[k - 1] == weights[k - 1]);
        }
    }
}

proof fn lemma_weighted_sum_no_weights(arguments: Seq<u32>, weights: Seq<u32>, k: nat)
    requires
        k <= weights.len(),
        forall|j: int| 0 <= j < k ==> weights[j] == 0,
    ensures
        weighted_sum(arguments, weights, k) == 0,
    decreases k,
{
    if k > 0 {
        lemma_weighted_sum_no_weights(arguments, weights, (k - 1) as nat);
    }
}

/// A fixed host function charges its call cost, whatever the sizes of the
/// arguments.
pub proof fn lemma_fixed_gas<const N: usize>(f: HostFunction<N>, cost: u32, weights: Seq<u32>)
    requires
        f.is_fixed(cost),
    ensures
        f.spec_gas_units(weights) == cost,
{
    lemma_weighted_sum_zeros(weights, N as nat, N as nat);
}

impl<const N: usize> Default for HostFunction<N> {
    fn default() -> (r: Self)
        ensures
            r.is_fixed(DEFAULT_FIXED_COST),
            r.spec_cost() == 200,
    {
        let r = HostFunction::new(DEFAULT_FIXED_COST, [NOT_USED; N]);
        proof {
            assert(r.spec_arguments() =~= zeros(N as nat));
        }
        r
    }
}

impl<const N: usize> WordLayout for HostFunction<N> {
    open spec fn words(&self) -> Seq<u32> {
        seq![self.spec_cost()] + self.spec_arguments()
    }

    closed spec fn from_words(ws: Seq<u32>) -> Self {
        HostFunction { cost: ws[0], arguments: array_of::<N>(ws.subrange(1, N + 1)) }
    }

    open spec fn word_count() -> nat {
        N as nat + 1
    }

    proof fn lemma_words(&self) {
        assert(self.words().subrange(1, N + 1) =~= self.arguments@);
        lemma_array_of::<N>(self.arguments@);
        assert(array_of::<N>(self.arguments@) =~= self.arguments);
    }

    proof fn lemma_from_words(ws: Seq<u32>) {
        lemma_array_of::<N>(ws.subrange(1, N + 1));
        assert(Self::from_words(ws).words() =~= ws);
    }
}


} // verus!
