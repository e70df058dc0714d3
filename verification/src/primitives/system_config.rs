//! Costs of the system contracts' entry points.

use vstd::prelude::*;

use super::{
    DEFAULT_ACTIVATE_BID_COST, DEFAULT_ADD_BID_COST, DEFAULT_BALANCE_COST, DEFAULT_CREATE_COST,
    DEFAULT_DELEGATE_COST, DEFAULT_DISTRIBUTE_COST, DEFAULT_FINALIZE_PAYMENT_COST,
    DEFAULT_GET_ERA_VALIDATORS_COST, DEFAULT_GET_PAYMENT_PURSE_COST, DEFAULT_GET_REFUND_PURSE_COST,
    DEFAULT_MINT_COST, DEFAULT_MINT_INTO_EXISTING_PURSE_COST, DEFAULT_PAY_COST,
    DEFAULT_READ_BASE_ROUND_REWARD_COST, DEFAULT_READ_ERA_ID_COST,
    DEFAULT_READ_SEIGNIORAGE_RECIPIENTS_COST, DEFAULT_REDELEGATE_COST,
    DEFAULT_REDUCE_TOTAL_SUPPLY_COST, DEFAULT_RUN_AUCTION_COST, DEFAULT_SET_REFUND_PURSE_COST,
    DEFAULT_SLASH_COST, DEFAULT_TRANSFER_COST, DEFAULT_UNDELEGATE_COST,
    DEFAULT_WASMLESS_TRANSFER_COST, DEFAULT_WITHDRAW_BID_COST,
    DEFAULT_WITHDRAW_DELEGATOR_REWARD_COST, DEFAULT_WITHDRAW_VALIDATOR_REWARD_COST,
};
use crate::bytesrepr::{
    append_word, encoding, from_le_bytes, le_bytes, lemma_concat_subrange, lemma_encode_words_concat, lemma_encode_words_empty, lemma_encode_words_index, lemma_encode_words_subrange, lemma_encoding_len, lemma_encoding_of_parse, lemma_le_bytes_of, lemma_parsed_complete, lemma_parsed_short, lemma_read_step, lemma_subrange_all, lemma_subrange_join, lemma_subrange_of_prefix, parsed_as, read_word, u32_serialized_length, Error, WordLayout,
};

verus! {

/// Description of the costs of calling auction entrypoints.
#[derive(Clone, Copy, Debug, PartialEq, Eq, Structural)]
pub struct AuctionCosts {
    /// Cost of calling the `get_era_validators` entry point.
    pub get_era_validators: u32,
    /// Cost of calling the `read_seigniorage_recipients` entry point.
    pub read_seigniorage_recipients: u32,
    /// Cost of calling the `add_bid` entry point.
    pub add_bid: u32,
    /// Cost of calling the `withdraw_bid` entry point.
    pub withdraw_bid: u32,
    /// Cost of calling the `delegate` entry point.
    pub delegate: u32,
    /// Cost of calling the `undelegate` entry point.
    pub undelegate: u32,
    /// Cost of calling the `run_auction` entry point.
    pub run_auction: u32,
    /// Cost of calling the `slash` entry point.
    pub slash: u32,
    /// Cost of calling the `distribute` entry point.
    pub distribute: u32,
    /// Cost of calling the `withdraw_delegator_reward` entry point.
    pub withdraw_delegator_reward: u32,
    /// Cost of calling the `withdraw_validator_reward` entry point.
    pub withdraw_validator_reward: u32,
    /// Cost of calling the `read_era_id` entry point.
    pub read_era_id: u32,
    /// Cost of calling the `activate_bid` entry point.
    pub activate_bid: u32,
    /// Cost of calling the `redelegate` entry point.
    pub redelegate: u32,
}

impl AuctionCosts {
    /// The default cost table.
    pub open spec fn spec_default() -> AuctionCosts {
        AuctionCosts {
            get_era_validators: DEFAULT_GET_ERA_VALIDATORS_COST,
            read_seigniorage_recipients: DEFAULT_READ_SEIGNIORAGE_RECIPIENTS_COST,
            add_bid: DEFAULT_ADD_BID_COST,
            withdraw_bid: DEFAULT_WITHDRAW_BID_COST,
            delegate: DEFAULT_DELEGATE_COST,
            undelegate: DEFAULT_UNDELEGATE_COST,
            run_auction: DEFAULT_RUN_AUCTION_COST,
            slash: DEFAULT_SLASH_COST,
            distribute: DEFAULT_DISTRIBUTE_COST,
            withdraw_delegator_reward: DEFAULT_WITHDRAW_DELEGATOR_REWARD_COST,
            withdraw_validator_reward: DEFAULT_WITHDRAW_VALIDATOR_REWARD_COST,
            read_era_id: DEFAULT_READ_ERA_ID_COST,
            activate_bid: DEFAULT_ACTIVATE_BID_COST,
            redelegate: DEFAULT_REDELEGATE_COST,
        }
    }

    /// Serializes the value in the `bytesrepr` format: its words in order,
    /// each as four little-endian bytes.
    pub fn to_bytes(&self) -> (r: Result<Vec<u8>, Error>)
        ensures
            r is Ok,
            r->Ok_0@ == encoding(*self),
    {
        let mut ret = Vec::with_capacity(self.serialized_length());
        let ghost mut ws = Seq::<u32>::empty();
        proof { lemma_encode_words_empty(); }
        append_word(&mut ret, self.get_era_validators, Ghost(ws));
        proof { ws = ws.push(self.get_era_validators); }
        append_word(&mut ret, self.read_seigniorage_recipients, Ghost(ws));
        proof { ws = ws.push(self.read_seigniorage_recipients); }
        append_word(&mut ret, self.add_bid, Ghost(ws));
        proof { ws = ws.push(self.add_bid); }
        append_word(&mut ret, self.withdraw_bid, Ghost(ws));
        proof { ws = ws.push(self.withdraw_bid); }
        append_word(&mut ret, self.delegate, Ghost(ws));
        proof { ws = ws.push(self.delegate); }
        append_word(&mut ret, self.undelegate, Ghost(ws));
        proof { ws = ws.push(self.undelegate); }
        append_word(&mut ret, self.run_auction, Ghost(ws));
        proof { ws = ws.push(self.run_auction); }
        append_word(&mut ret, self.slash, Ghost(ws));
        proof { ws = ws.push(self.slash); }
        append_word(&mut ret, self.distribute, Ghost(ws));
        proof { ws = ws.push(self.distribute); }
        append_word(&mut ret, self.withdraw_delegator_reward, Ghost(ws));
        proof { ws = ws.push(self.withdraw_delegator_reward); }
        append_word(&mut ret, self.withdraw_validator_reward, Ghost(ws));
        proof { ws = ws.push(self.withdraw_validator_reward); }
        append_word(&mut ret, self.read_era_id, Ghost(ws));
        proof { ws = ws.push(self.read_era_id); }
        append_word(&mut ret, self.activate_bid, Ghost(ws));
        proof { ws = ws.push(self.activate_bid); }
        append_word(&mut ret, self.redelegate, Ghost(ws));
        proof { ws = ws.push(self.redelegate); }
        Ok(ret)
    }

    /// The length of the serialized value in bytes.
    pub fn serialized_length(&self) -> (r: usize)
        ensures
            r == encoding(*self).len(),
            r == 56,
    {
        proof {
            lemma_encoding_len(*self);

        }
        u32_serialized_length(&self.get_era_validators)
            + u32_serialized_length(&self.read_seigniorage_recipients)
            + u32_serialized_length(&self.add_bid)
            + u32_serialized_length(&self.withdraw_bid)
            + u32_serialized_length(&self.delegate)
            + u32_serialized_length(&self.undelegate)
            + u32_serialized_length(&self.run_auction)
            + u32_serialized_length(&self.slash)
            + u32_serialized_length(&self.distribute)
            + u32_serialized_length(&self.withdraw_delegator_reward)
            + u32_serialized_length(&self.withdraw_validator_reward)
            + u32_serialized_length(&self.read_era_id)
            + u32_serialized_length(&self.activate_bid)
            + u32_serialized_length(&self.redelegate)
    }

    /// Deserializes a value from the front of `bytes`, handing back the rest.
    pub fn from_bytes(bytes: &[u8]) -> (r: Result<(AuctionCosts, &[u8]), Error>)
        ensures
            parsed_as::<AuctionCosts>(bytes@, r),
    {
        let ghost whole = bytes@;
        let ghost mut ws = Seq::<u32>::empty();
        proof {
            lemma_encode_words_empty();
            assert(whole.take(0) =~= Seq::<u8>::empty());
            assert(whole.skip(0) =~= whole);
        }
        let rem = bytes;
        let (get_era_validators, rem) = match read_word(rem, Ghost(whole), Ghost(ws)) {
            Ok(pair) => pair,
            Err(e) => {
                proof { lemma_parsed_short::<AuctionCosts>(whole, Err(e)); }
                return Err(e);
            },
        };
        proof { ws = ws.push(get_era_validators); }
        let (read_seigniorage_recipients, rem) = match read_word(rem, Ghost(whole), Ghost(ws)) {
            Ok(pair) => pair,
            Err(e) => {
                proof { lemma_parsed_short::<AuctionCosts>(whole, Err(e)); }
                return Err(e);
            },
        };
        proof { ws = ws.push(read_seigniorage_recipients); }
        let (add_bid, rem) = match read_word(rem, Ghost(whole), Ghost(ws)) {
            Ok(pair) => pair,
            Err(e) => {
                proof { lemma_parsed_short::<AuctionCosts>(whole, Err(e)); }
                return Err(e);
            },
        };
        proof { ws = ws.push(add_bid); }
        let (withdraw_bid, rem) = match read_word(rem, Ghost(whole), Ghost(ws)) {
            Ok(pair) => pair,
            Err(e) => {
                proof { lemma_parsed_short::<AuctionCosts>(whole, Err(e)); }
                return Err(e);
            },
        };
        proof { ws = ws.push(withdraw_bid); }
        let (delegate, rem) = match read_word(rem, Ghost(whole), Ghost(ws)) {
            Ok(pair) => pair,
            Err(e) => {
                proof { lemma_parsed_short::<AuctionCosts>(whole, Err(e)); }
                return Err(e);
            },
        };
        proof { ws = ws.push(delegate); }
        let (undelegate, rem) = match read_word(rem, Ghost(whole), Ghost(ws)) {
            Ok(pair) => pair,
            Err(e) => {
                proof { lemma_parsed_short::<AuctionCosts>(whole, Err(e)); }
                return Err(e);
            },
        };
        proof { ws = ws.push(undelegate); }
        let (run_auction, rem) = match read_word(rem, Ghost(whole), Ghost(ws)) {
            Ok(pair) => pair,
            Err(e) => {
                proof { lemma_parsed_short::<AuctionCosts>(whole, Err(e)); }
                return Err(e);
            },
        };
        proof { ws = ws.push(run_auction); }
        let (slash, rem) = match read_word(rem, Ghost(whole), Ghost(ws)) {
            Ok(pair) => pair,
            Err(e) => {
                proof { lemma_parsed_short::<AuctionCosts>(whole, Err(e)); }
                return Err(e);
            },
        };
        proof { ws = ws.push(slash); }
        let (distribute, rem) = match read_word(rem, Ghost(whole), Ghost(ws)) {
            Ok(pair) => pair,
            Err(e) => {
                proof { lemma_parsed_short::<AuctionCosts>(whole, Err(e)); }
                return Err(e);
            },
        };
        proof { ws = ws.push(distribute); }
        let (withdraw_delegator_reward, rem) = match read_word(rem, Ghost(whole), Ghost(ws)) {
            Ok(pair) => pair,
            Err(e) => {
                proof { lemma_parsed_short::<AuctionCosts>(whole, Err(e)); }
                return Err(e);
            },
        };
        proof { ws = ws.push(withdraw_delegator_reward); }
        let (withdraw_validator_reward, rem) = match read_word(rem, Ghost(whole), Ghost(ws)) {
            Ok(pair) => pair,
            Err(e) => {
                proof { lemma_parsed_short::<AuctionCosts>(whole, Err(e)); }
                return Err(e);
            },
        };
        proof { ws = ws.push(withdraw_validator_reward); }
        let (read_era_id, rem) = match read_word(rem, Ghost(whole), Ghost(ws)) {
            Ok(pair) => pair,
            Err(e) => {
                proof { lemma_parsed_short::<AuctionCosts>(whole, Err(e)); }
                return Err(e);
            },
        };
        proof { ws = ws.push(read_era_id); }
        let (activate_bid, rem) = match read_word(rem, Ghost(whole), Ghost(ws)) {
            Ok(pair) => pair,
            Err(e) => {
                proof { lemma_parsed_short::<AuctionCosts>(whole, Err(e)); }
                return Err(e);
            },
        };
        proof { ws = ws.push(activate_bid); }
        let (redelegate, rem) = match read_word(rem, Ghost(whole), Ghost(ws)) {
            Ok(pair) => pair,
            Err(e) => {
                proof { lemma_parsed_short::<AuctionCosts>(whole, Err(e)); }
                return Err(e);
            },
        };
        proof { ws = ws.push(redelegate); }
        let value = AuctionCosts { get_era_validators, read_seigniorage_recipients, add_bid, withdraw_bid, delegate, undelegate, run_auction, slash, distribute, withdraw_delegator_reward, withdraw_validator_reward, read_era_id, activate_bid, redelegate };
        proof { lemma_parsed_complete(whole, value, rem); }
        Ok((value, rem))
    }
}

impl Default for AuctionCosts {
    fn default() -> (r: Self)
        ensures
            r == AuctionCosts::spec_default(),
    {
        Self {
            get_era_validators: DEFAULT_GET_ERA_VALIDATORS_COST,
            read_seigniorage_recipients: DEFAULT_READ_SEIGNIORAGE_RECIPIENTS_COST,
            add_bid: DEFAULT_ADD_BID_COST,
            withdraw_bid: DEFAULT_WITHDRAW_BID_COST,
            delegate: DEFAULT_DELEGATE_COST,
            undelegate: DEFAULT_UNDELEGATE_COST,
            run_auction: DEFAULT_RUN_AUCTION_COST,
            slash: DEFAULT_SLASH_COST,
            distribute: DEFAULT_DISTRIBUTE_COST,
            withdraw_delegator_reward: DEFAULT_WITHDRAW_DELEGATOR_REWARD_COST,
            withdraw_validator_reward: DEFAULT_WITHDRAW_VALIDATOR_REWARD_COST,
            read_era_id: DEFAULT_READ_ERA_ID_COST,
            activate_bid: DEFAULT_ACTIVATE_BID_COST,
            redelegate: DEFAULT_REDELEGATE_COST,
        }
    }
}

impl WordLayout for AuctionCosts {
    open spec fn words(&self) -> Seq<u32> {
        Seq::<u32>::empty()
            .push(self.get_era_validators)
            .push(self.read_seigniorage_recipients)
            .push(self.add_bid)
            .push(self.withdraw_bid)
            .push(self.delegate)
            .push(self.undelegate)
            .push(self.run_auction)
            .push(self.slash)
            .push(self.distribute)
            .push(self.withdraw_delegator_reward)
            .push(self.withdraw_validator_reward)
            .push(self.read_era_id)
            .push(self.activate_bid)
            .push(self.redelegate)
    }

    open spec fn from_words(ws: Seq<u32>) -> Self {
        AuctionCosts {
            get_era_validators: ws[0],
            read_seigniorage_recipients: ws[1],
            add_bid: ws[2],
            withdraw_bid: ws[3],
            delegate: ws[4],
            undelegate: ws[5],
            run_auction: ws[6],
            slash: ws[7],
            distribute: ws[8],
            withdraw_delegator_reward: ws[9],
            withdraw_validator_reward: ws[10],
            read_era_id: ws[11],
            activate_bid: ws[12],
            redelegate: ws[13],
        }
    }

    open spec fn word_count() -> nat {
        14
    }

    proof fn lemma_words(&self) {

    }

    proof fn lemma_from_words(ws: Seq<u32>) {
        assert(Self::from_words(ws).words() =~= ws);
    }
}

/// Description of the costs of calling mint entry points.
#[derive(Clone, Copy, Debug, PartialEq, Eq, Structural)]
pub struct MintCosts {
    /// Cost of calling the `mint` entry point.
    pub mint: u32,
    /// Cost of calling the `reduce_total_supply` entry point.
    pub reduce_total_supply: u32,
    /// Cost of calling the `create` entry point.
    pub create: u32,
    /// Cost of calling the `balance` entry point.
    pub balance: u32,
    /// Cost of calling the `transfer` entry point.
    pub transfer: u32,
    /// Cost of calling the `read_base_round_reward` entry point.
    pub read_base_round_reward: u32,
    /// Cost of calling the `mint_into_existing_purse` entry point.
    pub mint_into_existing_purse: u32,
}

impl MintCosts {
    /// The default cost table.
    pub open spec fn spec_default() -> MintCosts {
        MintCosts {
            mint: DEFAULT_MINT_COST,
            reduce_total_supply: DEFAULT_REDUCE_TOTAL_SUPPLY_COST,
            create: DEFAULT_CREATE_COST,
            balance: DEFAULT_BALANCE_COST,
            transfer: DEFAULT_TRANSFER_COST,
            read_base_round_reward: DEFAULT_READ_BASE_ROUND_REWARD_COST,
            mint_into_existing_purse: DEFAULT_MINT_INTO_EXISTING_PURSE_COST,
        }
    }

    /// Serializes the value in the `bytesrepr` format: its words in order,
    /// each as four little-endian bytes.
    pub fn to_bytes(&self) -> (r: Result<Vec<u8>, Error>)
        ensures
            r is Ok,
            r->Ok_0@ == encoding(*self),
    {
        let mut ret = Vec::with_capacity(self.serialized_length());
        let ghost mut ws = Seq::<u32>::empty();
        proof { lemma_encode_words_empty(); }
        append_word(&mut ret, self.mint, Ghost(ws));
        proof { ws = ws.push(self.mint); }
        append_word(&mut ret, self.reduce_total_supply, Ghost(ws));
        proof { ws = ws.push(self.reduce_total_supply); }
        append_word(&mut ret, self.create, Ghost(ws));
        proof { ws = ws.push(self.create); }
        append_word(&mut ret, self.balance, Ghost(ws));
        proof { ws = ws.push(self.balance); }
        append_word(&mut ret, self.transfer, Ghost(ws));
        proof { ws = ws.push(self.transfer); }
        append_word(&mut ret, self.read_base_round_reward, Ghost(ws));
        proof { ws = ws.push(self.read_base_round_reward); }
        append_word(&mut ret, self.mint_into_existing_purse, Ghost(ws));
        proof { ws = ws.push(self.mint_into_existing_purse); }
        Ok(ret)
    }

    /// The length of the serialized value in bytes.
    pub fn serialized_length(&self) -> (r: usize)
        ensures
            r == encoding(*self).len(),
            r == 28,
    {
        proof {
            lemma_encoding_len(*self);

        }
        u32_serialized_length(&self.mint)
            + u32_serialized_length(&self.reduce_total_supply)
            + u32_serialized_length(&self.create)
            + u32_serialized_length(&self.balance)
            + u32_serialized_length(&self.transfer)
            + u32_serialized_length(&self.read_base_round_reward)
            + u32_serialized_length(&self.mint_into_existing_purse)
    }

    /// Deserializes a value from the front of `bytes`, handing back the rest.
    pub fn from_bytes(bytes: &[u8]) -> (r: Result<(MintCosts, &[u8]), Error>)
        ensures
            parsed_as::<MintCosts>(bytes@, r),
    {
        let ghost whole = bytes@;
        let ghost mut ws = Seq::<u32>::empty();
        proof {
            lemma_encode_words_empty();
            assert(whole.take(0) =~= Seq::<u8>::empty());
            assert(whole.skip(0) =~= whole);
        }
        let rem = bytes;
        let (mint, rem) = match read_word(rem, Ghost(whole), Ghost(ws)) {
            Ok(pair) => pair,
            Err(e) => {
                proof { lemma_parsed_short::<MintCosts>(whole, Err(e)); }
                return Err(e);
            },
        };
        proof { ws = ws.push(mint); }
        let (reduce_total_supply, rem) = match read_word(rem, Ghost(whole), Ghost(ws)) {
            Ok(pair) => pair,
            Err(e) => {
                proof { lemma_parsed_short::<MintCosts>(whole, Err(e)); }
                return Err(e);
            },
        };
        proof { ws = ws.push(reduce_total_supply); }
        let (create, rem) = match read_word(rem, Ghost(whole), Ghost(ws)) {
            Ok(pair) => pair,
            Err(e) => {
                proof { lemma_parsed_short::<MintCosts>(whole, Err(e)); }
                return Err(e);
            },
        };
        proof { ws = ws.push(create); }
        let (balance, rem) = match read_word(rem, Ghost(whole), Ghost(ws)) {
            Ok(pair) => pair,
            Err(e) => {
                proof { lemma_parsed_short::<MintCosts>(whole, Err(e)); }
                return Err(e);
            },
        };
        proof { ws = ws.push(balance); }
        let (transfer, rem) = match read_word(rem, Ghost(whole), Ghost(ws)) {
            Ok(pair) => pair,
            Err(e) => {
                proof { lemma_parsed_short::<MintCosts>(whole, Err(e)); }
                return Err(e);
            },
        };
        proof { ws = ws.push(transfer); }
        let (read_base_round_reward, rem) = match read_word(rem, Ghost(whole), Ghost(ws)) {
            Ok(pair) => pair,
            Err(e) => {
                proof { lemma_parsed_short::<MintCosts>(whole, Err(e)); }
                return Err(e);
            },
        };
        proof { ws = ws.push(read_base_round_reward); }
        let (mint_into_existing_purse, rem) = match read_word(rem, Ghost(whole), Ghost(ws)) {
            Ok(pair) => pair,
            Err(e) => {
                proof { lemma_parsed_short::<MintCosts>(whole, Err(e)); }
                return Err(e);
            },
        };
        proof { ws = ws.push(mint_into_existing_purse); }
        let value = MintCosts { mint, reduce_total_supply, create, balance, transfer, read_base_round_reward, mint_into_existing_purse };
        proof { lemma_parsed_complete(whole, value, rem); }
        Ok((value, rem))
    }
}

impl Default for MintCosts {
    fn default() -> (r: Self)
        ensures
            r == MintCosts::spec_default(),
    {
        Self {
            mint: DEFAULT_MINT_COST,
            reduce_total_supply: DEFAULT_REDUCE_TOTAL_SUPPLY_COST,
            create: DEFAULT_CREATE_COST,
            balance: DEFAULT_BALANCE_COST,
            transfer: DEFAULT_TRANSFER_COST,
            read_base_round_reward: DEFAULT_READ_BASE_ROUND_REWARD_COST,
            mint_into_existing_purse: DEFAULT_MINT_INTO_EXISTING_PURSE_COST,
        }
    }
}

impl WordLayout for MintCosts {
    open spec fn words(&self) -> Seq<u32> {
        Seq::<u32>::empty()
            .push(self.mint)
            .push(self.reduce_total_supply)
            .push(self.create)
            .push(self.balance)
            .push(self.transfer)
            .push(self.read_base_round_reward)
            .push(self.mint_into_existing_purse)
    }

    open spec fn from_words(ws: Seq<u32>) -> Self {
        MintCosts {
            mint: ws[0],
            reduce_total_supply: ws[1],
            create: ws[2],
            balance: ws[3],
            transfer: ws[4],
            read_base_round_reward: ws[5],
            mint_into_existing_purse: ws[6],
        }
    }

    open spec fn word_count() -> nat {
        7
    }

    proof fn lemma_words(&self) {

    }

    proof fn lemma_from_words(ws: Seq<u32>) {
        assert(Self::from_words(ws).words() =~= ws);
    }
}

/// Description of the costs of calling `handle_payment` entrypoints.
#[derive(Clone, Copy, Debug, PartialEq, Eq, Structural)]
pub struct HandlePaymentCosts {
    /// Cost of calling the `get_payment_purse` entry point.
    pub get_payment_purse: u32,
    /// Cost of calling the `set_refund_purse` entry point.
    pub set_refund_purse: u32,
    /// Cost of calling the `get_refund_purse` entry point.
    pub get_refund_purse: u32,
    /// Cost of calling the `finalize_payment` entry point.
    pub finalize_payment: u32,
}

impl HandlePaymentCosts {
    /// The default cost table.
    pub open spec fn spec_default() -> HandlePaymentCosts {
        HandlePaymentCosts {
            get_payment_purse: DEFAULT_GET_PAYMENT_PURSE_COST,
            set_refund_purse: DEFAULT_SET_REFUND_PURSE_COST,
            get_refund_purse: DEFAULT_GET_REFUND_PURSE_COST,
            finalize_payment: DEFAULT_FINALIZE_PAYMENT_COST,
        }
    }

    /// Serializes the value in the `bytesrepr` format: its words in order,
    /// each as four little-endian bytes.
    pub fn to_bytes(&self) -> (r: Result<Vec<u8>, Error>)
        ensures
            r is Ok,
            r->Ok_0@ == encoding(*self),
    {
        let mut ret = Vec::with_capacity(self.serialized_length());
        let ghost mut ws = Seq::<u32>::empty();
        proof { lemma_encode_words_empty(); }
        append_word(&mut ret, self.get_payment_purse, Ghost(ws));
        proof { ws = ws.push(self.get_payment_purse); }
        append_word(&mut ret, self.set_refund_purse, Ghost(ws));
        proof { ws = ws.push(self.set_refund_purse); }
        append_word(&mut ret, self.get_refund_purse, Ghost(ws));
        proof { ws = ws.push(self.get_refund_purse); }
        append_word(&mut ret, self.finalize_payment, Ghost(ws));
        proof { ws = ws.push(self.finalize_payment); }
        Ok(ret)
    }

    /// The length of the serialized value in bytes.
    pub fn serialized_length(&self) -> (r: usize)
        ensures
            r == encoding(*self).len(),
            r == 16,
    {
        proof {
            lemma_encoding_len(*self);

        }
        u32_serialized_length(&self.get_payment_purse)
            + u32_serialized_length(&self.set_refund_purse)
            + u32_serialized_length(&self.get_refund_purse)
            + u32_serialized_length(&self.finalize_payment)
    }

    /// Deserializes a value from the front of `bytes`, handing back the rest.
    pub fn from_bytes(bytes: &[u8]) -> (r: Result<(HandlePaymentCosts, &[u8]), Error>)
        ensures
            parsed_as::<HandlePaymentCosts>(bytes@, r),
    {
        let ghost whole = bytes@;
        let ghost mut ws = Seq::<u32>::empty();
        proof {
            lemma_encode_words_empty();
            assert(whole.take(0) =~= Seq::<u8>::empty());
            assert(whole.skip(0) =~= whole);
        }
        let rem = bytes;
        let (get_payment_purse, rem) = match read_word(rem, Ghost(whole), Ghost(ws)) {
            Ok(pair) => pair,
            Err(e) => {
                proof { lemma_parsed_short::<HandlePaymentCosts>(whole, Err(e)); }
                return Err(e);
            },
        };
        proof { ws = ws.push(get_payment_purse); }
        let (set_refund_purse, rem) = match read_word(rem, Ghost(whole), Ghost(ws)) {
            Ok(pair) => pair,
            Err(e) => {
                proof { lemma_parsed_short::<HandlePaymentCosts>(whole, Err(e)); }
                return Err(e);
            },
        };
        proof { ws = ws.push(set_refund_purse); }
        let (get_refund_purse, rem) = match read_word(rem, Ghost(whole), Ghost(ws)) {
            Ok(pair) => pair,
            Err(e) => {
                proof { lemma_parsed_short::<HandlePaymentCosts>(whole, Err(e)); }
                return Err(e);
            },
        };
        proof { ws = ws.push(get_refund_purse); }
        let (finalize_payment, rem) = match read_word(rem, Ghost(whole), Ghost(ws)) {
            Ok(pair) => pair,
            Err(e) => {
                proof { lemma_parsed_short::<HandlePaymentCosts>(whole, Err(e)); }
                return Err(e);
            },
        };
        proof { ws = ws.push(finalize_payment); }
        let value = HandlePaymentCosts { get_payment_purse, set_refund_purse, get_refund_purse, finalize_payment };
        proof { lemma_parsed_complete(whole, value, rem); }
        Ok((value, rem))
    }
}

impl Default for HandlePaymentCosts {
    fn default() -> (r: Self)
        ensures
            r == HandlePaymentCosts::spec_default(),
    {
        Self {
            get_payment_purse: DEFAULT_GET_PAYMENT_PURSE_COST,
            set_refund_purse: DEFAULT_SET_REFUND_PURSE_COST,
            get_refund_purse: DEFAULT_GET_REFUND_PURSE_COST,
            finalize_payment: DEFAULT_FINALIZE_PAYMENT_COST,
        }
    }
}

impl WordLayout for HandlePaymentCosts {
    open spec fn words(&self) -> Seq<u32> {
        Seq::<u32>::empty()
            .push(self.get_payment_purse)
            .push(self.set_refund_purse)
            .push(self.get_refund_purse)
            .push(self.finalize_payment)
    }

    open spec fn from_words(ws: Seq<u32>) -> Self {
        HandlePaymentCosts {
            get_payment_purse: ws[0],
            set_refund_purse: ws[1],
            get_refund_purse: ws[2],
            finalize_payment: ws[3],
        }
    }

    open spec fn word_count() -> nat {
        4
    }

    proof fn lemma_words(&self) {

    }

    proof fn lemma_from_words(ws: Seq<u32>) {
        assert(Self::from_words(ws).words() =~= ws);
    }
}

/// Description of the costs of calling standard payment entry points.
#[derive(Clone, Copy, Debug, PartialEq, Eq, Structural)]
pub struct StandardPaymentCosts {
    /// Cost of calling the `pay` entry point.
    pub pay: u32,
}

impl StandardPaymentCosts {
    /// The default cost table.
    pub open spec fn spec_default() -> StandardPaymentCosts {
        StandardPaymentCosts {
            pay: DEFAULT_PAY_COST,
        }
    }

    /// Serializes the value in the `bytesrepr` format: its words in order,
    /// each as four little-endian bytes.
    pub fn to_bytes(&self) -> (r: Result<Vec<u8>, Error>)
        ensures
            r is Ok,
            r->Ok_0@ == encoding(*self),
    {
        let mut ret = Vec::with_capacity(self.serialized_length());
        let ghost mut ws = Seq::<u32>::empty();
        proof { lemma_encode_words_empty(); }
        append_word(&mut ret, self.pay, Ghost(ws));
        proof { ws = ws.push(self.pay); }
        Ok(ret)
    }

    /// The length of the serialized value in bytes.
    pub fn serialized_length(&self) -> (r: usize)
        ensures
            r == encoding(*self).len(),
            r == 4,
    {
        proof {
            lemma_encoding_len(*self);

        }
        u32_serialized_length(&self.pay)
    }

    /// Deserializes a value from the front of `bytes`, handing back the rest.
    pub fn from_bytes(bytes: &[u8]) -> (r: Result<(StandardPaymentCosts, &[u8]), Error>)
        ensures
            parsed_as::<StandardPaymentCosts>(bytes@, r),
    {
        let ghost whole = bytes@;
        let ghost mut ws = Seq::<u32>::empty();
        proof {
            lemma_encode_words_empty();
            assert(whole.take(0) =~= Seq::<u8>::empty());
            assert(whole.skip(0) =~= whole);
        }
        let rem = bytes;
        let (pay, rem) = match read_word(rem, Ghost(whole), Ghost(ws)) {
            Ok(pair) => pair,
            Err(e) => {
                proof { lemma_parsed_short::<StandardPaymentCosts>(whole, Err(e)); }
                return Err(e);
            },
        };
        proof { ws = ws.push(pay); }
        let value = StandardPaymentCosts { pay };
        proof { lemma_parsed_complete(whole, value, rem); }
        Ok((value, rem))
    }
}

impl Default for StandardPaymentCosts {
    fn default() -> (r: Self)
        ensures
            r == StandardPaymentCosts::spec_default(),
    {
        Self {
            pay: DEFAULT_PAY_COST,
        }
    }
}

impl WordLayout for StandardPaymentCosts {
    open spec fn words(&self) -> Seq<u32> {
        Seq::<u32>::empty().push(self.pay)
    }

    open spec fn from_words(ws: Seq<u32>) -> Self {
        StandardPaymentCosts {
            pay: ws[0],
        }
    }

    open spec fn word_count() -> nat {
        1
    }

    proof fn lemma_words(&self) {

    }

    proof fn lemma_from_words(ws: Seq<u32>) {
        assert(Self::from_words(ws).words() =~= ws);
    }
}

/// Definition of costs in the system.
///
/// This structure contains the costs of all the system contract's entry points
/// and, additionally, it defines a wasmless transfer cost.
#[derive(Clone, Copy, Debug, PartialEq, Eq, Structural)]
pub struct SystemConfig {
    /// Wasmless transfer cost expressed in gas.
    wasmless_transfer_cost: u32,
    /// Configuration of auction entrypoint costs.
    auction_costs: AuctionCosts,
    /// Configuration of mint entrypoint costs.
    mint_costs: MintCosts,
    /// Configuration of handle payment entrypoint costs.
    handle_payment_costs: HandlePaymentCosts,
    /// Configuration of standard payment costs.
    standard_payment_costs: StandardPaymentCosts,
}

impl SystemConfig {
    /// The wasmless transfer cost.
    pub closed spec fn spec_wasmless_transfer_cost(&self) -> u32 {
        self.wasmless_transfer_cost
    }

    /// The costs of the auction entry points.
    pub closed spec fn spec_auction_costs(&self) -> AuctionCosts {
        self.auction_costs
    }

    /// The costs of the mint entry points.
    pub closed spec fn spec_mint_costs(&self) -> MintCosts {
        self.mint_costs
    }

    /// The costs of the `handle_payment` entry points.
    pub closed spec fn spec_handle_payment_costs(&self) -> HandlePaymentCosts {
        self.handle_payment_costs
    }

    /// The costs of the `standard_payment` entry points.
    pub closed spec fn spec_standard_payment_costs(&self) -> StandardPaymentCosts {
        self.standard_payment_costs
    }

    /// The system config has exactly these parts.
    pub open spec fn has(
        &self,
        wasmless_transfer_cost: u32,
        auction_costs: AuctionCosts,
        mint_costs: MintCosts,
        handle_payment_costs: HandlePaymentCosts,
        standard_payment_costs: StandardPaymentCosts,
    ) -> bool {
        &&& self.spec_wasmless_transfer_cost() == wasmless_transfer_cost
        &&& self.spec_auction_costs() == auction_costs
        &&& self.spec_mint_costs() == mint_costs
        &&& self.spec_handle_payment_costs() == handle_payment_costs
        &&& self.spec_standard_payment_costs() == standard_payment_costs
    }

    /// Creates new system config instance.
    pub fn new(
        wasmless_transfer_cost: u32,
        auction_costs: AuctionCosts,
        mint_costs: MintCosts,
        handle_payment_costs: HandlePaymentCosts,
        standard_payment_costs: StandardPaymentCosts,
    ) -> (r: Self)
        ensures
            r.has(
                wasmless_transfer_cost,
                auction_costs,
                mint_costs,
                handle_payment_costs,
                standard_payment_costs,
            ),
    {
        Self {
            wasmless_transfer_cost,
            auction_costs,
            mint_costs,
            handle_payment_costs,
            standard_payment_costs,
        }
    }

    /// Returns wasmless transfer cost.
    pub fn wasmless_transfer_cost(&self) -> (r: u32)
        ensures
            r == self.spec_wasmless_transfer_cost(),
    {
        self.wasmless_transfer_cost
    }

    /// Returns the costs of executing auction entry points.
    pub fn auction_costs(&self) -> (r: &AuctionCosts)
        ensures
            *r == self.spec_auction_costs(),
    {
        &self.auction_costs
    }

    /// Returns the costs of executing mint entry points.
    pub fn mint_costs(&self) -> (r: &MintCosts)
        ensures
            *r == self.spec_mint_costs(),
    {
        &self.mint_costs
    }

    /// Returns the costs of executing `handle_payment` entry points.
    pub fn handle_payment_costs(&self) -> (r: &HandlePaymentCosts)
        ensures
            *r == self.spec_handle_payment_costs(),
    {
        &self.handle_payment_costs
    }

    /// Returns the costs of executing `standard_payment` entry points.
    pub fn standard_payment_costs(&self) -> (r: &StandardPaymentCosts)
        ensures
            *r == self.spec_standard_payment_costs(),
    {
        &self.standard_payment_costs
    }

    /// This is the default system config.
    pub open spec fn is_default_config(&self) -> bool {
        self.has(
            DEFAULT_WASMLESS_TRANSFER_COST,
            AuctionCosts::spec_default(),
            MintCosts::spec_default(),
            HandlePaymentCosts::spec_default(),
            StandardPaymentCosts::spec_default(),
        )
    }

    /// Serializes the value in the `bytesrepr` format: its words in order,
    /// each as four little-endian bytes.
    pub fn to_bytes(&self) -> (r: Result<Vec<u8>, Error>)
        ensures
            r is Ok,
            r->Ok_0@ == encoding(*self),
    {
        let mut ret = Vec::with_capacity(self.serialized_length());
        let ghost mut ws = Seq::<u32>::empty();
        proof { lemma_encode_words_empty(); }
        append_word(&mut ret, self.wasmless_transfer_cost, Ghost(ws));
        proof { ws = ws.push(self.wasmless_transfer_cost); }
        let mut auction_costs_bytes = match self.auction_costs.to_bytes() {
            Ok(bytes) => bytes,
            Err(e) => return Err(e),
        };
        proof { lemma_encode_words_concat(ws, self.auction_costs.words()); }
        ret.append(&mut auction_costs_bytes);
        proof { ws = ws + self.auction_costs.words(); }
        let mut mint_costs_bytes = match self.mint_costs.to_bytes() {
            Ok(bytes) => bytes,
            Err(e) => return Err(e),
        };
        proof { lemma_encode_words_concat(ws, self.mint_costs.words()); }
        ret.append(&mut mint_costs_bytes);
        proof { ws = ws + self.mint_costs.words(); }
        let mut handle_payment_costs_bytes = match self.handle_payment_costs.to_bytes() {
            Ok(bytes) => bytes,
            Err(e) => return Err(e),
        };
        proof { lemma_encode_words_concat(ws, self.handle_payment_costs.words()); }
        ret.append(&mut handle_payment_costs_bytes);
        proof { ws = ws + self.handle_payment_costs.words(); }
        let mut standard_payment_costs_bytes = match self.standard_payment_costs.to_bytes() {
            Ok(bytes) => bytes,
            Err(e) => return Err(e),
        };
        proof { lemma_encode_words_concat(ws, self.standard_payment_costs.words()); }
        ret.append(&mut standard_payment_costs_bytes);
        proof { ws = ws + self.standard_payment_costs.words(); }
        Ok(ret)
    }

    /// The length of the serialized value in bytes.
    pub fn serialized_length(&self) -> (r: usize)
        ensures
            r == encoding(*self).len(),
            r == 108,
    {
        proof {
            lemma_encoding_len(*self);
            lemma_encoding_len(self.auction_costs);
            lemma_encoding_len(self.mint_costs);
            lemma_encoding_len(self.handle_payment_costs);
            lemma_encoding_len(self.standard_payment_costs);
        }
        u32_serialized_length(&self.wasmless_transfer_cost)
            + self.auction_costs.serialized_length()
            + self.mint_costs.serialized_length()
            + self.handle_payment_costs.serialized_length()
            + self.standard_payment_costs.serialized_length()
    }

    /// Deserializes a value from the front of `bytes`, handing back the rest.
    pub fn from_bytes(bytes: &[u8]) -> (r: Result<(SystemConfig, &[u8]), Error>)
        ensures
            parsed_as::<SystemConfig>(bytes@, r),
    {
        let ghost whole = bytes@;
        let ghost mut ws = Seq::<u32>::empty();
        proof {
            lemma_encode_words_empty();
            assert(whole.take(0) =~= Seq::<u8>::empty());
            assert(whole.skip(0) =~= whole);
        }
        let rem = bytes;
        let (wasmless_transfer_cost, rem) = match read_word(rem, Ghost(whole), Ghost(ws)) {
            Ok(pair) => pair,
            Err(e) => {
                proof { lemma_parsed_short::<SystemConfig>(whole, Err(e)); }
                return Err(e);
            },
        };
        proof { ws = ws.push(wasmless_transfer_cost); }
        let read = AuctionCosts::from_bytes(rem);
        proof { lemma_read_step::<AuctionCosts>(whole, ws, rem@, read); }
        let (auction_costs, rem) = match read {
            Ok(pair) => pair,
            Err(e) => {
                proof { lemma_parsed_short::<SystemConfig>(whole, Err(e)); }
                return Err(e);
            },
        };
        proof {
            ws = ws + auction_costs.words();
            assert(ws.len() == 15);
        }
        let read = MintCosts::from_bytes(rem);
        proof { lemma_read_step::<MintCosts>(whole, ws, rem@, read); }
        let (mint_costs, rem) = match read {
            Ok(pair) => pair,
            Err(e) => {
                proof { lemma_parsed_short::<SystemConfig>(whole, Err(e)); }
                return Err(e);
            },
        };
        proof {
            ws = ws + mint_costs.words();
            assert(ws.len() == 22);
        }
        let read = HandlePaymentCosts::from_bytes(rem);
        proof { lemma_read_step::<HandlePaymentCosts>(whole, ws, rem@, read); }
        let (handle_payment_costs, rem) = match read {
            Ok(pair) => pair,
            Err(e) => {
                proof { lemma_parsed_short::<SystemConfig>(whole, Err(e)); }
                return Err(e);
            },
        };
        proof {
            ws = ws + handle_payment_costs.words();
            assert(ws.len() == 26);
        }
        let read = StandardPaymentCosts::from_bytes(rem);
        proof { lemma_read_step::<StandardPaymentCosts>(whole, ws, rem@, read); }
        let (standard_payment_costs, rem) = match read {
            Ok(pair) => pair,
            Err(e) => {
                proof { lemma_parsed_short::<SystemConfig>(whole, Err(e)); }
                return Err(e);
            },
        };
        proof {
            ws = ws + standard_payment_costs.words();
            assert(ws.len() == 27);
        }
        let value = SystemConfig::new(wasmless_transfer_cost, auction_costs, mint_costs, handle_payment_costs, standard_payment_costs);
        proof { lemma_parsed_complete(whole, value, rem); }
        Ok((value, rem))
    }
}

impl Default for SystemConfig {
    fn default() -> (r: Self)
        ensures
            r.is_default_config(),
    {
        Self {
            wasmless_transfer_cost: DEFAULT_WASMLESS_TRANSFER_COST,
            auction_costs: AuctionCosts::default(),
            mint_costs: MintCosts::default(),
            handle_payment_costs: HandlePaymentCosts::default(),
            standard_payment_costs: StandardPaymentCosts::default(),
        }
    }
}

impl WordLayout for SystemConfig {
    open spec fn words(&self) -> Seq<u32> {
        Seq::<u32>::empty()
            .push(self.spec_wasmless_transfer_cost())
            + self.spec_auction_costs().words()
            + self.spec_mint_costs().words()
            + self.spec_handle_payment_costs().words()
            + self.spec_standard_payment_costs().words()
    }

    closed spec fn from_words(ws: Seq<u32>) -> Self {
        SystemConfig {
            wasmless_transfer_cost: ws[0],
            auction_costs: AuctionCosts::from_words(ws.subrange(1, 15)),
            mint_costs: MintCosts::from_words(ws.subrange(15, 22)),
            handle_payment_costs: HandlePaymentCosts::from_words(ws.subrange(22, 26)),
            standard_payment_costs: StandardPaymentCosts::from_words(ws.subrange(26, 27)),
        }
    }

    open spec fn word_count() -> nat {
        27
    }

    proof fn lemma_words(&self) {
        self.auction_costs.lemma_words();
        self.mint_costs.lemma_words();
        self.handle_payment_costs.lemma_words();
        self.standard_payment_costs.lemma_words();
        let s = self.words();
        lemma_subrange_all(s);
        let scalars = Seq::<u32>::empty()
            .push(self.wasmless_transfer_cost);
        let prefix0 = scalars + self.auction_costs.words();
        let prefix1 = prefix0 + self.mint_costs.words();
        let prefix2 = prefix1 + self.handle_payment_costs.words();
        lemma_concat_subrange(prefix2, self.standard_payment_costs.words());
        lemma_subrange_of_prefix(s, 26, 27, 27);
        lemma_subrange_of_prefix(s, 0, 26, 27);
        lemma_concat_subrange(prefix1, self.handle_payment_costs.words());
        lemma_subrange_of_prefix(s, 22, 26, 26);
        lemma_subrange_of_prefix(s, 0, 22, 26);
        lemma_concat_subrange(prefix0, self.mint_costs.words());
        lemma_subrange_of_prefix(s, 15, 22, 22);
        lemma_subrange_of_prefix(s, 0, 15, 22);
        lemma_concat_subrange(scalars, self.auction_costs.words());
        lemma_subrange_of_prefix(s, 1, 15, 15);
        lemma_subrange_of_prefix(s, 0, 1, 15);
    }

    proof fn lemma_from_words(ws: Seq<u32>) {
        AuctionCosts::lemma_from_words(ws.subrange(1, 15));
        MintCosts::lemma_from_words(ws.subrange(15, 22));
        HandlePaymentCosts::lemma_from_words(ws.subrange(22, 26));
        StandardPaymentCosts::lemma_from_words(ws.subrange(26, 27));
        assert(Self::from_words(ws).words().subrange(0, 1) =~= ws.subrange(0, 1));
        lemma_subrange_join(ws, 0, 1, 15);
        lemma_subrange_join(ws, 0, 15, 22);
        lemma_subrange_join(ws, 0, 22, 26);
        lemma_subrange_join(ws, 0, 26, 27);
        lemma_subrange_all(ws);
        assert(Self::from_words(ws).words() =~= ws);
    }
}



/// The encoding of a AuctionCosts is its fields in the order they are written, each `u32` as its four little-endian bytes and each table as its own encoding: 14 words.
pub proof fn lemma_auction_costs_layout(c: AuctionCosts)
    ensures
        encoding(c).len() == 56,
        encoding(c).subrange(0, 4) == le_bytes(c.get_era_validators),
        encoding(c).subrange(4, 8) == le_bytes(c.read_seigniorage_recipients),
        encoding(c).subrange(8, 12) == le_bytes(c.add_bid),
        encoding(c).subrange(12, 16) == le_bytes(c.withdraw_bid),
        encoding(c).subrange(16, 20) == le_bytes(c.delegate),
        encoding(c).subrange(20, 24) == le_bytes(c.undelegate),
        encoding(c).subrange(24, 28) == le_bytes(c.run_auction),
        encoding(c).subrange(28, 32) == le_bytes(c.slash),
        encoding(c).subrange(32, 36) == le_bytes(c.distribute),
        encoding(c).subrange(36, 40) == le_bytes(c.withdraw_delegator_reward),
        encoding(c).subrange(40, 44) == le_bytes(c.withdraw_validator_reward),
        encoding(c).subrange(44, 48) == le_bytes(c.read_era_id),
        encoding(c).subrange(48, 52) == le_bytes(c.activate_bid),
        encoding(c).subrange(52, 56) == le_bytes(c.redelegate),
{
    c.lemma_words();
    lemma_encoding_len(c);
    let ws = c.words();
    lemma_encode_words_index(ws, 0);
    lemma_encode_words_index(ws, 1);
    lemma_encode_words_index(ws, 2);
    lemma_encode_words_index(ws, 3);
    lemma_encode_words_index(ws, 4);
    lemma_encode_words_index(ws, 5);
    lemma_encode_words_index(ws, 6);
    lemma_encode_words_index(ws, 7);
    lemma_encode_words_index(ws, 8);
    lemma_encode_words_index(ws, 9);
    lemma_encode_words_index(ws, 10);
    lemma_encode_words_index(ws, 11);
    lemma_encode_words_index(ws, 12);
    lemma_encode_words_index(ws, 13);
}

/// A read of the table takes its fields from the front of `bytes` in the
/// order they are written, each `u32` from its four little-endian bytes, and
/// leaves the rest.
pub proof fn lemma_auction_costs_read(bytes: Seq<u8>, r: Result<(AuctionCosts, &[u8]), Error>)
    requires
        parsed_as::<AuctionCosts>(bytes, r),
        r is Ok,
    ensures
        r->Ok_0.0.get_era_validators == from_le_bytes(bytes.subrange(0, 4)),
        r->Ok_0.0.read_seigniorage_recipients == from_le_bytes(bytes.subrange(4, 8)),
        r->Ok_0.0.add_bid == from_le_bytes(bytes.subrange(8, 12)),
        r->Ok_0.0.withdraw_bid == from_le_bytes(bytes.subrange(12, 16)),
        r->Ok_0.0.delegate == from_le_bytes(bytes.subrange(16, 20)),
        r->Ok_0.0.undelegate == from_le_bytes(bytes.subrange(20, 24)),
        r->Ok_0.0.run_auction == from_le_bytes(bytes.subrange(24, 28)),
        r->Ok_0.0.slash == from_le_bytes(bytes.subrange(28, 32)),
        r->Ok_0.0.distribute == from_le_bytes(bytes.subrange(32, 36)),
        r->Ok_0.0.withdraw_delegator_reward == from_le_bytes(bytes.subrange(36, 40)),
        r->Ok_0.0.withdraw_validator_reward == from_le_bytes(bytes.subrange(40, 44)),
        r->Ok_0.0.read_era_id == from_le_bytes(bytes.subrange(44, 48)),
        r->Ok_0.0.activate_bid == from_le_bytes(bytes.subrange(48, 52)),
        r->Ok_0.0.redelegate == from_le_bytes(bytes.subrange(52, 56)),
        r->Ok_0.1@ == bytes.skip(56),
{
    reveal(parsed_as);
    let v = r->Ok_0.0;
    lemma_encoding_of_parse::<AuctionCosts>(bytes);
    lemma_auction_costs_layout(v);
    let e = encoding(v);
    assert(bytes.take(56) =~= e);
    assert(bytes.subrange(0, 4) =~= e.subrange(0, 4));
    lemma_le_bytes_of(v.get_era_validators);
    assert(bytes.subrange(4, 8) =~= e.subrange(4, 8));
    lemma_le_bytes_of(v.read_seigniorage_recipients);
    assert(bytes.subrange(8, 12) =~= e.subrange(8, 12));
    lemma_le_bytes_of(v.add_bid);
    assert(bytes.subrange(12, 16) =~= e.subrange(12, 16));
    lemma_le_bytes_of(v.withdraw_bid);
    assert(bytes.subrange(16, 20) =~= e.subrange(16, 20));
    lemma_le_bytes_of(v.delegate);
    assert(bytes.subrange(20, 24) =~= e.subrange(20, 24));
    lemma_le_bytes_of(v.undelegate);
    assert(bytes.subrange(24, 28) =~= e.subrange(24, 28));
    lemma_le_bytes_of(v.run_auction);
    assert(bytes.subrange(28, 32) =~= e.subrange(28, 32));
    lemma_le_bytes_of(v.slash);
    assert(bytes.subrange(32, 36) =~= e.subrange(32, 36));
    lemma_le_bytes_of(v.distribute);
    assert(bytes.subrange(36, 40) =~= e.subrange(36, 40));
    lemma_le_bytes_of(v.withdraw_delegator_reward);
    assert(bytes.subrange(40, 44) =~= e.subrange(40, 44));
    lemma_le_bytes_of(v.withdraw_validator_reward);
    assert(bytes.subrange(44, 48) =~= e.subrange(44, 48));
    lemma_le_bytes_of(v.read_era_id);
    assert(bytes.subrange(48, 52) =~= e.subrange(48, 52));
    lemma_le_bytes_of(v.activate_bid);
    assert(bytes.subrange(52, 56) =~= e.subrange(52, 56));
    lemma_le_bytes_of(v.redelegate);
}

/// The default AuctionCosts table holds the chainspec's default costs.
pub proof fn lemma_auction_costs_default_values()
    ensures
        AuctionCosts::spec_default().get_era_validators == 10_000,
        AuctionCosts::spec_default().read_seigniorage_recipients == 10_000,
        AuctionCosts::spec_default().add_bid == 2_500_000_000,
        AuctionCosts::spec_default().withdraw_bid == 2_500_000_000,
        AuctionCosts::spec_default().delegate == 2_500_000_000,
        AuctionCosts::spec_default().undelegate == 2_500_000_000,
        AuctionCosts::spec_default().run_auction == 10_000,
        AuctionCosts::spec_default().slash == 10_000,
        AuctionCosts::spec_default().distribute == 10_000,
        AuctionCosts::spec_default().withdraw_delegator_reward == 10_000,
        AuctionCosts::spec_default().withdraw_validator_reward == 10_000,
        AuctionCosts::spec_default().read_era_id == 10_000,
        AuctionCosts::spec_default().activate_bid == 10_000,
        AuctionCosts::spec_default().redelegate == 2_500_000_000,
{
}

/// The encoding of a MintCosts is its fields in the order they are written, each `u32` as its four little-endian bytes and each table as its own encoding: 7 words.
pub proof fn lemma_mint_costs_layout(c: MintCosts)
    ensures
        encoding(c).len() == 28,
        encoding(c).subrange(0, 4) == le_bytes(c.mint),
        encoding(c).subrange(4, 8) == le_bytes(c.reduce_total_supply),
        encoding(c).subrange(8, 12) == le_bytes(c.create),
        encoding(c).subrange(12, 16) == le_bytes(c.balance),
        encoding(c).subrange(16, 20) == le_bytes(c.transfer),
        encoding(c).subrange(20, 24) == le_bytes(c.read_base_round_reward),
        encoding(c).subrange(24, 28) == le_bytes(c.mint_into_existing_purse),
{
    c.lemma_words();
    lemma_encoding_len(c);
    let ws = c.words();
    lemma_encode_words_index(ws, 0);
    lemma_encode_words_index(ws, 1);
    lemma_encode_words_index(ws, 2);
    lemma_encode_words_index(ws, 3);
    lemma_encode_words_index(ws, 4);
    lemma_encode_words_index(ws, 5);
    lemma_encode_words_index(ws, 6);
}

/// A read of the table takes its fields from the front of `bytes` in the
/// order they are written, each `u32` from its four little-endian bytes, and
/// leaves the rest.
pub proof fn lemma_mint_costs_read(bytes: Seq<u8>, r: Result<(MintCosts, &[u8]), Error>)
    requires
        parsed_as::<MintCosts>(bytes, r),
        r is Ok,
    ensures
        r->Ok_0.0.mint == from_le_bytes(bytes.subrange(0, 4)),
        r->Ok_0.0.reduce_total_supply == from_le_bytes(bytes.subrange(4, 8)),
        r->Ok_0.0.create == from_le_bytes(bytes.subrange(8, 12)),
        r->Ok_0.0.balance == from_le_bytes(bytes.subrange(12, 16)),
        r->Ok_0.0.transfer == from_le_bytes(bytes.subrange(16, 20)),
        r->Ok_0.0.read_base_round_reward == from_le_bytes(bytes.subrange(20, 24)),
        r->Ok_0.0.mint_into_existing_purse == from_le_bytes(bytes.subrange(24, 28)),
        r->Ok_0.1@ == bytes.skip(28),
{
    reveal(parsed_as);
    let v = r->Ok_0.0;
    lemma_encoding_of_parse::<MintCosts>(bytes);
    lemma_mint_costs_layout(v);
    let e = encoding(v);
    assert(bytes.take(28) =~= e);
    assert(bytes.subrange(0, 4) =~= e.subrange(0, 4));
    lemma_le_bytes_of(v.mint);
    assert(bytes.subrange(4, 8) =~= e.subrange(4, 8));
    lemma_le_bytes_of(v.reduce_total_supply);
    assert(bytes.subrange(8, 12) =~= e.subrange(8, 12));
    lemma_le_bytes_of(v.create);
    assert(bytes.subrange(12, 16) =~= e.subrange(12, 16));
    lemma_le_bytes_of(v.balance);
    assert(bytes.subrange(16, 20) =~= e.subrange(16, 20));
    lemma_le_bytes_of(v.transfer);
    assert(bytes.subrange(20, 24) =~= e.subrange(20, 24));
    lemma_le_bytes_of(v.read_base_round_reward);
    assert(bytes.subrange(24, 28) =~= e.subrange(24, 28));
    lemma_le_bytes_of(v.mint_into_existing_purse);
}

/// The default MintCosts table holds the chainspec's default costs.
pub proof fn lemma_mint_costs_default_values()
    ensures
        MintCosts::spec_default().mint == 2_500_000_000,
        MintCosts::spec_default().reduce_total_supply == 10_000,
        MintCosts::spec_default().create == 2_500_000_000,
        MintCosts::spec_default().balance == 10_000,
        MintCosts::spec_default().transfer == 10_000,
        MintCosts::spec_default().read_base_round_reward == 10_000,
        MintCosts::spec_default().mint_into_existing_purse == 2_500_000_000,
{
}

/// The encoding of a HandlePaymentCosts is its fields in the order they are written, each `u32` as its four little-endian bytes and each table as its own encoding: 4 words.
pub proof fn lemma_handle_payment_costs_layout(c: HandlePaymentCosts)
    ensures
        encoding(c).len() == 16,
        encoding(c).subrange(0, 4) == le_bytes(c.get_payment_purse),
        encoding(c).subrange(4, 8) == le_bytes(c.set_refund_purse),
        encoding(c).subrange(8, 12) == le_bytes(c.get_refund_purse),
        encoding(c).subrange(12, 16) == le_bytes(c.finalize_payment),
{
    c.lemma_words();
    lemma_encoding_len(c);
    let ws = c.words();
    lemma_encode_words_index(ws, 0);
    lemma_encode_words_index(ws, 1);
    lemma_encode_words_index(ws, 2);
    lemma_encode_words_index(ws, 3);
}

/// A read of the table takes its fields from the front of `bytes` in the
/// order they are written, each `u32` from its four little-endian bytes, and
/// leaves the rest.
pub proof fn lemma_handle_payment_costs_read(bytes: Seq<u8>, r: Result<(HandlePaymentCosts, &[u8]), Error>)
    requires
        parsed_as::<HandlePaymentCosts>(bytes, r),
        r is Ok,
    ensures
        r->Ok_0.0.get_payment_purse == from_le_bytes(bytes.subrange(0, 4)),
        r->Ok_0.0.set_refund_purse == from_le_bytes(bytes.subrange(4, 8)),
        r->Ok_0.0.get_refund_purse == from_le_bytes(bytes.subrange(8, 12)),
        r->Ok_0.0.finalize_payment == from_le_bytes(bytes.subrange(12, 16)),
        r->Ok_0.1@ == bytes.skip(16),
{
    reveal(parsed_as);
    let v = r->Ok_0.0;
    lemma_encoding_of_parse::<HandlePaymentCosts>(bytes);
    lemma_handle_payment_costs_layout(v);
    let e = encoding(v);
    assert(bytes.take(16) =~= e);
    assert(bytes.subrange(0, 4) =~= e.subrange(0, 4));
    lemma_le_bytes_of(v.get_payment_purse);
    assert(bytes.subrange(4, 8) =~= e.subrange(4, 8));
    lemma_le_bytes_of(v.set_refund_purse);
    assert(bytes.subrange(8, 12) =~= e.subrange(8, 12));
    lemma_le_bytes_of(v.get_refund_purse);
    assert(bytes.subrange(12, 16) =~= e.subrange(12, 16));
    lemma_le_bytes_of(v.finalize_payment);
}

/// The default HandlePaymentCosts table holds the chainspec's default costs.
pub proof fn lemma_handle_payment_costs_default_values()
    ensures
        HandlePaymentCosts::spec_default().get_payment_purse == 10_000,
        HandlePaymentCosts::spec_default().set_refund_purse == 10_000,
        HandlePaymentCosts::spec_default().get_refund_purse == 10_000,
        HandlePaymentCosts::spec_default().finalize_payment == 10_000,
{
}

/// The encoding of a StandardPaymentCosts is its fields in the order they are written, each `u32` as its four little-endian bytes and each table as its own encoding: 1 words.
pub proof fn lemma_standard_payment_costs_layout(c: StandardPaymentCosts)
    ensures
        encoding(c).len() == 4,
        encoding(c).subrange(0, 4) == le_bytes(c.pay),
{
    c.lemma_words();
    lemma_encoding_len(c);
    let ws = c.words();
    lemma_encode_words_index(ws, 0);
}

/// A read of the table takes its fields from the front of `bytes` in the
/// order they are written, each `u32` from its four little-endian bytes, and
/// leaves the rest.
pub proof fn lemma_standard_payment_costs_read(bytes: Seq<u8>, r: Result<(StandardPaymentCosts, &[u8]), Error>)
    requires
        parsed_as::<StandardPaymentCosts>(bytes, r),
        r is Ok,
    ensures
        r->Ok_0.0.pay == from_le_bytes(bytes.subrange(0, 4)),
        r->Ok_0.1@ == bytes.skip(4),
{
    reveal(parsed_as);
    let v = r->Ok_0.0;
    lemma_encoding_of_parse::<StandardPaymentCosts>(bytes);
    lemma_standard_payment_costs_layout(v);
    let e = encoding(v);
    assert(bytes.take(4) =~= e);
    assert(bytes.subrange(0, 4) =~= e.subrange(0, 4));
    lemma_le_bytes_of(v.pay);
}

/// The default StandardPaymentCosts table holds the chainspec's default costs.
pub proof fn lemma_standard_payment_costs_default_values()
    ensures
        StandardPaymentCosts::spec_default().pay == 10_000,
{
}

/// The encoding of a SystemConfig is its fields in the order they are written, each `u32` as its four little-endian bytes and each table as its own encoding: 27 words.
pub proof fn lemma_system_config_layout(c: SystemConfig)
    ensures
        encoding(c).len() == 108,
        encoding(c).subrange(0, 4) == le_bytes(c.spec_wasmless_transfer_cost()),
        encoding(c).subrange(4, 60) == encoding(c.spec_auction_costs()),
        encoding(c).subrange(60, 88) == encoding(c.spec_mint_costs()),
        encoding(c).subrange(88, 104) == encoding(c.spec_handle_payment_costs()),
        encoding(c).subrange(104, 108) == encoding(c.spec_standard_payment_costs()),
{
    c.lemma_words();
    lemma_encoding_len(c);
    let ws = c.words();
    lemma_encode_words_index(ws, 0);
    AuctionCosts::lemma_from_words(ws.subrange(1, 15));
    lemma_encode_words_subrange(ws, 1, 15);
    MintCosts::lemma_from_words(ws.subrange(15, 22));
    lemma_encode_words_subrange(ws, 15, 22);
    HandlePaymentCosts::lemma_from_words(ws.subrange(22, 26));
    lemma_encode_words_subrange(ws, 22, 26);
    StandardPaymentCosts::lemma_from_words(ws.subrange(26, 27));
    lemma_encode_words_subrange(ws, 26, 27);
}

/// A read of the table takes its fields from the front of `bytes` in the
/// order they are written, each `u32` from its four little-endian bytes, and
/// leaves the rest.
pub proof fn lemma_system_config_read(bytes: Seq<u8>, r: Result<(SystemConfig, &[u8]), Error>)
    requires
        parsed_as::<SystemConfig>(bytes, r),
        r is Ok,
    ensures
        r->Ok_0.0.spec_wasmless_transfer_cost() == from_le_bytes(bytes.subrange(0, 4)),
        encoding(r->Ok_0.0.spec_auction_costs()) == bytes.subrange(4, 60),
        encoding(r->Ok_0.0.spec_mint_costs()) == bytes.subrange(60, 88),
        encoding(r->Ok_0.0.spec_handle_payment_costs()) == bytes.subrange(88, 104),
        encoding(r->Ok_0.0.spec_standard_payment_costs()) == bytes.subrange(104, 108),
        r->Ok_0.1@ == bytes.skip(108),
{
    reveal(parsed_as);
    let v = r->Ok_0.0;
    lemma_encoding_of_parse::<SystemConfig>(bytes);
    lemma_system_config_layout(v);
    let e = encoding(v);
    assert(bytes.take(108) =~= e);
    assert(bytes.subrange(0, 4) =~= e.subrange(0, 4));
    lemma_le_bytes_of(v.spec_wasmless_transfer_cost());
    assert(bytes.subrange(4, 60) =~= e.subrange(4, 60));
    assert(bytes.subrange(60, 88) =~= e.subrange(60, 88));
    assert(bytes.subrange(88, 104) =~= e.subrange(88, 104));
    assert(bytes.subrange(104, 108) =~= e.subrange(104, 108));
}

/// A default SystemConfig holds the chainspec's default values.
pub proof fn lemma_system_config_default_values(c: SystemConfig)
    requires
        c.is_default_config(),
    ensures
        c.spec_wasmless_transfer_cost() == 100_000_000,
        c.spec_auction_costs() == AuctionCosts::spec_default(),
        c.spec_mint_costs() == MintCosts::spec_default(),
        c.spec_handle_payment_costs() == HandlePaymentCosts::spec_default(),
        c.spec_standard_payment_costs() == StandardPaymentCosts::spec_default(),
{
}

} // verus!
