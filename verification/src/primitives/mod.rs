//! The chainspec cost tables: Wasm opcode, storage, host function and system
//! contract costs, their defaults and their `bytesrepr` encoding.

use vstd::prelude::*;

pub mod host_function;
pub mod host_function_costs;
pub mod nonce;
pub mod opcode_costs;
pub mod system_config;
pub mod validator_config;

pub use host_function::HostFunction;
pub use host_function_costs::HostFunctionCosts;
pub use nonce::Nonce;
pub use opcode_costs::{BrTableCost, ControlFlowCosts, OpcodeCosts};
pub use validator_config::{Motes, ValidatorConfig};
pub use system_config::{
    AuctionCosts, HandlePaymentCosts, MintCosts, StandardPaymentCosts, SystemConfig,
};

use crate::bytesrepr::{
    append_word, encoding, from_le_bytes, le_bytes, lemma_concat_subrange, lemma_encode_words_concat, lemma_encode_words_empty, lemma_encode_words_index, lemma_encode_words_subrange, lemma_encoding_len, lemma_encoding_of_parse, lemma_le_bytes_of, lemma_parsed_complete, lemma_parsed_short, lemma_read_step, lemma_subrange_all, lemma_subrange_join, lemma_subrange_of_prefix, parsed_as, read_word, u32_serialized_length, Error, WordLayout,
};

verus! {

/// The name of the chainspec file on disk.
pub const CHAINSPEC_FILENAME: &'static str = "chainspec.toml";

/// Representation of argument's cost.
pub type Cost = u32;

/// Default cost of the `pay` standard payment entry point.
pub const DEFAULT_PAY_COST: u32 = 10_000;
/// An arbitrary default fixed cost for host functions that were not researched
/// yet.
pub const DEFAULT_FIXED_COST: u32 = 200;
/// Default cost of the `mint` mint entry point.
pub const DEFAULT_MINT_COST: u32 = 2_500_000_000;
/// Default cost of the `reduce_total_supply` mint entry point.
pub const DEFAULT_REDUCE_TOTAL_SUPPLY_COST: u32 = 10_000;
/// Default cost of the `create` mint entry point.
pub const DEFAULT_CREATE_COST: u32 = 2_500_000_000;
/// Default cost of the `balance` mint entry point.
pub const DEFAULT_BALANCE_COST: u32 = 10_000;
/// Default cost of the `transfer` mint entry point.
pub const DEFAULT_TRANSFER_COST: u32 = 10_000;
/// Default cost of the `read_base_round_reward` mint entry point.
pub const DEFAULT_READ_BASE_ROUND_REWARD_COST: u32 = 10_000;
/// Default cost of the `mint_into_existing_purse` mint entry point.
pub const DEFAULT_MINT_INTO_EXISTING_PURSE_COST: u32 = 2_500_000_000;
/// Default cost of the `get_era_validators` auction entry point.
pub const DEFAULT_GET_ERA_VALIDATORS_COST: u32 = 10_000;
/// Default cost of the `read_seigniorage_recipients` auction entry point.
pub const DEFAULT_READ_SEIGNIORAGE_RECIPIENTS_COST: u32 = 10_000;
/// Default cost of the `add_bid` auction entry point.
pub const DEFAULT_ADD_BID_COST: u32 = 2_500_000_000;
/// Default cost of the `withdraw_bid` auction entry point.
pub const DEFAULT_WITHDRAW_BID_COST: u32 = 2_500_000_000;
/// Default cost of the `delegate` auction entry point.
pub const DEFAULT_DELEGATE_COST: u32 = 2_500_000_000;
/// Default cost of the `redelegate` auction entry point.
pub const DEFAULT_REDELEGATE_COST: u32 = 2_500_000_000;
/// Default cost of the `undelegate` auction entry point.
pub const DEFAULT_UNDELEGATE_COST: u32 = 2_500_000_000;
/// Default cost of the `run_auction` auction entry point.
pub const DEFAULT_RUN_AUCTION_COST: u32 = 10_000;
/// Default cost of the `slash` auction entry point.
pub const DEFAULT_SLASH_COST: u32 = 10_000;
/// Default cost of the `distribute` auction entry point.
pub const DEFAULT_DISTRIBUTE_COST: u32 = 10_000;
/// Default cost of the `withdraw_delegator_reward` auction entry point.
pub const DEFAULT_WITHDRAW_DELEGATOR_REWARD_COST: u32 = 10_000;
/// Default cost of the `withdraw_validator_reward` auction entry point.
pub const DEFAULT_WITHDRAW_VALIDATOR_REWARD_COST: u32 = 10_000;
/// Default cost of the `read_era_id` auction entry point.
pub const DEFAULT_READ_ERA_ID_COST: u32 = 10_000;
/// Default cost of the `activate_bid` auction entry point.
pub const DEFAULT_ACTIVATE_BID_COST: u32 = 10_000;
pub const DEFAULT_WRITE_COST: u32 = 14_000;
pub const DEFAULT_WRITE_VALUE_SIZE_WEIGHT: u32 = 980;
pub const DEFAULT_DICTIONARY_PUT_COST: u32 = 9_500;
pub const DEFAULT_DICTIONARY_PUT_KEY_BYTES_SIZE_WEIGHT: u32 = 1_800;
pub const DEFAULT_DICTIONARY_PUT_VALUE_SIZE_WEIGHT: u32 = 520;
pub const DEFAULT_ADD_COST: u32 = 5_800;
pub const DEFAULT_ADD_ASSOCIATED_KEY_COST: u32 = 9_000;
pub const DEFAULT_NEW_UREF_COST: u32 = 17_000;
pub const DEFAULT_NEW_UREF_VALUE_SIZE_WEIGHT: u32 = 590;
pub const DEFAULT_LOAD_NAMED_KEYS_COST: u32 = 42_000;
pub const DEFAULT_RET_COST: u32 = 23_000;
pub const DEFAULT_RET_VALUE_SIZE_WEIGHT: u32 = 420_000;
pub const DEFAULT_GET_KEY_COST: u32 = 2_000;
pub const DEFAULT_CREATE_PURSE_COST: u32 = 2_500_000_000;
pub const DEFAULT_GET_BALANCE_COST: u32 = 3_800;
pub const DEFAULT_GET_BLOCKTIME_COST: u32 = 330;
pub const DEFAULT_GET_CALLER_COST: u32 = 380;
pub const DEFAULT_GET_KEY_NAME_SIZE_WEIGHT: u32 = 440;
pub const DEFAULT_GET_MAIN_PURSE_COST: u32 = 1_300;
pub const DEFAULT_GET_PHASE_COST: u32 = 710;
pub const DEFAULT_GET_SYSTEM_CONTRACT_COST: u32 = 1_100;
pub const DEFAULT_HAS_KEY_COST: u32 = 1_500;
pub const DEFAULT_HAS_KEY_NAME_SIZE_WEIGHT: u32 = 840;
pub const DEFAULT_IS_VALID_UREF_COST: u32 = 760;
pub const DEFAULT_PUT_KEY_COST: u32 = 38_000;
pub const DEFAULT_PUT_KEY_NAME_SIZE_WEIGHT: u32 = 1_100;
/// An identifier that represents an unused argument.
pub const NOT_USED: u32 = 0;
pub const DEFAULT_READ_VALUE_COST: u32 = 6_000;
pub const DEFAULT_DICTIONARY_GET_COST: u32 = 5_500;
pub const DEFAULT_DICTIONARY_GET_KEY_SIZE_WEIGHT: u32 = 590;
pub const DEFAULT_REMOVE_KEY_COST: u32 = 61_000;
pub const DEFAULT_REMOVE_KEY_NAME_SIZE_WEIGHT: u32 = 3_200;
pub const DEFAULT_REVERT_COST: u32 = 500;
pub const DEFAULT_SET_ACTION_THRESHOLD_COST: u32 = 74_000;
pub const DEFAULT_TRANSFER_FROM_PURSE_TO_ACCOUNT_COST: u32 = 2_500_000_000;
pub const DEFAULT_TRANSFER_FROM_PURSE_TO_PURSE_COST: u32 = 82_000;
pub const DEFAULT_TRANSFER_TO_ACCOUNT_COST: u32 = 2_500_000_000;
pub const DEFAULT_UPDATE_ASSOCIATED_KEY_COST: u32 = 4_200;
pub const DEFAULT_REMOVE_ASSOCIATED_KEY_COST: u32 = 4_200;
pub const DEFAULT_READ_HOST_BUFFER_COST: u32 = 3_500;
pub const DEFAULT_READ_HOST_BUFFER_DEST_SIZE_WEIGHT: u32 = 310;
pub const DEFAULT_CALL_CONTRACT_COST: u32 = 4_500;
pub const DEFAULT_CALL_CONTRACT_ARGS_SIZE_WEIGHT: u32 = 420;
pub const DEFAULT_PRINT_COST: u32 = 20_000;
pub const DEFAULT_PRINT_TEXT_SIZE_WEIGHT: u32 = 4_600;
/// Default cost of the `bit` Wasm opcode.
pub const DEFAULT_BIT_COST: u32 = 300;
/// Default cost of the `add` Wasm opcode.
pub const DEFAULT_WASM_ADD_COST: u32 = 210;
/// Default cost of the `mul` Wasm opcode.
pub const DEFAULT_MUL_COST: u32 = 240;
/// Default cost of the `div` Wasm opcode.
pub const DEFAULT_DIV_COST: u32 = 320;
/// Default cost of the `load` Wasm opcode.
pub const DEFAULT_LOAD_COST: u32 = 2_500;
/// Default cost of the `store` Wasm opcode.
pub const DEFAULT_STORE_COST: u32 = 4_700;
/// Default cost of the `const` Wasm opcode.
pub const DEFAULT_CONST_COST: u32 = 110;
/// Default cost of the `local` Wasm opcode.
pub const DEFAULT_LOCAL_COST: u32 = 390;
/// Default cost of the `global` Wasm opcode.
pub const DEFAULT_GLOBAL_COST: u32 = 390;
/// Default cost of the `integer_comparison` Wasm opcode.
pub const DEFAULT_INTEGER_COMPARISON_COST: u32 = 250;
/// Default cost of the `conversion` Wasm opcode.
pub const DEFAULT_CONVERSION_COST: u32 = 420;
/// Default cost of the `unreachable` Wasm opcode.
pub const DEFAULT_UNREACHABLE_COST: u32 = 270;
/// Default cost of the `nop` Wasm opcode.
// TODO: This value is not researched.
pub const DEFAULT_NOP_COST: u32 = 200;
/// Default cost of the `current_memory` Wasm opcode.
pub const DEFAULT_CURRENT_MEMORY_COST: u32 = 290;
/// Default cost of the `grow_memory` Wasm opcode.
pub const DEFAULT_GROW_MEMORY_COST: u32 = 240_000;
/// Default cost of the `block` Wasm opcode.
pub const DEFAULT_CONTROL_FLOW_BLOCK_OPCODE: u32 = 440;
/// Default cost of the `loop` Wasm opcode.
pub const DEFAULT_CONTROL_FLOW_LOOP_OPCODE: u32 = 440;
/// Default cost of the `if` Wasm opcode.
pub const DEFAULT_CONTROL_FLOW_IF_OPCODE: u32 = 440;
/// Default cost of the `else` Wasm opcode.
pub const DEFAULT_CONTROL_FLOW_ELSE_OPCODE: u32 = 440;
/// Default cost of the `end` Wasm opcode.
pub const DEFAULT_CONTROL_FLOW_END_OPCODE: u32 = 440;
/// Default cost of the `br` Wasm opcode.
pub const DEFAULT_CONTROL_FLOW_BR_OPCODE: u32 = 440_000;
/// Default cost of the `br_if` Wasm opcode.
pub const DEFAULT_CONTROL_FLOW_BR_IF_OPCODE: u32 = 440_000;
/// Default cost of the `return` Wasm opcode.
pub const DEFAULT_CONTROL_FLOW_RETURN_OPCODE: u32 = 440;
/// Default cost of the `select` Wasm opcode.
pub const DEFAULT_CONTROL_FLOW_SELECT_OPCODE: u32 = 440;
/// Default cost of the `call` Wasm opcode.
pub const DEFAULT_CONTROL_FLOW_CALL_OPCODE: u32 = 140_000;
/// Default cost of the `call_indirect` Wasm opcode.
pub const DEFAULT_CONTROL_FLOW_CALL_INDIRECT_OPCODE: u32 = 140_000;
/// Default cost of the `drop` Wasm opcode.
pub const DEFAULT_CONTROL_FLOW_DROP_OPCODE: u32 = 440;
/// Default fixed cost of the `br_table` Wasm opcode.
pub const DEFAULT_CONTROL_FLOW_BR_TABLE_OPCODE: u32 = 440_000;
/// Default multiplier for the size of targets in `br_table` Wasm opcode.
pub const DEFAULT_CONTROL_FLOW_BR_TABLE_MULTIPLIER: u32 = 100;
/// Default maximum number of pages of the Wasm memory.
pub const DEFAULT_WASM_MAX_MEMORY: u32 = 64;
/// Default maximum stack height.
pub const DEFAULT_MAX_STACK_HEIGHT: u32 = 500;
/// Default gas cost per byte stored.
pub const DEFAULT_GAS_PER_BYTE_COST: u32 = 630_000;
/// Default cost of the `get_payment_purse` `handle_payment` entry point.
pub const DEFAULT_GET_PAYMENT_PURSE_COST: u32 = 10_000;
/// Default cost of the `set_refund_purse` `handle_payment` entry point.
pub const DEFAULT_SET_REFUND_PURSE_COST: u32 = 10_000;
/// Default cost of the `get_refund_purse` `handle_payment` entry point.
pub const DEFAULT_GET_REFUND_PURSE_COST: u32 = 10_000;
/// Default cost of the `finalize_payment` `handle_payment` entry point.
pub const DEFAULT_FINALIZE_PAYMENT_COST: u32 = 10_000;
/// Default gas cost for a wasmless transfer.
pub const DEFAULT_WASMLESS_TRANSFER_COST: u32 = 100_000_000;

/// Configuration of the Wasm execution environment.
///
/// This structure contains various Wasm execution configuration options, such
/// as memory limits, stack limits and costs.
#[derive(Clone, Copy, Debug, PartialEq, Eq)]
pub struct WasmConfig {
    /// Maximum amount of heap memory (represented in 64kB pages) each contract
    /// can use.
    pub max_memory: u32,
    /// Max stack height (native WebAssembly stack limiter).
    pub max_stack_height: u32,
    /// Wasm opcode costs table.
    opcode_costs: OpcodeCosts,
    /// Storage costs.
    storage_costs: StorageCosts,
    /// Host function costs table.
    host_function_costs: HostFunctionCosts,
}

impl WasmConfig {
    /// The maximum amount of heap memory, in 64kB pages.
    pub closed spec fn spec_max_memory(&self) -> u32 {
        self.max_memory
    }

    /// The maximum stack height.
    pub closed spec fn spec_max_stack_height(&self) -> u32 {
        self.max_stack_height
    }

    /// The Wasm opcode costs table.
    pub closed spec fn spec_opcode_costs(&self) -> OpcodeCosts {
        self.opcode_costs
    }

    /// The storage costs.
    pub closed spec fn spec_storage_costs(&self) -> StorageCosts {
        self.storage_costs
    }

    /// The host function costs table.
    pub closed spec fn spec_host_function_costs(&self) -> HostFunctionCosts {
        self.host_function_costs
    }

    /// The Wasm config has exactly these parts.
    pub open spec fn has(
        &self,
        max_memory: u32,
        max_stack_height: u32,
        opcode_costs: OpcodeCosts,
        storage_costs: StorageCosts,
        host_function_costs: HostFunctionCosts,
    ) -> bool {
        &&& self.spec_max_memory() == max_memory
        &&& self.spec_max_stack_height() == max_stack_height
        &&& self.spec_opcode_costs() == opcode_costs
        &&& self.spec_storage_costs() == storage_costs
        &&& self.spec_host_function_costs() == host_function_costs
    }

    /// Creates new Wasm config.
    pub fn new(
        max_memory: u32,
        max_stack_height: u32,
        opcode_costs: OpcodeCosts,
        storage_costs: StorageCosts,
        host_function_costs: HostFunctionCosts,
    ) -> (r: Self)
        ensures
            r.has(max_memory, max_stack_height, opcode_costs, storage_costs, host_function_costs),
    {
        Self { max_memory, max_stack_height, opcode_costs, storage_costs, host_function_costs }
    }

    /// Returns opcode costs.
    pub fn opcode_costs(&self) -> (r: OpcodeCosts)
        ensures
            r == self.spec_opcode_costs(),
    {
        self.opcode_costs
    }

    /// Returns storage costs.
    pub fn storage_costs(&self) -> (r: StorageCosts)
        ensures
            r == self.spec_storage_costs(),
    {
        self.storage_costs
    }

    /// Returns host function costs and consumes this object.
    pub fn take_host_function_costs(self) -> (r: HostFunctionCosts)
        ensures
            r == self.spec_host_function_costs(),
    {
        self.host_function_costs
    }

    /// This is the default Wasm config.
    pub open spec fn is_default_config(&self) -> bool {
        &&& self.spec_max_memory() == DEFAULT_WASM_MAX_MEMORY
        &&& self.spec_max_stack_height() == DEFAULT_MAX_STACK_HEIGHT
        &&& self.spec_opcode_costs() == OpcodeCosts::spec_default()
        &&& self.spec_storage_costs().spec_gas_per_byte() == DEFAULT_GAS_PER_BYTE_COST
        &&& self.spec_host_function_costs().is_default_table()
    }

    /// Serializes the value in the `bytesrepr` format: its words in order,
    /// each as four little-endian bytes.
    pub fn to_bytes(&self) -> (r: Result<Vec<u8>, Error>)
        ensures
            r is Ok,
            r->Ok_0@ == encoding(*self),
    {
        let mut ret = Vec::with_capacity(self.serialized_length());
        let ghost mut ws = Seq::<u32>::empty();
        proof { lemma_encode_words_empty(); }
        append_word(&mut ret, self.max_memory, Ghost(ws));
        proof { ws = ws.push(self.max_memory); }
        append_word(&mut ret, self.max_stack_height, Ghost(ws));
        proof { ws = ws.push(self.max_stack_height); }
        let mut opcode_costs_bytes = match self.opcode_costs.to_bytes() {
            Ok(bytes) => bytes,
            Err(e) => return Err(e),
        };
        proof { lemma_encode_words_concat(ws, self.opcode_costs.words()); }
        ret.append(&mut opcode_costs_bytes);
        proof { ws = ws + self.opcode_costs.words(); }
        let mut storage_costs_bytes = match self.storage_costs.to_bytes() {
            Ok(bytes) => bytes,
            Err(e) => return Err(e),
        };
        proof { lemma_encode_words_concat(ws, self.storage_costs.words()); }
        ret.append(&mut storage_costs_bytes);
        proof { ws = ws + self.storage_costs.words(); }
        let mut host_function_costs_bytes = match self.host_function_costs.to_bytes() {
            Ok(bytes) => bytes,
            Err(e) => return Err(e),
        };
        proof { lemma_encode_words_concat(ws, self.host_function_costs.words()); }
        ret.append(&mut host_function_costs_bytes);
        proof { ws = ws + self.host_function_costs.words(); }
        Ok(ret)
    }

    /// The length of the serialized value in bytes.
    pub fn serialized_length(&self) -> (r: usize)
        ensures
            r == encoding(*self).len(),
            r == 960,
    {
        proof {
            lemma_encoding_len(*self);
            lemma_encoding_len(self.opcode_costs);
            lemma_encoding_len(self.storage_costs);
            lemma_encoding_len(self.host_function_costs);
        }
        u32_serialized_length(&self.max_memory)
            + u32_serialized_length(&self.max_stack_height)
            + self.opcode_costs.serialized_length()
            + self.storage_costs.serialized_length()
            + self.host_function_costs.serialized_length()
    }

    /// Deserializes a value from the front of `bytes`, handing back the rest.
    pub fn from_bytes(bytes: &[u8]) -> (r: Result<(WasmConfig, &[u8]), Error>)
        ensures
            parsed_as::<WasmConfig>(bytes@, r),
    {
        let ghost whole = bytes@;
        let ghost mut ws = Seq::<u32>::empty();
        proof {
            lemma_encode_words_empty();
            assert(whole.take(0) =~= Seq::<u8>::empty());
            assert(whole.skip(0) =~= whole);
        }
        let rem = bytes;
        let (max_memory, rem) = match read_word(rem, Ghost(whole), Ghost(ws)) {
            Ok(pair) => pair,
            Err(e) => {
                proof { lemma_parsed_short::<WasmConfig>(whole, Err(e)); }
                return Err(e);
            },
        };
        proof { ws = ws.push(max_memory); }
        let (max_stack_height, rem) = match read_word(rem, Ghost(whole), Ghost(ws)) {
            Ok(pair) => pair,
            Err(e) => {
                proof { lemma_parsed_short::<WasmConfig>(whole, Err(e)); }
                return Err(e);
            },
        };
        proof { ws = ws.push(max_stack_height); }
        let read = OpcodeCosts::from_bytes(rem);
        proof { lemma_read_step::<OpcodeCosts>(whole, ws, rem@, read); }
        let (opcode_costs, rem) = match read {
            Ok(pair) => pair,
            Err(e) => {
                proof { lemma_parsed_short::<WasmConfig>(whole, Err(e)); }
                return Err(e);
            },
        };
        proof {
            ws = ws + opcode_costs.words();
            assert(ws.len() == 31);
        }
        let read = StorageCosts::from_bytes(rem);
        proof { lemma_read_step::<StorageCosts>(whole, ws, rem@, read); }
        let (storage_costs, rem) = match read {
            Ok(pair) => pair,
            Err(e) => {
                proof { lemma_parsed_short::<WasmConfig>(whole, Err(e)); }
                return Err(e);
            },
        };
        proof {
            ws = ws + storage_costs.words();
            assert(ws.len() == 32);
        }
        let read = HostFunctionCosts::from_bytes(rem);
        proof { lemma_read_step::<HostFunctionCosts>(whole, ws, rem@, read); }
        let (host_function_costs, rem) = match read {
            Ok(pair) => pair,
            Err(e) => {
                proof { lemma_parsed_short::<WasmConfig>(whole, Err(e)); }
                return Err(e);
            },
        };
        proof {
            ws = ws + host_function_costs.words();
            assert(ws.len() == 240);
        }
        let value = WasmConfig { max_memory, max_stack_height, opcode_costs, storage_costs, host_function_costs };
        proof { lemma_parsed_complete(whole, value, rem); }
        Ok((value, rem))
    }
}

impl Default for WasmConfig {
    fn default() -> (r: Self)
        ensures
            r.is_default_config(),
    {
        Self {
            max_memory: DEFAULT_WASM_MAX_MEMORY,
            max_stack_height: DEFAULT_MAX_STACK_HEIGHT,
            opcode_costs: OpcodeCosts::default(),
            storage_costs: StorageCosts::default(),
            host_function_costs: HostFunctionCosts::default(),
        }
    }
}

impl WordLayout for WasmConfig {
    open spec fn words(&self) -> Seq<u32> {
        Seq::<u32>::empty()
            .push(self.spec_max_memory())
            .push(self.spec_max_stack_height())
            + self.spec_opcode_costs().words()
            + self.spec_storage_costs().words()
            + self.spec_host_function_costs().words()
    }

    closed spec fn from_words(ws: Seq<u32>) -> Self {
        WasmConfig {
            max_memory: ws[0],
            max_stack_height: ws[1],
            opcode_costs: OpcodeCosts::from_words(ws.subrange(2, 31)),
            storage_costs: StorageCosts::from_words(ws.subrange(31, 32)),
            host_function_costs: HostFunctionCosts::from_words(ws.subrange(32, 240)),
        }
    }

    open spec fn word_count() -> nat {
        240
    }

    proof fn lemma_words(&self) {
        self.opcode_costs.lemma_words();
        self.storage_costs.lemma_words();
        self.host_function_costs.lemma_words();
        let s = self.words();
        lemma_subrange_all(s);
        let scalars = Seq::<u32>::empty()
            .push(self.max_memory)
            .push(self.max_stack_height);
        let prefix0 = scalars + self.opcode_costs.words();
        let prefix1 = prefix0 + self.storage_costs.words();
        lemma_concat_subrange(prefix1, self.host_function_costs.words());
        lemma_subrange_of_prefix(s, 32, 240, 240);
        lemma_subrange_of_prefix(s, 0, 32, 240);
        lemma_concat_subrange(prefix0, self.storage_costs.words());
        lemma_subrange_of_prefix(s, 31, 32, 32);
        lemma_subrange_of_prefix(s, 0, 31, 32);
        lemma_concat_subrange(scalars, self.opcode_costs.words());
        lemma_subrange_of_prefix(s, 2, 31, 31);
        lemma_subrange_of_prefix(s, 0, 2, 31);
    }

    proof fn lemma_from_words(ws: Seq<u32>) {
        OpcodeCosts::lemma_from_words(ws.subrange(2, 31));
        StorageCosts::lemma_from_words(ws.subrange(31, 32));
        HostFunctionCosts::lemma_from_words(ws.subrange(32, 240));
        assert(Self::from_words(ws).words().subrange(0, 2) =~= ws.subrange(0, 2));
        lemma_subrange_join(ws, 0, 2, 31);
        lemma_subrange_join(ws, 0, 31, 32);
        lemma_subrange_join(ws, 0, 32, 240);
        lemma_subrange_all(ws);
        assert(Self::from_words(ws).words() =~= ws);
    }
}

/// Represents a cost table for storage costs.
#[derive(Clone, Copy, Debug, PartialEq, Eq)]
pub struct StorageCosts {
    /// Gas charged per byte stored in the global state.
    gas_per_byte: u32,
}

impl StorageCosts {
    /// The gas charged per byte stored in the global state.
    pub closed spec fn spec_gas_per_byte(&self) -> u32 {
        self.gas_per_byte
    }

    /// Creates new `StorageCosts`.
    pub fn new(gas_per_byte: u32) -> (r: Self)
        ensures
            r.spec_gas_per_byte() == gas_per_byte,
    {
        Self { gas_per_byte }
    }

    /// Serializes the value in the `bytesrepr` format: its words in order,
    /// each as four little-endian bytes.
    pub fn to_bytes(&self) -> (r: Result<Vec<u8>, Error>)
        ensures
            r is Ok,
            r->Ok_0@ == encoding(*self),
    {
        let mut ret = Vec::with_capacity(self.serialized_length());
        let ghost mut ws = Seq::<u32>::empty();
        proof { lemma_encode_words_empty(); }
        append_word(&mut ret, self.gas_per_byte, Ghost(ws));
        proof { ws = ws.push(self.gas_per_byte); }
        Ok(ret)
    }

    /// The length of the serialized value in bytes.
    pub fn serialized_length(&self) -> (r: usize)
        ensures
            r == encoding(*self).len(),
            r == 4,
    {
        proof {
            lemma_encoding_len(*self);

        }
        u32_serialized_length(&self.gas_per_byte)
    }

    /// Deserializes a value from the front of `bytes`, handing back the rest.
    pub fn from_bytes(bytes: &[u8]) -> (r: Result<(StorageCosts, &[u8]), Error>)
        ensures
            parsed_as::<StorageCosts>(bytes@, r),
    {
        let ghost whole = bytes@;
        let ghost mut ws = Seq::<u32>::empty();
        proof {
            lemma_encode_words_empty();
            assert(whole.take(0) =~= Seq::<u8>::empty());
            assert(whole.skip(0) =~= whole);
        }
        let rem = bytes;
        let (gas_per_byte, rem) = match read_word(rem, Ghost(whole), Ghost(ws)) {
            Ok(pair) => pair,
            Err(e) => {
                proof { lemma_parsed_short::<StorageCosts>(whole, Err(e)); }
                return Err(e);
            },
        };
        proof { ws = ws.push(gas_per_byte); }
        let value = StorageCosts { gas_per_byte };
        proof { lemma_parsed_complete(whole, value, rem); }
        Ok((value, rem))
    }
}

impl Default for StorageCosts {
    fn default() -> (r: Self)
        ensures
            r.spec_gas_per_byte() == DEFAULT_GAS_PER_BYTE_COST,
            r.spec_gas_per_byte() == 630_000,
    {
        Self { gas_per_byte: DEFAULT_GAS_PER_BYTE_COST }
    }
}

impl WordLayout for StorageCosts {
    open spec fn words(&self) -> Seq<u32> {
        Seq::<u32>::empty().push(self.spec_gas_per_byte())
    }

    closed spec fn from_words(ws: Seq<u32>) -> Self {
        StorageCosts {
            gas_per_byte: ws[0],
        }
    }

    open spec fn word_count() -> nat {
        1
    }

    proof fn lemma_words(&self) {

    }

    proof fn lemma_from_words(ws: Seq<u32>) {
        assert(Self::from_words(ws).words() =~= ws);
    }
}



/// The encoding of a StorageCosts is its fields in the order they are written, each `u32` as its four little-endian bytes and each table as its own encoding: 1 words.
pub proof fn lemma_storage_costs_layout(c: StorageCosts)
    ensures
        encoding(c).len() == 4,
        encoding(c).subrange(0, 4) == le_bytes(c.spec_gas_per_byte()),
{
    c.lemma_words();
    lemma_encoding_len(c);
    let ws = c.words();
    lemma_encode_words_index(ws, 0);
}

/// A read of the table takes its fields from the front of `bytes` in the
/// order they are written, each `u32` from its four little-endian bytes, and
/// leaves the rest.
pub proof fn lemma_storage_costs_read(bytes: Seq<u8>, r: Result<(StorageCosts, &[u8]), Error>)
    requires
        parsed_as::<StorageCosts>(bytes, r),
        r is Ok,
    ensures
        r->Ok_0.0.spec_gas_per_byte() == from_le_bytes(bytes.subrange(0, 4)),
        r->Ok_0.1@ == bytes.skip(4),
{
    reveal(parsed_as);
    let v = r->Ok_0.0;
    lemma_encoding_of_parse::<StorageCosts>(bytes);
    lemma_storage_costs_layout(v);
    let e = encoding(v);
    assert(bytes.take(4) =~= e);
    assert(bytes.subrange(0, 4) =~= e.subrange(0, 4));
    lemma_le_bytes_of(v.spec_gas_per_byte());
}

/// The encoding of a WasmConfig is its fields in the order they are written, each `u32` as its four little-endian bytes and each table as its own encoding: 240 words.
pub proof fn lemma_wasm_config_layout(c: WasmConfig)
    ensures
        encoding(c).len() == 960,
        encoding(c).subrange(0, 4) == le_bytes(c.spec_max_memory()),
        encoding(c).subrange(4, 8) == le_bytes(c.spec_max_stack_height()),
        encoding(c).subrange(8, 124) == encoding(c.spec_opcode_costs()),
        encoding(c).subrange(124, 128) == encoding(c.spec_storage_costs()),
        encoding(c).subrange(128, 960) == encoding(c.spec_host_function_costs()),
{
    c.lemma_words();
    lemma_encoding_len(c);
    let ws = c.words();
    lemma_encode_words_index(ws, 0);
    lemma_encode_words_index(ws, 1);
    OpcodeCosts::lemma_from_words(ws.subrange(2, 31));
    lemma_encode_words_subrange(ws, 2, 31);
    StorageCosts::lemma_from_words(ws.subrange(31, 32));
    lemma_encode_words_subrange(ws, 31, 32);
    HostFunctionCosts::lemma_from_words(ws.subrange(32, 240));
    lemma_encode_words_subrange(ws, 32, 240);
}

/// A read of the table takes its fields from the front of `bytes` in the
/// order they are written, each `u32` from its four little-endian bytes, and
/// leaves the rest.
pub proof fn lemma_wasm_config_read(bytes: Seq<u8>, r: Result<(WasmConfig, &[u8]), Error>)
    requires
        parsed_as::<WasmConfig>(bytes, r),
        r is Ok,
    ensures
        r->Ok_0.0.spec_max_memory() == from_le_bytes(bytes.subrange(0, 4)),
        r->Ok_0.0.spec_max_stack_height() == from_le_bytes(bytes.subrange(4, 8)),
        encoding(r->Ok_0.0.spec_opcode_costs()) == bytes.subrange(8, 124),
        encoding(r->Ok_0.0.spec_storage_costs()) == bytes.subrange(124, 128),
        encoding(r->Ok_0.0.spec_host_function_costs()) == bytes.subrange(128, 960),
        r->Ok_0.1@ == bytes.skip(960),
{
    reveal(parsed_as);
    let v = r->Ok_0.0;
    lemma_encoding_of_parse::<WasmConfig>(bytes);
    lemma_wasm_config_layout(v);
    let e = encoding(v);
    assert(bytes.take(960) =~= e);
    assert(bytes.subrange(0, 4) =~= e.subrange(0, 4));
    lemma_le_bytes_of(v.spec_max_memory());
    assert(bytes.subrange(4, 8) =~= e.subrange(4, 8));
    lemma_le_bytes_of(v.spec_max_stack_height());
    assert(bytes.subrange(8, 124) =~= e.subrange(8, 124));
    assert(bytes.subrange(124, 128) =~= e.subrange(124, 128));
    assert(bytes.subrange(128, 960) =~= e.subrange(128, 960));
}

/// A default WasmConfig holds the chainspec's default values.
pub proof fn lemma_wasm_config_default_values(c: WasmConfig)
    requires
        c.is_default_config(),
    ensures
        c.spec_max_memory() == 64,
        c.spec_max_stack_height() == 500,
        c.spec_opcode_costs() == OpcodeCosts::spec_default(),
        c.spec_storage_costs().spec_gas_per_byte() == 630_000,
        c.spec_host_function_costs().is_default_table(),
{
}

} // verus!
