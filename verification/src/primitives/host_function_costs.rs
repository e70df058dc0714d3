//! The table of the costs of calling each host function.

use vstd::prelude::*;

use super::host_function::HostFunction;
use super::{
    DEFAULT_ADD_ASSOCIATED_KEY_COST, DEFAULT_ADD_COST, DEFAULT_CALL_CONTRACT_ARGS_SIZE_WEIGHT,
    DEFAULT_CALL_CONTRACT_COST, DEFAULT_CREATE_PURSE_COST, DEFAULT_DICTIONARY_GET_COST,
    DEFAULT_DICTIONARY_GET_KEY_SIZE_WEIGHT, DEFAULT_DICTIONARY_PUT_COST,
    DEFAULT_DICTIONARY_PUT_KEY_BYTES_SIZE_WEIGHT, DEFAULT_DICTIONARY_PUT_VALUE_SIZE_WEIGHT,
    DEFAULT_FIXED_COST, DEFAULT_GET_BALANCE_COST, DEFAULT_GET_BLOCKTIME_COST,
    DEFAULT_GET_CALLER_COST, DEFAULT_GET_KEY_COST, DEFAULT_GET_KEY_NAME_SIZE_WEIGHT,
    DEFAULT_GET_MAIN_PURSE_COST, DEFAULT_GET_PHASE_COST, DEFAULT_GET_SYSTEM_CONTRACT_COST,
    DEFAULT_HAS_KEY_COST, DEFAULT_HAS_KEY_NAME_SIZE_WEIGHT, DEFAULT_IS_VALID_UREF_COST,
    DEFAULT_LOAD_NAMED_KEYS_COST, DEFAULT_NEW_UREF_COST, DEFAULT_NEW_UREF_VALUE_SIZE_WEIGHT,
    DEFAULT_PRINT_COST, DEFAULT_PRINT_TEXT_SIZE_WEIGHT, DEFAULT_PUT_KEY_COST,
    DEFAULT_PUT_KEY_NAME_SIZE_WEIGHT, DEFAULT_READ_HOST_BUFFER_COST,
    DEFAULT_READ_HOST_BUFFER_DEST_SIZE_WEIGHT, DEFAULT_READ_VALUE_COST,
    DEFAULT_REMOVE_ASSOCIATED_KEY_COST, DEFAULT_REMOVE_KEY_COST,
    DEFAULT_REMOVE_KEY_NAME_SIZE_WEIGHT, DEFAULT_RET_COST, DEFAULT_RET_VALUE_SIZE_WEIGHT,
    DEFAULT_REVERT_COST, DEFAULT_SET_ACTION_THRESHOLD_COST,
    DEFAULT_TRANSFER_FROM_PURSE_TO_ACCOUNT_COST, DEFAULT_TRANSFER_FROM_PURSE_TO_PURSE_COST,
    DEFAULT_TRANSFER_TO_ACCOUNT_COST, DEFAULT_UPDATE_ASSOCIATED_KEY_COST, DEFAULT_WRITE_COST,
    DEFAULT_WRITE_VALUE_SIZE_WEIGHT, NOT_USED,
};
use crate::bytesrepr::{
    encode_words, encoding, from_le_bytes, le_bytes, lemma_concat_subrange, lemma_encode_words_concat, lemma_encode_words_empty, lemma_encode_words_index, lemma_encode_words_subrange, lemma_encoding_len, lemma_encoding_of_parse, lemma_le_bytes_of, lemma_parsed_complete, lemma_parsed_short, lemma_read_step, lemma_subrange_all, lemma_subrange_join, lemma_subrange_of_prefix, parsed_as, Error, WordLayout,
};

verus! {

/// Definition of a host function cost table.
#[derive(Clone, Copy, Debug, PartialEq, Eq)]
pub struct HostFunctionCosts {
    /// Cost of calling the `read_value` host function.
    pub read_value: HostFunction<3>,
    /// Cost of calling the `dictionary_get` host function.
    pub dictionary_get: HostFunction<3>,
    /// Cost of calling the `write` host function.
    pub write: HostFunction<4>,
    /// Cost of calling the `dictionary_put` host function.
    pub dictionary_put: HostFunction<4>,
    /// Cost of calling the `add` host function.
    pub add: HostFunction<4>,
    /// Cost of calling the `new_uref` host function.
    pub new_uref: HostFunction<3>,
    /// Cost of calling the `load_named_keys` host function.
    pub load_named_keys: HostFunction<2>,
    /// Cost of calling the `ret` host function.
    pub ret: HostFunction<2>,
    /// Cost of calling the `get_key` host function.
    pub get_key: HostFunction<5>,
    /// Cost of calling the `has_key` host function.
    pub has_key: HostFunction<2>,
    /// Cost of calling the `put_key` host function.
    pub put_key: HostFunction<4>,
    /// Cost of calling the `remove_key` host function.
    pub remove_key: HostFunction<2>,
    /// Cost of calling the `revert` host function.
    pub revert: HostFunction<1>,
    /// Cost of calling the `is_valid_uref` host function.
    pub is_valid_uref: HostFunction<2>,
    /// Cost of calling the `add_associated_key` host function.
    pub add_associated_key: HostFunction<3>,
    /// Cost of calling the `remove_associated_key` host function.
    pub remove_associated_key: HostFunction<2>,
    /// Cost of calling the `update_associated_key` host function.
    pub update_associated_key: HostFunction<3>,
    /// Cost of calling the `set_action_threshold` host function.
    pub set_action_threshold: HostFunction<2>,
    /// Cost of calling the `get_caller` host function.
    pub get_caller: HostFunction<1>,
    /// Cost of calling the `get_blocktime` host function.
    pub get_blocktime: HostFunction<1>,
    /// Cost of calling the `create_purse` host function.
    pub create_purse: HostFunction<2>,
    /// Cost of calling the `transfer_to_account` host function.
    pub transfer_to_account: HostFunction<7>,
    /// Cost of calling the `transfer_from_purse_to_account` host function.
    pub transfer_from_purse_to_account: HostFunction<9>,
    /// Cost of calling the `transfer_from_purse_to_purse` host function.
    pub transfer_from_purse_to_purse: HostFunction<8>,
    /// Cost of calling the `get_balance` host function.
    pub get_balance: HostFunction<3>,
    /// Cost of calling the `get_phase` host function.
    pub get_phase: HostFunction<1>,
    /// Cost of calling the `get_system_contract` host function.
    pub get_system_contract: HostFunction<3>,
    /// Cost of calling the `get_main_purse` host function.
    pub get_main_purse: HostFunction<1>,
    /// Cost of calling the `read_host_buffer` host function.
    pub read_host_buffer: HostFunction<3>,
    /// Cost of calling the `create_contract_package_at_hash` host function.
    pub create_contract_package_at_hash: HostFunction<2>,
    /// Cost of calling the `create_contract_user_group` host function.
    pub create_contract_user_group: HostFunction<8>,
    /// Cost of calling the `add_contract_version` host function.
    pub add_contract_version: HostFunction<10>,
    /// Cost of calling the `disable_contract_version` host function.
    pub disable_contract_version: HostFunction<4>,
    /// Cost of calling the `call_contract` host function.
    pub call_contract: HostFunction<7>,
    /// Cost of calling the `call_versioned_contract` host function.
    pub call_versioned_contract: HostFunction<9>,
    /// Cost of calling the `get_named_arg_size` host function.
    pub get_named_arg_size: HostFunction<3>,
    /// Cost of calling the `get_named_arg` host function.
    pub get_named_arg: HostFunction<4>,
    /// Cost of calling the `remove_contract_user_group` host function.
    pub remove_contract_user_group: HostFunction<4>,
    /// Cost of calling the `provision_contract_user_group_uref` host function.
    pub provision_contract_user_group_uref: HostFunction<5>,
    /// Cost of calling the `remove_contract_user_group_urefs` host function.
    pub remove_contract_user_group_urefs: HostFunction<6>,
    /// Cost of calling the `print` host function.
    pub print: HostFunction<2>,
    /// Cost of calling the `blake2b` host function.
    pub blake2b: HostFunction<4>,
    /// Cost of calling the `next address` host function.
    pub random_bytes: HostFunction<2>,
    /// Cost of calling the `enable_contract_version` host function.
    pub enable_contract_version: HostFunction<4>,
}

impl HostFunctionCosts {
    /// This is the default host function cost table: every entry has the
    /// default call cost and argument weights of the chainspec.
    pub open spec fn is_default_table(&self) -> bool {
        &&& self.read_value.is_fixed(DEFAULT_READ_VALUE_COST)
        &&& self.dictionary_get.has(DEFAULT_DICTIONARY_GET_COST, seq![NOT_USED, DEFAULT_DICTIONARY_GET_KEY_SIZE_WEIGHT, NOT_USED])
        &&& self.write.has(DEFAULT_WRITE_COST, seq![NOT_USED, NOT_USED, NOT_USED, DEFAULT_WRITE_VALUE_SIZE_WEIGHT])
        &&& self.dictionary_put.has(DEFAULT_DICTIONARY_PUT_COST, seq![NOT_USED, DEFAULT_DICTIONARY_PUT_KEY_BYTES_SIZE_WEIGHT, NOT_USED, DEFAULT_DICTIONARY_PUT_VALUE_SIZE_WEIGHT])
        &&& self.add.is_fixed(DEFAULT_ADD_COST)
        &&& self.new_uref.has(DEFAULT_NEW_UREF_COST, seq![NOT_USED, NOT_USED, DEFAULT_NEW_UREF_VALUE_SIZE_WEIGHT])
        &&& self.load_named_keys.is_fixed(DEFAULT_LOAD_NAMED_KEYS_COST)
        &&& self.ret.has(DEFAULT_RET_COST, seq![NOT_USED, DEFAULT_RET_VALUE_SIZE_WEIGHT])
        &&& self.get_key.has(DEFAULT_GET_KEY_COST, seq![NOT_USED, DEFAULT_GET_KEY_NAME_SIZE_WEIGHT, NOT_USED, NOT_USED, NOT_USED])
        &&& self.has_key.has(DEFAULT_HAS_KEY_COST, seq![NOT_USED, DEFAULT_HAS_KEY_NAME_SIZE_WEIGHT])
        &&& self.put_key.has(DEFAULT_PUT_KEY_COST, seq![NOT_USED, DEFAULT_PUT_KEY_NAME_SIZE_WEIGHT, NOT_USED, NOT_USED])
        &&& self.remove_key.has(DEFAULT_REMOVE_KEY_COST, seq![NOT_USED, DEFAULT_REMOVE_KEY_NAME_SIZE_WEIGHT])
        &&& self.revert.is_fixed(DEFAULT_REVERT_COST)
        &&& self.is_valid_uref.is_fixed(DEFAULT_IS_VALID_UREF_COST)
        &&& self.add_associated_key.is_fixed(DEFAULT_ADD_ASSOCIATED_KEY_COST)
        &&& self.remove_associated_key.is_fixed(DEFAULT_REMOVE_ASSOCIATED_KEY_COST)
        &&& self.update_associated_key.is_fixed(DEFAULT_UPDATE_ASSOCIATED_KEY_COST)
        &&& self.set_action_threshold.is_fixed(DEFAULT_SET_ACTION_THRESHOLD_COST)
        &&& self.get_caller.is_fixed(DEFAULT_GET_CALLER_COST)
        &&& self.get_blocktime.is_fixed(DEFAULT_GET_BLOCKTIME_COST)
        &&& self.create_purse.is_fixed(DEFAULT_CREATE_PURSE_COST)
        &&& self.transfer_to_account.is_fixed(DEFAULT_TRANSFER_TO_ACCOUNT_COST)
        &&& self.transfer_from_purse_to_account.is_fixed(DEFAULT_TRANSFER_FROM_PURSE_TO_ACCOUNT_COST,)
        &&& self.transfer_from_purse_to_purse.is_fixed(DEFAULT_TRANSFER_FROM_PURSE_TO_PURSE_COST,)
        &&& self.get_balance.is_fixed(DEFAULT_GET_BALANCE_COST)
        &&& self.get_phase.is_fixed(DEFAULT_GET_PHASE_COST)
        &&& self.get_system_contract.is_fixed(DEFAULT_GET_SYSTEM_CONTRACT_COST)
        &&& self.get_main_purse.is_fixed(DEFAULT_GET_MAIN_PURSE_COST)
        &&& self.read_host_buffer.has(DEFAULT_READ_HOST_BUFFER_COST, seq![NOT_USED, DEFAULT_READ_HOST_BUFFER_DEST_SIZE_WEIGHT, NOT_USED])
        &&& self.create_contract_package_at_hash.is_fixed(DEFAULT_FIXED_COST)
        &&& self.create_contract_user_group.is_fixed(DEFAULT_FIXED_COST)
        &&& self.add_contract_version.is_fixed(DEFAULT_FIXED_COST)
        &&& self.disable_contract_version.is_fixed(DEFAULT_FIXED_COST)
        &&& self.call_contract.has(DEFAULT_CALL_CONTRACT_COST, seq![NOT_USED, NOT_USED, NOT_USED, NOT_USED, NOT_USED, DEFAULT_CALL_CONTRACT_ARGS_SIZE_WEIGHT, NOT_USED])
        &&& self.call_versioned_contract.has(DEFAULT_CALL_CONTRACT_COST, seq![NOT_USED, NOT_USED, NOT_USED, NOT_USED, NOT_USED, NOT_USED, NOT_USED, DEFAULT_CALL_CONTRACT_ARGS_SIZE_WEIGHT, NOT_USED])
        &&& self.get_named_arg_size.is_fixed(DEFAULT_FIXED_COST)
        &&& self.get_named_arg.is_fixed(DEFAULT_FIXED_COST)
        &&& self.remove_contract_user_group.is_fixed(DEFAULT_FIXED_COST)
        &&& self.provision_contract_user_group_uref.is_fixed(DEFAULT_FIXED_COST)
        &&& self.remove_contract_user_group_urefs.is_fixed(DEFAULT_FIXED_COST)
        &&& self.print.has(DEFAULT_PRINT_COST, seq![NOT_USED, DEFAULT_PRINT_TEXT_SIZE_WEIGHT])
        &&& self.blake2b.is_fixed(DEFAULT_FIXED_COST)
        &&& self.random_bytes.is_fixed(DEFAULT_FIXED_COST)
        &&& self.enable_contract_version.is_fixed(DEFAULT_FIXED_COST)
    }

    /// Serializes the value in the `bytesrepr` format: its words in order,
    /// each as four little-endian bytes.
    pub fn to_bytes(&self) -> (r: Result<Vec<u8>, Error>)
        ensures
            r is Ok,
            r->Ok_0@ == encoding(*self),
    {
        let mut ret = Vec::with_capacity(self.serialized_length());
        let ghost mut ws = Seq::<u32>::empty();
        proof { lemma_encode_words_empty(); }
        let mut read_value_bytes = match self.read_value.to_bytes() {
            Ok(bytes) => bytes,
            Err(e) => return Err(e),
        };
        proof { lemma_encode_words_concat(ws, self.read_value.words()); }
        ret.append(&mut read_value_bytes);
        proof { assert(ws + self.read_value.words() =~= self.read_value.words()); ws = self.read_value.words(); }
        let mut dictionary_get_bytes = match self.dictionary_get.to_bytes() {
            Ok(bytes) => bytes,
            Err(e) => return Err(e),
        };
        proof { lemma_encode_words_concat(ws, self.dictionary_get.words()); }
        ret.append(&mut dictionary_get_bytes);
        proof { ws = ws + self.dictionary_get.words(); }
        let mut write_bytes = match self.write.to_bytes() {
            Ok(bytes) => bytes,
            Err(e) => return Err(e),
        };
        proof { lemma_encode_words_concat(ws, self.write.words()); }
        ret.append(&mut write_bytes);
        proof { ws = ws + self.write.words(); }
        let mut dictionary_put_bytes = match self.dictionary_put.to_bytes() {
            Ok(bytes) => bytes,
            Err(e) => return Err(e),
        };
        proof { lemma_encode_words_concat(ws, self.dictionary_put.words()); }
        ret.append(&mut dictionary_put_bytes);
        proof { ws = ws + self.dictionary_put.words(); }
        let mut add_bytes = match self.add.to_bytes() {
            Ok(bytes) => bytes,
            Err(e) => return Err(e),
        };
        proof { lemma_encode_words_concat(ws, self.add.words()); }
        ret.append(&mut add_bytes);
        proof { ws = ws + self.add.words(); }
        let mut new_uref_bytes = match self.new_uref.to_bytes() {
            Ok(bytes) => bytes,
            Err(e) => return Err(e),
        };
        proof { lemma_encode_words_concat(ws, self.new_uref.words()); }
        ret.append(&mut new_uref_bytes);
        proof { ws = ws + self.new_uref.words(); }
        let mut load_named_keys_bytes = match self.load_named_keys.to_bytes() {
            Ok(bytes) => bytes,
            Err(e) => return Err(e),
        };
        proof { lemma_encode_words_concat(ws, self.load_named_keys.words()); }
        ret.append(&mut load_named_keys_bytes);
        proof { ws = ws + self.load_named_keys.words(); }
        let mut ret_bytes = match self.ret.to_bytes() {
            Ok(bytes) => bytes,
            Err(e) => return Err(e),
        };
        proof { lemma_encode_words_concat(ws, self.ret.words()); }
        ret.append(&mut ret_bytes);
        proof { ws = ws + self.ret.words(); }
        let mut get_key_bytes = match self.get_key.to_bytes() {
            Ok(bytes) => bytes,
            Err(e) => return Err(e),
        };
        proof { lemma_encode_words_concat(ws, self.get_key.words()); }
        ret.append(&mut get_key_bytes);
        proof { ws = ws + self.get_key.words(); }
        let mut has_key_bytes = match self.has_key.to_bytes() {
            Ok(bytes) => bytes,
            Err(e) => return Err(e),
        };
        proof { lemma_encode_words_concat(ws, self.has_key.words()); }
        ret.append(&mut has_key_bytes);
        proof { ws = ws + self.has_key.words(); }
        let mut put_key_bytes = match self.put_key.to_bytes() {
            Ok(bytes) => bytes,
            Err(e) => return Err(e),
        };
        proof { lemma_encode_words_concat(ws, self.put_key.words()); }
        ret.append(&mut put_key_bytes);
        proof { ws = ws + self.put_key.words(); }
        let mut remove_key_bytes = match self.remove_key.to_bytes() {
            Ok(bytes) => bytes,
            Err(e) => return Err(e),
        };
        proof { lemma_encode_words_concat(ws, self.remove_key.words()); }
        ret.append(&mut remove_key_bytes);
        proof { ws = ws + self.remove_key.words(); }
        let mut revert_bytes = match self.revert.to_bytes() {
            Ok(bytes) => bytes,
            Err(e) => return Err(e),
        };
        proof { lemma_encode_words_concat(ws, self.revert.words()); }
        ret.append(&mut revert_bytes);
        proof { ws = ws + self.revert.words(); }
        let mut is_valid_uref_bytes = match self.is_valid_uref.to_bytes() {
            Ok(bytes) => bytes,
            Err(e) => return Err(e),
        };
        proof { lemma_encode_words_concat(ws, self.is_valid_uref.words()); }
        ret.append(&mut is_valid_uref_bytes);
        proof { ws = ws + self.is_valid_uref.words(); }
        let mut add_associated_key_bytes = match self.add_associated_key.to_bytes() {
            Ok(bytes) => bytes,
            Err(e) => return Err(e),
        };
        proof { lemma_encode_words_concat(ws, self.add_associated_key.words()); }
        ret.append(&mut add_associated_key_bytes);
        proof { ws = ws + self.add_associated_key.words(); }
        let mut remove_associated_key_bytes = match self.remove_associated_key.to_bytes() {
            Ok(bytes) => bytes,
            Err(e) => return Err(e),
        };
        proof { lemma_encode_words_concat(ws, self.remove_associated_key.words()); }
        ret.append(&mut remove_associated_key_bytes);
        proof { ws = ws + self.remove_associated_key.words(); }
        let mut update_associated_key_bytes = match self.update_associated_key.to_bytes() {
            Ok(bytes) => bytes,
            Err(e) => return Err(e),
        };
        proof { lemma_encode_words_concat(ws, self.update_associated_key.words()); }
        ret.append(&mut update_associated_key_bytes);
        proof { ws = ws + self.update_associated_key.words(); }
        let mut set_action_threshold_bytes = match self.set_action_threshold.to_bytes() {
            Ok(bytes) => bytes,
            Err(e) => return Err(e),
        };
        proof { lemma_encode_words_concat(ws, self.set_action_threshold.words()); }
        ret.append(&mut set_action_threshold_bytes);
        proof { ws = ws + self.set_action_threshold.words(); }
        let mut get_caller_bytes = match self.get_caller.to_bytes() {
            Ok(bytes) => bytes,
            Err(e) => return Err(e),
        };
        proof { lemma_encode_words_concat(ws, self.get_caller.words()); }
        ret.append(&mut get_caller_bytes);
        proof { ws = ws + self.get_caller.words(); }
        let mut get_blocktime_bytes = match self.get_blocktime.to_bytes() {
            Ok(bytes) => bytes,
            Err(e) => return Err(e),
        };
        proof { lemma_encode_words_concat(ws, self.get_blocktime.words()); }
        ret.append(&mut get_blocktime_bytes);
        proof { ws = ws + self.get_blocktime.words(); }
        let mut create_purse_bytes = match self.create_purse.to_bytes() {
            Ok(bytes) => bytes,
            Err(e) => return Err(e),
        };
        proof { lemma_encode_words_concat(ws, self.create_purse.words()); }
        ret.append(&mut create_purse_bytes);
        proof { ws = ws + self.create_purse.words(); }
        let mut transfer_to_account_bytes = match self.transfer_to_account.to_bytes() {
            Ok(bytes) => bytes,
            Err(e) => return Err(e),
        };
        proof { lemma_encode_words_concat(ws, self.transfer_to_account.words()); }
        ret.append(&mut transfer_to_account_bytes);
        proof { ws = ws + self.transfer_to_account.words(); }
        let mut transfer_from_purse_to_account_bytes = match self.transfer_from_purse_to_account.to_bytes() {
            Ok(bytes) => bytes,
            Err(e) => return Err(e),
        };
        proof { lemma_encode_words_concat(ws, self.transfer_from_purse_to_account.words()); }
        ret.append(&mut transfer_from_purse_to_account_bytes);
        proof { ws = ws + self.transfer_from_purse_to_account.words(); }
        let mut transfer_from_purse_to_purse_bytes = match self.transfer_from_purse_to_purse.to_bytes() {
            Ok(bytes) => bytes,
            Err(e) => return Err(e),
        };
        proof { lemma_encode_words_concat(ws, self.transfer_from_purse_to_purse.words()); }
        ret.append(&mut transfer_from_purse_to_purse_bytes);
        proof { ws = ws + self.transfer_from_purse_to_purse.words(); }
        let mut get_balance_bytes = match self.get_balance.to_bytes() {
            Ok(bytes) => bytes,
            Err(e) => return Err(e),
        };
        proof { lemma_encode_words_concat(ws, self.get_balance.words()); }
        ret.append(&mut get_balance_bytes);
        proof { ws = ws + self.get_balance.words(); }
        let mut get_phase_bytes = match self.get_phase.to_bytes() {
            Ok(bytes) => bytes,
            Err(e) => return Err(e),
        };
        proof { lemma_encode_words_concat(ws, self.get_phase.words()); }
        ret.append(&mut get_phase_bytes);
        proof { ws = ws + self.get_phase.words(); }
        let mut get_system_contract_bytes = match self.get_system_contract.to_bytes() {
            Ok(bytes) => bytes,
            Err(e) => return Err(e),
        };
        proof { lemma_encode_words_concat(ws, self.get_system_contract.words()); }
        ret.append(&mut get_system_contract_bytes);
        proof { ws = ws + self.get_system_contract.words(); }
        let mut get_main_purse_bytes = match self.get_main_purse.to_bytes() {
            Ok(bytes) => bytes,
            Err(e) => return Err(e),
        };
        proof { lemma_encode_words_concat(ws, self.get_main_purse.words()); }
        ret.append(&mut get_main_purse_bytes);
        proof { ws = ws + self.get_main_purse.words(); }
        let mut read_host_buffer_bytes = match self.read_host_buffer.to_bytes() {
            Ok(bytes) => bytes,
            Err(e) => return Err(e),
        };
        proof { lemma_encode_words_concat(ws, self.read_host_buffer.words()); }
        ret.append(&mut read_host_buffer_bytes);
        proof { ws = ws + self.read_host_buffer.words(); }
        let mut create_contract_package_at_hash_bytes = match self.create_contract_package_at_hash.to_bytes() {
            Ok(bytes) => bytes,
            Err(e) => return Err(e),
        };
        proof { lemma_encode_words_concat(ws, self.create_contract_package_at_hash.words()); }
        ret.append(&mut create_contract_package_at_hash_bytes);
        proof { ws = ws + self.create_contract_package_at_hash.words(); }
        let mut create_contract_user_group_bytes = match self.create_contract_user_group.to_bytes() {
            Ok(bytes) => bytes,
            Err(e) => return Err(e),
        };
        proof { lemma_encode_words_concat(ws, self.create_contract_user_group.words()); }
        ret.append(&mut create_contract_user_group_bytes);
        proof { ws = ws + self.create_contract_user_group.words(); }
        let mut add_contract_version_bytes = match self.add_contract_version.to_bytes() {
            Ok(bytes) => bytes,
            Err(e) => return Err(e),
        };
        proof { lemma_encode_words_concat(ws, self.add_contract_version.words()); }
        ret.append(&mut add_contract_version_bytes);
        proof { ws = ws + self.add_contract_version.words(); }
        let mut disable_contract_version_bytes = match self.disable_contract_version.to_bytes() {
            Ok(bytes) => bytes,
            Err(e) => return Err(e),
        };
        proof { lemma_encode_words_concat(ws, self.disable_contract_version.words()); }
        ret.append(&mut disable_contract_version_bytes);
        proof { ws = ws + self.disable_contract_version.words(); }
        let mut call_contract_bytes = match self.call_contract.to_bytes() {
            Ok(bytes) => bytes,
            Err(e) => return Err(e),
        };
        proof { lemma_encode_words_concat(ws, self.call_contract.words()); }
        ret.append(&mut call_contract_bytes);
        proof { ws = ws + self.call_contract.words(); }
        let mut call_versioned_contract_bytes = match self.call_versioned_contract.to_bytes() {
            Ok(bytes) => bytes,
            Err(e) => return Err(e),
        };
        proof { lemma_encode_words_concat(ws, self.call_versioned_contract.words()); }
        ret.append(&mut call_versioned_contract_bytes);
        proof { ws = ws + self.call_versioned_contract.words(); }
        let mut get_named_arg_size_bytes = match self.get_named_arg_size.to_bytes() {
            Ok(bytes) => bytes,
            Err(e) => return Err(e),
        };
        proof { lemma_encode_words_concat(ws, self.get_named_arg_size.words()); }
        ret.append(&mut get_named_arg_size_bytes);
        proof { ws = ws + self.get_named_arg_size.words(); }
        let mut get_named_arg_bytes = match self.get_named_arg.to_bytes() {
            Ok(bytes) => bytes,
            Err(e) => return Err(e),
        };
        proof { lemma_encode_words_concat(ws, self.get_named_arg.words()); }
        ret.append(&mut get_named_arg_bytes);
        proof { ws = ws + self.get_named_arg.words(); }
        let mut remove_contract_user_group_bytes = match self.remove_contract_user_group.to_bytes() {
            Ok(bytes) => bytes,
            Err(e) => return Err(e),
        };
        proof { lemma_encode_words_concat(ws, self.remove_contract_user_group.words()); }
        ret.append(&mut remove_contract_user_group_bytes);
        proof { ws = ws + self.remove_contract_user_group.words(); }
        let mut provision_contract_user_group_uref_bytes = match self.provision_contract_user_group_uref.to_bytes() {
            Ok(bytes) => bytes,
            Err(e) => return Err(e),
        };
        proof { lemma_encode_words_concat(ws, self.provision_contract_user_group_uref.words()); }
        ret.append(&mut provision_contract_user_group_uref_bytes);
        proof { ws = ws + self.provision_contract_user_group_uref.words(); }
        let mut remove_contract_user_group_urefs_bytes = match self.remove_contract_user_group_urefs.to_bytes() {
            Ok(bytes) => bytes,
            Err(e) => return Err(e),
        };
        proof { lemma_encode_words_concat(ws, self.remove_contract_user_group_urefs.words()); }
        ret.append(&mut remove_contract_user_group_urefs_bytes);
        proof { ws = ws + self.remove_contract_user_group_urefs.words(); }
        let mut print_bytes = match self.print.to_bytes() {
            Ok(bytes) => bytes,
            Err(e) => return Err(e),
        };
        proof { lemma_encode_words_concat(ws, self.print.words()); }
        ret.append(&mut print_bytes);
        proof { ws = ws + self.print.words(); }
        let mut blake2b_bytes = match self.blake2b.to_bytes() {
            Ok(bytes) => bytes,
            Err(e) => return Err(e),
        };
        proof { lemma_encode_words_concat(ws, self.blake2b.words()); }
        ret.append(&mut blake2b_bytes);
        proof { ws = ws + self.blake2b.words(); }
        let mut random_bytes_bytes = match self.random_bytes.to_bytes() {
            Ok(bytes) => bytes,
            Err(e) => return Err(e),
        };
        proof { lemma_encode_words_concat(ws, self.random_bytes.words()); }
        ret.append(&mut random_bytes_bytes);
        proof { ws = ws + self.random_bytes.words(); }
        let mut enable_contract_version_bytes = match self.enable_contract_version.to_bytes() {
            Ok(bytes) => bytes,
            Err(e) => return Err(e),
        };
        proof { lemma_encode_words_concat(ws, self.enable_contract_version.words()); }
        ret.append(&mut enable_contract_version_bytes);
        proof { ws = ws + self.enable_contract_version.words(); }
        Ok(ret)
    }

    /// The length of the serialized value in bytes.
    pub fn serialized_length(&self) -> (r: usize)
        ensures
            r == encoding(*self).len(),
            r == 832,
    {
        proof {
            lemma_encoding_len(*self);
            lemma_encoding_len(self.read_value);
            lemma_encoding_len(self.dictionary_get);
            lemma_encoding_len(self.write);
            lemma_encoding_len(self.dictionary_put);
            lemma_encoding_len(self.add);
            lemma_encoding_len(self.new_uref);
            lemma_encoding_len(self.load_named_keys);
            lemma_encoding_len(self.ret);
            lemma_encoding_len(self.get_key);
            lemma_encoding_len(self.has_key);
            lemma_encoding_len(self.put_key);
            lemma_encoding_len(self.remove_key);
            lemma_encoding_len(self.revert);
            lemma_encoding_len(self.is_valid_uref);
            lemma_encoding_len(self.add_associated_key);
            lemma_encoding_len(self.remove_associated_key);
            lemma_encoding_len(self.update_associated_key);
            lemma_encoding_len(self.set_action_threshold);
            lemma_encoding_len(self.get_caller);
            lemma_encoding_len(self.get_blocktime);
            lemma_encoding_len(self.create_purse);
            lemma_encoding_len(self.transfer_to_account);
            lemma_encoding_len(self.transfer_from_purse_to_account);
            lemma_encoding_len(self.transfer_from_purse_to_purse);
            lemma_encoding_len(self.get_balance);
            lemma_encoding_len(self.get_phase);
            lemma_encoding_len(self.get_system_contract);
            lemma_encoding_len(self.get_main_purse);
            lemma_encoding_len(self.read_host_buffer);
            lemma_encoding_len(self.create_contract_package_at_hash);
            lemma_encoding_len(self.create_contract_user_group);
            lemma_encoding_len(self.add_contract_version);
            lemma_encoding_len(self.disable_contract_version);
            lemma_encoding_len(self.call_contract);
            lemma_encoding_len(self.call_versioned_contract);
            lemma_encoding_len(self.get_named_arg_size);
            lemma_encoding_len(self.get_named_arg);
            lemma_encoding_len(self.remove_contract_user_group);
            lemma_encoding_len(self.provision_contract_user_group_uref);
            lemma_encoding_len(self.remove_contract_user_group_urefs);
            lemma_encoding_len(self.print);
            lemma_encoding_len(self.blake2b);
            lemma_encoding_len(self.random_bytes);
            lemma_encoding_len(self.enable_contract_version);
        }
        self.read_value.serialized_length()
            + self.dictionary_get.serialized_length()
            + self.write.serialized_length()
            + self.dictionary_put.serialized_length()
            + self.add.serialized_length()
            + self.new_uref.serialized_length()
            + self.load_named_keys.serialized_length()
            + self.ret.serialized_length()
            + self.get_key.serialized_length()
            + self.has_key.serialized_length()
            + self.put_key.serialized_length()
            + self.remove_key.serialized_length()
            + self.revert.serialized_length()
            + self.is_valid_uref.serialized_length()
            + self.add_associated_key.serialized_length()
            + self.remove_associated_key.serialized_length()
            + self.update_associated_key.serialized_length()
            + self.set_action_threshold.serialized_length()
            + self.get_caller.serialized_length()
            + self.get_blocktime.serialized_length()
            + self.create_purse.serialized_length()
            + self.transfer_to_account.serialized_length()
            + self.transfer_from_purse_to_account.serialized_length()
            + self.transfer_from_purse_to_purse.serialized_length()
            + self.get_balance.serialized_length()
            + self.get_phase.serialized_length()
            + self.get_system_contract.serialized_length()
            + self.get_main_purse.serialized_length()
            + self.read_host_buffer.serialized_length()
            + self.create_contract_package_at_hash.serialized_length()
            + self.create_contract_user_group.serialized_length()
            + self.add_contract_version.serialized_length()
            + self.disable_contract_version.serialized_length()
            + self.call_contract.serialized_length()
            + self.call_versioned_contract.serialized_length()
            + self.get_named_arg_size.serialized_length()
            + self.get_named_arg.serialized_length()
            + self.remove_contract_user_group.serialized_length()
            + self.provision_contract_user_group_uref.serialized_length()
            + self.remove_contract_user_group_urefs.serialized_length()
            + self.print.serialized_length()
            + self.blake2b.serialized_length()
            + self.random_bytes.serialized_length()
            + self.enable_contract_version.serialized_length()
    }

    /// Reads the host function costs from `read_value` to `put_key` from `rem`,
    /// the front of `whole`.
    #[verifier::rlimit(40)]
    fn read_group_0<'a>(rem: &'a [u8], Ghost(whole): Ghost<Seq<u8>>) -> (r: Result<(HostFunction<3>, HostFunction<3>, HostFunction<4>, HostFunction<4>, HostFunction<4>, HostFunction<3>, HostFunction<2>, HostFunction<2>, HostFunction<5>, HostFunction<2>, HostFunction<4>, &'a [u8]), Error>)
        requires
            rem@ == whole,
        ensures
            r is Err ==> whole.len() < 4 * (0 + 47) && r->Err_0 == Error::EarlyEndOfStream,
            r is Ok ==> ({
                let k = 4 * (0 + 47) as int;
                &&& k <= whole.len()
                &&& encode_words(r->Ok_0.0.words() + r->Ok_0.1.words() + r->Ok_0.2.words() + r->Ok_0.3.words() + r->Ok_0.4.words() + r->Ok_0.5.words() + r->Ok_0.6.words() + r->Ok_0.7.words() + r->Ok_0.8.words() + r->Ok_0.9.words() + r->Ok_0.10.words()) == whole.take(k)
                &&& r->Ok_0.11@ == whole.skip(k)
                &&& r->Ok_0.0.words().len() == 4
                &&& r->Ok_0.1.words().len() == 4
                &&& r->Ok_0.2.words().len() == 5
                &&& r->Ok_0.3.words().len() == 5
                &&& r->Ok_0.4.words().len() == 5
                &&& r->Ok_0.5.words().len() == 4
                &&& r->Ok_0.6.words().len() == 3
                &&& r->Ok_0.7.words().len() == 3
                &&& r->Ok_0.8.words().len() == 6
                &&& r->Ok_0.9.words().len() == 3
                &&& r->Ok_0.10.words().len() == 5
            }),
    {
        let ghost mut ws = Seq::<u32>::empty();
        proof {
            lemma_encode_words_empty();
            assert(whole.take(0) =~= Seq::<u8>::empty());
            assert(whole.skip(0) =~= whole);
        }
        let read = HostFunction::<3>::from_bytes(rem);
        proof { lemma_read_step::<HostFunction::<3>>(whole, ws, rem@, read); }
        let (read_value, rem) = match read {
            Ok(pair) => pair,
            Err(e) => return Err(e),
        };
        proof { assert(ws + read_value.words() =~= read_value.words()); ws = read_value.words(); }
        let read = HostFunction::<3>::from_bytes(rem);
        proof { lemma_read_step::<HostFunction::<3>>(whole, ws, rem@, read); }
        let (dictionary_get, rem) = match read {
            Ok(pair) => pair,
            Err(e) => return Err(e),
        };
        proof { ws = ws + dictionary_get.words(); }
        let read = HostFunction::<4>::from_bytes(rem);
        proof { lemma_read_step::<HostFunction::<4>>(whole, ws, rem@, read); }
        let (write, rem) = match read {
            Ok(pair) => pair,
            Err(e) => return Err(e),
        };
        proof { ws = ws + write.words(); }
        let read = HostFunction::<4>::from_bytes(rem);
        proof { lemma_read_step::<HostFunction::<4>>(whole, ws, rem@, read); }
        let (dictionary_put, rem) = match read {
            Ok(pair) => pair,
            Err(e) => return Err(e),
        };
        proof { ws = ws + dictionary_put.words(); }
        let read = HostFunction::<4>::from_bytes(rem);
        proof { lemma_read_step::<HostFunction::<4>>(whole, ws, rem@, read); }
        let (add, rem) = match read {
            Ok(pair) => pair,
            Err(e) => return Err(e),
        };
        proof { ws = ws + add.words(); }
        let read = HostFunction::<3>::from_bytes(rem);
        proof { lemma_read_step::<HostFunction::<3>>(whole, ws, rem@, read); }
        let (new_uref, rem) = match read {
            Ok(pair) => pair,
            Err(e) => return Err(e),
        };
        proof { ws = ws + new_uref.words(); }
        let read = HostFunction::<2>::from_bytes(rem);
        proof { lemma_read_step::<HostFunction::<2>>(whole, ws, rem@, read); }
        let (load_named_keys, rem) = match read {
            Ok(pair) => pair,
            Err(e) => return Err(e),
        };
        proof { ws = ws + load_named_keys.words(); }
        let read = HostFunction::<2>::from_bytes(rem);
        proof { lemma_read_step::<HostFunction::<2>>(whole, ws, rem@, read); }
        let (ret, rem) = match read {
            Ok(pair) => pair,
            Err(e) => return Err(e),
        };
        proof { ws = ws + ret.words(); }
        let read = HostFunction::<5>::from_bytes(rem);
        proof { lemma_read_step::<HostFunction::<5>>(whole, ws, rem@, read); }
        let (get_key, rem) = match read {
            Ok(pair) => pair,
            Err(e) => return Err(e),
        };
        proof { ws = ws + get_key.words(); }
        let read = HostFunction::<2>::from_bytes(rem);
        proof { lemma_read_step::<HostFunction::<2>>(whole, ws, rem@, read); }
        let (has_key, rem) = match read {
            Ok(pair) => pair,
            Err(e) => return Err(e),
        };
        proof { ws = ws + has_key.words(); }
        let read = HostFunction::<4>::from_bytes(rem);
        proof { lemma_read_step::<HostFunction::<4>>(whole, ws, rem@, read); }
        let (put_key, rem) = match read {
            Ok(pair) => pair,
            Err(e) => return Err(e),
        };
        proof { ws = ws + put_key.words(); }
        Ok((read_value, dictionary_get, write, dictionary_put, add, new_uref, load_named_keys, ret, get_key, has_key, put_key, rem))
    }

    /// Reads the host function costs from `remove_key` to `transfer_to_account` from `rem`,
    /// what is left of `whole` after the words `ws`.
    #[verifier::rlimit(40)]
    fn read_group_1<'a>(rem: &'a [u8], Ghost(whole): Ghost<Seq<u8>>, Ghost(ws): Ghost<Seq<u32>>) -> (r: Result<(HostFunction<2>, HostFunction<1>, HostFunction<2>, HostFunction<3>, HostFunction<2>, HostFunction<3>, HostFunction<2>, HostFunction<1>, HostFunction<1>, HostFunction<2>, HostFunction<7>, &'a [u8]), Error>)
        requires
            4 * ws.len() <= whole.len(),
            rem@ == whole.skip(4 * (ws.len() as int)),
            encode_words(ws) == whole.take(4 * (ws.len() as int)),
        ensures
            r is Err ==> whole.len() < 4 * (ws.len() + 37) && r->Err_0 == Error::EarlyEndOfStream,
            r is Ok ==> ({
                let k = 4 * (ws.len() + 37) as int;
                &&& k <= whole.len()
                &&& encode_words(ws + r->Ok_0.0.words() + r->Ok_0.1.words() + r->Ok_0.2.words() + r->Ok_0.3.words() + r->Ok_0.4.words() + r->Ok_0.5.words() + r->Ok_0.6.words() + r->Ok_0.7.words() + r->Ok_0.8.words() + r->Ok_0.9.words() + r->Ok_0.10.words()) == whole.take(k)
                &&& r->Ok_0.11@ == whole.skip(k)
                &&& r->Ok_0.0.words().len() == 3
                &&& r->Ok_0.1.words().len() == 2
                &&& r->Ok_0.2.words().len() == 3
                &&& r->Ok_0.3.words().len() == 4
                &&& r->Ok_0.4.words().len() == 3
                &&& r->Ok_0.5.words().len() == 4
                &&& r->Ok_0.6.words().len() == 3
                &&& r->Ok_0.7.words().len() == 2
                &&& r->Ok_0.8.words().len() == 2
                &&& r->Ok_0.9.words().len() == 3
                &&& r->Ok_0.10.words().len() == 8
            }),
    {
        let ghost mut ws = ws;
        let read = HostFunction::<2>::from_bytes(rem);
        proof { lemma_read_step::<HostFunction::<2>>(whole, ws, rem@, read); }
        let (remove_key, rem) = match read {
            Ok(pair) => pair,
            Err(e) => return Err(e),
        };
        proof { ws = ws + remove_key.words(); }
        let read = HostFunction::<1>::from_bytes(rem);
        proof { lemma_read_step::<HostFunction::<1>>(whole, ws, rem@, read); }
        let (revert, rem) = match read {
            Ok(pair) => pair,
            Err(e) => return Err(e),
        };
        proof { ws = ws + revert.words(); }
        let read = HostFunction::<2>::from_bytes(rem);
        proof { lemma_read_step::<HostFunction::<2>>(whole, ws, rem@, read); }
        let (is_valid_uref, rem) = match read {
            Ok(pair) => pair,
            Err(e) => return Err(e),
        };
        proof { ws = ws + is_valid_uref.words(); }
        let read = HostFunction::<3>::from_bytes(rem);
        proof { lemma_read_step::<HostFunction::<3>>(whole, ws, rem@, read); }
        let (add_associated_key, rem) = match read {
            Ok(pair) => pair,
            Err(e) => return Err(e),
        };
        proof { ws = ws + add_associated_key.words(); }
        let read = HostFunction::<2>::from_bytes(rem);
        proof { lemma_read_step::<HostFunction::<2>>(whole, ws, rem@, read); }
        let (remove_associated_key, rem) = match read {
            Ok(pair) => pair,
            Err(e) => return Err(e),
        };
        proof { ws = ws + remove_associated_key.words(); }
        let read = HostFunction::<3>::from_bytes(rem);
        proof { lemma_read_step::<HostFunction::<3>>(whole, ws, rem@, read); }
        let (update_associated_key, rem) = match read {
            Ok(pair) => pair,
            Err(e) => return Err(e),
        };
        proof { ws = ws + update_associated_key.words(); }
        let read = HostFunction::<2>::from_bytes(rem);
        proof { lemma_read_step::<HostFunction::<2>>(whole, ws, rem@, read); }
        let (set_action_threshold, rem) = match read {
            Ok(pair) => pair,
            Err(e) => return Err(e),
        };
        proof { ws = ws + set_action_threshold.words(); }
        let read = HostFunction::<1>::from_bytes(rem);
        proof { lemma_read_step::<HostFunction::<1>>(whole, ws, rem@, read); }
        let (get_caller, rem) = match read {
            Ok(pair) => pair,
            Err(e) => return Err(e),
        };
        proof { ws = ws + get_caller.words(); }
        let read = HostFunction::<1>::from_bytes(rem);
        proof { lemma_read_step::<HostFunction::<1>>(whole, ws, rem@, read); }
        let (get_blocktime, rem) = match read {
            Ok(pair) => pair,
            Err(e) => return Err(e),
        };
        proof { ws = ws + get_blocktime.words(); }
        let read = HostFunction::<2>::from_bytes(rem);
        proof { lemma_read_step::<HostFunction::<2>>(whole, ws, rem@, read); }
        let (create_purse, rem) = match read {
            Ok(pair) => pair,
            Err(e) => return Err(e),
        };
        proof { ws = ws + create_purse.words(); }
        let read = HostFunction::<7>::from_bytes(rem);
        proof { lemma_read_step::<HostFunction::<7>>(whole, ws, rem@, read); }
        let (transfer_to_account, rem) = match read {
            Ok(pair) => pair,
            Err(e) => return Err(e),
        };
        proof { ws = ws + transfer_to_account.words(); }
        Ok((remove_key, revert, is_valid_uref, add_associated_key, remove_associated_key, update_associated_key, set_action_threshold, get_caller, get_blocktime, create_purse, transfer_to_account, rem))
    }

    /// Reads the host function costs from `transfer_from_purse_to_account` to `disable_contract_version` from `rem`,
    /// what is left of `whole` after the words `ws`.
    #[verifier::rlimit(40)]
    fn read_group_2<'a>(rem: &'a [u8], Ghost(whole): Ghost<Seq<u8>>, Ghost(ws): Ghost<Seq<u32>>) -> (r: Result<(HostFunction<9>, HostFunction<8>, HostFunction<3>, HostFunction<1>, HostFunction<3>, HostFunction<1>, HostFunction<3>, HostFunction<2>, HostFunction<8>, HostFunction<10>, HostFunction<4>, &'a [u8]), Error>)
        requires
            4 * ws.len() <= whole.len(),
            rem@ == whole.skip(4 * (ws.len() as int)),
            encode_words(ws) == whole.take(4 * (ws.len() as int)),
        ensures
            r is Err ==> whole.len() < 4 * (ws.len() + 63) && r->Err_0 == Error::EarlyEndOfStream,
            r is Ok ==> ({
                let k = 4 * (ws.len() + 63) as int;
                &&& k <= whole.len()
                &&& encode_words(ws + r->Ok_0.0.words() + r->Ok_0.1.words() + r->Ok_0.2.words() + r->Ok_0.3.words() + r->Ok_0.4.words() + r->Ok_0.5.words() + r->Ok_0.6.words() + r->Ok_0.7.words() + r->Ok_0.8.words() + r->Ok_0.9.words() + r->Ok_0.10.words()) == whole.take(k)
                &&& r->Ok_0.11@ == whole.skip(k)
                &&& r->Ok_0.0.words().len() == 10
                &&& r->Ok_0.1.words().len() == 9
                &&& r->Ok_0.2.words().len() == 4
                &&& r->Ok_0.3.words().len() == 2
                &&& r->Ok_0.4.words().len() == 4
                &&& r->Ok_0.5.words().len() == 2
                &&& r->Ok_0.6.words().len() == 4
                &&& r->Ok_0.7.words().len() == 3
                &&& r->Ok_0.8.words().len() == 9
                &&& r->Ok_0.9.words().len() == 11
                &&& r->Ok_0.10.words().len() == 5
            }),
    {
        let ghost mut ws = ws;
        let read = HostFunction::<9>::from_bytes(rem);
        proof { lemma_read_step::<HostFunction::<9>>(whole, ws, rem@, read); }
        let (transfer_from_purse_to_account, rem) = match read {
            Ok(pair) => pair,
            Err(e) => return Err(e),
        };
        proof { ws = ws + transfer_from_purse_to_account.words(); }
        let read = HostFunction::<8>::from_bytes(rem);
        proof { lemma_read_step::<HostFunction::<8>>(whole, ws, rem@, read); }
        let (transfer_from_purse_to_purse, rem) = match read {
            Ok(pair) => pair,
            Err(e) => return Err(e),
        };
        proof { ws = ws + transfer_from_purse_to_purse.words(); }
        let read = HostFunction::<3>::from_bytes(rem);
        proof { lemma_read_step::<HostFunction::<3>>(whole, ws, rem@, read); }
        let (get_balance, rem) = match read {
            Ok(pair) => pair,
            Err(e) => return Err(e),
        };
        proof { ws = ws + get_balance.words(); }
        let read = HostFunction::<1>::from_bytes(rem);
        proof { lemma_read_step::<HostFunction::<1>>(whole, ws, rem@, read); }
        let (get_phase, rem) = match read {
            Ok(pair) => pair,
            Err(e) => return Err(e),
        };
        proof { ws = ws + get_phase.words(); }
        let read = HostFunction::<3>::from_bytes(rem);
        proof { lemma_read_step::<HostFunction::<3>>(whole, ws, rem@, read); }
        let (get_system_contract, rem) = match read {
            Ok(pair) => pair,
            Err(e) => return Err(e),
        };
        proof { ws = ws + get_system_contract.words(); }
        let read = HostFunction::<1>::from_bytes(rem);
        proof { lemma_read_step::<HostFunction::<1>>(whole, ws, rem@, read); }
        let (get_main_purse, rem) = match read {
            Ok(pair) => pair,
            Err(e) => return Err(e),
        };
        proof { ws = ws + get_main_purse.words(); }
        let read = HostFunction::<3>::from_bytes(rem);
        proof { lemma_read_step::<HostFunction::<3>>(whole, ws, rem@, read); }
        let (read_host_buffer, rem) = match read {
            Ok(pair) => pair,
            Err(e) => return Err(e),
        };
        proof { ws = ws + read_host_buffer.words(); }
        let read = HostFunction::<2>::from_bytes(rem);
        proof { lemma_read_step::<HostFunction::<2>>(whole, ws, rem@, read); }
        let (create_contract_package_at_hash, rem) = match read {
            Ok(pair) => pair,
            Err(e) => return Err(e),
        };
        proof { ws = ws + create_contract_package_at_hash.words(); }
        let read = HostFunction::<8>::from_bytes(rem);
        proof { lemma_read_step::<HostFunction::<8>>(whole, ws, rem@, read); }
        let (create_contract_user_group, rem) = match read {
            Ok(pair) => pair,
            Err(e) => return Err(e),
        };
        proof { ws = ws + create_contract_user_group.words(); }
        let read = HostFunction::<10>::from_bytes(rem);
        proof { lemma_read_step::<HostFunction::<10>>(whole, ws, rem@, read); }
        let (add_contract_version, rem) = match read {
            Ok(pair) => pair,
            Err(e) => return Err(e),
        };
        proof { ws = ws + add_contract_version.words(); }
        let read = HostFunction::<4>::from_bytes(rem);
        proof { lemma_read_step::<HostFunction::<4>>(whole, ws, rem@, read); }
        let (disable_contract_version, rem) = match read {
            Ok(pair) => pair,
            Err(e) => return Err(e),
        };
        proof { ws = ws + disable_contract_version.words(); }
        Ok((transfer_from_purse_to_account, transfer_from_purse_to_purse, get_balance, get_phase, get_system_contract, get_main_purse, read_host_buffer, create_contract_package_at_hash, create_contract_user_group, add_contract_version, disable_contract_version, rem))
    }

    /// Reads the host function costs from `call_contract` to `enable_contract_version` from `rem`,
    /// what is left of `whole` after the words `ws`.
    #[verifier::rlimit(40)]
    fn read_group_3<'a>(rem: &'a [u8], Ghost(whole): Ghost<Seq<u8>>, Ghost(ws): Ghost<Seq<u32>>) -> (r: Result<(HostFunction<7>, HostFunction<9>, HostFunction<3>, HostFunction<4>, HostFunction<4>, HostFunction<5>, HostFunction<6>, HostFunction<2>, HostFunction<4>, HostFunction<2>, HostFunction<4>, &'a [u8]), Error>)
        requires
            4 * ws.len() <= whole.len(),
            rem@ == whole.skip(4 * (ws.len() as int)),
            encode_words(ws) == whole.take(4 * (ws.len() as int)),
        ensures
            r is Err ==> whole.len() < 4 * (ws.len() + 61) && r->Err_0 == Error::EarlyEndOfStream,
            r is Ok ==> ({
                let k = 4 * (ws.len() + 61) as int;
                &&& k <= whole.len()
                &&& encode_words(ws + r->Ok_0.0.words() + r->Ok_0.1.words() + r->Ok_0.2.words() + r->Ok_0.3.words() + r->Ok_0.4.words() + r->Ok_0.5.words() + r->Ok_0.6.words() + r->Ok_0.7.words() + r->Ok_0.8.words() + r->Ok_0.9.words() + r->Ok_0.10.words()) == whole.take(k)
                &&& r->Ok_0.11@ == whole.skip(k)
                &&& r->Ok_0.0.words().len() == 8
                &&& r->Ok_0.1.words().len() == 10
                &&& r->Ok_0.2.words().len() == 4
                &&& r->Ok_0.3.words().len() == 5
                &&& r->Ok_0.4.words().len() == 5
                &&& r->Ok_0.5.words().len() == 6
                &&& r->Ok_0.6.words().len() == 7
                &&& r->Ok_0.7.words().len() == 3
                &&& r->Ok_0.8.words().len() == 5
                &&& r->Ok_0.9.words().len() == 3
                &&& r->Ok_0.10.words().len() == 5
            }),
    {
        let ghost mut ws = ws;
        let read = HostFunction::<7>::from_bytes(rem);
        proof { lemma_read_step::<HostFunction::<7>>(whole, ws, rem@, read); }
        let (call_contract, rem) = match read {
            Ok(pair) => pair,
            Err(e) => return Err(e),
        };
        proof { ws = ws + call_contract.words(); }
        let read = HostFunction::<9>::from_bytes(rem);
        proof { lemma_read_step::<HostFunction::<9>>(whole, ws, rem@, read); }
        let (call_versioned_contract, rem) = match read {
            Ok(pair) => pair,
            Err(e) => return Err(e),
        };
        proof { ws = ws + call_versioned_contract.words(); }
        let read = HostFunction::<3>::from_bytes(rem);
        proof { lemma_read_step::<HostFunction::<3>>(whole, ws, rem@, read); }
        let (get_named_arg_size, rem) = match read {
            Ok(pair) => pair,
            Err(e) => return Err(e),
        };
        proof { ws = ws + get_named_arg_size.words(); }
        let read = HostFunction::<4>::from_bytes(rem);
        proof { lemma_read_step::<HostFunction::<4>>(whole, ws, rem@, read); }
        let (get_named_arg, rem) = match read {
            Ok(pair) => pair,
            Err(e) => return Err(e),
        };
        proof { ws = ws + get_named_arg.words(); }
        let read = HostFunction::<4>::from_bytes(rem);
        proof { lemma_read_step::<HostFunction::<4>>(whole, ws, rem@, read); }
        let (remove_contract_user_group, rem) = match read {
            Ok(pair) => pair,
            Err(e) => return Err(e),
        };
        proof { ws = ws + remove_contract_user_group.words(); }
        let read = HostFunction::<5>::from_bytes(rem);
        proof { lemma_read_step::<HostFunction::<5>>(whole, ws, rem@, read); }
        let (provision_contract_user_group_uref, rem) = match read {
            Ok(pair) => pair,
            Err(e) => return Err(e),
        };
        proof { ws = ws + provision_contract_user_group_uref.words(); }
        let read = HostFunction::<6>::from_bytes(rem);
        proof { lemma_read_step::<HostFunction::<6>>(whole, ws, rem@, read); }
        let (remove_contract_user_group_urefs, rem) = match read {
            Ok(pair) => pair,
            Err(e) => return Err(e),
        };
        proof { ws = ws + remove_contract_user_group_urefs.words(); }
        let read = HostFunction::<2>::from_bytes(rem);
        proof { lemma_read_step::<HostFunction::<2>>(whole, ws, rem@, read); }
        let (print, rem) = match read {
            Ok(pair) => pair,
            Err(e) => return Err(e),
        };
        proof { ws = ws + print.words(); }
        let read = HostFunction::<4>::from_bytes(rem);
        proof { lemma_read_step::<HostFunction::<4>>(whole, ws, rem@, read); }
        let (blake2b, rem) = match read {
            Ok(pair) => pair,
            Err(e) => return Err(e),
        };
        proof { ws = ws + blake2b.words(); }
        let read = HostFunction::<2>::from_bytes(rem);
        proof { lemma_read_step::<HostFunction::<2>>(whole, ws, rem@, read); }
        let (random_bytes, rem) = match read {
            Ok(pair) => pair,
            Err(e) => return Err(e),
        };
        proof { ws = ws + random_bytes.words(); }
        let read = HostFunction::<4>::from_bytes(rem);
        proof { lemma_read_step::<HostFunction::<4>>(whole, ws, rem@, read); }
        let (enable_contract_version, rem) = match read {
            Ok(pair) => pair,
            Err(e) => return Err(e),
        };
        proof { ws = ws + enable_contract_version.words(); }
        Ok((call_contract, call_versioned_contract, get_named_arg_size, get_named_arg, remove_contract_user_group, provision_contract_user_group_uref, remove_contract_user_group_urefs, print, blake2b, random_bytes, enable_contract_version, rem))
    }

    /// Deserializes a value from the front of `bytes`, handing back the rest.
    pub fn from_bytes(bytes: &[u8]) -> (r: Result<(HostFunctionCosts, &[u8]), Error>)
        ensures
            parsed_as::<HostFunctionCosts>(bytes@, r),
    {
        let ghost whole = bytes@;
        let ghost mut ws = Seq::<u32>::empty();
        let (read_value, dictionary_get, write, dictionary_put, add, new_uref, load_named_keys, ret, get_key, has_key, put_key, rem) = match Self::read_group_0(bytes, Ghost(whole)) {
            Ok(group) => group,
            Err(e) => {
                proof { lemma_parsed_short::<HostFunctionCosts>(whole, Err(e)); }
                return Err(e);
            },
        };
        proof { ws = read_value.words() + dictionary_get.words() + write.words() + dictionary_put.words() + add.words() + new_uref.words() + load_named_keys.words() + ret.words() + get_key.words() + has_key.words() + put_key.words(); }
        let (remove_key, revert, is_valid_uref, add_associated_key, remove_associated_key, update_associated_key, set_action_threshold, get_caller, get_blocktime, create_purse, transfer_to_account, rem) = match Self::read_group_1(rem, Ghost(whole), Ghost(ws)) {
            Ok(group) => group,
            Err(e) => {
                proof { lemma_parsed_short::<HostFunctionCosts>(whole, Err(e)); }
                return Err(e);
            },
        };
        proof { ws = ws + remove_key.words() + revert.words() + is_valid_uref.words() + add_associated_key.words() + remove_associated_key.words() + update_associated_key.words() + set_action_threshold.words() + get_caller.words() + get_blocktime.words() + create_purse.words() + transfer_to_account.words(); }
        let (transfer_from_purse_to_account, transfer_from_purse_to_purse, get_balance, get_phase, get_system_contract, get_main_purse, read_host_buffer, create_contract_package_at_hash, create_contract_user_group, add_contract_version, disable_contract_version, rem) = match Self::read_group_2(rem, Ghost(whole), Ghost(ws)) {
            Ok(group) => group,
            Err(e) => {
                proof { lemma_parsed_short::<HostFunctionCosts>(whole, Err(e)); }
                return Err(e);
            },
        };
        proof { ws = ws + transfer_from_purse_to_account.words() + transfer_from_purse_to_purse.words() + get_balance.words() + get_phase.words() + get_system_contract.words() + get_main_purse.words() + read_host_buffer.words() + create_contract_package_at_hash.words() + create_contract_user_group.words() + add_contract_version.words() + disable_contract_version.words(); }
        let (call_contract, call_versioned_contract, get_named_arg_size, get_named_arg, remove_contract_user_group, provision_contract_user_group_uref, remove_contract_user_group_urefs, print, blake2b, random_bytes, enable_contract_version, rem) = match Self::read_group_3(rem, Ghost(whole), Ghost(ws)) {
            Ok(group) => group,
            Err(e) => {
                proof { lemma_parsed_short::<HostFunctionCosts>(whole, Err(e)); }
                return Err(e);
            },
        };
        proof { ws = ws + call_contract.words() + call_versioned_contract.words() + get_named_arg_size.words() + get_named_arg.words() + remove_contract_user_group.words() + provision_contract_user_group_uref.words() + remove_contract_user_group_urefs.words() + print.words() + blake2b.words() + random_bytes.words() + enable_contract_version.words(); }
        let value = HostFunctionCosts { read_value, dictionary_get, write, dictionary_put, add, new_uref, load_named_keys, ret, get_key, has_key, put_key, remove_key, revert, is_valid_uref, add_associated_key, remove_associated_key, update_associated_key, set_action_threshold, get_caller, get_blocktime, create_purse, transfer_to_account, transfer_from_purse_to_account, transfer_from_purse_to_purse, get_balance, get_phase, get_system_contract, get_main_purse, read_host_buffer, create_contract_package_at_hash, create_contract_user_group, add_contract_version, disable_contract_version, call_contract, call_versioned_contract, get_named_arg_size, get_named_arg, remove_contract_user_group, provision_contract_user_group_uref, remove_contract_user_group_urefs, print, blake2b, random_bytes, enable_contract_version };
        proof { lemma_parsed_complete(whole, value, rem); }
        Ok((value, rem))
    }
}

impl Default for HostFunctionCosts {
    fn default() -> (r: Self)
        ensures
            r.is_default_table(),
    {
        Self {
            read_value: HostFunction::fixed(DEFAULT_READ_VALUE_COST),
            dictionary_get: HostFunction::new(DEFAULT_DICTIONARY_GET_COST, [NOT_USED, DEFAULT_DICTIONARY_GET_KEY_SIZE_WEIGHT, NOT_USED]),
            write: HostFunction::new(DEFAULT_WRITE_COST, [NOT_USED, NOT_USED, NOT_USED, DEFAULT_WRITE_VALUE_SIZE_WEIGHT]),
            dictionary_put: HostFunction::new(DEFAULT_DICTIONARY_PUT_COST, [NOT_USED, DEFAULT_DICTIONARY_PUT_KEY_BYTES_SIZE_WEIGHT, NOT_USED, DEFAULT_DICTIONARY_PUT_VALUE_SIZE_WEIGHT]),
            add: HostFunction::fixed(DEFAULT_ADD_COST),
            new_uref: HostFunction::new(DEFAULT_NEW_UREF_COST, [NOT_USED, NOT_USED, DEFAULT_NEW_UREF_VALUE_SIZE_WEIGHT]),
            load_named_keys: HostFunction::fixed(DEFAULT_LOAD_NAMED_KEYS_COST),
            ret: HostFunction::new(DEFAULT_RET_COST, [NOT_USED, DEFAULT_RET_VALUE_SIZE_WEIGHT]),
            get_key: HostFunction::new(DEFAULT_GET_KEY_COST, [NOT_USED, DEFAULT_GET_KEY_NAME_SIZE_WEIGHT, NOT_USED, NOT_USED, NOT_USED]),
            has_key: HostFunction::new(DEFAULT_HAS_KEY_COST, [NOT_USED, DEFAULT_HAS_KEY_NAME_SIZE_WEIGHT]),
            put_key: HostFunction::new(DEFAULT_PUT_KEY_COST, [NOT_USED, DEFAULT_PUT_KEY_NAME_SIZE_WEIGHT, NOT_USED, NOT_USED]),
            remove_key: HostFunction::new(DEFAULT_REMOVE_KEY_COST, [NOT_USED, DEFAULT_REMOVE_KEY_NAME_SIZE_WEIGHT]),
            revert: HostFunction::fixed(DEFAULT_REVERT_COST),
            is_valid_uref: HostFunction::fixed(DEFAULT_IS_VALID_UREF_COST),
            add_associated_key: HostFunction::fixed(DEFAULT_ADD_ASSOCIATED_KEY_COST),
            remove_associated_key: HostFunction::fixed(DEFAULT_REMOVE_ASSOCIATED_KEY_COST),
            update_associated_key: HostFunction::fixed(DEFAULT_UPDATE_ASSOCIATED_KEY_COST),
            set_action_threshold: HostFunction::fixed(DEFAULT_SET_ACTION_THRESHOLD_COST),
            get_caller: HostFunction::fixed(DEFAULT_GET_CALLER_COST),
            get_blocktime: HostFunction::fixed(DEFAULT_GET_BLOCKTIME_COST),
            create_purse: HostFunction::fixed(DEFAULT_CREATE_PURSE_COST),
            transfer_to_account: HostFunction::fixed(DEFAULT_TRANSFER_TO_ACCOUNT_COST),
            transfer_from_purse_to_account: HostFunction::fixed(DEFAULT_TRANSFER_FROM_PURSE_TO_ACCOUNT_COST,),
            transfer_from_purse_to_purse: HostFunction::fixed(DEFAULT_TRANSFER_FROM_PURSE_TO_PURSE_COST,),
            get_balance: HostFunction::fixed(DEFAULT_GET_BALANCE_COST),
            get_phase: HostFunction::fixed(DEFAULT_GET_PHASE_COST),
            get_system_contract: HostFunction::fixed(DEFAULT_GET_SYSTEM_CONTRACT_COST),
            get_main_purse: HostFunction::fixed(DEFAULT_GET_MAIN_PURSE_COST),
            read_host_buffer: HostFunction::new(DEFAULT_READ_HOST_BUFFER_COST, [NOT_USED, DEFAULT_READ_HOST_BUFFER_DEST_SIZE_WEIGHT, NOT_USED]),
            create_contract_package_at_hash: HostFunction::default(),
            create_contract_user_group: HostFunction::default(),
            add_contract_version: HostFunction::default(),
            disable_contract_version: HostFunction::default(),
            call_contract: HostFunction::new(DEFAULT_CALL_CONTRACT_COST, [NOT_USED, NOT_USED, NOT_USED, NOT_USED, NOT_USED, DEFAULT_CALL_CONTRACT_ARGS_SIZE_WEIGHT, NOT_USED]),
            call_versioned_contract: HostFunction::new(DEFAULT_CALL_CONTRACT_COST, [NOT_USED, NOT_USED, NOT_USED, NOT_USED, NOT_USED, NOT_USED, NOT_USED, DEFAULT_CALL_CONTRACT_ARGS_SIZE_WEIGHT, NOT_USED]),
            get_named_arg_size: HostFunction::default(),
            get_named_arg: HostFunction::default(),
            remove_contract_user_group: HostFunction::default(),
            provision_contract_user_group_uref: HostFunction::default(),
            remove_contract_user_group_urefs: HostFunction::default(),
            print: HostFunction::new(DEFAULT_PRINT_COST, [NOT_USED, DEFAULT_PRINT_TEXT_SIZE_WEIGHT]),
            blake2b: HostFunction::default(),
            random_bytes: HostFunction::default(),
            enable_contract_version: HostFunction::default(),
        }
    }
}

impl WordLayout for HostFunctionCosts {
    open spec fn words(&self) -> Seq<u32> {
        self.read_value.words()
            + self.dictionary_get.words()
            + self.write.words()
            + self.dictionary_put.words()
            + self.add.words()
            + self.new_uref.words()
            + self.load_named_keys.words()
            + self.ret.words()
            + self.get_key.words()
            + self.has_key.words()
            + self.put_key.words()
            + self.remove_key.words()
            + self.revert.words()
            + self.is_valid_uref.words()
            + self.add_associated_key.words()
            + self.remove_associated_key.words()
            + self.update_associated_key.words()
            + self.set_action_threshold.words()
            + self.get_caller.words()
            + self.get_blocktime.words()
            + self.create_purse.words()
            + self.transfer_to_account.words()
            + self.transfer_from_purse_to_account.words()
            + self.transfer_from_purse_to_purse.words()
            + self.get_balance.words()
            + self.get_phase.words()
            + self.get_system_contract.words()
            + self.get_main_purse.words()
            + self.read_host_buffer.words()
            + self.create_contract_package_at_hash.words()
            + self.create_contract_user_group.words()
            + self.add_contract_version.words()
            + self.disable_contract_version.words()
            + self.call_contract.words()
            + self.call_versioned_contract.words()
            + self.get_named_arg_size.words()
            + self.get_named_arg.words()
            + self.remove_contract_user_group.words()
            + self.provision_contract_user_group_uref.words()
            + self.remove_contract_user_group_urefs.words()
            + self.print.words()
            + self.blake2b.words()
            + self.random_bytes.words()
            + self.enable_contract_version.words()
    }

    open spec fn from_words(ws: Seq<u32>) -> Self {
        HostFunctionCosts {
            read_value: HostFunction::<3>::from_words(ws.subrange(0, 4)),
            dictionary_get: HostFunction::<3>::from_words(ws.subrange(4, 8)),
            write: HostFunction::<4>::from_words(ws.subrange(8, 13)),
            dictionary_put: HostFunction::<4>::from_words(ws.subrange(13, 18)),
            add: HostFunction::<4>::from_words(ws.subrange(18, 23)),
            new_uref: HostFunction::<3>::from_words(ws.subrange(23, 27)),
            load_named_keys: HostFunction::<2>::from_words(ws.subrange(27, 30)),
            ret: HostFunction::<2>::from_words(ws.subrange(30, 33)),
            get_key: HostFunction::<5>::from_words(ws.subrange(33, 39)),
            has_key: HostFunction::<2>::from_words(ws.subrange(39, 42)),
            put_key: HostFunction::<4>::from_words(ws.subrange(42, 47)),
            remove_key: HostFunction::<2>::from_words(ws.subrange(47, 50)),
            revert: HostFunction::<1>::from_words(ws.subrange(50, 52)),
            is_valid_uref: HostFunction::<2>::from_words(ws.subrange(52, 55)),
            add_associated_key: HostFunction::<3>::from_words(ws.subrange(55, 59)),
            remove_associated_key: HostFunction::<2>::from_words(ws.subrange(59, 62)),
            update_associated_key: HostFunction::<3>::from_words(ws.subrange(62, 66)),
            set_action_threshold: HostFunction::<2>::from_words(ws.subrange(66, 69)),
            get_caller: HostFunction::<1>::from_words(ws.subrange(69, 71)),
            get_blocktime: HostFunction::<1>::from_words(ws.subrange(71, 73)),
            create_purse: HostFunction::<2>::from_words(ws.subrange(73, 76)),
            transfer_to_account: HostFunction::<7>::from_words(ws.subrange(76, 84)),
            transfer_from_purse_to_account: HostFunction::<9>::from_words(ws.subrange(84, 94)),
            transfer_from_purse_to_purse: HostFunction::<8>::from_words(ws.subrange(94, 103)),
            get_balance: HostFunction::<3>::from_words(ws.subrange(103, 107)),
            get_phase: HostFunction::<1>::from_words(ws.subrange(107, 109)),
            get_system_contract: HostFunction::<3>::from_words(ws.subrange(109, 113)),
            get_main_purse: HostFunction::<1>::from_words(ws.subrange(113, 115)),
            read_host_buffer: HostFunction::<3>::from_words(ws.subrange(115, 119)),
            create_contract_package_at_hash: HostFunction::<2>::from_words(ws.subrange(119, 122)),
            create_contract_user_group: HostFunction::<8>::from_words(ws.subrange(122, 131)),
            add_contract_version: HostFunction::<10>::from_words(ws.subrange(131, 142)),
            disable_contract_version: HostFunction::<4>::from_words(ws.subrange(142, 147)),
            call_contract: HostFunction::<7>::from_words(ws.subrange(147, 155)),
            call_versioned_contract: HostFunction::<9>::from_words(ws.subrange(155, 165)),
            get_named_arg_size: HostFunction::<3>::from_words(ws.subrange(165, 169)),
            get_named_arg: HostFunction::<4>::from_words(ws.subrange(169, 174)),
            remove_contract_user_group: HostFunction::<4>::from_words(ws.subrange(174, 179)),
            provision_contract_user_group_uref: HostFunction::<5>::from_words(ws.subrange(179, 185)),
            remove_contract_user_group_urefs: HostFunction::<6>::from_words(ws.subrange(185, 192)),
            print: HostFunction::<2>::from_words(ws.subrange(192, 195)),
            blake2b: HostFunction::<4>::from_words(ws.subrange(195, 200)),
            random_bytes: HostFunction::<2>::from_words(ws.subrange(200, 203)),
            enable_contract_version: HostFunction::<4>::from_words(ws.subrange(203, 208)),
        }
    }

    open spec fn word_count() -> nat {
        208
    }

    proof fn lemma_words(&self) {
        self.read_value.lemma_words();
        self.dictionary_get.lemma_words();
        self.write.lemma_words();
        self.dictionary_put.lemma_words();
        self.add.lemma_words();
        self.new_uref.lemma_words();
        self.load_named_keys.lemma_words();
        self.ret.lemma_words();
        self.get_key.lemma_words();
        self.has_key.lemma_words();
        self.put_key.lemma_words();
        self.remove_key.lemma_words();
        self.revert.lemma_words();
        self.is_valid_uref.lemma_words();
        self.add_associated_key.lemma_words();
        self.remove_associated_key.lemma_words();
        self.update_associated_key.lemma_words();
        self.set_action_threshold.lemma_words();
        self.get_caller.lemma_words();
        self.get_blocktime.lemma_words();
        self.create_purse.lemma_words();
        self.transfer_to_account.lemma_words();
        self.transfer_from_purse_to_account.lemma_words();
        self.transfer_from_purse_to_purse.lemma_words();
        self.get_balance.lemma_words();
        self.get_phase.lemma_words();
        self.get_system_contract.lemma_words();
        self.get_main_purse.lemma_words();
        self.read_host_buffer.lemma_words();
        self.create_contract_package_at_hash.lemma_words();
        self.create_contract_user_group.lemma_words();
        self.add_contract_version.lemma_words();
        self.disable_contract_version.lemma_words();
        self.call_contract.lemma_words();
        self.call_versioned_contract.lemma_words();
        self.get_named_arg_size.lemma_words();
        self.get_named_arg.lemma_words();
        self.remove_contract_user_group.lemma_words();
        self.provision_contract_user_group_uref.lemma_words();
        self.remove_contract_user_group_urefs.lemma_words();
        self.print.lemma_words();
        self.blake2b.lemma_words();
        self.random_bytes.lemma_words();
        self.enable_contract_version.lemma_words();
        let s = self.words();
        lemma_subrange_all(s);
        let prefix1 = self.read_value.words() + self.dictionary_get.words();
        let prefix2 = prefix1 + self.write.words();
        let prefix3 = prefix2 + self.dictionary_put.words();
        let prefix4 = prefix3 + self.add.words();
        let prefix5 = prefix4 + self.new_uref.words();
        let prefix6 = prefix5 + self.load_named_keys.words();
        let prefix7 = prefix6 + self.ret.words();
        let prefix8 = prefix7 + self.get_key.words();
        let prefix9 = prefix8 + self.has_key.words();
        let prefix10 = prefix9 + self.put_key.words();
        let prefix11 = prefix10 + self.remove_key.words();
        let prefix12 = prefix11 + self.revert.words();
        let prefix13 = prefix12 + self.is_valid_uref.words();
        let prefix14 = prefix13 + self.add_associated_key.words();
        let prefix15 = prefix14 + self.remove_associated_key.words();
        let prefix16 = prefix15 + self.update_associated_key.words();
        let prefix17 = prefix16 + self.set_action_threshold.words();
        let prefix18 = prefix17 + self.get_caller.words();
        let prefix19 = prefix18 + self.get_blocktime.words();
        let prefix20 = prefix19 + self.create_purse.words();
        let prefix21 = prefix20 + self.transfer_to_account.words();
        let prefix22 = prefix21 + self.transfer_from_purse_to_account.words();
        let prefix23 = prefix22 + self.transfer_from_purse_to_purse.words();
        let prefix24 = prefix23 + self.get_balance.words();
        let prefix25 = prefix24 + self.get_phase.words();
        let prefix26 = prefix25 + self.get_system_contract.words();
        let prefix27 = prefix26 + self.get_main_purse.words();
        let prefix28 = prefix27 + self.read_host_buffer.words();
        let prefix29 = prefix28 + self.create_contract_package_at_hash.words();
        let prefix30 = prefix29 + self.create_contract_user_group.words();
        let prefix31 = prefix30 + self.add_contract_version.words();
        let prefix32 = prefix31 + self.disable_contract_version.words();
        let prefix33 = prefix32 + self.call_contract.words();
        let prefix34 = prefix33 + self.call_versioned_contract.words();
        let prefix35 = prefix34 + self.get_named_arg_size.words();
        let prefix36 = prefix35 + self.get_named_arg.words();
        let prefix37 = prefix36 + self.remove_contract_user_group.words();
        let prefix38 = prefix37 + self.provision_contract_user_group_uref.words();
        let prefix39 = prefix38 + self.remove_contract_user_group_urefs.words();
        let prefix40 = prefix39 + self.print.words();
        let prefix41 = prefix40 + self.blake2b.words();
        let prefix42 = prefix41 + self.random_bytes.words();
        lemma_concat_subrange(prefix42, self.enable_contract_version.words());
        lemma_subrange_of_prefix(s, 203, 208, 208);
        lemma_subrange_of_prefix(s, 0, 203, 208);
        lemma_concat_subrange(prefix41, self.random_bytes.words());
        lemma_subrange_of_prefix(s, 200, 203, 203);
        lemma_subrange_of_prefix(s, 0, 200, 203);
        lemma_concat_subrange(prefix40, self.blake2b.words());
        lemma_subrange_of_prefix(s, 195, 200, 200);
        lemma_subrange_of_prefix(s, 0, 195, 200);
        lemma_concat_subrange(prefix39, self.print.words());
        lemma_subrange_of_prefix(s, 192, 195, 195);
        lemma_subrange_of_prefix(s, 0, 192, 195);
        lemma_concat_subrange(prefix38, self.remove_contract_user_group_urefs.words());
        lemma_subrange_of_prefix(s, 185, 192, 192);
        lemma_subrange_of_prefix(s, 0, 185, 192);
        lemma_concat_subrange(prefix37, self.provision_contract_user_group_uref.words());
        lemma_subrange_of_prefix(s, 179, 185, 185);
        lemma_subrange_of_prefix(s, 0, 179, 185);
        lemma_concat_subrange(prefix36, self.remove_contract_user_group.words());
        lemma_subrange_of_prefix(s, 174, 179, 179);
        lemma_subrange_of_prefix(s, 0, 174, 179);
        lemma_concat_subrange(prefix35, self.get_named_arg.words());
        lemma_subrange_of_prefix(s, 169, 174, 174);
        lemma_subrange_of_prefix(s, 0, 169, 174);
        lemma_concat_subrange(prefix34, self.get_named_arg_size.words());
        lemma_subrange_of_prefix(s, 165, 169, 169);
        lemma_subrange_of_prefix(s, 0, 165, 169);
        lemma_concat_subrange(prefix33, self.call_versioned_contract.words());
        lemma_subrange_of_prefix(s, 155, 165, 165);
        lemma_subrange_of_prefix(s, 0, 155, 165);
        lemma_concat_subrange(prefix32, self.call_contract.words());
        lemma_subrange_of_prefix(s, 147, 155, 155);
        lemma_subrange_of_prefix(s, 0, 147, 155);
        lemma_concat_subrange(prefix31, self.disable_contract_version.words());
        lemma_subrange_of_prefix(s, 142, 147, 147);
        lemma_subrange_of_prefix(s, 0, 142, 147);
        lemma_concat_subrange(prefix30, self.add_contract_version.words());
        lemma_subrange_of_prefix(s, 131, 142, 142);
        lemma_subrange_of_prefix(s, 0, 131, 142);
        lemma_concat_subrange(prefix29, self.create_contract_user_group.words());
        lemma_subrange_of_prefix(s, 122, 131, 131);
        lemma_subrange_of_prefix(s, 0, 122, 131);
        lemma_concat_subrange(prefix28, self.create_contract_package_at_hash.words());
        lemma_subrange_of_prefix(s, 119, 122, 122);
        lemma_subrange_of_prefix(s, 0, 119, 122);
        lemma_concat_subrange(prefix27, self.read_host_buffer.words());
        lemma_subrange_of_prefix(s, 115, 119, 119);
        lemma_subrange_of_prefix(s, 0, 115, 119);
        lemma_concat_subrange(prefix26, self.get_main_purse.words());
        lemma_subrange_of_prefix(s, 113, 115, 115);
        lemma_subrange_of_prefix(s, 0, 113, 115);
        lemma_concat_subrange(prefix25, self.get_system_contract.words());
        lemma_subrange_of_prefix(s, 109, 113, 113);
        lemma_subrange_of_prefix(s, 0, 109, 113);
        lemma_concat_subrange(prefix24, self.get_phase.words());
        lemma_subrange_of_prefix(s, 107, 109, 109);
        lemma_subrange_of_prefix(s, 0, 107, 109);
        lemma_concat_subrange(prefix23, self.get_balance.words());
        lemma_subrange_of_prefix(s, 103, 107, 107);
        lemma_subrange_of_prefix(s, 0, 103, 107);
        lemma_concat_subrange(prefix22, self.transfer_from_purse_to_purse.words());
        lemma_subrange_of_prefix(s, 94, 103, 103);
        lemma_subrange_of_prefix(s, 0, 94, 103);
        lemma_concat_subrange(prefix21, self.transfer_from_purse_to_account.words());
        lemma_subrange_of_prefix(s, 84, 94, 94);
        lemma_subrange_of_prefix(s, 0, 84, 94);
        lemma_concat_subrange(prefix20, self.transfer_to_account.words());
        lemma_subrange_of_prefix(s, 76, 84, 84);
        lemma_subrange_of_prefix(s, 0, 76, 84);
        lemma_concat_subrange(prefix19, self.create_purse.words());
        lemma_subrange_of_prefix(s, 73, 76, 76);
        lemma_subrange_of_prefix(s, 0, 73, 76);
        lemma_concat_subrange(prefix18, self.get_blocktime.words());
        lemma_subrange_of_prefix(s, 71, 73, 73);
        lemma_subrange_of_prefix(s, 0, 71, 73);
        lemma_concat_subrange(prefix17, self.get_caller.words());
        lemma_subrange_of_prefix(s, 69, 71, 71);
        lemma_subrange_of_prefix(s, 0, 69, 71);
        lemma_concat_subrange(prefix16, self.set_action_threshold.words());
        lemma_subrange_of_prefix(s, 66, 69, 69);
        lemma_subrange_of_prefix(s, 0, 66, 69);
        lemma_concat_subrange(prefix15, self.update_associated_key.words());
        lemma_subrange_of_prefix(s, 62, 66, 66);
        lemma_subrange_of_prefix(s, 0, 62, 66);
        lemma_concat_subrange(prefix14, self.remove_associated_key.words());
        lemma_subrange_of_prefix(s, 59, 62, 62);
        lemma_subrange_of_prefix(s, 0, 59, 62);
        lemma_concat_subrange(prefix13, self.add_associated_key.words());
        lemma_subrange_of_prefix(s, 55, 59, 59);
        lemma_subrange_of_prefix(s, 0, 55, 59);
        lemma_concat_subrange(prefix12, self.is_valid_uref.words());
        lemma_subrange_of_prefix(s, 52, 55, 55);
        lemma_subrange_of_prefix(s, 0, 52, 55);
        lemma_concat_subrange(prefix11, self.revert.words());
        lemma_subrange_of_prefix(s, 50, 52, 52);
        lemma_subrange_of_prefix(s, 0, 50, 52);
        lemma_concat_subrange(prefix10, self.remove_key.words());
        lemma_subrange_of_prefix(s, 47, 50, 50);
        lemma_subrange_of_prefix(s, 0, 47, 50);
        lemma_concat_subrange(prefix9, self.put_key.words());
        lemma_subrange_of_prefix(s, 42, 47, 47);
        lemma_subrange_of_prefix(s, 0, 42, 47);
        lemma_concat_subrange(prefix8, self.has_key.words());
        lemma_subrange_of_prefix(s, 39, 42, 42);
        lemma_subrange_of_prefix(s, 0, 39, 42);
        lemma_concat_subrange(prefix7, self.get_key.words());
        lemma_subrange_of_prefix(s, 33, 39, 39);
        lemma_subrange_of_prefix(s, 0, 33, 39);
        lemma_concat_subrange(prefix6, self.ret.words());
        lemma_subrange_of_prefix(s, 30, 33, 33);
        lemma_subrange_of_prefix(s, 0, 30, 33);
        lemma_concat_subrange(prefix5, self.load_named_keys.words());
        lemma_subrange_of_prefix(s, 27, 30, 30);
        lemma_subrange_of_prefix(s, 0, 27, 30);
        lemma_concat_subrange(prefix4, self.new_uref.words());
        lemma_subrange_of_prefix(s, 23, 27, 27);
        lemma_subrange_of_prefix(s, 0, 23, 27);
        lemma_concat_subrange(prefix3, self.add.words());
        lemma_subrange_of_prefix(s, 18, 23, 23);
        lemma_subrange_of_prefix(s, 0, 18, 23);
        lemma_concat_subrange(prefix2, self.dictionary_put.words());
        lemma_subrange_of_prefix(s, 13, 18, 18);
        lemma_subrange_of_prefix(s, 0, 13, 18);
        lemma_concat_subrange(prefix1, self.write.words());
        lemma_subrange_of_prefix(s, 8, 13, 13);
        lemma_subrange_of_prefix(s, 0, 8, 13);
        lemma_concat_subrange(self.read_value.words(), self.dictionary_get.words());
        lemma_subrange_of_prefix(s, 4, 8, 8);
        lemma_subrange_of_prefix(s, 0, 4, 8);
    }

    proof fn lemma_from_words(ws: Seq<u32>) {
        HostFunction::<3>::lemma_from_words(ws.subrange(0, 4));
        HostFunction::<3>::lemma_from_words(ws.subrange(4, 8));
        HostFunction::<4>::lemma_from_words(ws.subrange(8, 13));
        HostFunction::<4>::lemma_from_words(ws.subrange(13, 18));
        HostFunction::<4>::lemma_from_words(ws.subrange(18, 23));
        HostFunction::<3>::lemma_from_words(ws.subrange(23, 27));
        HostFunction::<2>::lemma_from_words(ws.subrange(27, 30));
        HostFunction::<2>::lemma_from_words(ws.subrange(30, 33));
        HostFunction::<5>::lemma_from_words(ws.subrange(33, 39));
        HostFunction::<2>::lemma_from_words(ws.subrange(39, 42));
        HostFunction::<4>::lemma_from_words(ws.subrange(42, 47));
        HostFunction::<2>::lemma_from_words(ws.subrange(47, 50));
        HostFunction::<1>::lemma_from_words(ws.subrange(50, 52));
        HostFunction::<2>::lemma_from_words(ws.subrange(52, 55));
        HostFunction::<3>::lemma_from_words(ws.subrange(55, 59));
        HostFunction::<2>::lemma_from_words(ws.subrange(59, 62));
        HostFunction::<3>::lemma_from_words(ws.subrange(62, 66));
        HostFunction::<2>::lemma_from_words(ws.subrange(66, 69));
        HostFunction::<1>::lemma_from_words(ws.subrange(69, 71));
        HostFunction::<1>::lemma_from_words(ws.subrange(71, 73));
        HostFunction::<2>::lemma_from_words(ws.subrange(73, 76));
        HostFunction::<7>::lemma_from_words(ws.subrange(76, 84));
        HostFunction::<9>::lemma_from_words(ws.subrange(84, 94));
        HostFunction::<8>::lemma_from_words(ws.subrange(94, 103));
        HostFunction::<3>::lemma_from_words(ws.subrange(103, 107));
        HostFunction::<1>::lemma_from_words(ws.subrange(107, 109));
        HostFunction::<3>::lemma_from_words(ws.subrange(109, 113));
        HostFunction::<1>::lemma_from_words(ws.subrange(113, 115));
        HostFunction::<3>::lemma_from_words(ws.subrange(115, 119));
        HostFunction::<2>::lemma_from_words(ws.subrange(119, 122));
        HostFunction::<8>::lemma_from_words(ws.subrange(122, 131));
        HostFunction::<10>::lemma_from_words(ws.subrange(131, 142));
        HostFunction::<4>::lemma_from_words(ws.subrange(142, 147));
        HostFunction::<7>::lemma_from_words(ws.subrange(147, 155));
        HostFunction::<9>::lemma_from_words(ws.subrange(155, 165));
        HostFunction::<3>::lemma_from_words(ws.subrange(165, 169));
        HostFunction::<4>::lemma_from_words(ws.subrange(169, 174));
        HostFunction::<4>::lemma_from_words(ws.subrange(174, 179));
        HostFunction::<5>::lemma_from_words(ws.subrange(179, 185));
        HostFunction::<6>::lemma_from_words(ws.subrange(185, 192));
        HostFunction::<2>::lemma_from_words(ws.subrange(192, 195));
        HostFunction::<4>::lemma_from_words(ws.subrange(195, 200));
        HostFunction::<2>::lemma_from_words(ws.subrange(200, 203));
        HostFunction::<4>::lemma_from_words(ws.subrange(203, 208));
        lemma_subrange_join(ws, 0, 4, 8);
        lemma_subrange_join(ws, 0, 8, 13);
        lemma_subrange_join(ws, 0, 13, 18);
        lemma_subrange_join(ws, 0, 18, 23);
        lemma_subrange_join(ws, 0, 23, 27);
        lemma_subrange_join(ws, 0, 27, 30);
        lemma_subrange_join(ws, 0, 30, 33);
        lemma_subrange_join(ws, 0, 33, 39);
        lemma_subrange_join(ws, 0, 39, 42);
        lemma_subrange_join(ws, 0, 42, 47);
        lemma_subrange_join(ws, 0, 47, 50);
        lemma_subrange_join(ws, 0, 50, 52);
        lemma_subrange_join(ws, 0, 52, 55);
        lemma_subrange_join(ws, 0, 55, 59);
        lemma_subrange_join(ws, 0, 59, 62);
        lemma_subrange_join(ws, 0, 62, 66);
        lemma_subrange_join(ws, 0, 66, 69);
        lemma_subrange_join(ws, 0, 69, 71);
        lemma_subrange_join(ws, 0, 71, 73);
        lemma_subrange_join(ws, 0, 73, 76);
        lemma_subrange_join(ws, 0, 76, 84);
        lemma_subrange_join(ws, 0, 84, 94);
        lemma_subrange_join(ws, 0, 94, 103);
        lemma_subrange_join(ws, 0, 103, 107);
        lemma_subrange_join(ws, 0, 107, 109);
        lemma_subrange_join(ws, 0, 109, 113);
        lemma_subrange_join(ws, 0, 113, 115);
        lemma_subrange_join(ws, 0, 115, 119);
        lemma_subrange_join(ws, 0, 119, 122);
        lemma_subrange_join(ws, 0, 122, 131);
        lemma_subrange_join(ws, 0, 131, 142);
        lemma_subrange_join(ws, 0, 142, 147);
        lemma_subrange_join(ws, 0, 147, 155);
        lemma_subrange_join(ws, 0, 155, 165);
        lemma_subrange_join(ws, 0, 165, 169);
        lemma_subrange_join(ws, 0, 169, 174);
        lemma_subrange_join(ws, 0, 174, 179);
        lemma_subrange_join(ws, 0, 179, 185);
        lemma_subrange_join(ws, 0, 185, 192);
        lemma_subrange_join(ws, 0, 192, 195);
        lemma_subrange_join(ws, 0, 195, 200);
        lemma_subrange_join(ws, 0, 200, 203);
        lemma_subrange_join(ws, 0, 203, 208);
        lemma_subrange_all(ws);
        assert(Self::from_words(ws).words() =~= ws);
    }
}



/// The encoding of a HostFunctionCosts is its fields in the order they are written, each `u32` as its four little-endian bytes and each table as its own encoding: 208 words.
pub proof fn lemma_host_function_costs_layout(c: HostFunctionCosts)
    ensures
        encoding(c).len() == 832,
        encoding(c).subrange(0, 16) == encoding(c.read_value),
        encoding(c).subrange(16, 32) == encoding(c.dictionary_get),
        encoding(c).subrange(32, 52) == encoding(c.write),
        encoding(c).subrange(52, 72) == encoding(c.dictionary_put),
        encoding(c).subrange(72, 92) == encoding(c.add),
        encoding(c).subrange(92, 108) == encoding(c.new_uref),
        encoding(c).subrange(108, 120) == encoding(c.load_named_keys),
        encoding(c).subrange(120, 132) == encoding(c.ret),
        encoding(c).subrange(132, 156) == encoding(c.get_key),
        encoding(c).subrange(156, 168) == encoding(c.has_key),
        encoding(c).subrange(168, 188) == encoding(c.put_key),
        encoding(c).subrange(188, 200) == encoding(c.remove_key),
        encoding(c).subrange(200, 208) == encoding(c.revert),
        encoding(c).subrange(208, 220) == encoding(c.is_valid_uref),
        encoding(c).subrange(220, 236) == encoding(c.add_associated_key),
        encoding(c).subrange(236, 248) == encoding(c.remove_associated_key),
        encoding(c).subrange(248, 264) == encoding(c.update_associated_key),
        encoding(c).subrange(264, 276) == encoding(c.set_action_threshold),
        encoding(c).subrange(276, 284) == encoding(c.get_caller),
        encoding(c).subrange(284, 292) == encoding(c.get_blocktime),
        encoding(c).subrange(292, 304) == encoding(c.create_purse),
        encoding(c).subrange(304, 336) == encoding(c.transfer_to_account),
        encoding(c).subrange(336, 376) == encoding(c.transfer_from_purse_to_account),
        encoding(c).subrange(376, 412) == encoding(c.transfer_from_purse_to_purse),
        encoding(c).subrange(412, 428) == encoding(c.get_balance),
        encoding(c).subrange(428, 436) == encoding(c.get_phase),
        encoding(c).subrange(436, 452) == encoding(c.get_system_contract),
        encoding(c).subrange(452, 460) == encoding(c.get_main_purse),
        encoding(c).subrange(460, 476) == encoding(c.read_host_buffer),
        encoding(c).subrange(476, 488) == encoding(c.create_contract_package_at_hash),
        encoding(c).subrange(488, 524) == encoding(c.create_contract_user_group),
        encoding(c).subrange(524, 568) == encoding(c.add_contract_version),
        encoding(c).subrange(568, 588) == encoding(c.disable_contract_version),
        encoding(c).subrange(588, 620) == encoding(c.call_contract),
        encoding(c).subrange(620, 660) == encoding(c.call_versioned_contract),
        encoding(c).subrange(660, 676) == encoding(c.get_named_arg_size),
        encoding(c).subrange(676, 696) == encoding(c.get_named_arg),
        encoding(c).subrange(696, 716) == encoding(c.remove_contract_user_group),
        encoding(c).subrange(716, 740) == encoding(c.provision_contract_user_group_uref),
        encoding(c).subrange(740, 768) == encoding(c.remove_contract_user_group_urefs),
        encoding(c).subrange(768, 780) == encoding(c.print),
        encoding(c).subrange(780, 800) == encoding(c.blake2b),
        encoding(c).subrange(800, 812) == encoding(c.random_bytes),
        encoding(c).subrange(812, 832) == encoding(c.enable_contract_version),
{
    c.lemma_words();
    lemma_encoding_len(c);
    let ws = c.words();
    HostFunction::<3>::lemma_from_words(ws.subrange(0, 4));
    lemma_encode_words_subrange(ws, 0, 4);
    HostFunction::<3>::lemma_from_words(ws.subrange(4, 8));
    lemma_encode_words_subrange(ws, 4, 8);
    HostFunction::<4>::lemma_from_words(ws.subrange(8, 13));
    lemma_encode_words_subrange(ws, 8, 13);
    HostFunction::<4>::lemma_from_words(ws.subrange(13, 18));
    lemma_encode_words_subrange(ws, 13, 18);
    HostFunction::<4>::lemma_from_words(ws.subrange(18, 23));
    lemma_encode_words_subrange(ws, 18, 23);
    HostFunction::<3>::lemma_from_words(ws.subrange(23, 27));
    lemma_encode_words_subrange(ws, 23, 27);
    HostFunction::<2>::lemma_from_words(ws.subrange(27, 30));
    lemma_encode_words_subrange(ws, 27, 30);
    HostFunction::<2>::lemma_from_words(ws.subrange(30, 33));
    lemma_encode_words_subrange(ws, 30, 33);
    HostFunction::<5>::lemma_from_words(ws.subrange(33, 39));
    lemma_encode_words_subrange(ws, 33, 39);
    HostFunction::<2>::lemma_from_words(ws.subrange(39, 42));
    lemma_encode_words_subrange(ws, 39, 42);
    HostFunction::<4>::lemma_from_words(ws.subrange(42, 47));
    lemma_encode_words_subrange(ws, 42, 47);
    HostFunction::<2>::lemma_from_words(ws.subrange(47, 50));
    lemma_encode_words_subrange(ws, 47, 50);
    HostFunction::<1>::lemma_from_words(ws.subrange(50, 52));
    lemma_encode_words_subrange(ws, 50, 52);
    HostFunction::<2>::lemma_from_words(ws.subrange(52, 55));
    lemma_encode_words_subrange(ws, 52, 55);
    HostFunction::<3>::lemma_from_words(ws.subrange(55, 59));
    lemma_encode_words_subrange(ws, 55, 59);
    HostFunction::<2>::lemma_from_words(ws.subrange(59, 62));
    lemma_encode_words_subrange(ws, 59, 62);
    HostFunction::<3>::lemma_from_words(ws.subrange(62, 66));
    lemma_encode_words_subrange(ws, 62, 66);
    HostFunction::<2>::lemma_from_words(ws.subrange(66, 69));
    lemma_encode_words_subrange(ws, 66, 69);
    HostFunction::<1>::lemma_from_words(ws.subrange(69, 71));
    lemma_encode_words_subrange(ws, 69, 71);
    HostFunction::<1>::lemma_from_words(ws.subrange(71, 73));
    lemma_encode_words_subrange(ws, 71, 73);
    HostFunction::<2>::lemma_from_words(ws.subrange(73, 76));
    lemma_encode_words_subrange(ws, 73, 76);
    HostFunction::<7>::lemma_from_words(ws.subrange(76, 84));
    lemma_encode_words_subrange(ws, 76, 84);
    HostFunction::<9>::lemma_from_words(ws.subrange(84, 94));
    lemma_encode_words_subrange(ws, 84, 94);
    HostFunction::<8>::lemma_from_words(ws.subrange(94, 103));
    lemma_encode_words_subrange(ws, 94, 103);
    HostFunction::<3>::lemma_from_words(ws.subrange(103, 107));
    lemma_encode_words_subrange(ws, 103, 107);
    HostFunction::<1>::lemma_from_words(ws.subrange(107, 109));
    lemma_encode_words_subrange(ws, 107, 109);
    HostFunction::<3>::lemma_from_words(ws.subrange(109, 113));
    lemma_encode_words_subrange(ws, 109, 113);
    HostFunction::<1>::lemma_from_words(ws.subrange(113, 115));
    lemma_encode_words_subrange(ws, 113, 115);
    HostFunction::<3>::lemma_from_words(ws.subrange(115, 119));
    lemma_encode_words_subrange(ws, 115, 119);
    HostFunction::<2>::lemma_from_words(ws.subrange(119, 122));
    lemma_encode_words_subrange(ws, 119, 122);
    HostFunction::<8>::lemma_from_words(ws.subrange(122, 131));
    lemma_encode_words_subrange(ws, 122, 131);
    HostFunction::<10>::lemma_from_words(ws.subrange(131, 142));
    lemma_encode_words_subrange(ws, 131, 142);
    HostFunction::<4>::lemma_from_words(ws.subrange(142, 147));
    lemma_encode_words_subrange(ws, 142, 147);
    HostFunction::<7>::lemma_from_words(ws.subrange(147, 155));
    lemma_encode_words_subrange(ws, 147, 155);
    HostFunction::<9>::lemma_from_words(ws.subrange(155, 165));
    lemma_encode_words_subrange(ws, 155, 165);
    HostFunction::<3>::lemma_from_words(ws.subrange(165, 169));
    lemma_encode_words_subrange(ws, 165, 169);
    HostFunction::<4>::lemma_from_words(ws.subrange(169, 174));
    lemma_encode_words_subrange(ws, 169, 174);
    HostFunction::<4>::lemma_from_words(ws.subrange(174, 179));
    lemma_encode_words_subrange(ws, 174, 179);
    HostFunction::<5>::lemma_from_words(ws.subrange(179, 185));
    lemma_encode_words_subrange(ws, 179, 185);
    HostFunction::<6>::lemma_from_words(ws.subrange(185, 192));
    lemma_encode_words_subrange(ws, 185, 192);
    HostFunction::<2>::lemma_from_words(ws.subrange(192, 195));
    lemma_encode_words_subrange(ws, 192, 195);
    HostFunction::<4>::lemma_from_words(ws.subrange(195, 200));
    lemma_encode_words_subrange(ws, 195, 200);
    HostFunction::<2>::lemma_from_words(ws.subrange(200, 203));
    lemma_encode_words_subrange(ws, 200, 203);
    HostFunction::<4>::lemma_from_words(ws.subrange(203, 208));
    lemma_encode_words_subrange(ws, 203, 208);
}

/// A read of the table takes its fields from the front of `bytes` in the
/// order they are written, each `u32` from its four little-endian bytes, and
/// leaves the rest.
pub proof fn lemma_host_function_costs_read(bytes: Seq<u8>, r: Result<(HostFunctionCosts, &[u8]), Error>)
    requires
        parsed_as::<HostFunctionCosts>(bytes, r),
        r is Ok,
    ensures
        encoding(r->Ok_0.0.read_value) == bytes.subrange(0, 16),
        encoding(r->Ok_0.0.dictionary_get) == bytes.subrange(16, 32),
        encoding(r->Ok_0.0.write) == bytes.subrange(32, 52),
        encoding(r->Ok_0.0.dictionary_put) == bytes.subrange(52, 72),
        encoding(r->Ok_0.0.add) == bytes.subrange(72, 92),
        encoding(r->Ok_0.0.new_uref) == bytes.subrange(92, 108),
        encoding(r->Ok_0.0.load_named_keys) == bytes.subrange(108, 120),
        encoding(r->Ok_0.0.ret) == bytes.subrange(120, 132),
        encoding(r->Ok_0.0.get_key) == bytes.subrange(132, 156),
        encoding(r->Ok_0.0.has_key) == bytes.subrange(156, 168),
        encoding(r->Ok_0.0.put_key) == bytes.subrange(168, 188),
        encoding(r->Ok_0.0.remove_key) == bytes.subrange(188, 200),
        encoding(r->Ok_0.0.revert) == bytes.subrange(200, 208),
        encoding(r->Ok_0.0.is_valid_uref) == bytes.subrange(208, 220),
        encoding(r->Ok_0.0.add_associated_key) == bytes.subrange(220, 236),
        encoding(r->Ok_0.0.remove_associated_key) == bytes.subrange(236, 248),
        encoding(r->Ok_0.0.update_associated_key) == bytes.subrange(248, 264),
        encoding(r->Ok_0.0.set_action_threshold) == bytes.subrange(264, 276),
        encoding(r->Ok_0.0.get_caller) == bytes.subrange(276, 284),
        encoding(r->Ok_0.0.get_blocktime) == bytes.subrange(284, 292),
        encoding(r->Ok_0.0.create_purse) == bytes.subrange(292, 304),
        encoding(r->Ok_0.0.transfer_to_account) == bytes.subrange(304, 336),
        encoding(r->Ok_0.0.transfer_from_purse_to_account) == bytes.subrange(336, 376),
        encoding(r->Ok_0.0.transfer_from_purse_to_purse) == bytes.subrange(376, 412),
        encoding(r->Ok_0.0.get_balance) == bytes.subrange(412, 428),
        encoding(r->Ok_0.0.get_phase) == bytes.subrange(428, 436),
        encoding(r->Ok_0.0.get_system_contract) == bytes.subrange(436, 452),
        encoding(r->Ok_0.0.get_main_purse) == bytes.subrange(452, 460),
        encoding(r->Ok_0.0.read_host_buffer) == bytes.subrange(460, 476),
        encoding(r->Ok_0.0.create_contract_package_at_hash) == bytes.subrange(476, 488),
        encoding(r->Ok_0.0.create_contract_user_group) == bytes.subrange(488, 524),
        encoding(r->Ok_0.0.add_contract_version) == bytes.subrange(524, 568),
        encoding(r->Ok_0.0.disable_contract_version) == bytes.subrange(568, 588),
        encoding(r->Ok_0.0.call_contract) == bytes.subrange(588, 620),
        encoding(r->Ok_0.0.call_versioned_contract) == bytes.subrange(620, 660),
        encoding(r->Ok_0.0.get_named_arg_size) == bytes.subrange(660, 676),
        encoding(r->Ok_0.0.get_named_arg) == bytes.subrange(676, 696),
        encoding(r->Ok_0.0.remove_contract_user_group) == bytes.subrange(696, 716),
        encoding(r->Ok_0.0.provision_contract_user_group_uref) == bytes.subrange(716, 740),
        encoding(r->Ok_0.0.remove_contract_user_group_urefs) == bytes.subrange(740, 768),
        encoding(r->Ok_0.0.print) == bytes.subrange(768, 780),
        encoding(r->Ok_0.0.blake2b) == bytes.subrange(780, 800),
        encoding(r->Ok_0.0.random_bytes) == bytes.subrange(800, 812),
        encoding(r->Ok_0.0.enable_contract_version) == bytes.subrange(812, 832),
        r->Ok_0.1@ == bytes.skip(832),
{
    reveal(parsed_as);
    let v = r->Ok_0.0;
    lemma_encoding_of_parse::<HostFunctionCosts>(bytes);
    lemma_host_function_costs_layout(v);
    let e = encoding(v);
    assert(bytes.take(832) =~= e);
    assert(bytes.subrange(0, 16) =~= e.subrange(0, 16));
    assert(bytes.subrange(16, 32) =~= e.subrange(16, 32));
    assert(bytes.subrange(32, 52) =~= e.subrange(32, 52));
    assert(bytes.subrange(52, 72) =~= e.subrange(52, 72));
    assert(bytes.subrange(72, 92) =~= e.subrange(72, 92));
    assert(bytes.subrange(92, 108) =~= e.subrange(92, 108));
    assert(bytes.subrange(108, 120) =~= e.subrange(108, 120));
    assert(bytes.subrange(120, 132) =~= e.subrange(120, 132));
    assert(bytes.subrange(132, 156) =~= e.subrange(132, 156));
    assert(bytes.subrange(156, 168) =~= e.subrange(156, 168));
    assert(bytes.subrange(168, 188) =~= e.subrange(168, 188));
    assert(bytes.subrange(188, 200) =~= e.subrange(188, 200));
    assert(bytes.subrange(200, 208) =~= e.subrange(200, 208));
    assert(bytes.subrange(208, 220) =~= e.subrange(208, 220));
    assert(bytes.subrange(220, 236) =~= e.subrange(220, 236));
    assert(bytes.subrange(236, 248) =~= e.subrange(236, 248));
    assert(bytes.subrange(248, 264) =~= e.subrange(248, 264));
    assert(bytes.subrange(264, 276) =~= e.subrange(264, 276));
    assert(bytes.subrange(276, 284) =~= e.subrange(276, 284));
    assert(bytes.subrange(284, 292) =~= e.subrange(284, 292));
    assert(bytes.subrange(292, 304) =~= e.subrange(292, 304));
    assert(bytes.subrange(304, 336) =~= e.subrange(304, 336));
    assert(bytes.subrange(336, 376) =~= e.subrange(336, 376));
    assert(bytes.subrange(376, 412) =~= e.subrange(376, 412));
    assert(bytes.subrange(412, 428) =~= e.subrange(412, 428));
    assert(bytes.subrange(428, 436) =~= e.subrange(428, 436));
    assert(bytes.subrange(436, 452) =~= e.subrange(436, 452));
    assert(bytes.subrange(452, 460) =~= e.subrange(452, 460));
    assert(bytes.subrange(460, 476) =~= e.subrange(460, 476));
    assert(bytes.subrange(476, 488) =~= e.subrange(476, 488));
    assert(bytes.subrange(488, 524) =~= e.subrange(488, 524));
    assert(bytes.subrange(524, 568) =~= e.subrange(524, 568));
    assert(bytes.subrange(568, 588) =~= e.subrange(568, 588));
    assert(bytes.subrange(588, 620) =~= e.subrange(588, 620));
    assert(bytes.subrange(620, 660) =~= e.subrange(620, 660));
    assert(bytes.subrange(660, 676) =~= e.subrange(660, 676));
    assert(bytes.subrange(676, 696) =~= e.subrange(676, 696));
    assert(bytes.subrange(696, 716) =~= e.subrange(696, 716));
    assert(bytes.subrange(716, 740) =~= e.subrange(716, 740));
    assert(bytes.subrange(740, 768) =~= e.subrange(740, 768));
    assert(bytes.subrange(768, 780) =~= e.subrange(768, 780));
    assert(bytes.subrange(780, 800) =~= e.subrange(780, 800));
    assert(bytes.subrange(800, 812) =~= e.subrange(800, 812));
    assert(bytes.subrange(812, 832) =~= e.subrange(812, 832));
}

/// A default HostFunctionCosts holds the chainspec's default values.
pub proof fn lemma_host_function_costs_default_values(c: HostFunctionCosts)
    requires
        c.is_default_table(),
    ensures
        c.read_value.spec_cost() == 6000,
        c.read_value.spec_arguments() == seq![0u32, 0u32, 0u32],
        c.dictionary_get.spec_cost() == 5500,
        c.dictionary_get.spec_arguments() == seq![0u32, 590, 0],
        c.write.spec_cost() == 14_000,
        c.write.spec_arguments() == seq![0u32, 0, 0, 980],
        c.dictionary_put.spec_cost() == 9500,
        c.dictionary_put.spec_arguments() == seq![0u32, 1800, 0, 520],
        c.add.spec_cost() == 5800,
        c.add.spec_arguments() == seq![0u32, 0u32, 0u32, 0u32],
        c.new_uref.spec_cost() == 17_000,
        c.new_uref.spec_arguments() == seq![0u32, 0, 590],
        c.load_named_keys.spec_cost() == 42_000,
        c.load_named_keys.spec_arguments() == seq![0u32, 0u32],
        c.ret.spec_cost() == 23_000,
        c.ret.spec_arguments() == seq![0u32, 420_000],
        c.get_key.spec_cost() == 2000,
        c.get_key.spec_arguments() == seq![0u32, 440, 0, 0, 0],
        c.has_key.spec_cost() == 1500,
        c.has_key.spec_arguments() == seq![0u32, 840],
        c.put_key.spec_cost() == 38_000,
        c.put_key.spec_arguments() == seq![0u32, 1100, 0, 0],
        c.remove_key.spec_cost() == 61_000,
        c.remove_key.spec_arguments() == seq![0u32, 3200],
        c.revert.spec_cost() == 500,
        c.revert.spec_arguments() == seq![0u32],
        c.is_valid_uref.spec_cost() == 760,
        c.is_valid_uref.spec_arguments() == seq![0u32, 0u32],
        c.add_associated_key.spec_cost() == 9000,
        c.add_associated_key.spec_arguments() == seq![0u32, 0u32, 0u32],
        c.remove_associated_key.spec_cost() == 4200,
        c.remove_associated_key.spec_arguments() == seq![0u32, 0u32],
        c.update_associated_key.spec_cost() == 4200,
        c.update_associated_key.spec_arguments() == seq![0u32, 0u32, 0u32],
        c.set_action_threshold.spec_cost() == 74_000,
        c.set_action_threshold.spec_arguments() == seq![0u32, 0u32],
        c.get_caller.spec_cost() == 380,
        c.get_caller.spec_arguments() == seq![0u32],
        c.get_blocktime.spec_cost() == 330,
        c.get_blocktime.spec_arguments() == seq![0u32],
        c.create_purse.spec_cost() == 2_500_000_000,
        c.create_purse.spec_arguments() == seq![0u32, 0u32],
        c.transfer_to_account.spec_cost() == 2_500_000_000,
        c.transfer_to_account.spec_arguments() == seq![0u32, 0u32, 0u32, 0u32, 0u32, 0u32, 0u32],
        c.transfer_from_purse_to_account.spec_cost() == 2_500_000_000,
        c.transfer_from_purse_to_account.spec_arguments() == seq![0u32, 0u32, 0u32, 0u32, 0u32, 0u32, 0u32, 0u32, 0u32],
        c.transfer_from_purse_to_purse.spec_cost() == 82_000,
        c.transfer_from_purse_to_purse.spec_arguments() == seq![0u32, 0u32, 0u32, 0u32, 0u32, 0u32, 0u32, 0u32],
        c.get_balance.spec_cost() == 3800,
        c.get_balance.spec_arguments() == seq![0u32, 0u32, 0u32],
        c.get_phase.spec_cost() == 710,
        c.get_phase.spec_arguments() == seq![0u32],
        c.get_system_contract.spec_cost() == 1100,
        c.get_system_contract.spec_arguments() == seq![0u32, 0u32, 0u32],
        c.get_main_purse.spec_cost() == 1300,
        c.get_main_purse.spec_arguments() == seq![0u32],
        c.read_host_buffer.spec_cost() == 3500,
        c.read_host_buffer.spec_arguments() == seq![0u32, 310, 0],
        c.create_contract_package_at_hash.spec_cost() == 200,
        c.create_contract_package_at_hash.spec_arguments() == seq![0u32, 0u32],
        c.create_contract_user_group.spec_cost() == 200,
        c.create_contract_user_group.spec_arguments() == seq![0u32, 0u32, 0u32, 0u32, 0u32, 0u32, 0u32, 0u32],
        c.add_contract_version.spec_cost() == 200,
        c.add_contract_version.spec_arguments() == seq![0u32, 0u32, 0u32, 0u32, 0u32, 0u32, 0u32, 0u32, 0u32, 0u32],
        c.disable_contract_version.spec_cost() == 200,
        c.disable_contract_version.spec_arguments() == seq![0u32, 0u32, 0u32, 0u32],
        c.call_contract.spec_cost() == 4500,
        c.call_contract.spec_arguments() == seq![0u32, 0, 0, 0, 0, 420, 0],
        c.call_versioned_contract.spec_cost() == 4500,
        c.call_versioned_contract.spec_arguments() == seq![0u32, 0, 0, 0, 0, 0, 0, 420, 0],
        c.get_named_arg_size.spec_cost() == 200,
        c.get_named_arg_size.spec_arguments() == seq![0u32, 0u32, 0u32],
        c.get_named_arg.spec_cost() == 200,
        c.get_named_arg.spec_arguments() == seq![0u32, 0u32, 0u32, 0u32],
        c.remove_contract_user_group.spec_cost() == 200,
        c.remove_contract_user_group.spec_arguments() == seq![0u32, 0u32, 0u32, 0u32],
        c.provision_contract_user_group_uref.spec_cost() == 200,
        c.provision_contract_user_group_uref.spec_arguments() == seq![0u32, 0u32, 0u32, 0u32, 0u32],
        c.remove_contract_user_group_urefs.spec_cost() == 200,
        c.remove_contract_user_group_urefs.spec_arguments() == seq![0u32, 0u32, 0u32, 0u32, 0u32, 0u32],
        c.print.spec_cost() == 20_000,
        c.print.spec_arguments() == seq![0u32, 4600],
        c.blake2b.spec_cost() == 200,
        c.blake2b.spec_arguments() == seq![0u32, 0u32, 0u32, 0u32],
        c.random_bytes.spec_cost() == 200,
        c.random_bytes.spec_arguments() == seq![0u32, 0u32],
        c.enable_contract_version.spec_cost() == 200,
        c.enable_contract_version.spec_arguments() == seq![0u32, 0u32, 0u32, 0u32],
{
}

} // verus!
