use casper_types::{Gas, U512};
use schultz::bytesrepr::Error;
use schultz::primitives::{
    AuctionCosts, BrTableCost, ControlFlowCosts, HandlePaymentCosts, HostFunction,
    HostFunctionCosts, MintCosts, OpcodeCosts, StandardPaymentCosts, StorageCosts, SystemConfig,
    WasmConfig, DEFAULT_CONTROL_FLOW_BR_TABLE_MULTIPLIER, DEFAULT_CONTROL_FLOW_BR_TABLE_OPCODE,
    DEFAULT_FIXED_COST, DEFAULT_GAS_PER_BYTE_COST, DEFAULT_MAX_STACK_HEIGHT, DEFAULT_PAY_COST,
    DEFAULT_WASMLESS_TRANSFER_COST, DEFAULT_WASM_MAX_MEMORY,
};

fn le_words(words: &[u32]) -> Vec<u8> {
    words.iter().flat_map(|w| w.to_le_bytes()).collect()
}

#[test]
fn br_table_cost_default_and_encoding() {
    let cost = BrTableCost::default();
    assert_eq!(cost.cost, DEFAULT_CONTROL_FLOW_BR_TABLE_OPCODE);
    assert_eq!(cost.size_multiplier, DEFAULT_CONTROL_FLOW_BR_TABLE_MULTIPLIER);
    let bytes = cost.to_bytes().unwrap();
    assert_eq!(bytes, le_words(&[440_000, 100]));
    assert_eq!(bytes, vec![0xc0, 0xb6, 0x06, 0x00, 100, 0, 0, 0]);
    assert_eq!(cost.serialized_length(), 8);
}

#[test]
fn br_table_cost_roundtrip_keeps_the_rest() {
    let cost = BrTableCost { cost: 7, size_multiplier: 0xdead_beef };
    let mut bytes = cost.to_bytes().unwrap();
    bytes.extend_from_slice(&[1, 2, 3]);
    let (read, rest) = BrTableCost::from_bytes(&bytes).unwrap();
    assert_eq!(read, cost);
    assert_eq!(rest, &[1, 2, 3]);
}

#[test]
fn short_input_is_an_early_end_of_stream() {
    assert_eq!(BrTableCost::from_bytes(&[1, 2, 3, 4, 5, 6, 7]), Err(Error::EarlyEndOfStream));
    assert_eq!(BrTableCost::from_bytes(&[]), Err(Error::EarlyEndOfStream));
    assert_eq!(StorageCosts::from_bytes(&[1, 2, 3]).err(), Some(Error::EarlyEndOfStream));
    let bytes = OpcodeCosts::default().to_bytes().unwrap();
    assert_eq!(OpcodeCosts::from_bytes(&bytes[..bytes.len() - 1]).err(), Some(Error::EarlyEndOfStream));
    let bytes = WasmConfig::default().to_bytes().unwrap();
    assert_eq!(WasmConfig::from_bytes(&bytes[..bytes.len() - 1]).err(), Some(Error::EarlyEndOfStream));
    let bytes = SystemConfig::default().to_bytes().unwrap();
    assert_eq!(SystemConfig::from_bytes(&bytes[..40]).err(), Some(Error::EarlyEndOfStream));
}

#[test]
fn control_flow_costs_encoding_is_the_fields_in_order() {
    let costs = ControlFlowCosts::default();
    let bytes = costs.to_bytes().unwrap();
    assert_eq!(
        bytes,
        le_words(&[440, 440, 440, 440, 440, 440_000, 440_000, 440, 140_000, 140_000, 440, 440, 440_000, 100])
    );
    assert_eq!(costs.serialized_length(), 56);
    let (read, rest) = ControlFlowCosts::from_bytes(&bytes).unwrap();
    assert_eq!(read, costs);
    assert!(rest.is_empty());
}

#[test]
fn opcode_costs_default_and_roundtrip() {
    let costs = OpcodeCosts::default();
    assert_eq!(costs.bit, 300);
    assert_eq!(costs.add, 210);
    assert_eq!(costs.grow_memory, 240_000);
    assert_eq!(costs.control_flow, ControlFlowCosts::default());
    let bytes = costs.to_bytes().unwrap();
    assert_eq!(bytes.len(), costs.serialized_length());
    assert_eq!(bytes.len(), 4 * 29);
    assert_eq!(&bytes[..8], &le_words(&[300, 210])[..]);
    let mut changed = costs;
    changed.op_const = 1;
    changed.control_flow.br_table.size_multiplier = 2;
    let bytes = changed.to_bytes().unwrap();
    assert_eq!(&bytes[24..28], &le_words(&[1])[..]);
    assert_eq!(&bytes[112..116], &le_words(&[2])[..]);
    assert_eq!(OpcodeCosts::from_bytes(&bytes).unwrap().0, changed);
}

#[test]
fn storage_costs_roundtrip() {
    let costs = StorageCosts::new(42);
    assert_eq!(costs.to_bytes().unwrap(), vec![42, 0, 0, 0]);
    assert_eq!(StorageCosts::default(), StorageCosts::new(DEFAULT_GAS_PER_BYTE_COST));
    assert_eq!(StorageCosts::from_bytes(&[42, 0, 0, 0, 9]).unwrap(), (costs, &[9u8][..]));
}

#[test]
fn host_function_accessors() {
    let f = HostFunction::new(10, [1, 2, 3]);
    assert_eq!(f.cost(), 10);
    assert_eq!(f.arguments(), &[1, 2, 3]);
    let fixed: HostFunction<4> = HostFunction::fixed(99);
    assert_eq!(fixed.cost(), 99);
    assert_eq!(fixed.arguments(), &[0, 0, 0, 0]);
    let default: HostFunction<2> = HostFunction::default();
    assert_eq!(default.cost(), DEFAULT_FIXED_COST);
    assert_eq!(default.arguments(), &[0, 0]);
}

#[test]
fn host_function_gas_is_cost_plus_weighted_arguments() {
    let f = HostFunction::new(100, [2, 3, 0]);
    assert_eq!(f.gas_units([10, 20, 30]), 100 + 2 * 10 + 3 * 20);
    assert_eq!(f.calculate_gas_cost([10, 20, 30]), Gas::new(U512::from(180u64)));
    let big = HostFunction::new(u32::MAX, [u32::MAX, u32::MAX]);
    let expected = u32::MAX as u128 + 2 * (u32::MAX as u128) * (u32::MAX as u128);
    assert_eq!(big.gas_units([u32::MAX, u32::MAX]), expected);
    assert_eq!(big.calculate_gas_cost([u32::MAX, u32::MAX]), Gas::new(U512::from(expected)));
    let fixed: HostFunction<3> = HostFunction::fixed(7);
    assert_eq!(fixed.gas_units([1000, 2000, 3000]), 7);
}

#[test]
fn host_function_encoding() {
    let f = HostFunction::new(5, [6, 7]);
    let bytes = f.to_bytes().unwrap();
    assert_eq!(bytes, le_words(&[5, 6, 7]));
    assert_eq!(f.serialized_length(), 12);
    let (read, rest) = HostFunction::<2>::from_bytes(&[5, 0, 0, 0, 6, 0, 0, 0, 7, 0, 0, 0, 8]).unwrap();
    assert_eq!(read, f);
    assert_eq!(rest, &[8]);
    assert_eq!(HostFunction::<2>::from_bytes(&bytes[..11]), Err(Error::EarlyEndOfStream));
    assert_eq!(HostFunction::<2>::from_bytes(&bytes[..3]), Err(Error::EarlyEndOfStream));
}

#[test]
fn host_function_costs_default_table() {
    let costs = HostFunctionCosts::default();
    assert_eq!(costs.read_value, HostFunction::fixed(6_000));
    assert_eq!(costs.dictionary_get, HostFunction::new(5_500, [0, 590, 0]));
    assert_eq!(costs.write, HostFunction::new(14_000, [0, 0, 0, 980]));
    assert_eq!(costs.ret, HostFunction::new(23_000, [0, 420_000]));
    assert_eq!(costs.call_versioned_contract, HostFunction::new(4_500, [0, 0, 0, 0, 0, 0, 0, 420, 0]));
    assert_eq!(costs.print, HostFunction::new(20_000, [0, 4_600]));
    assert_eq!(costs.blake2b, HostFunction::default());
    assert_eq!(costs.enable_contract_version.cost(), DEFAULT_FIXED_COST);
}

#[test]
fn host_function_costs_roundtrip() {
    let mut costs = HostFunctionCosts::default();
    costs.enable_contract_version = HostFunction::new(1, [2, 3, 4, 5]);
    let bytes = costs.to_bytes().unwrap();
    assert_eq!(bytes.len(), 4 * 208);
    assert_eq!(costs.serialized_length(), 4 * 208);
    assert_eq!(&bytes[bytes.len() - 20..], &le_words(&[1, 2, 3, 4, 5])[..]);
    assert_eq!(&bytes[..16], &le_words(&[6_000, 0, 0, 0])[..]);
    let (read, rest) = HostFunctionCosts::from_bytes(&bytes).unwrap();
    assert_eq!(read, costs);
    assert!(rest.is_empty());
    assert_eq!(HostFunctionCosts::from_bytes(&bytes[..100]).err(), Some(Error::EarlyEndOfStream));
}

#[test]
fn wasm_config_default_and_roundtrip() {
    let config = WasmConfig::default();
    assert_eq!(config.max_memory, DEFAULT_WASM_MAX_MEMORY);
    assert_eq!(config.max_stack_height, DEFAULT_MAX_STACK_HEIGHT);
    assert_eq!(config.opcode_costs(), OpcodeCosts::default());
    assert_eq!(config.storage_costs(), StorageCosts::default());
    assert_eq!(config.take_host_function_costs(), HostFunctionCosts::default());
    let config = WasmConfig::new(1, 2, OpcodeCosts::default(), StorageCosts::new(3), HostFunctionCosts::default());
    let bytes = config.to_bytes().unwrap();
    assert_eq!(bytes.len(), config.serialized_length());
    assert_eq!(bytes.len(), 4 * (2 + 29 + 1 + 208));
    assert_eq!(&bytes[..8], &le_words(&[1, 2])[..]);
    assert_eq!(&bytes[8 + 4 * 29..12 + 4 * 29], &le_words(&[3])[..]);
    let mut longer = bytes.clone();
    longer.push(0xff);
    let (read, rest) = WasmConfig::from_bytes(&longer).unwrap();
    assert_eq!(read, config);
    assert_eq!(rest, &[0xff]);
}

#[test]
fn system_config_default_and_roundtrip() {
    let config = SystemConfig::default();
    assert_eq!(config.wasmless_transfer_cost(), DEFAULT_WASMLESS_TRANSFER_COST);
    assert_eq!(*config.auction_costs(), AuctionCosts::default());
    assert_eq!(config.auction_costs().add_bid, 2_500_000_000);
    assert_eq!(config.mint_costs().mint, 2_500_000_000);
    assert_eq!(*config.handle_payment_costs(), HandlePaymentCosts::default());
    assert_eq!(config.standard_payment_costs().pay, DEFAULT_PAY_COST);
    let bytes = config.to_bytes().unwrap();
    assert_eq!(bytes.len(), 4 * (1 + 14 + 7 + 4 + 1));
    assert_eq!(config.serialized_length(), bytes.len());
    assert_eq!(&bytes[..4], &le_words(&[100_000_000])[..]);
    let (read, rest) = SystemConfig::from_bytes(&bytes).unwrap();
    assert_eq!(read, config);
    assert!(rest.is_empty());
    let custom = SystemConfig::new(
        1,
        AuctionCosts::default(),
        MintCosts { mint: 9, ..MintCosts::default() },
        HandlePaymentCosts::default(),
        StandardPaymentCosts { pay: 11 },
    );
    let bytes = custom.to_bytes().unwrap();
    assert_eq!(&bytes[bytes.len() - 4..], &le_words(&[11])[..]);
    assert_eq!(&bytes[4 * 15..4 * 16], &le_words(&[9])[..]);
    assert_eq!(SystemConfig::from_bytes(&bytes).unwrap().0, custom);
}

#[test]
fn host_function_layout_is_cost_then_weights() {
    let f = HostFunction::new(5u32, [1u32, 258]);
    assert_eq!(f.to_bytes().unwrap(), vec![5, 0, 0, 0, 1, 0, 0, 0, 2, 1, 0, 0]);
    assert_eq!(f.serialized_length(), 12);
    let bytes = [5u8, 0, 0, 0, 1, 0, 0, 0, 2, 1, 0, 0, 7];
    let (read, rest) = HostFunction::<2>::from_bytes(&bytes).unwrap();
    assert_eq!(read, HostFunction::new(5, [1, 258]));
    assert_eq!(rest, &[7u8][..]);
    assert_eq!(HostFunction::<2>::from_bytes(&bytes[..11]), Err(Error::EarlyEndOfStream));
}

#[test]
fn host_function_costs_entries_are_laid_out_in_order() {
    let costs = HostFunctionCosts::default();
    let bytes = costs.to_bytes().unwrap();
    let mut expected = Vec::new();
    expected.extend(costs.read_value.to_bytes().unwrap());
    expected.extend(costs.dictionary_get.to_bytes().unwrap());
    assert_eq!(&bytes[..expected.len()], &expected[..]);
    assert_eq!(&bytes[..4], &costs.read_value.cost().to_le_bytes());
}

#[test]
fn config_sizes() {
    let wasm = WasmConfig::default();
    assert_eq!(wasm.serialized_length(), 960);
    assert_eq!(wasm.to_bytes().unwrap().len(), 960);
    let system = SystemConfig::default();
    assert_eq!(system.serialized_length(), 108);
    assert_eq!(system.to_bytes().unwrap().len(), 108);
    assert_eq!(StorageCosts::default().serialized_length(), 4);
}
