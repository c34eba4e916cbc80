use evm_core::gas::DynamicGasParams;
use evm_core::gas::GasError;
use evm_core::gas::GasMeter;
use evm_core::memory::Memory;
use evm_core::opcodes::Opcode;
use evm_core::word::Word;

#[test]
fn test_dynamic_gas_cost_data_copy() {
    let gas_meter = GasMeter::new(1000000);

    // Test CALLDATACOPY with 64 bytes (2 words)
    let params = DynamicGasParams::new().with_size(64);
    let cost = gas_meter.dynamic_gas_cost(Opcode::Calldatacopy, &params);
    assert_eq!(cost, 6); // 3 gas per word * 2 words

    // Test with partial word
    let params = DynamicGasParams::new().with_size(33);
    let cost = gas_meter.dynamic_gas_cost(Opcode::Calldatacopy, &params);
    assert_eq!(cost, 6); // Still 2 words (33 bytes rounds up)
}

#[test]
fn test_dynamic_gas_cost_keccak256() {
    let gas_meter = GasMeter::new(1000000);

    // Test KECCAK256 with 32 bytes (1 word)
    let params = DynamicGasParams::new().with_size(32);
    let cost = gas_meter.dynamic_gas_cost(Opcode::Keccak256, &params);
    assert_eq!(cost, 6); // 6 gas per word

    // Test with larger data
    let params = DynamicGasParams::new().with_size(128);
    let cost = gas_meter.dynamic_gas_cost(Opcode::Keccak256, &params);
    assert_eq!(cost, 24); // 6 gas per word * 4 words
}

#[test]
fn test_dynamic_gas_cost_exp() {
    let gas_meter = GasMeter::new(1000000);

    // Test EXP with zero exponent
    let params = DynamicGasParams::new().with_exponent(Word::zero());
    let cost = gas_meter.dynamic_gas_cost(Opcode::Exp, &params);
    assert_eq!(cost, 0);

    // Test EXP with small exponent (1 byte)
    let params = DynamicGasParams::new().with_exponent(Word::from_u64(255));
    let cost = gas_meter.dynamic_gas_cost(Opcode::Exp, &params);
    assert_eq!(cost, 50); // 50 gas per byte * 1 byte

    // Test EXP with larger exponent (2 bytes)
    let params = DynamicGasParams::new().with_exponent(Word::from_u64(256));
    let cost = gas_meter.dynamic_gas_cost(Opcode::Exp, &params);
    assert_eq!(cost, 100); // 50 gas per byte * 2 bytes
}

#[test]
fn test_dynamic_gas_cost_logging() {
    let gas_meter = GasMeter::new(1000000);

    // Test LOG0 with data
    let params = DynamicGasParams::new().with_size(100);
    let cost = gas_meter.dynamic_gas_cost(Opcode::Log0, &params);
    assert_eq!(cost, 800); // 8 gas per byte * 100 bytes

    // Test LOG2 with same data (base cost is different but dynamic cost is same)
    let cost = gas_meter.dynamic_gas_cost(Opcode::Log2, &params);
    assert_eq!(cost, 800); // 8 gas per byte * 100 bytes
}

#[test]
fn test_sstore_gas_calculation() {
    let gas_meter = GasMeter::new(1000000);

    // Setting a new value (from zero)
    let cost = gas_meter.calculate_sstore_cost(
        Word::zero(),       // current
        Word::zero(),       // original
        Word::from_u64(42), // new
    );
    assert_eq!(cost, 20000); // SSTORE_SET_GAS

    // Modifying existing value
    let cost = gas_meter.calculate_sstore_cost(
        Word::from_u64(42), // current
        Word::from_u64(42), // original (same as current)
        Word::from_u64(24), // new
    );
    assert_eq!(cost, 5000); // SSTORE_RESET_GAS

    // No change
    let cost = gas_meter.calculate_sstore_cost(
        Word::from_u64(42), // current
        Word::from_u64(42), // original
        Word::from_u64(42), // new (same as current)
    );
    assert_eq!(cost, 800); // SLOAD_GAS
}

#[test]
fn test_dynamic_gas_params_builder() {
    let params = DynamicGasParams::new()
        .with_size(64)
        .with_exponent(Word::from_u64(256))
        .with_storage_values(Word::zero(), Word::zero(), Word::from_u64(42))
        .with_call_params(Word::from_u64(1000), true)
        .with_balance(Word::from_u64(5000));

    assert_eq!(params.size, 64);
    assert_eq!(params.exponent, Word::from_u64(256));
    assert_eq!(params.new_value, Word::from_u64(42));
    assert_eq!(params.value, Word::from_u64(1000));
    assert_eq!(params.balance, Word::from_u64(5000));
    assert!(params.is_account_empty);
}

#[test]
fn test_sstore_dirty_slot_change() {
    let gas_meter = GasMeter::new(1000000);
    // The slot was already changed earlier in the transaction, so a further
    // change is cheap again.
    let cost = gas_meter.calculate_sstore_cost(
        Word::from_u64(24), // current
        Word::from_u64(42), // original
        Word::from_u64(99), // new
    );
    assert_eq!(cost, 800); // SLOAD_GAS
}

#[test]
fn test_consume_gas_atomic_rejection() {
    let mut meter = GasMeter::new(100);
    assert!(meter.consume_gas(60).is_ok());
    assert_eq!(meter.total_gas_used(), 60);
    // This charge would exceed the limit: rejected, nothing consumed.
    assert_eq!(meter.consume_gas(50), Err(GasError::GasLimitExceeded));
    assert_eq!(meter.total_gas_used(), 60);
    assert_eq!(meter.remaining_gas(), 40);
    // An exact fit is accepted.
    assert!(meter.consume_gas(40).is_ok());
    assert_eq!(meter.total_gas_used(), 100);
    assert_eq!(meter.remaining_gas(), 0);
}

#[test]
fn test_refund_gas_saturates() {
    let mut meter = GasMeter::new(1000);
    assert!(meter.refund_gas(u64::MAX).is_ok());
    assert!(meter.refund_gas(1).is_ok());
    // The accumulator saturates instead of wrapping, so the effective gas
    // used still comes out as zero.
    assert_eq!(meter.effective_gas_used(), 0);
}

#[test]
fn test_effective_gas_used() {
    let mut meter = GasMeter::new(1000);
    meter.consume_gas(100).unwrap();
    meter.refund_gas(30).unwrap();
    assert_eq!(meter.effective_gas_used(), 70);
    // A refund larger than the use saturates to zero.
    meter.refund_gas(200).unwrap();
    assert_eq!(meter.effective_gas_used(), 0);
    assert_eq!(meter.total_gas_used(), 100);
}

#[test]
fn test_reset() {
    let mut meter = GasMeter::new(1000);
    meter.consume_gas(500).unwrap();
    meter.refund_gas(10).unwrap();
    meter.reset(2000);
    assert_eq!(meter.total_gas_used(), 0);
    assert_eq!(meter.remaining_gas(), 2000);
    assert_eq!(meter.effective_gas_used(), 0);
}

#[test]
fn test_memory_expansion_cost_literals() {
    let meter = GasMeter::new(1000000);
    // One word: 3*1 + 1/512 = 3.
    assert_eq!(meter.memory_expansion_cost(0, 32), 3);
    // 32 words (1001 bytes round up): 3*32 + 32*32/512 = 96 + 2 = 98.
    assert_eq!(meter.memory_expansion_cost(0, 1001), 98);
    // Growing from 1 word to 2 words: 6 - 3 = 3.
    assert_eq!(meter.memory_expansion_cost(32, 64), 3);
}

#[test]
fn test_memory_expansion_cost_zero_when_not_growing() {
    let meter = GasMeter::new(1000000);
    assert_eq!(meter.memory_expansion_cost(100, 50), 0);
    assert_eq!(meter.memory_expansion_cost(100, 100), 0);
    assert_eq!(meter.memory_expansion_cost(0, 0), 0);
}

#[test]
fn test_update_memory_cost_end_to_end() {
    // Write a byte at address 1000 in fresh memory, then bill the growth.
    let mut meter = GasMeter::new(100000);
    let mut memory = Memory::new();
    memory.write_byte(1000, 0xab).unwrap();
    assert!(meter.update_memory_cost(&memory).is_ok());
    assert_eq!(meter.total_gas_used(), meter.memory_expansion_cost(0, 1001));
    assert_eq!(meter.total_gas_used(), 98);
    // The new size was recorded: billing again for the same memory is free.
    assert!(meter.update_memory_cost(&memory).is_ok());
    assert_eq!(meter.total_gas_used(), 98);
}

#[test]
fn test_update_memory_cost_rejected() {
    let mut meter = GasMeter::new(50);
    let mut memory = Memory::new();
    memory.write_byte(1000, 0xab).unwrap();
    // The expansion costs 98, more than the whole budget: rejected whole.
    assert_eq!(meter.update_memory_cost(&memory), Err(GasError::GasLimitExceeded));
    assert_eq!(meter.total_gas_used(), 0);
}

#[test]
fn test_opcode_cost_literals() {
    let meter = GasMeter::new(1000000);
    assert_eq!(meter.opcode_cost(Opcode::Stop), 0);
    assert_eq!(meter.opcode_cost(Opcode::Add), 3);
    assert_eq!(meter.opcode_cost(Opcode::Mul), 5);
    assert_eq!(meter.opcode_cost(Opcode::Addmod), 8);
    assert_eq!(meter.opcode_cost(Opcode::Balance), 2600);
    assert_eq!(meter.opcode_cost(Opcode::Sload), 2100);
    assert_eq!(meter.opcode_cost(Opcode::Sstore), 22100);
    assert_eq!(meter.opcode_cost(Opcode::Tload), 100);
    assert_eq!(meter.opcode_cost(Opcode::Jumpdest), 1);
    assert_eq!(meter.opcode_cost(Opcode::Push7), 2);
    assert_eq!(meter.opcode_cost(Opcode::Dup16), 3);
    assert_eq!(meter.opcode_cost(Opcode::Swap1), 3);
    assert_eq!(meter.opcode_cost(Opcode::Log0), 375);
    assert_eq!(meter.opcode_cost(Opcode::Log4), 1875);
    assert_eq!(meter.opcode_cost(Opcode::Create), 32000);
    assert_eq!(meter.opcode_cost(Opcode::Call), 2600);
    assert_eq!(meter.opcode_cost(Opcode::Selfdestruct), 5000);
}

#[test]
fn test_dynamic_gas_cost_create_family() {
    let meter = GasMeter::new(1000000);
    let params = DynamicGasParams::new().with_size(100);
    // 2 gas per init-code byte.
    assert_eq!(meter.dynamic_gas_cost(Opcode::Create, &params), 200);
    // CREATE2 adds 6 gas per word of hashing: 200 + 6*4.
    assert_eq!(meter.dynamic_gas_cost(Opcode::Create2, &params), 224);
}

#[test]
fn test_dynamic_gas_cost_call_family() {
    let meter = GasMeter::new(1000000);
    // Value transfer to an empty account, with 64 bytes of call data.
    let params = DynamicGasParams::new()
        .with_size(64)
        .with_call_params(Word::from_u64(1), true);
    assert_eq!(meter.dynamic_gas_cost(Opcode::Call, &params), 9000 + 25000 + 2);
    // Value transfer to an existing account.
    let params = DynamicGasParams::new()
        .with_size(64)
        .with_call_params(Word::from_u64(1), false);
    assert_eq!(meter.dynamic_gas_cost(Opcode::Call, &params), 9002);
    // No value, no data.
    let params = DynamicGasParams::new();
    assert_eq!(meter.dynamic_gas_cost(Opcode::Call, &params), 0);
    // Only CALL pays for value transfer.
    let params = DynamicGasParams::new()
        .with_size(64)
        .with_call_params(Word::from_u64(1), true);
    assert_eq!(meter.dynamic_gas_cost(Opcode::Delegatecall, &params), 2);
    assert_eq!(meter.dynamic_gas_cost(Opcode::Staticcall, &params), 2);
}

#[test]
fn test_dynamic_gas_cost_selfdestruct() {
    let meter = GasMeter::new(1000000);
    // Transfer of a nonzero balance to an empty account.
    let params = DynamicGasParams::new()
        .with_call_params(Word::zero(), true)
        .with_balance(Word::from_u64(5));
    assert_eq!(meter.dynamic_gas_cost(Opcode::Selfdestruct, &params), 25000);
    // Empty account but nothing to transfer.
    let params = DynamicGasParams::new().with_call_params(Word::zero(), true);
    assert_eq!(meter.dynamic_gas_cost(Opcode::Selfdestruct, &params), 0);
    // Nonzero balance but the account exists.
    let params = DynamicGasParams::new().with_balance(Word::from_u64(5));
    assert_eq!(meter.dynamic_gas_cost(Opcode::Selfdestruct, &params), 0);
}

#[test]
fn test_dynamic_gas_cost_default_zero() {
    let meter = GasMeter::new(1000000);
    let params = DynamicGasParams::new().with_size(1000);
    assert_eq!(meter.dynamic_gas_cost(Opcode::Add, &params), 0);
    assert_eq!(meter.dynamic_gas_cost(Opcode::Jumpdest, &params), 0);
    assert_eq!(meter.dynamic_gas_cost(Opcode::Sload, &params), 0);
}
