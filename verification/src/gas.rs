//! The EVM gas meter.
//!
//! Tracks gas consumption against a fixed limit, accumulates refunds, and
//! computes the cost of each opcode: a fixed base cost per instruction, a
//! dynamic cost depending on [`DynamicGasParams`], and the incremental
//! memory-expansion cost derived from [`spec_memory_cost`]. Charges are
//! atomic: a charge that would exceed the limit is rejected and leaves the
//! meter unchanged.

use vstd::prelude::*;

use crate::memory::lemma_memory_cost_monotonic;
use crate::memory::lemma_word_count_monotonic;
use crate::memory::spec_memory_cost;
use crate::memory::spec_word_count;
use crate::memory::Memory;
use crate::memory::MEMORY_MAX_BYTES;
use crate::opcodes::Opcode;
use crate::word::spec_zero_word;
use crate::word::Word;

verus! {

/// Gas charged by an SSTORE that leaves the slot's value unchanged, or
/// changes a slot already changed earlier in the transaction.
pub const SLOAD_GAS: u64 = 800;

/// Gas charged by an SSTORE that establishes a slot (original value zero).
pub const SSTORE_SET_GAS: u64 = 20000;

/// Gas charged by an SSTORE that first modifies an existing slot.
pub const SSTORE_RESET_GAS: u64 = 5000;

/// Gas-related errors that can occur during EVM execution.
#[derive(Debug, PartialEq, Eq)]
pub enum GasError {
    /// Attempted to consume more gas than available. Reserved for callers
    /// that distinguish pre-flight validation from exhaustion; the charging
    /// path itself only produces `GasLimitExceeded`.
    OutOfGas,
    /// A charge would exceed the gas limit.
    GasLimitExceeded,
    /// An invalid gas amount was supplied. Reserved, as `OutOfGas` is.
    InvalidGasAmount,
}

/// Parameters for calculating dynamic gas costs: the contextual
/// information needed for operations with variable costs. Storage and
/// account facts (current/original slot values, account emptiness) are
/// resolved by the external storage collaborator and passed in here.
#[derive(Debug, Clone)]
pub struct DynamicGasParams {
    /// Size of data being processed (bytes).
    pub size: usize,
    /// Exponent value for EXP operations.
    pub exponent: Word,
    /// Current storage value for SSTORE.
    pub current_value: Word,
    /// Original storage value for SSTORE.
    pub original_value: Word,
    /// New storage value for SSTORE.
    pub new_value: Word,
    /// Value being transferred in calls.
    pub value: Word,
    /// Account balance for SELFDESTRUCT.
    pub balance: Word,
    /// Whether the target account is empty.
    pub is_account_empty: bool,
}

impl DynamicGasParams {
    /// Creates a new `DynamicGasParams` with default values.
    pub fn new() -> (r: Self)
        ensures
            r == (DynamicGasParams {
                size: 0,
                exponent: spec_zero_word(),
                current_value: spec_zero_word(),
                original_value: spec_zero_word(),
                new_value: spec_zero_word(),
                value: spec_zero_word(),
                balance: spec_zero_word(),
                is_account_empty: false,
            }),
    {
        Self {
            size: 0,
            exponent: Word::zero(),
            current_value: Word::zero(),
            original_value: Word::zero(),
            new_value: Word::zero(),
            value: Word::zero(),
            balance: Word::zero(),
            is_account_empty: false,
        }
    }

    /// Sets the size parameter for data operations.
    pub fn with_size(self, size: usize) -> (r: Self)
        ensures
            r == (DynamicGasParams { size, ..self }),
    {
        Self { size, ..self }
    }

    /// Sets the exponent for EXP operations.
    pub fn with_exponent(self, exponent: Word) -> (r: Self)
        ensures
            r == (DynamicGasParams { exponent, ..self }),
    {
        Self { exponent, ..self }
    }

    /// Sets storage values for SSTORE operations.
    pub fn with_storage_values(self, current: Word, original: Word, new: Word) -> (r: Self)
        ensures
            r == (DynamicGasParams {
                current_value: current,
                original_value: original,
                new_value: new,
                ..self
            }),
    {
        Self { current_value: current, original_value: original, new_value: new, ..self }
    }

    /// Sets call parameters.
    pub fn with_call_params(self, value: Word, is_account_empty: bool) -> (r: Self)
        ensures
            r == (DynamicGasParams { value, is_account_empty, ..self }),
    {
        Self { value, is_account_empty, ..self }
    }

    /// Sets balance for SELFDESTRUCT operations.
    pub fn with_balance(self, balance: Word) -> (r: Self)
        ensures
            r == (DynamicGasParams { balance, ..self }),
    {
        Self { balance, ..self }
    }
}

/// The abstract state of a [`GasMeter`].
pub struct GasMeterModel {
    /// Total gas consumed so far.
    pub used: u64,
    /// Maximum gas allowed for this execution.
    pub limit: u64,
    /// Accumulated gas refunds.
    pub refund: u64,
    /// Total memory-expansion gas charged so far.
    pub memory_cost: u64,
    /// The memory size the last expansion charge was computed against.
    pub prev_memory_size: usize,
}

/// The fixed base cost of `opcode`, independent of runtime parameters.
pub open spec fn spec_opcode_cost(opcode: Opcode) -> u64 {
    match opcode {
        Opcode::Stop => 0,
        Opcode::Add => 3,
        Opcode::Mul => 5,
        Opcode::Sub => 3,
        Opcode::Div => 5,
        Opcode::Sdiv => 5,
        Opcode::Mod => 5,
        Opcode::Smod => 5,
        Opcode::Addmod => 8,
        Opcode::Mulmod => 8,
        Opcode::Exp => 10,
        Opcode::Signextend => 5,
        Opcode::Lt => 3,
        Opcode::Gt => 3,
        Opcode::Slt => 3,
        Opcode::Sgt => 3,
        Opcode::Eq => 3,
        Opcode::Iszero => 3,
        Opcode::And => 3,
        Opcode::Or => 3,
        Opcode::Xor => 3,
        Opcode::Not => 3,
        Opcode::Byte => 3,
        Opcode::Shl => 3,
        Opcode::Shr => 3,
        Opcode::Sar => 3,
        Opcode::Keccak256 => 30,
        Opcode::Address => 2,
        Opcode::Balance => 2600,
        Opcode::Origin => 2,
        Opcode::Caller => 2,
        Opcode::Callvalue => 2,
        Opcode::Calldataload => 3,
        Opcode::Calldatasize => 2,
        Opcode::Calldatacopy => 3,
        Opcode::Codesize => 2,
        Opcode::Codecopy => 3,
        Opcode::Gasprice => 2,
        Opcode::Extcodecopy => 2600,
        Opcode::Extcodesize => 2600,
        Opcode::Extcodehash => 2600,
        Opcode::Returndatasize => 2,
        Opcode::Returndatacopy => 3,
        Opcode::Blockhash => 20,
        Opcode::Coinbase => 2,
        Opcode::Timestamp => 2,
        Opcode::Number => 2,
        Opcode::Difficulty => 2,
        Opcode::Gaslimit => 2,
        Opcode::Chainid => 2,
        Opcode::Selfbalance => 2,
        Opcode::Basefee => 2,
        Opcode::Blobhash => 2,
        Opcode::Blobbasefee => 2,
        Opcode::Pop => 2,
        Opcode::Mload => 3,
        Opcode::Mstore => 3,
        Opcode::Mstore8 => 3,
        Opcode::Sload => 2100,
        Opcode::Sstore => 22100,
        Opcode::Jump => 8,
        Opcode::Jumpi => 10,
        Opcode::Pc => 2,
        Opcode::Msize => 2,
        Opcode::Gas => 2,
        Opcode::Jumpdest => 1,
        Opcode::Tload => 100,
        Opcode::Tstore => 100,
        Opcode::Mcopy => 3,
        Opcode::Push0 => 2,
        Opcode::Push1 => 2,
        Opcode::Push2 => 2,
        Opcode::Push3 => 2,
        Opcode::Push4 => 2,
        Opcode::Push5 => 2,
        Opcode::Push6 => 2,
        Opcode::Push7 => 2,
        Opcode::Push8 => 2,
        Opcode::Push9 => 2,
        Opcode::Push10 => 2,
        Opcode::Push11 => 2,
        Opcode::Push12 => 2,
        Opcode::Push13 => 2,
        Opcode::Push14 => 2,
        Opcode::Push15 => 2,
        Opcode::Push16 => 2,
        Opcode::Push17 => 2,
        Opcode::Push18 => 2,
        Opcode::Push19 => 2,
        Opcode::Push20 => 2,
        Opcode::Push21 => 2,
        Opcode::Push22 => 2,
        Opcode::Push23 => 2,
        Opcode::Push24 => 2,
        Opcode::Push25 => 2,
        Opcode::Push26 => 2,
        Opcode::Push27 => 2,
        Opcode::Push28 => 2,
        Opcode::Push29 => 2,
        Opcode::Push30 => 2,
        Opcode::Push31 => 2,
        Opcode::Push32 => 2,
        Opcode::Dup1 => 3,
        Opcode::Dup2 => 3,
        Opcode::Dup3 => 3,
        Opcode::Dup4 => 3,
        Opcode::Dup5 => 3,
        Opcode::Dup6 => 3,
        Opcode::Dup7 => 3,
        Opcode::Dup8 => 3,
        Opcode::Dup9 => 3,
        Opcode::Dup10 => 3,
        Opcode::Dup11 => 3,
        Opcode::Dup12 => 3,
        Opcode::Dup13 => 3,
        Opcode::Dup14 => 3,
        Opcode::Dup15 => 3,
        Opcode::Dup16 => 3,
        Opcode::Swap1 => 3,
        Opcode::Swap2 => 3,
        Opcode::Swap3 => 3,
        Opcode::Swap4 => 3,
        Opcode::Swap5 => 3,
        Opcode::Swap6 => 3,
        Opcode::Swap7 => 3,
        Opcode::Swap8 => 3,
        Opcode::Swap9 => 3,
        Opcode::Swap10 => 3,
        Opcode::Swap11 => 3,
        Opcode::Swap12 => 3,
        Opcode::Swap13 => 3,
        Opcode::Swap14 => 3,
        Opcode::Swap15 => 3,
        Opcode::Swap16 => 3,
        Opcode::Log0 => 375,
        Opcode::Log1 => 750,
        Opcode::Log2 => 1125,
        Opcode::Log3 => 1500,
        Opcode::Log4 => 1875,
        Opcode::Create => 32000,
        Opcode::Call => 2600,
        Opcode::Callcode => 2600,
        Opcode::Return => 0,
        Opcode::Delegatecall => 2600,
        Opcode::Create2 => 32000,
        Opcode::Staticcall => 2600,
        Opcode::Revert => 0,
        Opcode::Invalid => 0,
        Opcode::Selfdestruct => 5000,
    }
}

/// The SSTORE charge for a slot whose value within the transaction started
/// at `original` and currently holds `current`, when writing `new`:
/// no change costs [`SLOAD_GAS`]; a first change costs [`SSTORE_SET_GAS`]
/// from zero and [`SSTORE_RESET_GAS`] otherwise; a change to an
/// already-changed slot costs [`SLOAD_GAS`] again.
pub open spec fn spec_sstore_cost(current: Word, original: Word, new: Word) -> u64 {
    if new == current {
        SLOAD_GAS
    } else if original == current {
        if original.spec_is_zero() {
            SSTORE_SET_GAS
        } else {
            SSTORE_RESET_GAS
        }
    } else {
        SLOAD_GAS
    }
}

/// The dynamic cost of `opcode` under `params`, charged on top of the base
/// cost of [`spec_opcode_cost`].
pub open spec fn spec_dynamic_gas_cost(opcode: Opcode, params: DynamicGasParams) -> int {
    match opcode {
        Opcode::Calldatacopy | Opcode::Codecopy | Opcode::Returndatacopy | Opcode::Extcodecopy
            | Opcode::Mcopy => 3 * spec_word_count(params.size as int),
        Opcode::Keccak256 => 6 * spec_word_count(params.size as int),
        Opcode::Exp => if params.exponent.spec_is_zero() {
            0
        } else {
            50 * params.exponent.spec_byte_len()
        },
        Opcode::Log0 | Opcode::Log1 | Opcode::Log2 | Opcode::Log3 | Opcode::Log4 => 8 * (
        params.size as int),
        Opcode::Sstore => spec_sstore_cost(
            params.current_value,
            params.original_value,
            params.new_value,
        ) as int,
        Opcode::Create => 2 * (params.size as int),
        Opcode::Create2 => 2 * (params.size as int) + 6 * spec_word_count(params.size as int),
        Opcode::Call => (if !params.value.spec_is_zero() {
            9000 + (if params.is_account_empty {
                25000int
            } else {
                0int
            })
        } else {
            0int
        }) + (if params.size > 0 {
            spec_word_count(params.size as int)
        } else {
            0int
        }),
        Opcode::Callcode | Opcode::Delegatecall | Opcode::Staticcall => if params.size > 0 {
            spec_word_count(params.size as int)
        } else {
            0int
        },
        Opcode::Selfdestruct => if params.is_account_empty && !params.balance.spec_is_zero() {
            25000int
        } else {
            0int
        },
        _ => 0,
    }
}

/// The incremental cost of growing memory from `old_size` to `new_size`
/// bytes: the difference of the cumulative costs, and zero when the memory
/// did not grow.
pub open spec fn spec_expansion_cost(old_size: int, new_size: int) -> int {
    if new_size <= old_size {
        0
    } else {
        spec_memory_cost(new_size) - spec_memory_cost(old_size)
    }
}

/// The EVM gas meter, tracking gas consumption, the limit, and refunds for
/// one execution frame.
pub struct GasMeter {
    /// Total gas consumed so far.
    gas_used: u64,
    /// Maximum gas allowed for this execution.
    gas_limit: u64,
    /// Gas refunds (e.g., from storage clearing).
    gas_refund: u64,
    /// Memory gas cost tracking.
    memory_gas_cost: u64,
    /// Previous memory size for expansion cost calculation.
    previous_memory_size: usize,
}

impl View for GasMeter {
    type V = GasMeterModel;

    closed spec fn view(&self) -> GasMeterModel {
        GasMeterModel {
            used: self.gas_used,
            limit: self.gas_limit,
            refund: self.gas_refund,
            memory_cost: self.memory_gas_cost,
            prev_memory_size: self.previous_memory_size,
        }
    }
}

impl GasMeter {
    /// Gas conservation: the consumed gas never exceeds the limit, and the
    /// memory charges are part of the consumed gas. `new` and `reset`
    /// establish this and every charge preserves it.
    pub open spec fn wf(&self) -> bool {
        &&& self@.used <= self@.limit
        &&& self@.memory_cost <= self@.used
    }

    /// Creates a gas meter for a frame with the given gas limit.
    pub fn new(gas_limit: u64) -> (r: Self)
        ensures
            r@ == (GasMeterModel {
                used: 0,
                limit: gas_limit,
                refund: 0,
                memory_cost: 0,
                prev_memory_size: 0,
            }),
            r.wf(),
    {
        Self {
            gas_used: 0,
            gas_limit,
            gas_refund: 0,
            memory_gas_cost: 0,
            previous_memory_size: 0,
        }
    }

    /// Consumes `amount` gas; fails with `GasLimitExceeded`, leaving the
    /// meter unchanged, when the charge would push the consumed gas past
    /// the limit.
    pub fn consume_gas(&mut self, amount: u64) -> (r: Result<(), GasError>)
        requires
            old(self).wf(),
        ensures
            final(self).wf(),
            old(self)@.used + amount <= old(self)@.limit ==> r == Ok::<(), GasError>(())
                && final(self)@ == (GasMeterModel {
                used: (old(self)@.used + amount) as u64,
                ..old(self)@
            }),
            old(self)@.used + amount > old(self)@.limit ==> r == Err::<(), GasError>(
                GasError::GasLimitExceeded,
            ) && final(self)@ == old(self)@,
    {
        if amount > self.gas_limit - self.gas_used {
            return Err(GasError::GasLimitExceeded);
        }
        self.gas_used = self.gas_used + amount;
        Ok(())
    }

    /// Adds `amount` to the accumulated refund, saturating at `u64::MAX`;
    /// never fails. Refunds are capped and applied at transaction end by
    /// the caller; this core only accumulates them.
    pub fn refund_gas(&mut self, amount: u64) -> (r: Result<(), GasError>)
        requires
            old(self).wf(),
        ensures
            final(self).wf(),
            r == Ok::<(), GasError>(()),
            final(self)@ == (GasMeterModel {
                refund: (if old(self)@.refund + amount <= u64::MAX {
                    (old(self)@.refund + amount) as u64
                } else {
                    u64::MAX
                }),
                ..old(self)@
            }),
    {
        self.gas_refund = self.gas_refund.saturating_add(amount);
        Ok(())
    }

    /// Returns the remaining gas available for execution: the limit less
    /// the consumed gas, saturating at zero.
    pub fn remaining_gas(&self) -> (r: u64)
        ensures
            r == (if self@.used <= self@.limit {
                (self@.limit - self@.used) as u64
            } else {
                0u64
            }),
    {
        self.gas_limit.saturating_sub(self.gas_used)
    }

    /// Returns the total gas consumed so far.
    pub fn total_gas_used(&self) -> (r: u64)
        ensures
            r == self@.used,
    {
        self.gas_used
    }

    /// Returns the effective gas used: the consumed gas less the
    /// accumulated refund, saturating at zero.
    pub fn effective_gas_used(&self) -> (r: u64)
        ensures
            r == (if self@.refund <= self@.used {
                (self@.used - self@.refund) as u64
            } else {
                0u64
            }),
    {
        self.gas_used.saturating_sub(self.gas_refund)
    }

    /// Charges the incremental expansion cost between the last seen memory
    /// size and the current one, and on success records the new size.
    /// Propagates `GasLimitExceeded`, leaving the meter unchanged, when the
    /// charge does not fit; this is atomic like any other charge.
    pub fn update_memory_cost(&mut self, memory: &Memory) -> (r: Result<(), GasError>)
        requires
            old(self).wf(),
            memory.wf(),
        ensures
            final(self).wf(),
            ({
                let cost = spec_expansion_cost(
                    old(self)@.prev_memory_size as int,
                    memory.spec_size() as int,
                );
                &&& old(self)@.used + cost <= old(self)@.limit ==> r == Ok::<(), GasError>(())
                    && final(self)@ == (GasMeterModel {
                    used: (old(self)@.used + cost) as u64,
                    memory_cost: (old(self)@.memory_cost + cost) as u64,
                    prev_memory_size: memory.spec_size(),
                    ..old(self)@
                })
                &&& old(self)@.used + cost > old(self)@.limit ==> r == Err::<(), GasError>(
                    GasError::GasLimitExceeded,
                ) && final(self)@ == old(self)@
            }),
    {
        let current_memory_size = memory.size();
        let expansion_cost = self.memory_expansion_cost(
            self.previous_memory_size,
            current_memory_size,
        );
        if expansion_cost > 0 {
            self.consume_gas(expansion_cost)?;
            self.memory_gas_cost = self.memory_gas_cost + expansion_cost;
        }
        self.previous_memory_size = current_memory_size;
        Ok(())
    }

    /// The incremental gas cost of growing memory from `old_size` to
    /// `new_size` bytes; zero whenever the memory did not grow. Sizes are
    /// memory sizes, so a growth target is bounded by the memory ceiling.
    pub fn memory_expansion_cost(&self, old_size: usize, new_size: usize) -> (r: u64)
        requires
            old_size < new_size ==> new_size <= MEMORY_MAX_BYTES,
        ensures
            r == spec_expansion_cost(old_size as int, new_size as int),
            new_size <= old_size ==> r == 0,
    {
        if new_size <= old_size {
            return 0;
        }
        let g_memory: u64 = 3;
        let old_words = (old_size + 31) / 32;
        let new_words = (new_size + 31) / 32;
        proof {
            lemma_word_count_monotonic(old_size as int, new_size as int);
            lemma_word_count_monotonic(new_size as int, MEMORY_MAX_BYTES as int);
            assert((new_words as u64) * (new_words as u64) <= 0x100000 * 0x100000)
                by (nonlinear_arith)
                requires
                    new_words as u64 <= 0x100000,
            ;
            assert((old_words as u64) * (old_words as u64) <= 0x100000 * 0x100000)
                by (nonlinear_arith)
                requires
                    old_words as u64 <= 0x100000,
            ;
            lemma_memory_cost_monotonic(old_size as int, new_size as int);
        }
        let ow = old_words as u64;
        let nw = new_words as u64;
        let old_cost = g_memory * ow + (ow * ow) / 512;
        let new_cost = g_memory * nw + (nw * nw) / 512;
        new_cost - old_cost
    }

    /// Returns the fixed base cost of `opcode`, per the protocol schedule
    /// snapshot of [`spec_opcode_cost`].
    pub fn opcode_cost(&self, opcode: Opcode) -> (r: u64)
        ensures
            r == spec_opcode_cost(opcode),
    {
        match opcode {
            Opcode::Stop => 0,
            Opcode::Add => 3,
            Opcode::Mul => 5,
            Opcode::Sub => 3,
            Opcode::Div => 5,
            Opcode::Sdiv => 5,
            Opcode::Mod => 5,
            Opcode::Smod => 5,
            Opcode::Addmod => 8,
            Opcode::Mulmod => 8,
            Opcode::Exp => 10,
            Opcode::Signextend => 5,
            Opcode::Lt => 3,
            Opcode::Gt => 3,
            Opcode::Slt => 3,
            Opcode::Sgt => 3,
            Opcode::Eq => 3,
            Opcode::Iszero => 3,
            Opcode::And => 3,
            Opcode::Or => 3,
            Opcode::Xor => 3,
            Opcode::Not => 3,
            Opcode::Byte => 3,
            Opcode::Shl => 3,
            Opcode::Shr => 3,
            Opcode::Sar => 3,
            Opcode::Keccak256 => 30,
            Opcode::Address => 2,
            Opcode::Balance => 2600,
            Opcode::Origin => 2,
            Opcode::Caller => 2,
            Opcode::Callvalue => 2,
            Opcode::Calldataload => 3,
            Opcode::Calldatasize => 2,
            Opcode::Calldatacopy => 3,
            Opcode::Codesize => 2,
            Opcode::Codecopy => 3,
            Opcode::Gasprice => 2,
            Opcode::Extcodecopy => 2600,
            Opcode::Extcodesize => 2600,
            Opcode::Extcodehash => 2600,
            Opcode::Returndatasize => 2,
            Opcode::Returndatacopy => 3,
            Opcode::Blockhash => 20,
            Opcode::Coinbase => 2,
            Opcode::Timestamp => 2,
            Opcode::Number => 2,
            Opcode::Difficulty => 2,
            Opcode::Gaslimit => 2,
            Opcode::Chainid => 2,
            Opcode::Selfbalance => 2,
            Opcode::Basefee => 2,
            Opcode::Blobhash => 2,
            Opcode::Blobbasefee => 2,
            Opcode::Pop => 2,
            Opcode::Mload => 3,
            Opcode::Mstore => 3,
            Opcode::Mstore8 => 3,
            Opcode::Sload => 2100,
            Opcode::Sstore => 22100,
            Opcode::Jump => 8,
            Opcode::Jumpi => 10,
            Opcode::Pc => 2,
            Opcode::Msize => 2,
            Opcode::Gas => 2,
            Opcode::Jumpdest => 1,
            Opcode::Tload => 100,
            Opcode::Tstore => 100,
            Opcode::Mcopy => 3,
            Opcode::Push0 => 2,
            Opcode::Push1 => 2,
            Opcode::Push2 => 2,
            Opcode::Push3 => 2,
            Opcode::Push4 => 2,
            Opcode::Push5 => 2,
            Opcode::Push6 => 2,
            Opcode::Push7 => 2,
            Opcode::Push8 => 2,
            Opcode::Push9 => 2,
            Opcode::Push10 => 2,
            Opcode::Push11 => 2,
            Opcode::Push12 => 2,
            Opcode::Push13 => 2,
            Opcode::Push14 => 2,
            Opcode::Push15 => 2,
            Opcode::Push16 => 2,
            Opcode::Push17 => 2,
            Opcode::Push18 => 2,
            Opcode::Push19 => 2,
            Opcode::Push20 => 2,
            Opcode::Push21 => 2,
            Opcode::Push22 => 2,
            Opcode::Push23 => 2,
            Opcode::Push24 => 2,
            Opcode::Push25 => 2,
            Opcode::Push26 => 2,
            Opcode::Push27 => 2,
            Opcode::Push28 => 2,
            Opcode::Push29 => 2,
            Opcode::Push30 => 2,
            Opcode::Push31 => 2,
            Opcode::Push32 => 2,
            Opcode::Dup1 => 3,
            Opcode::Dup2 => 3,
            Opcode::Dup3 => 3,
            Opcode::Dup4 => 3,
            Opcode::Dup5 => 3,
            Opcode::Dup6 => 3,
            Opcode::Dup7 => 3,
            Opcode::Dup8 => 3,
            Opcode::Dup9 => 3,
            Opcode::Dup10 => 3,
            Opcode::Dup11 => 3,
            Opcode::Dup12 => 3,
            Opcode::Dup13 => 3,
            Opcode::Dup14 => 3,
            Opcode::Dup15 => 3,
            Opcode::Dup16 => 3,
            Opcode::Swap1 => 3,
            Opcode::Swap2 => 3,
            Opcode::Swap3 => 3,
            Opcode::Swap4 => 3,
            Opcode::Swap5 => 3,
            Opcode::Swap6 => 3,
            Opcode::Swap7 => 3,
            Opcode::Swap8 => 3,
            Opcode::Swap9 => 3,
            Opcode::Swap10 => 3,
            Opcode::Swap11 => 3,
            Opcode::Swap12 => 3,
            Opcode::Swap13 => 3,
            Opcode::Swap14 => 3,
            Opcode::Swap15 => 3,
            Opcode::Swap16 => 3,
            Opcode::Log0 => 375,
            Opcode::Log1 => 750,
            Opcode::Log2 => 1125,
            Opcode::Log3 => 1500,
            Opcode::Log4 => 1875,
            Opcode::Create => 32000,
            Opcode::Call => 2600,
            Opcode::Callcode => 2600,
            Opcode::Return => 0,
            Opcode::Delegatecall => 2600,
            Opcode::Create2 => 32000,
            Opcode::Staticcall => 2600,
            Opcode::Revert => 0,
            Opcode::Invalid => 0,
            Opcode::Selfdestruct => 5000,
        }
    }

    /// Calculates the dynamic gas cost of `opcode` under `params`, per
    /// [`spec_dynamic_gas_cost`]; charged in addition to the base cost.
    /// Data sizes are spans of memory or init code, bounded by the memory
    /// ceiling.
    pub fn dynamic_gas_cost(&self, opcode: Opcode, params: &DynamicGasParams) -> (r: u64)
        requires
            params.size <= MEMORY_MAX_BYTES,
        ensures
            r == spec_dynamic_gas_cost(opcode, *params),
    {
        proof {
            lemma_word_count_monotonic(params.size as int, MEMORY_MAX_BYTES as int);
        }
        match opcode {
            Opcode::Calldatacopy | Opcode::Codecopy | Opcode::Returndatacopy => {
                let words = (params.size + 31) / 32;
                3 * words as u64
            },
            Opcode::Extcodecopy => {
                let words = (params.size + 31) / 32;
                3 * words as u64
            },
            Opcode::Mcopy => {
                let words = (params.size + 31) / 32;
                3 * words as u64
            },
            Opcode::Keccak256 => {
                let words = (params.size + 31) / 32;
                6 * words as u64
            },
            Opcode::Exp => {
                if params.exponent.is_zero() {
                    0
                } else {
                    let byte_length = params.exponent.byte_len();
                    50 * byte_length
                }
            },
            Opcode::Log0 | Opcode::Log1 | Opcode::Log2 | Opcode::Log3 | Opcode::Log4 => {
                8 * params.size as u64
            },
            Opcode::Sstore => {
                self.calculate_sstore_cost(
                    params.current_value,
                    params.original_value,
                    params.new_value,
                )
            },
            Opcode::Create | Opcode::Create2 => {
                let init_code_cost = 2 * params.size as u64;
                if opcode == Opcode::Create2 {
                    let hash_cost = 6 * ((params.size + 31) / 32) as u64;
                    init_code_cost + hash_cost
                } else {
                    init_code_cost
                }
            },
            Opcode::Call | Opcode::Callcode | Opcode::Delegatecall | Opcode::Staticcall => {
                let mut cost = 0u64;
                if opcode == Opcode::Call && !params.value.is_zero() {
                    cost = cost + 9000;
                    if params.is_account_empty {
                        cost = cost + 25000;
                    }
                }
                if params.size > 0 {
                    let words = (params.size + 31) / 32;
                    cost = cost + words as u64;
                }
                cost
            },
            Opcode::Selfdestruct => {
                let mut cost = 0u64;
                if params.is_account_empty && !params.balance.is_zero() {
                    cost = cost + 25000;
                }
                cost
            },
            _ => 0,
        }
    }

    /// Calculates the SSTORE charge for the given current, original, and
    /// new slot values, per [`spec_sstore_cost`]. The refund for clearing a
    /// slot to zero is a transaction-level concern accumulated through
    /// `refund_gas` by the caller, not computed here.
    pub fn calculate_sstore_cost(
        &self,
        current_value: Word,
        original_value: Word,
        new_value: Word,
    ) -> (r: u64)
        ensures
            r == spec_sstore_cost(current_value, original_value, new_value),
    {
        if new_value == current_value {
            SLOAD_GAS
        } else if original_value == current_value {
            if original_value.is_zero() {
                SSTORE_SET_GAS
            } else {
                SSTORE_RESET_GAS
            }
        } else {
            SLOAD_GAS
        }
    }

    /// Resets the gas meter for a new execution context: all counters to
    /// zero and a fresh limit, without reallocation.
    pub fn reset(&mut self, gas_limit: u64)
        ensures
            final(self)@ == (GasMeterModel {
                used: 0,
                limit: gas_limit,
                refund: 0,
                memory_cost: 0,
                prev_memory_size: 0,
            }),
            final(self).wf(),
    {
        self.gas_used = 0;
        self.gas_limit = gas_limit;
        self.gas_refund = 0;
        self.memory_gas_cost = 0;
        self.previous_memory_size = 0;
    }
}

/// Gas conservation: for any well-formed meter — and every meter this
/// module hands out or mutates is well-formed — the consumed gas never
/// exceeds the limit.
pub proof fn lemma_gas_within_limit(m: &GasMeter)
    requires
        m.wf(),
    ensures
        m@.used <= m@.limit,
{
}

} // verus!
