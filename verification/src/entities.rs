//! The entities that a query returns, and what each one is.

use vstd::prelude::*;
use crate::primitives::{U256, B256, Address, pow2_256};

verus! {

/// A block of the chain.
#[derive(Debug, Clone, PartialEq, Eq)]
pub struct Block {
    pub number: U256,
    pub hash: B256,
    pub parent_hash: B256,
    /// Seconds since the epoch.
    pub timestamp: U256,
    pub gas_used: U256,
    pub gas_limit: U256,
    /// The hashes of the block's transactions, in block order.
    pub transactions: Vec<B256>,
    pub miner: Address,
    pub difficulty: U256,
    /// The size in bytes.
    pub size: U256,
}

/// What a block is: numbers, and digests as byte sequences.
pub struct BlockView {
    pub number: nat,
    pub hash: Seq<u8>,
    pub parent_hash: Seq<u8>,
    pub timestamp: nat,
    pub gas_used: nat,
    pub gas_limit: nat,
    pub transactions: Seq<Seq<u8>>,
    pub miner: Seq<u8>,
    pub difficulty: nat,
    pub size: nat,
}

impl View for Block {
    type V = BlockView;

    open spec fn view(&self) -> BlockView {
        BlockView {
            number: self.number.value(),
            hash: self.hash.bytes@,
            parent_hash: self.parent_hash.bytes@,
            timestamp: self.timestamp.value(),
            gas_used: self.gas_used.value(),
            gas_limit: self.gas_limit.value(),
            transactions: self.transactions@.map_values(|h: B256| h.bytes@),
            miner: self.miner.bytes@,
            difficulty: self.difficulty.value(),
            size: self.size.value(),
        }
    }
}

/// A transaction, merged from its body and its receipt.
#[derive(Debug, Clone, PartialEq, Eq)]
pub struct Transaction {
    pub hash: B256,
    /// The block that holds it; `None` while it is pending.
    pub block_number: Option<U256>,
    pub from: Address,
    /// The recipient; `None` for a contract creation.
    pub to: Option<Address>,
    /// The value transferred, in wei.
    pub value: U256,
    /// The gas limit.
    pub gas: U256,
    pub gas_price: U256,
    /// The gas used, known once there is a receipt.
    pub gas_used: Option<U256>,
    /// Zero for failure, anything else for success, `None` while unknown.
    pub status: Option<U256>,
}

/// What a transaction is.
pub struct TransactionView {
    pub hash: Seq<u8>,
    pub block_number: Option<nat>,
    pub from: Seq<u8>,
    pub to: Option<Seq<u8>>,
    pub value: nat,
    pub gas: nat,
    pub gas_price: nat,
    pub gas_used: Option<nat>,
    pub status: Option<nat>,
}

/// The value of an optional number.
pub open spec fn optional_value(n: Option<U256>) -> Option<nat> {
    match n {
        Some(v) => Some(v.value()),
        None => None,
    }
}

/// The bytes of an optional address.
pub open spec fn optional_bytes(a: Option<Address>) -> Option<Seq<u8>> {
    match a {
        Some(v) => Some(v.bytes@),
        None => None,
    }
}

impl View for Transaction {
    type V = TransactionView;

    open spec fn view(&self) -> TransactionView {
        TransactionView {
            hash: self.hash.bytes@,
            block_number: optional_value(self.block_number),
            from: self.from.bytes@,
            to: optional_bytes(self.to),
            value: self.value.value(),
            gas: self.gas.value(),
            gas_price: self.gas_price.value(),
            gas_used: optional_value(self.gas_used),
            status: optional_value(self.status),
        }
    }
}

impl Transaction {
    /// The fee paid: the gas price times the gas used, reduced modulo two
    /// to the power 256; none while the gas used is unknown.
    pub fn fee(&self) -> (r: Option<U256>)
        ensures
            r is Some == self.gas_used is Some,
            r matches Some(fee) ==> fee.value() == (self.gas_price.value()
                * self.gas_used->0.value()) % pow2_256(),
    {
        match &self.gas_used {
            Some(gas_used) => Some(self.gas_price.wrapping_mul(gas_used)),
            None => None,
        }
    }
}

/// The state of an account at one block.
#[derive(Debug, Clone, PartialEq, Eq)]
pub struct Account {
    pub address: Address,
    /// The balance in wei.
    pub balance: U256,
    pub nonce: U256,
    /// The size of the code in bytes; zero for an externally owned account.
    pub code_size: U256,
}

/// What an account is.
pub struct AccountView {
    pub address: Seq<u8>,
    pub balance: nat,
    pub nonce: nat,
    pub code_size: nat,
}

impl View for Account {
    type V = AccountView;

    open spec fn view(&self) -> AccountView {
        AccountView {
            address: self.address.bytes@,
            balance: self.balance.value(),
            nonce: self.nonce.value(),
            code_size: self.code_size.value(),
        }
    }
}

} // verus!
