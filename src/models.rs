use vstd::prelude::*;
use crate::pagination::{EvmPagination, Pagination};

verus! {

/// Query parameters of a Bitcoin address request.
#[derive(Debug, Clone, Copy, PartialEq, Eq)]
pub struct PaginationQuery {
    pub page: u32,
    pub limit: u32,
}

/// Query parameters of an EVM address request.
#[derive(Debug, Clone, Copy, PartialEq, Eq)]
pub struct EvmPaginationQuery {
    pub page: u32,
    pub limit: u32,
}

/// The output that a Bitcoin transaction input spends.
#[derive(Debug, Clone)]
pub struct PrevOut {
    pub addr: Option<String>,
    pub value: u64,
}

/// One input of a Bitcoin transaction.
#[derive(Debug, Clone)]
pub struct TxInput {
    pub prev_out: Option<PrevOut>,
    pub script: String,
}

/// One output of a Bitcoin transaction.
#[derive(Debug, Clone)]
pub struct TxOutput {
    pub addr: Option<String>,
    pub value: u64,
    pub script: String,
}

/// A Bitcoin transaction as the explorer reports it.
#[derive(Debug, Clone)]
pub struct Transaction {
    pub hash: String,
    pub time: u64,
    pub size: u32,
    pub inputs: Vec<TxInput>,
    pub out: Vec<TxOutput>,
}

/// A Bitcoin address as the explorer reports it, with one page of its
/// transactions and the total transaction count.
#[derive(Debug, Clone)]
pub struct AddressInfo {
    pub address: String,
    pub n_tx: u32,
    pub total_received: u64,
    pub total_sent: u64,
    pub final_balance: u64,
    pub txs: Vec<Transaction>,
}

/// A Bitcoin address with one page of transactions and pagination data.
#[derive(Debug, Clone)]
pub struct AddressWithPagination {
    pub address: String,
    pub total_received: u64,
    pub total_sent: u64,
    pub final_balance: u64,
    pub transactions: Vec<Transaction>,
    pub pagination: Pagination,
}

/// Outcome of a Bitcoin address lookup: a result or an error, never both.
#[derive(Debug, Clone)]
pub enum AddressResponse {
    Success(AddressWithPagination),
    Error { error: String },
}

/// One EVM transaction as the explorer reports it (all fields as text).
#[derive(Debug, Clone)]
pub struct EvmTransaction {
    pub block_number: String,
    pub time_stamp: String,
    pub hash: String,
    pub from: String,
    pub to: String,
    pub value: String,
    pub gas: String,
    pub gas_price: String,
    pub gas_used: String,
    pub is_error: String,
    pub txreceipt_status: String,
    pub input: String,
    pub contract_address: String,
}

/// Body of the explorer's transaction-list reply.
#[derive(Debug, Clone)]
pub struct EtherscanTxResponse {
    pub status: String,
    pub message: String,
    pub result: Vec<EvmTransaction>,
}

/// Body of the explorer's balance reply.
#[derive(Debug, Clone)]
pub struct EtherscanBalanceResponse {
    pub status: String,
    pub message: String,
    pub result: String,
}

/// An EVM address with its balance and one page of transactions.
#[derive(Debug, Clone)]
pub struct EvmAddressWithTransactions {
    pub address: String,
    pub chain_id: u32,
    pub chain_name: String,
    pub balance: String,
    pub transactions: Vec<EvmTransaction>,
    pub pagination: EvmPagination,
}

/// Outcome of an EVM address lookup: a result or an error, never both.
#[derive(Debug, Clone)]
pub enum EvmAddressResponse {
    Success(EvmAddressWithTransactions),
    Error { error: String },
}

} // verus!
