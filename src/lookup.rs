use vstd::prelude::*;
use vstd::string::*;
use crate::chain::{chain_name, get_chain_name, parse_chain_identifier, resolve_selector};
use crate::models::{
    AddressInfo, AddressResponse, AddressWithPagination, EtherscanBalanceResponse,
    EtherscanTxResponse, EvmAddressResponse, EvmAddressWithTransactions, EvmPaginationQuery,
    PaginationQuery,
};
use crate::pagination::{
    bitcoin_pagination, clamp_limit, clamp_page, effective_limit, effective_page, page_count,
    page_offset, EvmPagination, MAX_LIMIT,
};
use crate::text::{contains_text, decimal, has_infix, push_decimal, same_text};

verus! {

/// Why an upstream explorer gave no usable answer.
#[derive(Debug, Clone)]
pub enum UpstreamError {
    /// The request could not be sent or answered (network failure).
    Transport(String),
    /// The Bitcoin explorer answered with a status other than 200.
    HttpStatus(u16),
    /// One of the two EVM calls answered with a status other than 200; both
    /// statuses are kept.
    HttpStatuses { transactions: u16, balance: u16 },
    /// The explorer answered 200 but its payload reports a failure.
    Api(String),
    /// The explorer answered 200 with a body of an unexpected shape.
    Decode(String),
}

/// What one upstream HTTP call came to, as the transport layer observed it.
#[derive(Debug, Clone)]
pub enum Reply<T> {
    /// The request failed before an answer arrived.
    Unsent(String),
    /// The answer's status was not 200; its body was not read.
    Status(u16),
    /// The answer's status was 200 but its body did not decode.
    Malformed(String),
    /// The answer's status was 200 and its body decoded.
    Body(T),
}

/// The HTTP status that a reply reports: a decoded or undecodable body came
/// with 200.
pub open spec fn reply_status<T>(r: Reply<T>) -> u16 {
    match r {
        Reply::Status(code) => code,
        _ => 200,
    }
}

/// Human-readable description of an upstream failure.
pub open spec fn error_detail(e: UpstreamError) -> Seq<char> {
    match e {
        UpstreamError::Transport(m) => m@,
        UpstreamError::HttpStatus(code) => "HTTP "@ + decimal(code as nat),
        UpstreamError::HttpStatuses { transactions, balance } => "transactions: HTTP "@ + decimal(
            transactions as nat,
        ) + ", balance: HTTP "@ + decimal(balance as nat),
        UpstreamError::Api(m) => "Etherscan API error: "@ + m@,
        UpstreamError::Decode(m) => m@,
    }
}

/// Text of the error envelope for a failed upstream fetch.
pub open spec fn fetch_failure_text(e: UpstreamError) -> Seq<char> {
    "Failed to fetch address info: "@ + error_detail(e)
}

/// Text of the error envelope for a selector that names no chain.
pub open spec fn invalid_chain_text(selector: Seq<char>) -> Seq<char> {
    "Invalid chain identifier: '"@ + selector
        + "'. Use chain name (e.g., 'ethereum', 'polygon') or chain ID (e.g., '1', '137')"@
}

impl UpstreamError {
    /// Describes the failure in words.
    pub fn detail(&self) -> (r: String)
        ensures
            r@ == error_detail(*self),
    {
        match self {
            UpstreamError::Transport(m) => m.clone(),
            UpstreamError::HttpStatus(code) => {
                let mut r = String::from_str("HTTP ");
                push_decimal(&mut r, *code as u64);
                r
            },
            UpstreamError::HttpStatuses { transactions, balance } => {
                let mut r = String::from_str("transactions: HTTP ");
                push_decimal(&mut r, *transactions as u64);
                r.append(", balance: HTTP ");
                push_decimal(&mut r, *balance as u64);
                r
            },
            UpstreamError::Api(m) => {
                let mut r = String::from_str("Etherscan API error: ");
                r.append(m.as_str());
                r
            },
            UpstreamError::Decode(m) => m.clone(),
        }
    }
}

/// Error message that the envelope carries for a failed upstream fetch.
pub fn fetch_failure_message(e: &UpstreamError) -> (r: String)
    ensures
        r@ == fetch_failure_text(*e),
{
    let mut r = String::from_str("Failed to fetch address info: ");
    let d = e.detail();
    r.append(d.as_str());
    r
}

// ---------------------------------------------------------------- Bitcoin

/// Base address of the Bitcoin explorer's address endpoint.
pub open spec fn bitcoin_base() -> Seq<char> {
    "https://blockchain.info/rawaddr/"@
}

/// A Bitcoin lookup after its request parameters were normalised.
#[derive(Debug, Clone, Copy, PartialEq, Eq)]
pub struct BitcoinPlan {
    pub page: u32,
    pub limit: u32,
    pub offset: u64,
}

/// Normalises a Bitcoin request: page at least 1, limit within `[1, 50]`,
/// and the item offset of the requested page.
pub fn plan_bitcoin_lookup(query: &PaginationQuery) -> (r: BitcoinPlan)
    ensures
        r.page == clamp_page(query.page),
        r.limit == clamp_limit(query.limit),
        r.offset == (r.page - 1) * r.limit,
{
    let page = effective_page(query.page);
    let limit = effective_limit(query.limit);
    BitcoinPlan { page, limit, offset: page_offset(page, limit) }
}

/// Address of the explorer call for one page of a Bitcoin address; the page
/// size sent is never above 50.
pub fn bitcoin_address_url(address: &str, offset: u64, limit: u32) -> (r: String)
    ensures
        r@ == bitcoin_base() + address@ + "?offset="@ + decimal(offset as nat) + "&limit="@
            + decimal((if limit > MAX_LIMIT { MAX_LIMIT } else { limit }) as nat),
{
    let sent: u32 = if limit > MAX_LIMIT { MAX_LIMIT } else { limit };
    let mut r = String::from_str("https://blockchain.info/rawaddr/");
    r.append(address);
    r.append("?offset=");
    push_decimal(&mut r, offset);
    r.append("&limit=");
    push_decimal(&mut r, sent as u64);
    r
}

/// What a Bitcoin explorer reply amounts to.
pub open spec fn bitcoin_reply_outcome(reply: Reply<AddressInfo>) -> Result<
    AddressInfo,
    UpstreamError,
> {
    match reply {
        Reply::Unsent(m) => Err(UpstreamError::Transport(m)),
        Reply::Status(code) => Err(UpstreamError::HttpStatus(code)),
        Reply::Malformed(m) => Err(UpstreamError::Decode(m)),
        Reply::Body(info) => Ok(info),
    }
}

/// Classifies a Bitcoin explorer reply as a snapshot or an upstream error.
pub fn bitcoin_outcome(reply: Reply<AddressInfo>) -> (r: Result<AddressInfo, UpstreamError>)
    ensures
        r == bitcoin_reply_outcome(reply),
{
    match reply {
        Reply::Unsent(m) => Err(UpstreamError::Transport(m)),
        Reply::Status(code) => Err(UpstreamError::HttpStatus(code)),
        Reply::Malformed(m) => Err(UpstreamError::Decode(m)),
        Reply::Body(info) => Ok(info),
    }
}

/// Builds the Bitcoin envelope: the snapshot with its pagination block, or
/// the wrapped upstream error.
pub fn bitcoin_response(plan: &BitcoinPlan, outcome: Result<AddressInfo, UpstreamError>) -> (r:
    AddressResponse)
    ensures
        match outcome {
            Ok(info) => match r {
                AddressResponse::Success(s) => {
                    &&& s.address == info.address
                    &&& s.total_received == info.total_received
                    &&& s.total_sent == info.total_sent
                    &&& s.final_balance == info.final_balance
                    &&& s.transactions == info.txs
                    &&& s.pagination.total_transactions == info.n_tx
                    &&& s.pagination.per_page == clamp_limit(plan.limit)
                    &&& s.pagination.current_page == clamp_page(plan.page)
                    &&& s.pagination.total_pages == page_count(
                        info.n_tx as nat,
                        clamp_limit(plan.limit) as nat,
                    )
                },
                AddressResponse::Error { .. } => false,
            },
            Err(e) => match r {
                AddressResponse::Error { error } => error@ == fetch_failure_text(e),
                AddressResponse::Success(_) => false,
            },
        },
{
    match outcome {
        Ok(info) => {
            let pagination = bitcoin_pagination(plan.page, plan.limit, info.n_tx);
            AddressResponse::Success(
                AddressWithPagination {
                    address: info.address,
                    total_received: info.total_received,
                    total_sent: info.total_sent,
                    final_balance: info.final_balance,
                    transactions: info.txs,
                    pagination,
                },
            )
        },
        Err(e) => AddressResponse::Error { error: fetch_failure_message(&e) },
    }
}

/// Completes a Bitcoin lookup from the explorer's reply.
pub fn finish_bitcoin_lookup(plan: &BitcoinPlan, reply: Reply<AddressInfo>) -> (r:
    AddressResponse)
    ensures
        match bitcoin_reply_outcome(reply) {
            Ok(info) => match r {
                AddressResponse::Success(s) => {
                    &&& s.address == info.address
                    &&& s.total_received == info.total_received
                    &&& s.total_sent == info.total_sent
                    &&& s.final_balance == info.final_balance
                    &&& s.transactions == info.txs
                    &&& s.pagination.total_transactions == info.n_tx
                    &&& s.pagination.per_page == clamp_limit(plan.limit)
                    &&& s.pagination.current_page == clamp_page(plan.page)
                    &&& s.pagination.total_pages == page_count(
                        info.n_tx as nat,
                        clamp_limit(plan.limit) as nat,
                    )
                },
                AddressResponse::Error { .. } => false,
            },
            Err(e) => match r {
                AddressResponse::Error { error } => error@ == fetch_failure_text(e),
                AddressResponse::Success(_) => false,
            },
        },
{
    bitcoin_response(plan, bitcoin_outcome(reply))
}

// ---------------------------------------------------------------- EVM

/// An EVM lookup after its selector was resolved and its request parameters
/// were normalised.
#[derive(Debug, Clone, Copy, PartialEq, Eq)]
pub struct EvmPlan {
    pub chain_id: u32,
    pub page: u32,
    pub limit: u32,
}

/// Starts an EVM lookup: resolves the chain selector and normalises page and
/// limit. An unresolvable selector ends the lookup at once with an error
/// envelope, so that no upstream call is made.
pub fn plan_evm_lookup(selector: &str, query: &EvmPaginationQuery) -> (r: Result<
    EvmPlan,
    EvmAddressResponse,
>)
    ensures
        match resolve_selector(selector@) {
            Some(id) => r == Ok::<EvmPlan, EvmAddressResponse>(
                EvmPlan {
                    chain_id: id,
                    page: clamp_page(query.page),
                    limit: clamp_limit(query.limit),
                },
            ),
            None => match r {
                Err(EvmAddressResponse::Error { error }) => error@ == invalid_chain_text(
                    selector@,
                ),
                _ => false,
            },
        },
{
    match parse_chain_identifier(selector) {
        Some(chain_id) => Ok(
            EvmPlan {
                chain_id,
                page: effective_page(query.page),
                limit: effective_limit(query.limit),
            },
        ),
        None => {
            let mut error = String::from_str("Invalid chain identifier: '");
            error.append(selector);
            error.append(
                "'. Use chain name (e.g., 'ethereum', 'polygon') or chain ID (e.g., '1', '137')",
            );
            Err(EvmAddressResponse::Error { error })
        },
    }
}

/// Query text shared by both explorer calls of an EVM lookup.
pub open spec fn evm_query_head(api_key: Seq<char>, chain_id: u32) -> Seq<char> {
    "https://api.etherscan.io/v2/api?apikey="@ + api_key + "&chainid="@ + decimal(chain_id as nat)
        + "&module=account&action="@
}

fn push_evm_query_head(api_key: &str, chain_id: u32) -> (r: String)
    ensures
        r@ == evm_query_head(api_key@, chain_id),
{
    let mut r = String::from_str("https://api.etherscan.io/v2/api?apikey=");
    r.append(api_key);
    r.append("&chainid=");
    push_decimal(&mut r, chain_id as u64);
    r.append("&module=account&action=");
    r
}

/// Address of the explorer's transaction-list call, newest first, for one
/// page (counted from 1) of at most 50 transactions.
pub fn evm_transactions_url(api_key: &str, chain_id: u32, address: &str, page: u32, limit: u32) -> (r:
    String)
    ensures
        r@ == evm_query_head(api_key@, chain_id) + "txlist&address="@ + address@
            + "&startblock=0&endblock=99999999&page="@ + decimal(clamp_page(page) as nat) + "&offset="@
            + decimal((if limit > MAX_LIMIT { MAX_LIMIT } else { limit }) as nat) + "&sort=desc"@,
{
    let sent: u32 = if limit > MAX_LIMIT { MAX_LIMIT } else { limit };
    let mut r = push_evm_query_head(api_key, chain_id);
    r.append("txlist&address=");
    r.append(address);
    r.append("&startblock=0&endblock=99999999&page=");
    push_decimal(&mut r, effective_page(page) as u64);
    r.append("&offset=");
    push_decimal(&mut r, sent as u64);
    r.append("&sort=desc");
    r
}

/// Address of the explorer's current-balance call.
pub fn evm_balance_url(api_key: &str, chain_id: u32, address: &str) -> (r: String)
    ensures
        r@ == evm_query_head(api_key@, chain_id) + "balance&address="@ + address@
            + "&tag=latest"@,
{
    let mut r = push_evm_query_head(api_key, chain_id);
    r.append("balance&address=");
    r.append(address);
    r.append("&tag=latest");
    r
}

/// Whether a transaction-list payload counts as a success: status `"1"`, or
/// the explorer's way of reporting an empty list.
pub open spec fn tx_payload_ok(t: EtherscanTxResponse) -> bool {
    t.status@ == "1"@ || has_infix(t.message@, "No transactions found"@)
}

/// The failure, if any, of the two EVM calls taken together: transport
/// failures first, then statuses (both reported), then bodies that did not
/// decode, then failures reported inside the payloads.
pub open spec fn evm_failure(
    tx: Reply<EtherscanTxResponse>,
    bal: Reply<EtherscanBalanceResponse>,
) -> Option<UpstreamError> {
    if let Reply::Unsent(m) = tx {
        Some(UpstreamError::Transport(m))
    } else if let Reply::Unsent(m) = bal {
        Some(UpstreamError::Transport(m))
    } else if tx is Status || bal is Status {
        Some(
            UpstreamError::HttpStatuses {
                transactions: reply_status(tx),
                balance: reply_status(bal),
            },
        )
    } else if let Reply::Malformed(m) = tx {
        Some(UpstreamError::Decode(m))
    } else if let Reply::Malformed(m) = bal {
        Some(UpstreamError::Decode(m))
    } else if let (Reply::Body(t), Reply::Body(b)) = (tx, bal) {
        if !tx_payload_ok(t) {
            Some(UpstreamError::Api(t.message))
        } else if b.status@ != "1"@ {
            Some(UpstreamError::Api(b.message))
        } else {
            None
        }
    } else {
        None
    }
}

/// Whether `s` is the EVM snapshot merged from the two payloads.
pub open spec fn is_evm_merge(
    s: EvmAddressWithTransactions,
    address: Seq<char>,
    plan: EvmPlan,
    tx: Reply<EtherscanTxResponse>,
    bal: Reply<EtherscanBalanceResponse>,
) -> bool {
    &&& tx is Body
    &&& bal is Body
    &&& s.address@ == address
    &&& s.chain_id == plan.chain_id
    &&& s.chain_name@ == chain_name(plan.chain_id)
    &&& s.balance == bal->Body_0.result
    &&& s.transactions == tx->Body_0.result
    &&& s.pagination == EvmPagination {
        per_page: clamp_limit(plan.limit),
        current_page: clamp_page(plan.page),
    }
}

fn status_of<T>(r: &Reply<T>) -> (c: u16)
    ensures
        c == reply_status(*r),
{
    match r {
        Reply::Status(code) => *code,
        _ => 200,
    }
}

/// Reconciles the two EVM replies into one snapshot or one upstream error.
/// The transaction list tolerates the explorer's "No transactions found"
/// message; the snapshot carries no total count.
pub fn evm_outcome(
    address: &str,
    plan: &EvmPlan,
    tx: Reply<EtherscanTxResponse>,
    bal: Reply<EtherscanBalanceResponse>,
) -> (r: Result<EvmAddressWithTransactions, UpstreamError>)
    ensures
        match evm_failure(tx, bal) {
            Some(e) => r == Err::<EvmAddressWithTransactions, UpstreamError>(e),
            None => r is Ok && is_evm_merge(r->Ok_0, address@, *plan, tx, bal),
        },
{
    proof {
        reveal_strlit("1");
    }
    if let Reply::Unsent(m) = tx {
        return Err(UpstreamError::Transport(m));
    }
    if let Reply::Unsent(m) = bal {
        return Err(UpstreamError::Transport(m));
    }
    if matches!(tx, Reply::Status(_)) || matches!(bal, Reply::Status(_)) {
        return Err(
            UpstreamError::HttpStatuses { transactions: status_of(&tx), balance: status_of(&bal) },
        );
    }
    match (tx, bal) {
        (Reply::Malformed(m), _) => Err(UpstreamError::Decode(m)),
        (_, Reply::Malformed(m)) => Err(UpstreamError::Decode(m)),
        (Reply::Body(t), Reply::Body(b)) => {
            let tx_ok = same_text(t.status.as_str(), "1") || contains_text(
                t.message.as_str(),
                "No transactions found",
            );
            if !tx_ok {
                return Err(UpstreamError::Api(t.message));
            }
            if !same_text(b.status.as_str(), "1") {
                return Err(UpstreamError::Api(b.message));
            }
            Ok(
                EvmAddressWithTransactions {
                    address: String::from_str(address),
                    chain_id: plan.chain_id,
                    chain_name: get_chain_name(plan.chain_id),
                    balance: b.result,
                    transactions: t.result,
                    pagination: EvmPagination {
                        per_page: effective_limit(plan.limit),
                        current_page: effective_page(plan.page),
                    },
                },
            )
        },
        _ => {
            // every other pair of replies was answered above
            proof {
                assert(false);
            }
            Err(UpstreamError::Transport(String::new()))
        },
    }
}

/// Wraps an EVM outcome into its envelope.
pub fn evm_response(outcome: Result<EvmAddressWithTransactions, UpstreamError>) -> (r:
    EvmAddressResponse)
    ensures
        match outcome {
            Ok(s) => r == EvmAddressResponse::Success(s),
            Err(e) => match r {
                EvmAddressResponse::Error { error } => error@ == fetch_failure_text(e),
                EvmAddressResponse::Success(_) => false,
            },
        },
{
    match outcome {
        Ok(s) => EvmAddressResponse::Success(s),
        Err(e) => EvmAddressResponse::Error { error: fetch_failure_message(&e) },
    }
}

/// Completes an EVM lookup from the replies of its two explorer calls.
pub fn finish_evm_lookup(
    address: &str,
    plan: &EvmPlan,
    tx: Reply<EtherscanTxResponse>,
    bal: Reply<EtherscanBalanceResponse>,
) -> (r: EvmAddressResponse)
    ensures
        match evm_failure(tx, bal) {
            Some(e) => match r {
                EvmAddressResponse::Error { error } => error@ == fetch_failure_text(e),
                EvmAddressResponse::Success(_) => false,
            },
            None => match r {
                EvmAddressResponse::Success(s) => is_evm_merge(s, address@, *plan, tx, bal),
                EvmAddressResponse::Error { .. } => false,
            },
        },
{
    evm_response(evm_outcome(address, plan, tx, bal))
}

// ---------------------------------------------------------------- laws

/// When the transaction-list payload reports "No transactions found" and the
/// balance payload succeeds, the EVM lookup succeeds (with the list that the
/// payload carries, empty in that case) instead of failing.
pub proof fn lemma_no_transactions_is_success(t: EtherscanTxResponse, b: EtherscanBalanceResponse)
    requires
        has_infix(t.message@, "No transactions found"@),
        b.status@ == "1"@,
    ensures
        evm_failure(Reply::Body(t), Reply::Body(b)) is None,
{
}

/// A successful EVM lookup asked for more than 50 items per page reports a
/// page size of exactly 50, the size that its transaction-list call sends.
pub proof fn lemma_evm_page_size_capped(
    s: EvmAddressWithTransactions,
    address: Seq<char>,
    plan: EvmPlan,
    tx: Reply<EtherscanTxResponse>,
    bal: Reply<EtherscanBalanceResponse>,
)
    requires
        plan.limit > MAX_LIMIT,
        is_evm_merge(s, address, plan, tx, bal),
    ensures
        s.pagination.per_page == MAX_LIMIT,
{
}

/// When both EVM calls were answered and either answered with a status other
/// than 200, the lookup fails, and the error text gives both statuses.
pub proof fn lemma_status_failure_reports_both(
    tx: Reply<EtherscanTxResponse>,
    bal: Reply<EtherscanBalanceResponse>,
)
    requires
        !(tx is Unsent),
        !(bal is Unsent),
        tx is Status || bal is Status,
    ensures
        evm_failure(tx, bal) == Some(
            UpstreamError::HttpStatuses {
                transactions: reply_status(tx),
                balance: reply_status(bal),
            },
        ),
        has_infix(
            fetch_failure_text(evm_failure(tx, bal)->Some_0),
            decimal(reply_status(tx) as nat),
        ),
        has_infix(
            fetch_failure_text(evm_failure(tx, bal)->Some_0),
            decimal(reply_status(bal) as nat),
        ),
{
    let a = "Failed to fetch address info: "@;
    let b = "transactions: HTTP "@;
    let c = decimal(reply_status(tx) as nat);
    let d = ", balance: HTTP "@;
    let e = decimal(reply_status(bal) as nat);
    let full = fetch_failure_text(evm_failure(tx, bal)->Some_0);
    assert(full == a + (b + c + d + e));
    let i = (a.len() + b.len()) as int;
    assert(full.subrange(i, i + c.len()) =~= c);
    let j = (a.len() + b.len() + c.len() + d.len()) as int;
    assert(full.subrange(j, j + e.len()) =~= e);
}

/// Top-level keys of the wire form of a Bitcoin envelope: the active
/// variant's fields alone, with no tag.
pub open spec fn bitcoin_wire_keys(r: AddressResponse) -> Set<Seq<char>> {
    match r {
        AddressResponse::Success(_) => set![
            "address"@,
            "total_received"@,
            "total_sent"@,
            "final_balance"@,
            "transactions"@,
            "pagination"@,
        ],
        AddressResponse::Error { .. } => set!["error"@],
    }
}

/// Top-level keys of the wire form of an EVM envelope: the active variant's
/// fields alone, with no tag.
pub open spec fn evm_wire_keys(r: EvmAddressResponse) -> Set<Seq<char>> {
    match r {
        EvmAddressResponse::Success(_) => set![
            "address"@,
            "chain_id"@,
            "chain_name"@,
            "balance"@,
            "transactions"@,
            "pagination"@,
        ],
        EvmAddressResponse::Error { .. } => set!["error"@],
    }
}

/// An envelope's wire form never carries both a transaction list and an
/// error.
pub proof fn lemma_envelope_exclusive(r: AddressResponse, q: EvmAddressResponse)
    ensures
        !(bitcoin_wire_keys(r).contains("transactions"@) && bitcoin_wire_keys(r).contains(
            "error"@,
        )),
        !(evm_wire_keys(q).contains("transactions"@) && evm_wire_keys(q).contains("error"@)),
{
    reveal_strlit("error");
    reveal_strlit("transactions");
    reveal_strlit("address");
    reveal_strlit("total_received");
    reveal_strlit("total_sent");
    reveal_strlit("final_balance");
    reveal_strlit("pagination");
    reveal_strlit("chain_id");
    reveal_strlit("chain_name");
    reveal_strlit("balance");
    assert("error"@.len() != "transactions"@.len());
    assert("error"@.len() != "address"@.len());
    assert("error"@.len() != "total_received"@.len());
    assert("error"@.len() != "total_sent"@.len());
    assert("error"@.len() != "final_balance"@.len());
    assert("error"@.len() != "pagination"@.len());
    assert("error"@.len() != "chain_id"@.len());
    assert("error"@.len() != "chain_name"@.len());
    assert("error"@.len() != "balance"@.len());
}

} // verus!
