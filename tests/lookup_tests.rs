use chain_lookup::lookup::{
    bitcoin_address_url, evm_balance_url, evm_transactions_url, fetch_failure_message,
    finish_bitcoin_lookup, finish_evm_lookup, plan_bitcoin_lookup, plan_evm_lookup, BitcoinPlan,
    EvmPlan, Reply, UpstreamError,
};
use chain_lookup::models::{
    AddressInfo, AddressResponse, EtherscanBalanceResponse, EtherscanTxResponse,
    EvmAddressResponse, EvmPaginationQuery, EvmTransaction, PaginationQuery, Transaction, TxInput,
    TxOutput, PrevOut,
};

fn sample_tx(hash: &str) -> Transaction {
    Transaction {
        hash: hash.to_string(),
        time: 1700000000,
        size: 250,
        inputs: vec![TxInput {
            prev_out: Some(PrevOut { addr: Some("1Src".to_string()), value: 5000 }),
            script: String::new(),
        }],
        out: vec![TxOutput { addr: Some("1Dst".to_string()), value: 4000, script: String::new() }],
    }
}

fn sample_info(n_tx: u32) -> AddressInfo {
    AddressInfo {
        address: "1A1zP1eP5QGefi2DMPTfTL5SLmv7DivfNa".to_string(),
        n_tx,
        total_received: 900,
        total_sent: 400,
        final_balance: 500,
        txs: vec![sample_tx("b"), sample_tx("a")],
    }
}

fn evm_tx(hash: &str) -> EvmTransaction {
    EvmTransaction {
        block_number: "1".to_string(),
        time_stamp: "2".to_string(),
        hash: hash.to_string(),
        from: "0xa".to_string(),
        to: "0xb".to_string(),
        value: "10".to_string(),
        gas: "21000".to_string(),
        gas_price: "1".to_string(),
        gas_used: "21000".to_string(),
        is_error: "0".to_string(),
        txreceipt_status: "1".to_string(),
        input: "0x".to_string(),
        contract_address: String::new(),
    }
}

fn tx_body(status: &str, message: &str, result: Vec<EvmTransaction>) -> Reply<EtherscanTxResponse> {
    Reply::Body(EtherscanTxResponse { status: status.to_string(), message: message.to_string(), result })
}

fn balance_body(status: &str, message: &str, result: &str) -> Reply<EtherscanBalanceResponse> {
    Reply::Body(EtherscanBalanceResponse {
        status: status.to_string(),
        message: message.to_string(),
        result: result.to_string(),
    })
}

fn plan() -> EvmPlan {
    EvmPlan { chain_id: 137, page: 2, limit: 20 }
}

fn error_text(r: EvmAddressResponse) -> String {
    match r {
        EvmAddressResponse::Error { error } => error,
        EvmAddressResponse::Success(_) => panic!("expected an error envelope"),
    }
}

#[test]
fn bitcoin_plan_clamps() {
    let p = plan_bitcoin_lookup(&PaginationQuery { page: 0, limit: 500 });
    assert_eq!(p, BitcoinPlan { page: 1, limit: 50, offset: 0 });
    let p = plan_bitcoin_lookup(&PaginationQuery { page: 3, limit: 20 });
    assert_eq!(p, BitcoinPlan { page: 3, limit: 20, offset: 40 });
    let p = plan_bitcoin_lookup(&PaginationQuery { page: 2, limit: 0 });
    assert_eq!(p, BitcoinPlan { page: 2, limit: 1, offset: 1 });
}

#[test]
fn bitcoin_url() {
    assert_eq!(
        bitcoin_address_url("1abc", 40, 20),
        "https://blockchain.info/rawaddr/1abc?offset=40&limit=20"
    );
    assert_eq!(
        bitcoin_address_url("1abc", 0, 75),
        "https://blockchain.info/rawaddr/1abc?offset=0&limit=50"
    );
}

#[test]
fn bitcoin_success_keeps_order_and_paginates() {
    let p = plan_bitcoin_lookup(&PaginationQuery { page: 1, limit: 10 });
    match finish_bitcoin_lookup(&p, Reply::Body(sample_info(101))) {
        AddressResponse::Success(s) => {
            assert_eq!(s.address, "1A1zP1eP5QGefi2DMPTfTL5SLmv7DivfNa");
            assert_eq!(s.final_balance, 500);
            assert_eq!(s.total_received, 900);
            assert_eq!(s.total_sent, 400);
            assert_eq!(s.transactions.len(), 2);
            assert_eq!(s.transactions[0].hash, "b");
            assert_eq!(s.transactions[1].hash, "a");
            assert_eq!(s.pagination.total_transactions, 101);
            assert_eq!(s.pagination.total_pages, 11);
            assert_eq!(s.pagination.per_page, 10);
            assert_eq!(s.pagination.current_page, 1);
        }
        AddressResponse::Error { .. } => panic!("expected success"),
    }
}

#[test]
fn bitcoin_empty_address_has_one_page() {
    let p = plan_bitcoin_lookup(&PaginationQuery { page: 1, limit: 25 });
    match finish_bitcoin_lookup(&p, Reply::Body(sample_info(0))) {
        AddressResponse::Success(s) => assert_eq!(s.pagination.total_pages, 1),
        AddressResponse::Error { .. } => panic!("expected success"),
    }
}

#[test]
fn bitcoin_errors() {
    let p = plan_bitcoin_lookup(&PaginationQuery { page: 1, limit: 10 });
    let cases = [
        (Reply::Status(404), "Failed to fetch address info: HTTP 404"),
        (Reply::Unsent("connection refused".to_string()), "Failed to fetch address info: connection refused"),
        (Reply::Malformed("missing field `n_tx`".to_string()), "Failed to fetch address info: missing field `n_tx`"),
    ];
    for (reply, text) in cases {
        match finish_bitcoin_lookup(&p, reply) {
            AddressResponse::Error { error } => assert_eq!(error, text),
            AddressResponse::Success(_) => panic!("expected an error envelope"),
        }
    }
}

#[test]
fn failure_messages() {
    assert_eq!(
        fetch_failure_message(&UpstreamError::Api("NOTOK".to_string())),
        "Failed to fetch address info: Etherscan API error: NOTOK"
    );
    assert_eq!(
        UpstreamError::HttpStatuses { transactions: 200, balance: 503 }.detail(),
        "transactions: HTTP 200, balance: HTTP 503"
    );
}

#[test]
fn evm_unknown_selector_is_error_without_fetch() {
    match plan_evm_lookup("not-a-chain", &EvmPaginationQuery { page: 1, limit: 10 }) {
        Err(r) => assert_eq!(
            error_text(r),
            "Invalid chain identifier: 'not-a-chain'. Use chain name (e.g., 'ethereum', 'polygon') or chain ID (e.g., '1', '137')"
        ),
        Ok(_) => panic!("no fetch plan may be made for an unknown selector"),
    }
}

#[test]
fn evm_plan_resolves_and_clamps() {
    let p = plan_evm_lookup("Polygon", &EvmPaginationQuery { page: 0, limit: 99 });
    assert_eq!(p.ok(), Some(EvmPlan { chain_id: 137, page: 1, limit: 50 }));
    let p = plan_evm_lookup("999999", &EvmPaginationQuery { page: 4, limit: 5 });
    assert_eq!(p.ok(), Some(EvmPlan { chain_id: 999999, page: 4, limit: 5 }));
}

#[test]
fn evm_urls() {
    assert_eq!(
        evm_transactions_url("KEY", 1, "0xabc", 2, 80),
        "https://api.etherscan.io/v2/api?apikey=KEY&chainid=1&module=account&action=txlist&address=0xabc&startblock=0&endblock=99999999&page=2&offset=50&sort=desc"
    );
    assert_eq!(
        evm_balance_url("KEY", 137, "0xabc"),
        "https://api.etherscan.io/v2/api?apikey=KEY&chainid=137&module=account&action=balance&address=0xabc&tag=latest"
    );
}

#[test]
fn evm_success_merges() {
    let r = finish_evm_lookup(
        "0xabc",
        &plan(),
        tx_body("1", "OK", vec![evm_tx("h2"), evm_tx("h1")]),
        balance_body("1", "OK", "12345"),
    );
    match r {
        EvmAddressResponse::Success(s) => {
            assert_eq!(s.address, "0xabc");
            assert_eq!(s.chain_id, 137);
            assert_eq!(s.chain_name, "Polygon Mainnet");
            assert_eq!(s.balance, "12345");
            assert_eq!(s.transactions.len(), 2);
            assert_eq!(s.transactions[0].hash, "h2");
            assert_eq!(s.pagination.per_page, 20);
            assert_eq!(s.pagination.current_page, 2);
        }
        EvmAddressResponse::Error { .. } => panic!("expected success"),
    }
}

#[test]
fn evm_no_transactions_found_is_success() {
    let r = finish_evm_lookup(
        "0xabc",
        &plan(),
        tx_body("0", "No transactions found", vec![]),
        balance_body("1", "OK", "0"),
    );
    match r {
        EvmAddressResponse::Success(s) => {
            assert!(s.transactions.is_empty());
            assert_eq!(s.balance, "0");
        }
        EvmAddressResponse::Error { .. } => panic!("expected success"),
    }
}

#[test]
fn evm_status_failure_reports_both_statuses() {
    let r = finish_evm_lookup("0xabc", &plan(), Reply::Status(502), balance_body("1", "OK", "0"));
    assert_eq!(
        error_text(r),
        "Failed to fetch address info: transactions: HTTP 502, balance: HTTP 200"
    );
    let r = finish_evm_lookup("0xabc", &plan(), tx_body("1", "OK", vec![]), Reply::Status(429));
    let e = error_text(r);
    assert!(e.contains("200") && e.contains("429"));
    let r = finish_evm_lookup("0xabc", &plan(), Reply::Status(500), Reply::Status(503));
    assert_eq!(
        error_text(r),
        "Failed to fetch address info: transactions: HTTP 500, balance: HTTP 503"
    );
}

#[test]
fn evm_transport_failure_wins() {
    let r = finish_evm_lookup(
        "0xabc",
        &plan(),
        Reply::Status(500),
        Reply::Unsent("dns error".to_string()),
    );
    assert_eq!(error_text(r), "Failed to fetch address info: dns error");
}

#[test]
fn evm_api_errors() {
    let r = finish_evm_lookup(
        "0xabc",
        &plan(),
        tx_body("0", "NOTOK", vec![]),
        balance_body("1", "OK", "0"),
    );
    assert_eq!(error_text(r), "Failed to fetch address info: Etherscan API error: NOTOK");
    let r = finish_evm_lookup(
        "0xabc",
        &plan(),
        tx_body("1", "OK", vec![]),
        balance_body("0", "Invalid API Key", ""),
    );
    assert_eq!(error_text(r), "Failed to fetch address info: Etherscan API error: Invalid API Key");
}

#[test]
fn evm_decode_error() {
    let r = finish_evm_lookup(
        "0xabc",
        &plan(),
        Reply::Malformed("invalid type: string".to_string()),
        balance_body("1", "OK", "0"),
    );
    assert_eq!(error_text(r), "Failed to fetch address info: invalid type: string");
}

#[test]
fn evm_merge_caps_page_size() {
    let wide = EvmPlan { chain_id: 1, page: 0, limit: 100 };
    let r = finish_evm_lookup(
        "0xabc",
        &wide,
        tx_body("1", "OK", vec![evm_tx("h1")]),
        balance_body("1", "OK", "7"),
    );
    match r {
        EvmAddressResponse::Success(s) => {
            assert_eq!(s.pagination.per_page, 50);
            assert_eq!(s.pagination.current_page, 1);
            assert_eq!(s.chain_name, "Ethereum Mainnet");
        }
        EvmAddressResponse::Error { .. } => panic!("expected success"),
    }
    assert_eq!(
        evm_transactions_url("KEY", 1, "0xabc", 0, 100),
        "https://api.etherscan.io/v2/api?apikey=KEY&chainid=1&module=account&action=txlist&address=0xabc&startblock=0&endblock=99999999&page=1&offset=50&sort=desc"
    );
}
