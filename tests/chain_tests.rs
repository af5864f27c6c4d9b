use chain_lookup::chain::{chain_id_for_alias, get_chain_name, parse_chain_identifier};
use chain_lookup::text::{contains_text, parse_decimal_u32, push_decimal, same_text};

#[test]
fn ethereum_aliases_resolve_alike() {
    for s in ["Ethereum", "eth", "ETH", "1", "ethereum", "EtHeReUm"] {
        let id = parse_chain_identifier(s);
        assert_eq!(id, Some(1), "{}", s);
        assert_eq!(get_chain_name(id.unwrap()), "Ethereum Mainnet");
    }
}

#[test]
fn other_aliases() {
    assert_eq!(parse_chain_identifier("polygon"), Some(137));
    assert_eq!(parse_chain_identifier("MATIC"), Some(137));
    assert_eq!(parse_chain_identifier("Binance"), Some(56));
    assert_eq!(parse_chain_identifier("bsc-testnet"), Some(97));
    assert_eq!(parse_chain_identifier("ARB"), Some(42161));
    assert_eq!(parse_chain_identifier("Base-Sepolia"), Some(84532));
    assert_eq!(chain_id_for_alias("amoy"), Some(80002));
    assert_eq!(chain_id_for_alias("Amoy"), None);
}

#[test]
fn unknown_numeric_selector_is_accepted() {
    assert_eq!(parse_chain_identifier("999999"), Some(999999));
    assert_eq!(get_chain_name(999999), "Chain 999999");
    assert_eq!(get_chain_name(0), "Chain 0");
    assert_eq!(get_chain_name(u32::MAX), "Chain 4294967295");
}

#[test]
fn unknown_name_is_rejected() {
    assert_eq!(parse_chain_identifier("not-a-chain"), None);
    assert_eq!(parse_chain_identifier(""), None);
    assert_eq!(parse_chain_identifier("-1"), None);
    assert_eq!(parse_chain_identifier("4294967296"), None);
}

#[test]
fn known_names() {
    assert_eq!(get_chain_name(137), "Polygon Mainnet");
    assert_eq!(get_chain_name(11155420), "Optimism Sepolia");
    assert_eq!(get_chain_name(8453), "Base Mainnet");
}

#[test]
fn decimal_parsing_follows_std() {
    for s in ["0", "42", "+7", "007", "4294967295", "4294967296", "", "+", "-0", "1a", " 1", "99999999999999999999"] {
        assert_eq!(parse_decimal_u32(s), s.parse::<u32>().ok(), "{:?}", s);
    }
}

#[test]
fn decimal_rendering() {
    let mut s = String::from("n=");
    push_decimal(&mut s, 0);
    assert_eq!(s, "n=0");
    let mut t = String::new();
    push_decimal(&mut t, u64::MAX);
    assert_eq!(t, u64::MAX.to_string());
}

#[test]
fn text_comparisons() {
    assert!(same_text("abc", "abc"));
    assert!(!same_text("abc", "abd"));
    assert!(!same_text("abc", "ab"));
    assert!(contains_text("Error! No transactions found", "No transactions found"));
    assert!(contains_text("abc", ""));
    assert!(!contains_text("No transaction", "No transactions found"));
    assert!(contains_text("héllo", "llo"));
}
