use vstd::prelude::*;
use vstd::string::*;
use crate::text::{
    decimal, lemma_decimal_round_trip, parse_decimal_u32, parse_u32, push_decimal, same_text,
};

verus! {

/// What `str::to_lowercase` makes of a text: Unicode lower case, a function
/// of the characters alone.
pub uninterp spec fn lower_of(s: Seq<char>) -> Seq<char>;

/// Relies on `str::to_lowercase`: the lower-case form of `s`.
#[verifier::external_body]
fn lowercase(s: &str) -> (r: String)
    ensures
        r@ == lower_of(s@),
{
    s.to_lowercase()
}

/// Chain id of a known lower-case chain alias; several aliases may name one
/// chain.
pub open spec fn alias_chain_id(s: Seq<char>) -> Option<u32> {
    if s == "ethereum"@ || s == "eth"@ {
        Some(1)
    } else if s == "sepolia"@ {
        Some(11155111)
    } else if s == "polygon"@ || s == "matic"@ {
        Some(137)
    } else if s == "polygon-amoy"@ || s == "amoy"@ {
        Some(80002)
    } else if s == "bsc"@ || s == "binance"@ {
        Some(56)
    } else if s == "bsc-testnet"@ {
        Some(97)
    } else if s == "arbitrum"@ || s == "arb"@ {
        Some(42161)
    } else if s == "arbitrum-sepolia"@ {
        Some(421614)
    } else if s == "optimism"@ || s == "opt"@ {
        Some(10)
    } else if s == "optimism-sepolia"@ {
        Some(11155420)
    } else if s == "base"@ {
        Some(8453)
    } else if s == "base-sepolia"@ {
        Some(84532)
    } else {
        None
    }
}

/// Chain id that a selector names: a decimal number is taken as the id
/// itself, any other text is looked up, in lower case, among the aliases.
pub open spec fn resolve_selector(s: Seq<char>) -> Option<u32> {
    match parse_u32(s) {
        Some(id) => Some(id),
        None => alias_chain_id(lower_of(s)),
    }
}

/// Display name of a chain the registry knows.
pub open spec fn known_chain_name(id: u32) -> Option<Seq<char>> {
    if id == 1 {
        Some("Ethereum Mainnet"@)
    } else if id == 11155111 {
        Some("Sepolia Testnet"@)
    } else if id == 137 {
        Some("Polygon Mainnet"@)
    } else if id == 80002 {
        Some("Polygon Amoy Testnet"@)
    } else if id == 56 {
        Some("BSC Mainnet"@)
    } else if id == 97 {
        Some("BSC Testnet"@)
    } else if id == 42161 {
        Some("Arbitrum One"@)
    } else if id == 421614 {
        Some("Arbitrum Sepolia"@)
    } else if id == 10 {
        Some("Optimism Mainnet"@)
    } else if id == 11155420 {
        Some("Optimism Sepolia"@)
    } else if id == 8453 {
        Some("Base Mainnet"@)
    } else if id == 84532 {
        Some("Base Sepolia"@)
    } else {
        None
    }
}

/// Display name of any chain id: the registry's name where it has one, else
/// `Chain <id>`.
pub open spec fn chain_name(id: u32) -> Seq<char> {
    match known_chain_name(id) {
        Some(name) => name,
        None => "Chain "@ + decimal(id as nat),
    }
}

/// Looks up an already lower-cased alias.
pub fn chain_id_for_alias(lowered: &str) -> (r: Option<u32>)
    ensures
        r == alias_chain_id(lowered@),
{
    if same_text(lowered, "ethereum") || same_text(lowered, "eth") {
        Some(1)
    } else if same_text(lowered, "sepolia") {
        Some(11155111)
    } else if same_text(lowered, "polygon") || same_text(lowered, "matic") {
        Some(137)
    } else if same_text(lowered, "polygon-amoy") || same_text(lowered, "amoy") {
        Some(80002)
    } else if same_text(lowered, "bsc") || same_text(lowered, "binance") {
        Some(56)
    } else if same_text(lowered, "bsc-testnet") {
        Some(97)
    } else if same_text(lowered, "arbitrum") || same_text(lowered, "arb") {
        Some(42161)
    } else if same_text(lowered, "arbitrum-sepolia") {
        Some(421614)
    } else if same_text(lowered, "optimism") || same_text(lowered, "opt") {
        Some(10)
    } else if same_text(lowered, "optimism-sepolia") {
        Some(11155420)
    } else if same_text(lowered, "base") {
        Some(8453)
    } else if same_text(lowered, "base-sepolia") {
        Some(84532)
    } else {
        None
    }
}

/// Resolves a chain selector: a decimal number is the chain id itself (any
/// id is accepted), otherwise the selector is matched case-insensitively
/// against the alias table; `None` when it is neither.
pub fn parse_chain_identifier(identifier: &str) -> (r: Option<u32>)
    ensures
        r == resolve_selector(identifier@),
        parse_u32(identifier@) is Some ==> r == parse_u32(identifier@),
{
    match parse_decimal_u32(identifier) {
        Some(id) => Some(id),
        None => {
            let lowered = lowercase(identifier);
            chain_id_for_alias(lowered.as_str())
        },
    }
}

/// Friendly name of a chain id; never fails.
pub fn get_chain_name(chain_id: u32) -> (r: String)
    ensures
        r@ == chain_name(chain_id),
{
    if chain_id == 1 {
        String::from_str("Ethereum Mainnet")
    } else if chain_id == 11155111 {
        String::from_str("Sepolia Testnet")
    } else if chain_id == 137 {
        String::from_str("Polygon Mainnet")
    } else if chain_id == 80002 {
        String::from_str("Polygon Amoy Testnet")
    } else if chain_id == 56 {
        String::from_str("BSC Mainnet")
    } else if chain_id == 97 {
        String::from_str("BSC Testnet")
    } else if chain_id == 42161 {
        String::from_str("Arbitrum One")
    } else if chain_id == 421614 {
        String::from_str("Arbitrum Sepolia")
    } else if chain_id == 10 {
        String::from_str("Optimism Mainnet")
    } else if chain_id == 11155420 {
        String::from_str("Optimism Sepolia")
    } else if chain_id == 8453 {
        String::from_str("Base Mainnet")
    } else if chain_id == 84532 {
        String::from_str("Base Sepolia")
    } else {
        let mut r = String::from_str("Chain ");
        push_decimal(&mut r, chain_id as u64);
        r
    }
}

/// A selector written as a decimal number resolves to that number as the
/// chain id, whether the registry knows it or not, and a chain id that the
/// registry does not know is named `Chain <id>`.
pub proof fn lemma_numeric_selector(id: u32)
    ensures
        resolve_selector(decimal(id as nat)) == Some(id),
        known_chain_name(id) is None ==> chain_name(id) == "Chain "@ + decimal(id as nat),
{
    lemma_decimal_round_trip(id);
}

} // verus!
