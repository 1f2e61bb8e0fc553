use vstd::prelude::*;
use crate::types::domains::eth_address::{DomainEthAddress, spec_address_text, spec_parse_address};
use crate::types::domains::uint256::{DomainUint256, decimal_text};
use crate::util::json_extract::{JsonModel, JsonNumber, JsonValue, NumberModel, entries_model, lemma_entries_model};
use crate::util::text::{owned, str_eq};

verus! {

/// What the token-balance tool is asked for.
#[derive(Debug)]
pub struct GetTokenBalanceInputs {
    /// The chain to ask; Ethereum mainnet (1) when missing.
    pub chain_id: Option<u64>,
    pub wallet_address: String,
    /// A token contract's address, or a token symbol that the token list knows.
    pub token_address_or_symbol: String,
}

/// Token symbols and the addresses of their contracts.
#[derive(Debug)]
pub struct TokenAddressMap {
    pub entries: Vec<(String, String)>,
}

/// The address text the first entry for `symbol` holds, if any.
pub open spec fn symbol_lookup(entries: Seq<(String, String)>, symbol: Seq<char>) -> Option<Seq<char>>
    decreases entries.len(),
{
    if entries.len() == 0 {
        None
    } else if entries[0].0@ == symbol {
        Some(entries[0].1@)
    } else {
        symbol_lookup(entries.drop_first(), symbol)
    }
}

/// The address that a symbol stands for: the listed text, read as an address.
pub open spec fn spec_address_for_symbol(map: TokenAddressMap, symbol: Seq<char>) -> Option<Seq<u8>> {
    match symbol_lookup(map.entries@, symbol) {
        Some(a) => spec_parse_address(a),
        None => None,
    }
}

/// The address of the contract of a token that the list names.
pub fn try_get_address_from_symbol(input: &str, token_address_map: &TokenAddressMap) -> (r: Option<DomainEthAddress>)
    ensures
        match spec_address_for_symbol(*token_address_map, input@) {
            Some(b) => r matches Some(a) && a.0@ == b,
            None => r is None,
        },
{
    let entries = &token_address_map.entries;
    let n = entries.len();
    let mut i: usize = 0;
    assert(entries@.skip(0) =~= entries@);
    while i < n
        invariant
            n == entries@.len(),
            i <= n,
            symbol_lookup(entries@, input@) == symbol_lookup(entries@.skip(i as int), input@),
            entries@ == token_address_map.entries@,
        decreases n - i,
    {
        assert(entries@.skip(i as int).drop_first() =~= entries@.skip(i + 1));
        assert(entries@.skip(i as int)[0] == entries@[i as int]);
        if str_eq(entries[i].0.as_str(), input) {
            assert(symbol_lookup(entries@, input@) == Some(entries@[i as int].1@));
            return DomainEthAddress::parse(entries[i].1.as_str());
        }
        i = i + 1;
    }
    None
}

/// The addresses and chain of a balance query.
#[derive(Debug)]
pub struct TokenBalanceQuery {
    pub chain_id: u64,
    pub wallet_address: DomainEthAddress,
    pub token_address: DomainEthAddress,
}

/// Why a balance query could not be made.
#[derive(Debug, PartialEq, Eq, Structural, Clone, Copy)]
pub enum TokenBalanceError {
    InvalidWalletAddress,
    InvalidTokenAddressOrSymbol,
}

/// The token a query names: the text read as an address, else the address
/// the list gives for it as a symbol.
pub open spec fn spec_token_address(input: GetTokenBalanceInputs, map: TokenAddressMap) -> Option<Seq<u8>> {
    match spec_parse_address(input.token_address_or_symbol@) {
        Some(b) => Some(b),
        None => spec_address_for_symbol(map, input.token_address_or_symbol@),
    }
}

/// Reads the query out of the tool's input: the chain (mainnet by default),
/// the wallet, and the token by address or symbol.
pub fn prepare_token_balance_query(
    input: &GetTokenBalanceInputs,
    token_address_map: &TokenAddressMap,
) -> (r: Result<TokenBalanceQuery, TokenBalanceError>)
    ensures
        match (spec_parse_address(input.wallet_address@), spec_token_address(*input, *token_address_map)) {
            (None, _) => r == Err::<TokenBalanceQuery, _>(TokenBalanceError::InvalidWalletAddress),
            (Some(_), None) => r == Err::<TokenBalanceQuery, _>(TokenBalanceError::InvalidTokenAddressOrSymbol),
            (Some(w), Some(t)) => r matches Ok(q) && q.wallet_address.0@ == w && q.token_address.0@ == t
                && q.chain_id == match input.chain_id {
                    Some(c) => c,
                    None => 1,
                },
        },
{
    let chain_id = match input.chain_id {
        Some(c) => c,
        None => 1,
    };
    let wallet_address = match DomainEthAddress::parse(input.wallet_address.as_str()) {
        Some(a) => a,
        None => return Err(TokenBalanceError::InvalidWalletAddress),
    };
    let token_address = match DomainEthAddress::parse(input.token_address_or_symbol.as_str()) {
        Some(a) => Some(a),
        None => try_get_address_from_symbol(input.token_address_or_symbol.as_str(), token_address_map),
    };
    match token_address {
        Some(token_address) => Ok(TokenBalanceQuery { chain_id, wallet_address, token_address }),
        None => Err(TokenBalanceError::InvalidTokenAddressOrSymbol),
    }
}

/// The tool's report of a balance: both addresses in full, the chain, and the
/// raw balance in decimal.
pub open spec fn token_balance_json(q: TokenBalanceQuery, balance: nat) -> JsonModel {
    JsonModel::Object(
        seq![
            ("token_address"@, JsonModel::Text(spec_address_text(q.token_address.0@))),
            ("wallet_address"@, JsonModel::Text(spec_address_text(q.wallet_address.0@))),
            ("chain_id"@, JsonModel::Number(NumberModel::PosInt(q.chain_id))),
            ("raw_balance"@, JsonModel::Text(decimal_text(balance))),
        ],
    )
}

/// The report of the balance of the queried token in the queried wallet.
pub fn token_balance_result(query: &TokenBalanceQuery, balance: &DomainUint256) -> (r: JsonValue)
    ensures
        r@ == token_balance_json(*query, balance.value()),
{
    let entries = vec![
        (owned("token_address"), JsonValue::Text(query.token_address.to_string_full())),
        (owned("wallet_address"), JsonValue::Text(query.wallet_address.to_string_full())),
        (owned("chain_id"), JsonValue::Number(JsonNumber::PosInt(query.chain_id))),
        (owned("raw_balance"), JsonValue::Text(balance.to_dec_string())),
    ];
    proof {
        lemma_entries_model(entries@);
        assert(entries_model(entries@) =~= token_balance_json(*query, balance.value())->Object_0);
    }
    JsonValue::Object(entries)
}

} // verus!
