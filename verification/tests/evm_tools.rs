use indiefuture_template_agent::tools::evm_tools::{
    prepare_token_balance_query, token_balance_result, try_get_address_from_symbol, GetTokenBalanceInputs,
    TokenAddressMap, TokenBalanceError,
};
use indiefuture_template_agent::types::domains::uint256::DomainUint256;
use indiefuture_template_agent::util::json_extract::{JsonNumber, JsonValue};

const WALLET: &str = "0x5AEDA56215b167893e80B4fE645BA6d5Bab767DE";
const USDC: &str = "0xA0b86991c6218b36c1d19D4a2e9Eb0cE3606eB48";

fn tokens() -> TokenAddressMap {
    TokenAddressMap {
        entries: vec![
            ("USDC".to_string(), USDC.to_string()),
            ("BROKEN".to_string(), "not an address".to_string()),
        ],
    }
}

fn inputs(chain: Option<u64>, wallet: &str, token: &str) -> GetTokenBalanceInputs {
    GetTokenBalanceInputs {
        chain_id: chain,
        wallet_address: wallet.to_string(),
        token_address_or_symbol: token.to_string(),
    }
}

#[test]
fn symbol_lookup() {
    assert!(try_get_address_from_symbol("USDC", &tokens()).is_some());
    assert!(try_get_address_from_symbol("BROKEN", &tokens()).is_none());
    assert!(try_get_address_from_symbol("DAI", &tokens()).is_none());
}

#[test]
fn query_preparation() {
    let q = prepare_token_balance_query(&inputs(None, WALLET, "USDC"), &tokens()).unwrap();
    assert_eq!(q.chain_id, 1);
    assert_eq!(q.token_address.to_string_full(), USDC.to_lowercase());
    let q = prepare_token_balance_query(&inputs(Some(137), WALLET, USDC), &tokens()).unwrap();
    assert_eq!(q.chain_id, 137);
    assert_eq!(
        prepare_token_balance_query(&inputs(None, "0x12", "USDC"), &tokens()).unwrap_err(),
        TokenBalanceError::InvalidWalletAddress
    );
    assert_eq!(
        prepare_token_balance_query(&inputs(None, WALLET, "DAI"), &tokens()).unwrap_err(),
        TokenBalanceError::InvalidTokenAddressOrSymbol
    );
}

#[test]
fn balance_report() {
    let q = prepare_token_balance_query(&inputs(Some(10), WALLET, USDC), &tokens()).unwrap();
    let balance = DomainUint256::from_dec_str("1000000000000000000000").unwrap();
    let expected = JsonValue::Object(vec![
        ("token_address".to_string(), JsonValue::Text(USDC.to_lowercase())),
        ("wallet_address".to_string(), JsonValue::Text(WALLET.to_lowercase())),
        ("chain_id".to_string(), JsonValue::Number(JsonNumber::PosInt(10))),
        ("raw_balance".to_string(), JsonValue::Text("1000000000000000000000".to_string())),
    ]);
    assert_eq!(token_balance_result(&q, &balance), expected);
}
