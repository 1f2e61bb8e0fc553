pub mod bytes;
pub mod decimal;
pub mod eth_address;
pub mod uint256;
