pub mod evm_tools;
pub mod mpc_tool;
