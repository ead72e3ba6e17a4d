pub mod primitives;
pub mod receipt;
pub mod executor;
pub mod tx_env;
pub mod transaction;
