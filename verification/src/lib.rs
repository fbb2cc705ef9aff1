pub mod account;
pub mod account_chain_snapshot;
pub mod account_chain_state;
pub mod cluster;
pub mod delegation_inconsistency;
pub mod delegation_record;
pub mod delegation_record_parser;
pub mod director_pubsub;
pub mod director_rpc;
pub mod endpoint;
pub mod errors;
pub mod guide_strategy;
pub mod guide_strategy_resolver;
pub mod pda;
pub mod provider;
pub mod pubkey;
pub mod rpc_params;
pub mod rpc_passthrough;
pub mod transaction_accounts_holder;
pub mod transaction_accounts_snapshot;
pub mod transaction_accounts_validator;
pub mod transaction_status;
