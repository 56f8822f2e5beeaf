//! A bounded, deterministic price-time-priority order-matching engine.
//!
//! The state of the engine — a fixed-capacity order book and per-user
//! balances — is manipulated only through fixed-size, arithmetic-only
//! operations, so that every operation has a statically bounded cost and a
//! byte-exact packed representation.

mod book;
mod codec;
mod engine;
mod ledger;
mod order;
mod submit;

pub use book::OrderBook;
pub use book::MAX_ORDERS;
pub use codec::init_order_book;
pub use codec::OrderBookFlat;
pub use engine::match_orders;
pub use engine::MatchResult;
pub use engine::MatchedOrder;
pub use engine::MAX_MATCHES_PER_BATCH;
pub use ledger::execute_settlement;
pub use ledger::init_user_ledger;
pub use ledger::lock;
pub use ledger::required;
pub use ledger::update_ledger_deposit;
pub use ledger::update_ledger_withdraw_verify;
pub use ledger::Balances;
pub use order::Order;
pub use submit::submit_order;
pub use submit::OrderStatus;
pub use submit::UserSensitiveData;
