//! Adapter that exposes a single concentrated-liquidity pool to a routing
//! engine: it declares which on-chain accounts a quote depends on at the
//! current price, keeps a local mirror of that state consistent as the price
//! moves, and validates every read against the last fully synchronized state.

pub mod addr;
pub mod errs;
pub mod ticks;
pub mod pda;
pub mod batch;
pub mod resolver;
pub mod pool;
pub mod adapter;
pub mod laws;

pub use addr::Addr;
pub use errs::AdapterError;
pub use batch::AccountBatch;
pub use pool::{PoolManager, PoolFields, TickArrayContent, FetchedAccounts};
pub use adapter::{SwapIoClmmAdapter, SwapDirection, QuoteNumbers};
