//! The logic of the Epic wallet backend: what requests ask for, when the chain is scanned, how
//! balances and transactions are put together, how a payment is made, and the JSON that goes
//! back. The wallet, its node and the disk are reached from the outside; here they are plain
//! values that come in and steps that are asked for.
pub mod block_times;
pub mod clock;
pub mod failure;
pub mod json;
pub mod operations;
pub mod outputs;
pub mod reply;
pub mod request;
pub mod restore;
pub mod send;
pub mod snapshot;
pub mod text;
pub mod transactions;
pub mod wallet;
