//! A validator node of a permissionless ledger: the UTXO engine, the
//! transaction and block rules, the leader schedule, and the handlers that
//! turn one network event into the next state and the actions to perform.

pub mod amount;
pub mod trun_sync;
pub mod identity;
pub mod hashing;
pub mod merkel;
pub mod search;
pub mod utxo;
pub mod transaction;
pub mod validator;
pub mod coinbase;
pub mod header;
pub mod block;
pub mod reward;
pub mod waiting;
pub mod wrongdoer;
pub mod message;
pub mod syncing;
pub mod gossip;
pub mod leader;
pub mod moment;
pub mod node;
pub mod transactions;
pub mod handshaking;
pub mod response;
pub mod handler;
pub mod laws;
pub mod front;
pub mod events;
pub mod addresses;
