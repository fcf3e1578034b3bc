//! Wallets of end users: a named account record with a type, a colour and
//! two balances, owned by one user for good.
//!
//! `request` holds what a client sends. `db::wallet` holds the record, the
//! four messages (create, get, update, delete) and what each message makes of
//! the table's answer. `db::store` is the table itself, kept in memory, and
//! `db::executor` runs the messages on it. `db::laws` states what follows for
//! every table: a user reaches no wallet but their own, an update touches
//! what it names and nothing else, a delete works once, and what was created
//! is found again unchanged.

pub mod db;
pub mod request;
