//! The command core of an address tracker. A user asks a chat for the credential of
//! their application; the application reports its address over HTTP with that
//! credential; the user asks the chat for the address reported last.
//!
//! One worker owns the store. It takes one command at a time from a queue, puts the
//! store commands of that request one after another, and hands the caller one message
//! through the slot that came with the command. This crate holds what the worker
//! decides; sending a command to the store and waiting for the queue are left to the
//! program around it.
//!
//! - `credential`: making and reading credentials.
//! - `token_request`, `ip_request`, `ip_report`, `startup`: the four protocols, each a
//!   function from where the request stands and the store's reply to what comes next.
//! - `worker`: a request with its slot, from the queue to the one message.
//! - `store`, `pipeline`: the store's commands and replies, and the commands as Redis
//!   takes them.
//! - `model`, `laws`: a model of the store, and what holds of whole requests against it.
//! - `rest`, `bot`: what the HTTP side and the chat side decide.
//! - `address`, `text`, `clock`: addresses, decimal text, the time.

use crate::db::DbCommand;
use tokio::sync::oneshot::Sender;
use vstd::prelude::*;

pub mod address;
pub mod bot;
pub mod clock;
pub mod credential;
pub mod db;
pub mod ip_report;
pub mod ip_request;
pub mod laws;
pub mod model;
pub mod pipeline;
pub mod rest;
pub mod startup;
pub mod store;
pub mod text;
pub mod token_request;
pub mod worker;

verus! {

/// One entry of the worker's queue: a request and the slot that takes its one message.
#[derive(Debug)]
#[verifier::reject_recursive_types(T)]
pub struct ApplicationCommand<T> {
    /// What is asked of the worker.
    pub db_cmd: DbCommand,
    /// Where the caller waits for the message.
    pub tx_channel: Sender<T>,
}

impl<T> ApplicationCommand<T> {
    /// Pairs a request with the slot for its message.
    pub fn new(db_cmd: DbCommand, tx_channel: Sender<T>) -> (command: Self)
        ensures
            command.db_cmd == db_cmd,
            command.tx_channel == tx_channel,
    {
        ApplicationCommand { db_cmd, tx_channel }
    }
}

} // verus!
