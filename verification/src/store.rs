//! The commands that the worker puts to the key-value store and the replies it takes
//! back. The worker never touches the store itself: it hands out a command and is
//! handed the reply.

use vstd::prelude::*;

verus! {

/// One write inside an atomic batch.
#[derive(Clone, Debug, PartialEq, Eq)]
pub enum StoreWrite {
    /// Set `field` of the hash at `key` to `value`.
    HashPut { key: String, field: String, value: String },
    /// Add one to the integer at `key`.
    Increment { key: String },
    /// Add `member` to the set at `key`.
    SetAdd { key: String, member: String },
}

/// One command to the store.
#[derive(Clone, Debug, PartialEq, Eq)]
pub enum StoreCommand {
    /// Does `key` exist?
    Exists { key: String },
    /// Read the scalar at `key`.
    Get { key: String },
    /// Set the scalar at `key` to `value`.
    Put { key: String, value: String },
    /// Read `field` of the hash at `key`.
    HashGet { key: String, field: String },
    /// Set `field` of the hash at `key` to `value`.
    HashPut { key: String, field: String, value: String },
    /// List the members of the set at `key`.
    SetMembers { key: String },
    /// Apply `writes` in order as one unit: all of them or none.
    Atomic { writes: Vec<StoreWrite> },
}

/// What the store answered.
#[derive(Clone, Debug, PartialEq, Eq)]
pub enum StoreReply {
    /// The command failed.
    Failed,
    /// Answer to `Exists`.
    Exists(bool),
    /// Answer to `Get` and `HashGet`: the value, or `None` where there is none.
    Value(Option<String>),
    /// Answer to `SetMembers`: the members in the order the store listed them.
    Members(Vec<String>),
    /// Answer to `Put`, `HashPut` and `Atomic`: the write was applied.
    Written,
}

/// A `StoreWrite` with texts for strings.
pub enum WriteModel {
    HashPut { key: Seq<char>, field: Seq<char>, value: Seq<char> },
    Increment { key: Seq<char> },
    SetAdd { key: Seq<char>, member: Seq<char> },
}

/// A `StoreCommand` with texts for strings.
pub enum CommandModel {
    Exists { key: Seq<char> },
    Get { key: Seq<char> },
    Put { key: Seq<char>, value: Seq<char> },
    HashGet { key: Seq<char>, field: Seq<char> },
    HashPut { key: Seq<char>, field: Seq<char>, value: Seq<char> },
    SetMembers { key: Seq<char> },
    Atomic { writes: Seq<WriteModel> },
}

/// A `StoreReply` with texts for strings.
pub enum ReplyModel {
    Failed,
    Exists(bool),
    Value(Option<Seq<char>>),
    Members(Seq<Seq<char>>),
    Written,
}

/// The texts of a list of strings.
pub open spec fn texts(list: Seq<String>) -> Seq<Seq<char>> {
    Seq::new(list.len(), |i: int| list[i]@)
}

/// The models of a list of writes.
pub open spec fn write_models(list: Seq<StoreWrite>) -> Seq<WriteModel> {
    Seq::new(list.len(), |i: int| list[i]@)
}

impl View for StoreWrite {
    type V = WriteModel;

    open spec fn view(&self) -> WriteModel {
        match *self {
            StoreWrite::HashPut { key, field, value } => WriteModel::HashPut {
                key: key@,
                field: field@,
                value: value@,
            },
            StoreWrite::Increment { key } => WriteModel::Increment { key: key@ },
            StoreWrite::SetAdd { key, member } => WriteModel::SetAdd { key: key@, member: member@ },
        }
    }
}

impl View for StoreCommand {
    type V = CommandModel;

    open spec fn view(&self) -> CommandModel {
        match *self {
            StoreCommand::Exists { key } => CommandModel::Exists { key: key@ },
            StoreCommand::Get { key } => CommandModel::Get { key: key@ },
            StoreCommand::Put { key, value } => CommandModel::Put { key: key@, value: value@ },
            StoreCommand::HashGet { key, field } => CommandModel::HashGet {
                key: key@,
                field: field@,
            },
            StoreCommand::HashPut { key, field, value } => CommandModel::HashPut {
                key: key@,
                field: field@,
                value: value@,
            },
            StoreCommand::SetMembers { key } => CommandModel::SetMembers { key: key@ },
            StoreCommand::Atomic { writes } => CommandModel::Atomic {
                writes: write_models(writes@),
            },
        }
    }
}

impl View for StoreReply {
    type V = ReplyModel;

    open spec fn view(&self) -> ReplyModel {
        match *self {
            StoreReply::Failed => ReplyModel::Failed,
            StoreReply::Exists(found) => ReplyModel::Exists(found),
            StoreReply::Value(Some(value)) => ReplyModel::Value(Some(value@)),
            StoreReply::Value(None) => ReplyModel::Value(None),
            StoreReply::Members(list) => ReplyModel::Members(texts(list@)),
            StoreReply::Written => ReplyModel::Written,
        }
    }
}

} // verus!
