//! A model of the store, and what a whole request comes to when the store of the
//! model answers its commands.
//!
//! The model keeps one keyspace. A key holds a text, a hash of fields, or a set; a
//! command on a key of another kind fails and changes nothing. A set lists its
//! members in an order of its own, the same each time while the set stays as it is;
//! where a new member goes in that order is left open. The counter counts only from
//! a text that is the decimal form of a number. An atomic batch applies all of its
//! writes or none.

use crate::db::{DbCommandModel, OutcomeModel, ReportModel, StepModel};
use crate::ip_report::IpReportModel;
use crate::ip_request::IpGetRequest;
use crate::startup::{startup_begin, startup_step, Startup, StartupStepModel};
use crate::store::{CommandModel, ReplyModel, WriteModel};
use crate::text::{all_digits, decimal, digits_value};
use crate::token_request::TokenRequestModel;
use crate::worker::{session_begin, session_step, SessionModel};
use vstd::prelude::*;

verus! {

/// What a key of the store holds.
pub enum Entry {
    /// A scalar.
    Text(Seq<char>),
    /// A hash: a value for each of its fields.
    Hash(Map<Seq<char>, Seq<char>>),
    /// A set, as the store lists it: no member twice.
    Members(Seq<Seq<char>>),
}

/// The store: what each of its keys holds.
pub struct StoreModel {
    pub entries: Map<Seq<char>, Entry>,
}

impl StoreModel {
    /// Whether the store holds `key`.
    pub open spec fn has(self, key: Seq<char>) -> bool {
        self.entries.dom().contains(key)
    }

    /// The store with `entry` under `key`.
    pub open spec fn with(self, key: Seq<char>, entry: Entry) -> StoreModel {
        StoreModel { entries: self.entries.insert(key, entry) }
    }

    /// The value of `field` in the hash at `key`, if the store holds both.
    pub open spec fn field(self, key: Seq<char>, field: Seq<char>) -> Option<Seq<char>> {
        if self.has(key) {
            match self.entries[key] {
                Entry::Hash(fields) => if fields.dom().contains(field) {
                    Some(fields[field])
                } else {
                    None
                },
                _ => None,
            }
        } else {
            None
        }
    }

    /// The members of the set at `key` as the store lists them; none for a key that
    /// the store does not hold or that holds no set.
    pub open spec fn members(self, key: Seq<char>) -> Seq<Seq<char>> {
        if self.has(key) {
            match self.entries[key] {
                Entry::Members(list) => list,
                _ => Seq::empty(),
            }
        } else {
            Seq::empty()
        }
    }
}

/// The greatest number that the counter counts from.
pub open spec fn counter_limit() -> nat {
    0x7fff_ffff_ffff_fffe
}

/// The number that the text of a counter stands for: the text must be that number's
/// decimal form.
pub open spec fn counter_value(text: Seq<char>) -> Option<nat> {
    if text.len() > 0 && all_digits(text) && decimal(digits_value(text)) == text && digits_value(
        text,
    ) <= counter_limit() {
        Some(digits_value(text))
    } else {
        None
    }
}

/// How a set lists its members once `member` has joined those of `list`: each member
/// once, in an order that is left open.
pub open spec fn joined(list: Seq<Seq<char>>, member: Seq<char>) -> Seq<Seq<char>> {
    choose|next: Seq<Seq<char>>|
        next.no_duplicates() && next.to_set() == list.to_set().insert(member)
}

/// A set with one member lists that member.
pub proof fn lemma_joined_empty(member: Seq<char>)
    ensures
        joined(Seq::empty(), member) == seq![member],
{
    let only = seq![member];
    let target = Seq::<Seq<char>>::empty().to_set().insert(member);
    assert(only.to_set() =~= target) by {
        assert forall|x: Seq<char>| only.to_set().contains(x) == target.contains(x) by {
            if x == member {
                assert(only[0] == x);
            }
        }
    }
    let next = joined(Seq::empty(), member);
    assert(next.no_duplicates() && next.to_set() == target);
    assert(next.to_set().contains(member));
    let at = choose|i: int| 0 <= i < next.len() && next[i] == member;
    assert forall|i: int| 0 <= i < next.len() implies next[i] == member by {
        assert(next.to_set().contains(next[i]));
    }
    if next.len() > 1 {
        assert(next[0] == next[1]);
    }
    assert(next =~= only);
}

/// The store after one write, or `None` where the store refuses it.
pub open spec fn apply_write(store: StoreModel, write: WriteModel) -> Option<StoreModel> {
    match write {
        WriteModel::HashPut { key, field, value } => if !store.has(key) {
            Some(store.with(key, Entry::Hash(Map::empty().insert(field, value))))
        } else {
            match store.entries[key] {
                Entry::Hash(fields) => Some(store.with(key, Entry::Hash(fields.insert(field, value)))),
                _ => None,
            }
        },
        WriteModel::Increment { key } => if !store.has(key) {
            Some(store.with(key, Entry::Text(decimal(1))))
        } else {
            match store.entries[key] {
                Entry::Text(text) => match counter_value(text) {
                    Some(n) => Some(store.with(key, Entry::Text(decimal(n + 1)))),
                    None => None,
                },
                _ => None,
            }
        },
        WriteModel::SetAdd { key, member } => if !store.has(key) {
            Some(store.with(key, Entry::Members(seq![member])))
        } else {
            match store.entries[key] {
                Entry::Members(list) => if list.contains(member) {
                    Some(store)
                } else {
                    Some(store.with(key, Entry::Members(joined(list, member))))
                },
                _ => None,
            }
        },
    }
}

/// The store after all of `writes`, in order, or `None` where it refuses one of them.
pub open spec fn apply_writes(store: StoreModel, writes: Seq<WriteModel>) -> Option<StoreModel>
    decreases writes.len(),
{
    if writes.len() == 0 {
        Some(store)
    } else {
        match apply_write(store, writes[0]) {
            Some(next) => apply_writes(next, writes.drop_first()),
            None => None,
        }
    }
}

/// How the store answers `command`, and the store after it.
pub open spec fn serve(store: StoreModel, command: CommandModel) -> (StoreModel, ReplyModel) {
    match command {
        CommandModel::Exists { key } => (store, ReplyModel::Exists(store.has(key))),
        CommandModel::Get { key } => if !store.has(key) {
            (store, ReplyModel::Value(None))
        } else {
            match store.entries[key] {
                Entry::Text(text) => (store, ReplyModel::Value(Some(text))),
                _ => (store, ReplyModel::Failed),
            }
        },
        CommandModel::Put { key, value } => (store.with(key, Entry::Text(value)), ReplyModel::Written),
        CommandModel::HashGet { key, field } => if !store.has(key) {
            (store, ReplyModel::Value(None))
        } else {
            match store.entries[key] {
                Entry::Hash(fields) => (store, ReplyModel::Value(store.field(key, field))),
                _ => (store, ReplyModel::Failed),
            }
        },
        CommandModel::HashPut { key, field, value } => match apply_write(
            store,
            WriteModel::HashPut { key, field, value },
        ) {
            Some(next) => (next, ReplyModel::Written),
            None => (store, ReplyModel::Failed),
        },
        CommandModel::SetMembers { key } => if !store.has(key) {
            (store, ReplyModel::Members(Seq::empty()))
        } else {
            match store.entries[key] {
                Entry::Members(list) => (store, ReplyModel::Members(list)),
                _ => (store, ReplyModel::Failed),
            }
        },
        CommandModel::Atomic { writes } => match apply_writes(store, writes) {
            Some(next) => (next, ReplyModel::Written),
            None => (store, ReplyModel::Failed),
        },
    }
}

/// How many commands a request may still put to the store.
pub open spec fn commands_left(step: StepModel<SessionModel>) -> nat {
    match step {
        StepModel::Done(_) => 0,
        StepModel::Ask(session, _) => match session {
            SessionModel::Token(TokenRequestModel::Members { .. }) => 4,
            SessionModel::Token(TokenRequestModel::Counter { .. }) => 3,
            SessionModel::Token(TokenRequestModel::Token { .. }) => 2,
            SessionModel::Token(TokenRequestModel::Commit { .. }) => 1,
            SessionModel::Get(IpGetRequest::Members) => 2,
            SessionModel::Get(IpGetRequest::Address) => 1,
            SessionModel::Report(IpReportModel::Exists { .. }) => 3,
            SessionModel::Report(IpReportModel::Token { .. }) => 2,
            SessionModel::Report(IpReportModel::Write) => 1,
        },
    }
}

/// What a request comes to from `step` on, with the store answering each command:
/// how it ends, and the store after it. `millis` is the time at which a new
/// credential is made, if one is.
pub open spec fn run(step: StepModel<SessionModel>, store: StoreModel, millis: u128) -> (
    OutcomeModel,
    StoreModel,
)
    decreases commands_left(step),
{
    match step {
        StepModel::Done(outcome) => (outcome, store),
        StepModel::Ask(session, command) => {
            let (next, reply) = serve(store, command);
            run(session_step(session, reply, millis), next, millis)
        },
    }
}

/// What the start of the worker comes to from `step` on, with the store answering
/// each command: how it ends, and the store after it. `seed` is the value that a
/// missing counter is set to.
pub open spec fn start_from(step: StartupStepModel, store: StoreModel, seed: u32) -> (
    StartupStepModel,
    StoreModel,
)
    decreases
        match step {
            StartupStepModel::Ask(Startup::Exists, _) => 2nat,
            StartupStepModel::Ask(Startup::Seed, _) => 1nat,
            _ => 0nat,
        },
{
    match step {
        StartupStepModel::Ask(state, command) => {
            let (next, reply) = serve(store, command);
            start_from(startup_step(state, reply, seed), next, seed)
        },
        _ => (step, store),
    }
}

/// What the start of the worker comes to.
pub open spec fn start(store: StoreModel, seed: u32) -> (StartupStepModel, StoreModel) {
    start_from(startup_begin(), store, seed)
}

/// What the credential request of the user `id` comes to, made at the time `millis`.
pub open spec fn issue(store: StoreModel, id: u64, millis: u128) -> (OutcomeModel, StoreModel) {
    run(session_begin(DbCommandModel::TokenGenerateRequest(id)), store, millis)
}

/// What the address request of the user `id` comes to.
pub open spec fn query(store: StoreModel, id: u64) -> (OutcomeModel, StoreModel) {
    run(session_begin(DbCommandModel::IpGetRequest(id)), store, 0)
}

/// What the address report `report` comes to.
pub open spec fn report(store: StoreModel, report: ReportModel) -> (OutcomeModel, StoreModel) {
    run(session_begin(DbCommandModel::IpReport(report)), store, 0)
}

} // verus!
