//! Issuing a credential: the user's existing one if the store holds it, a new one
//! registered in one atomic batch if not.

use crate::clock::unix_millis;
use crate::credential::{generate_token_at, token_text};
use crate::db::{
    app_key, make_app_key, make_user_key, user_key, Failure, Outcome, OutcomeModel, Step,
    StepModel, UserId, APP_ID_KEY, APP_TOKEN_KEY, USER_ID_KEY,
};
use crate::store::{
    write_models, CommandModel, ReplyModel, StoreCommand, StoreReply, StoreWrite, WriteModel,
};
use crate::text::{
    chars_of, decimal, first_number, first_number_in, parse_unsigned, push_decimal,
    unsigned_value,
};
use vstd::prelude::*;

verus! {

/// Where a credential request stands: which reply it waits for, and what it has
/// learned so far.
#[derive(Clone, Debug, PartialEq, Eq)]
pub enum TokenRequest {
    /// Waiting for the members of the user's application set.
    Members { id: UserId },
    /// The user has no application: waiting for the counter's value.
    Counter { id: UserId },
    /// Waiting for the credential stored under the application's key.
    Token { id: UserId, app_key: String, app_id: u32 },
    /// A new credential was made: waiting for the store to take the registration.
    Commit { token: String },
}

/// A `TokenRequest` with texts for strings.
pub enum TokenRequestModel {
    Members { id: u64 },
    Counter { id: u64 },
    Token { id: u64, app_key: Seq<char>, app_id: u32 },
    Commit { token: Seq<char> },
}

impl View for TokenRequest {
    type V = TokenRequestModel;

    open spec fn view(&self) -> TokenRequestModel {
        match *self {
            TokenRequest::Members { id } => TokenRequestModel::Members { id: id.0 },
            TokenRequest::Counter { id } => TokenRequestModel::Counter { id: id.0 },
            TokenRequest::Token { id, app_key, app_id } => TokenRequestModel::Token {
                id: id.0,
                app_key: app_key@,
                app_id,
            },
            TokenRequest::Commit { token } => TokenRequestModel::Commit { token: token@ },
        }
    }
}

/// The writes that register an application: its credential, its owner, the counter's
/// increment, and the application's entry in its owner's set, in this order.
pub open spec fn registration(app_key: Seq<char>, token: Seq<char>, user: u64) -> Seq<
    WriteModel,
> {
    seq![
        WriteModel::HashPut { key: app_key, field: APP_TOKEN_KEY@, value: token },
        WriteModel::HashPut { key: app_key, field: APP_ID_KEY@, value: decimal(user as nat) },
        WriteModel::Increment { key: USER_ID_KEY@ },
        WriteModel::SetAdd { key: user_key(user), member: app_key },
    ]
}

/// How a credential request begins: by listing the user's applications.
pub open spec fn token_begin(id: u64) -> StepModel<TokenRequestModel> {
    StepModel::Ask(
        TokenRequestModel::Members { id },
        CommandModel::SetMembers { key: user_key(id) },
    )
}

/// The command that reads the credential stored under `app_key`.
pub open spec fn ask_token(id: u64, app_key: Seq<char>, app_id: u32) -> StepModel<
    TokenRequestModel,
> {
    StepModel::Ask(
        TokenRequestModel::Token { id, app_key, app_id },
        CommandModel::HashGet { key: app_key, field: APP_TOKEN_KEY@ },
    )
}

/// What a credential request does with a reply. `millis` is the time at which a new
/// credential is made, if one is.
///
/// - Members listed: with none, read the counter; else read the credential under the
///   first member's key, whose first piece that reads as a number is the application
///   id. A first member without such a piece ends the request.
/// - Counter read: read the credential under the key of the application it names.
/// - Credential read: a stored one is the answer. With none, or on a failure, make
///   one and register it.
/// - Registration answered: the new credential is the answer, taken or not.
pub open spec fn token_step(state: TokenRequestModel, reply: ReplyModel, millis: u128) -> StepModel<
    TokenRequestModel,
> {
    match state {
        TokenRequestModel::Members { id } => match reply {
            ReplyModel::Members(list) => if list.len() == 0 {
                StepModel::Ask(
                    TokenRequestModel::Counter { id },
                    CommandModel::Get { key: USER_ID_KEY@ },
                )
            } else {
                match first_number(list[0], 0, u32::MAX as nat) {
                    Some(app_id) => ask_token(id, list[0], app_id as u32),
                    None => StepModel::Done(OutcomeModel::Failed(Failure::CorruptApplicationKey)),
                }
            },
            _ => StepModel::Done(OutcomeModel::Failed(Failure::StoreFailure)),
        },
        TokenRequestModel::Counter { id } => match reply {
            ReplyModel::Value(Some(text)) => match unsigned_value(text, u32::MAX as nat) {
                Some(app_id) => ask_token(id, app_key(app_id as u64), app_id as u32),
                None => StepModel::Done(OutcomeModel::Failed(Failure::CounterUnreadable)),
            },
            ReplyModel::Value(None) => StepModel::Done(
                OutcomeModel::Failed(Failure::CounterUnreadable),
            ),
            _ => StepModel::Done(OutcomeModel::Failed(Failure::StoreFailure)),
        },
        TokenRequestModel::Token { id, app_key, app_id } => match reply {
            ReplyModel::Value(Some(token)) => StepModel::Done(OutcomeModel::Reply(token)),
            _ => {
                let token = token_text(app_id, id, millis);
                StepModel::Ask(
                    TokenRequestModel::Commit { token },
                    CommandModel::Atomic { writes: registration(app_key, token, id) },
                )
            },
        },
        TokenRequestModel::Commit { token } => match reply {
            ReplyModel::Written => StepModel::Done(OutcomeModel::Reply(token)),
            _ => StepModel::Done(OutcomeModel::Unrecorded(token)),
        },
    }
}

/// Whether this step makes a new credential, and so reads the clock.
pub open spec fn makes_token(state: TokenRequestModel, reply: ReplyModel) -> bool {
    state is Token && !(reply matches ReplyModel::Value(Some(_)))
}

/// Begins the credential request of the user `id`.
pub fn begin_token_request(id: UserId) -> (step: Step<TokenRequest>)
    ensures
        step@ == token_begin(id.0),
{
    Step::Ask(TokenRequest::Members { id }, StoreCommand::SetMembers { key: make_user_key(id.0) })
}

/// The step that reads the credential stored under `app_key`.
fn read_token(id: UserId, app_key: String, app_id: u32) -> (step: Step<TokenRequest>)
    ensures
        step@ == ask_token(id.0, app_key@, app_id),
{
    let key = app_key.clone();
    Step::Ask(
        TokenRequest::Token { id, app_key, app_id },
        StoreCommand::HashGet { key, field: APP_TOKEN_KEY.to_owned() },
    )
}

/// The batch that registers the application `app_key` with its credential and owner.
fn registration_writes(app_key: String, token: String, id: UserId) -> (writes: Vec<StoreWrite>)
    ensures
        write_models(writes@) == registration(app_key@, token@, id.0),
{
    let mut owner = String::new();
    push_decimal(&mut owner, id.0 as u128);
    let mut writes: Vec<StoreWrite> = Vec::new();
    writes.push(
        StoreWrite::HashPut { key: app_key.clone(), field: APP_TOKEN_KEY.to_owned(), value: token },
    );
    writes.push(
        StoreWrite::HashPut { key: app_key.clone(), field: APP_ID_KEY.to_owned(), value: owner },
    );
    writes.push(StoreWrite::Increment { key: USER_ID_KEY.to_owned() });
    writes.push(StoreWrite::SetAdd { key: make_user_key(id.0), member: app_key });
    assert(write_models(writes@) =~= registration(app_key@, token@, id.0));
    writes
}

/// Takes a credential request one step further with the store's `reply`; a credential
/// made in this step is made for the time `millis`.
pub fn process_token_request_at(state: TokenRequest, reply: StoreReply, millis: u128) -> (step:
    Step<TokenRequest>)
    ensures
        step@ == token_step(state@, reply@, millis),
{
    match state {
        TokenRequest::Members { id } => match reply {
            StoreReply::Members(list) => {
                if list.len() == 0 {
                    Step::Ask(
                        TokenRequest::Counter { id },
                        StoreCommand::Get { key: USER_ID_KEY.to_owned() },
                    )
                } else {
                    let app = list[0].clone();
                    let chars = chars_of(app.as_str());
                    match first_number_in(&chars, u32::MAX as u64) {
                        Some(app_id) => read_token(id, app, app_id as u32),
                        None => Step::Done(Outcome::Failed(Failure::CorruptApplicationKey)),
                    }
                }
            },
            _ => Step::Done(Outcome::Failed(Failure::StoreFailure)),
        },
        TokenRequest::Counter { id } => match reply {
            StoreReply::Value(Some(text)) => {
                let chars = chars_of(text.as_str());
                assert(chars@.subrange(0, chars@.len() as int) =~= text@);
                match parse_unsigned(&chars, 0, chars.len(), u32::MAX as u64) {
                    Some(app_id) => read_token(id, make_app_key(app_id), app_id as u32),
                    None => Step::Done(Outcome::Failed(Failure::CounterUnreadable)),
                }
            },
            StoreReply::Value(None) => Step::Done(Outcome::Failed(Failure::CounterUnreadable)),
            _ => Step::Done(Outcome::Failed(Failure::StoreFailure)),
        },
        TokenRequest::Token { id, app_key, app_id } => match reply {
            StoreReply::Value(Some(token)) => Step::Done(Outcome::Reply(token)),
            _ => {
                let token = generate_token_at(app_id, &id, millis);
                let writes = registration_writes(app_key, token.clone(), id);
                Step::Ask(TokenRequest::Commit { token }, StoreCommand::Atomic { writes })
            },
        },
        TokenRequest::Commit { token } => match reply {
            StoreReply::Written => Step::Done(Outcome::Reply(token)),
            _ => Step::Done(Outcome::Unrecorded(token)),
        },
    }
}

/// Whether this step will make a new credential.
fn needs_clock(state: &TokenRequest, reply: &StoreReply) -> (yes: bool)
    ensures
        yes == makes_token(state@, reply@),
{
    match state {
        TokenRequest::Token { .. } => match reply {
            StoreReply::Value(Some(_)) => false,
            _ => true,
        },
        _ => false,
    }
}

/// Takes a credential request one step further with the store's `reply`. A credential
/// made in this step is made for the time that the system clock shows.
pub fn process_token_request(state: TokenRequest, reply: StoreReply) -> (step: Step<TokenRequest>)
    ensures
        exists|millis: u128| step@ == #[trigger] token_step(state@, reply@, millis),
        !makes_token(state@, reply@) ==> step@ == token_step(state@, reply@, 0),
{
    let millis = if needs_clock(&state, &reply) {
        unix_millis()
    } else {
        0
    };
    process_token_request_at(state, reply, millis)
}

} // verus!
