//! The requests that the worker serves, and what each of them is owed.

use crate::address::IpAddress;
use crate::credential::{credential_id, parse_credential, CredentialError};
use crate::store::{CommandModel, StoreCommand};
use crate::text::{decimal, push_decimal};
use vstd::prelude::*;

verus! {

/// The number by which the chat service knows a user.
#[derive(Clone, Copy, Debug, PartialEq, Eq)]
pub struct UserId(pub u64);

/// The key of the counter that holds the next application id.
pub const USER_ID_KEY: &'static str = "user:id";

/// The hash field that holds an application's credential.
pub const APP_TOKEN_KEY: &'static str = "token";

/// The hash field that holds an application's last reported address.
pub const APP_ADDRESS_KEY: &'static str = "address";

/// The hash field that holds the number of the user who owns an application.
pub const APP_ID_KEY: &'static str = "id";

/// The key of the set of applications of the user `id`.
pub open spec fn user_key(id: u64) -> Seq<char> {
    "user:"@ + decimal(id as nat)
}

/// The key of the hash of the application `id`.
pub open spec fn app_key(id: u64) -> Seq<char> {
    "app:"@ + decimal(id as nat)
}

/// Builds the key of the set of applications of the user `id`.
pub fn make_user_key(id: u64) -> (key: String)
    ensures
        key@ == user_key(id),
{
    let mut key = "user:".to_owned();
    push_decimal(&mut key, id as u128);
    key
}

/// Builds the key of the hash of the application `id`.
pub fn make_app_key(id: u64) -> (key: String)
    ensures
        key@ == app_key(id),
{
    let mut key = "app:".to_owned();
    push_decimal(&mut key, id as u128);
    key
}

/// An address report as a client presented it: the application that the credential
/// names, the credential itself, and the address.
#[derive(Clone, Debug, PartialEq, Eq)]
pub struct AppIpReport {
    /// The application id that stands before the credential's first colon.
    pub id: UserId,
    /// The whole credential, as presented.
    pub token: String,
    /// The reported address.
    pub addr: IpAddress,
}

/// An `AppIpReport` with a text for its string.
pub struct ReportModel {
    pub id: u64,
    pub token: Seq<char>,
    pub addr: IpAddress,
}

impl View for AppIpReport {
    type V = ReportModel;

    open spec fn view(&self) -> ReportModel {
        ReportModel { id: self.id.0, token: self.token@, addr: self.addr }
    }
}

/// The message of the error that reading a credential ended in.
pub open spec fn credential_error_text(error: CredentialError) -> Seq<char> {
    match error {
        CredentialError::MissingSeparator => "Invalid token format"@,
        CredentialError::InvalidId => "Failed to convert ID"@,
    }
}

impl AppIpReport {
    /// Puts a report together from its parts.
    pub fn new(id: UserId, token: String, addr: IpAddress) -> (report: Self)
        ensures
            report.id == id,
            report.token == token,
            report.addr == addr,
    {
        Self { id, token, addr }
    }

    /// Reads the credential `auth_token` and pairs it with `addr`. The report keeps the
    /// whole credential; a credential without a colon, or with no number before its
    /// first colon, is refused with a message that says which.
    pub fn from_str(auth_token: &str, addr: IpAddress) -> (report: Result<Self, &'static str>)
        ensures
            match credential_id(auth_token@) {
                Ok(id) => report matches Ok(r) && r@ == (ReportModel {
                    id,
                    token: auth_token@,
                    addr,
                }),
                Err(error) => report matches Err(message) && message@ == credential_error_text(
                    error,
                ),
            },
    {
        match parse_credential(auth_token) {
            Ok(id) => Ok(AppIpReport::new(UserId(id), auth_token.to_owned(), addr)),
            Err(CredentialError::MissingSeparator) => Err("Invalid token format"),
            Err(CredentialError::InvalidId) => Err("Failed to convert ID"),
        }
    }
}

/// A request to the worker.
#[derive(Clone, Debug, PartialEq, Eq)]
pub enum DbCommand {
    /// The user asks for the credential of their application.
    TokenGenerateRequest(UserId),
    /// The user asks for the address that their application reported last.
    IpGetRequest(UserId),
    /// An application reports its address.
    IpReport(AppIpReport),
}

/// A `DbCommand` with texts for strings.
pub enum DbCommandModel {
    TokenGenerateRequest(u64),
    IpGetRequest(u64),
    IpReport(ReportModel),
}

impl View for DbCommand {
    type V = DbCommandModel;

    open spec fn view(&self) -> DbCommandModel {
        match *self {
            DbCommand::TokenGenerateRequest(id) => DbCommandModel::TokenGenerateRequest(id.0),
            DbCommand::IpGetRequest(id) => DbCommandModel::IpGetRequest(id.0),
            DbCommand::IpReport(report) => DbCommandModel::IpReport(report@),
        }
    }
}

/// Why a request ended without a message for its caller.
#[derive(Clone, Copy, Debug, PartialEq, Eq, Structural)]
pub enum Failure {
    /// The store failed a command, or answered it with a reply of another kind.
    StoreFailure,
    /// The first application of the user's set has a key that holds no application id.
    CorruptApplicationKey,
    /// The counter holds no application id.
    CounterUnreadable,
    /// The reported address is not an IPv4 address.
    NotIpv4,
    /// The credential names an application that the store does not hold.
    UnknownApplication,
    /// The credential is not the one that the store holds for its application.
    CredentialMismatch,
}

/// How a request ended.
#[derive(Clone, Debug, PartialEq, Eq)]
pub enum Outcome {
    /// The caller is owed this message.
    Reply(String),
    /// The caller is owed this message, a new credential that the store did not record.
    Unrecorded(String),
    /// The request failed: the caller is owed no message.
    Failed(Failure),
}

/// An `Outcome` with texts for strings.
pub enum OutcomeModel {
    Reply(Seq<char>),
    Unrecorded(Seq<char>),
    Failed(Failure),
}

impl View for Outcome {
    type V = OutcomeModel;

    open spec fn view(&self) -> OutcomeModel {
        match *self {
            Outcome::Reply(message) => OutcomeModel::Reply(message@),
            Outcome::Unrecorded(message) => OutcomeModel::Unrecorded(message@),
            Outcome::Failed(failure) => OutcomeModel::Failed(failure),
        }
    }
}

/// What a request does next: put a command to the store and go on from the state
/// beside it, or end.
#[derive(Clone, Debug, PartialEq, Eq)]
pub enum Step<S> {
    /// Put the command to the store; hand its reply to the state.
    Ask(S, StoreCommand),
    /// The request is over.
    Done(Outcome),
}

/// A `Step` with models for its parts.
pub enum StepModel<M> {
    Ask(M, CommandModel),
    Done(OutcomeModel),
}

impl<S: View> View for Step<S> {
    type V = StepModel<S::V>;

    open spec fn view(&self) -> StepModel<S::V> {
        match *self {
            Step::Ask(state, command) => StepModel::Ask(state@, command@),
            Step::Done(outcome) => StepModel::Done(outcome@),
        }
    }
}

} // verus!
