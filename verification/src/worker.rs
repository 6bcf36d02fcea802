//! The worker's side of a request: which protocol a command starts, how the request
//! goes on with each reply of the store, and the one message that its caller gets.

use crate::clock::unix_millis;
use crate::db::{DbCommand, DbCommandModel, Outcome, Step, StepModel};
use crate::ip_report::{
    begin_ip_report, process_ip_report, report_begin, report_step, IpReport, IpReportModel,
};
use crate::ip_request::{
    begin_get_ip_request, get_ip_begin, get_ip_step, process_get_ip_reqeust, IpGetRequest,
};
use crate::store::{ReplyModel, StoreCommand, StoreReply};
use crate::token_request::{
    begin_token_request, makes_token, process_token_request_at, token_begin, token_step,
    TokenRequest, TokenRequestModel,
};
use crate::ApplicationCommand;
use tokio::sync::oneshot::Sender;
use vstd::prelude::*;

verus! {

/// The slot that takes the one message of a request, `tokio::sync::oneshot::Sender`.
#[verifier::external_type_specification]
#[verifier::external_body]
#[verifier::reject_recursive_types(T)]
pub struct ExSender<T>(Sender<T>);

/// `tokio::sync::oneshot::Sender::send`: puts `message` in the slot, which is used up.
/// Where the receiving side is gone the message comes back, unchanged. Whether it is
/// gone is not known here, so nothing else is claimed.
#[verifier::external_body]
fn send_once<T>(slot: Sender<T>, message: T) -> (unsent: Option<T>)
    ensures
        unsent matches Some(back) ==> back == message,
{
    match slot.send(message) {
        Ok(()) => None,
        Err(back) => Some(back),
    }
}

/// A request in progress, whichever protocol it follows.
#[derive(Clone, Debug, PartialEq, Eq)]
pub enum Session {
    /// A credential request.
    Token(TokenRequest),
    /// An address request.
    Get(IpGetRequest),
    /// An address report.
    Report(IpReport),
}

/// A `Session` with models for its parts.
pub enum SessionModel {
    Token(TokenRequestModel),
    Get(IpGetRequest),
    Report(IpReportModel),
}

impl View for Session {
    type V = SessionModel;

    open spec fn view(&self) -> SessionModel {
        match *self {
            Session::Token(state) => SessionModel::Token(state@),
            Session::Get(state) => SessionModel::Get(state),
            Session::Report(state) => SessionModel::Report(state@),
        }
    }
}

/// A step of a credential request as a step of a session.
pub open spec fn of_token(step: StepModel<TokenRequestModel>) -> StepModel<SessionModel> {
    match step {
        StepModel::Ask(state, command) => StepModel::Ask(SessionModel::Token(state), command),
        StepModel::Done(outcome) => StepModel::Done(outcome),
    }
}

/// A step of an address request as a step of a session.
pub open spec fn of_get(step: StepModel<IpGetRequest>) -> StepModel<SessionModel> {
    match step {
        StepModel::Ask(state, command) => StepModel::Ask(SessionModel::Get(state), command),
        StepModel::Done(outcome) => StepModel::Done(outcome),
    }
}

/// A step of an address report as a step of a session.
pub open spec fn of_report(step: StepModel<IpReportModel>) -> StepModel<SessionModel> {
    match step {
        StepModel::Ask(state, command) => StepModel::Ask(SessionModel::Report(state), command),
        StepModel::Done(outcome) => StepModel::Done(outcome),
    }
}

/// How the request that `command` asks for begins.
pub open spec fn session_begin(command: DbCommandModel) -> StepModel<SessionModel> {
    match command {
        DbCommandModel::TokenGenerateRequest(id) => of_token(token_begin(id)),
        DbCommandModel::IpGetRequest(id) => of_get(get_ip_begin(id)),
        DbCommandModel::IpReport(report) => of_report(report_begin(report)),
    }
}

/// What a request does with a reply: the step of its own protocol. `millis` is the
/// time at which a new credential is made, if one is.
pub open spec fn session_step(session: SessionModel, reply: ReplyModel, millis: u128) -> StepModel<
    SessionModel,
> {
    match session {
        SessionModel::Token(state) => of_token(token_step(state, reply, millis)),
        SessionModel::Get(state) => of_get(get_ip_step(state, reply)),
        SessionModel::Report(state) => of_report(report_step(state, reply)),
    }
}

/// Whether this step makes a new credential, and so reads the clock.
pub open spec fn reads_clock(session: SessionModel, reply: ReplyModel) -> bool {
    session matches SessionModel::Token(state) && makes_token(state, reply)
}

fn token_session(step: Step<TokenRequest>) -> (out: Step<Session>)
    ensures
        out@ == of_token(step@),
{
    match step {
        Step::Ask(state, command) => Step::Ask(Session::Token(state), command),
        Step::Done(outcome) => Step::Done(outcome),
    }
}

fn get_session(step: Step<IpGetRequest>) -> (out: Step<Session>)
    ensures
        out@ == of_get(step@),
{
    match step {
        Step::Ask(state, command) => Step::Ask(Session::Get(state), command),
        Step::Done(outcome) => Step::Done(outcome),
    }
}

fn report_session(step: Step<IpReport>) -> (out: Step<Session>)
    ensures
        out@ == of_report(step@),
{
    match step {
        Step::Ask(state, command) => Step::Ask(Session::Report(state), command),
        Step::Done(outcome) => Step::Done(outcome),
    }
}

impl Session {
    /// Begins the request that `command` asks for.
    pub fn begin(command: DbCommand) -> (step: Step<Session>)
        ensures
            step@ == session_begin(command@),
    {
        match command {
            DbCommand::TokenGenerateRequest(id) => token_session(begin_token_request(id)),
            DbCommand::IpGetRequest(id) => get_session(begin_get_ip_request(id)),
            DbCommand::IpReport(report) => report_session(begin_ip_report(report)),
        }
    }

    /// Takes the request one step further with the store's `reply`; a credential made
    /// in this step is made for the time `millis`.
    pub fn advance_at(self, reply: StoreReply, millis: u128) -> (step: Step<Session>)
        ensures
            step@ == session_step(self@, reply@, millis),
    {
        match self {
            Session::Token(state) => token_session(process_token_request_at(state, reply, millis)),
            Session::Get(state) => get_session(process_get_ip_reqeust(state, reply)),
            Session::Report(state) => report_session(process_ip_report(state, reply)),
        }
    }

    /// Whether the step that `reply` leads to makes a new credential.
    pub fn needs_clock(&self, reply: &StoreReply) -> (yes: bool)
        ensures
            yes == reads_clock(self@, reply@),
    {
        match self {
            Session::Token(TokenRequest::Token { .. }) => match reply {
                StoreReply::Value(Some(_)) => false,
                _ => true,
            },
            _ => false,
        }
    }

    /// Takes the request one step further with the store's `reply`. A credential made
    /// in this step is made for the time that the system clock shows.
    pub fn advance(self, reply: StoreReply) -> (step: Step<Session>)
        ensures
            exists|millis: u128| step@ == #[trigger] session_step(self@, reply@, millis),
            !reads_clock(self@, reply@) ==> step@ == session_step(self@, reply@, 0),
    {
        let millis = if self.needs_clock(&reply) {
            unix_millis()
        } else {
            0
        };
        self.advance_at(reply, millis)
    }
}

/// A request in progress with the slot that its caller waits on.
#[derive(Debug)]
#[verifier::reject_recursive_types(T)]
pub struct Pending<T> {
    /// Where the request stands.
    pub session: Session,
    /// The slot for the one message of this request.
    pub tx_channel: Sender<T>,
}

/// What the worker does next for the request at hand.
#[derive(Debug)]
#[verifier::reject_recursive_types(T)]
pub enum Progress<T> {
    /// Put the command to the store; resume the request with its reply.
    Ask(Pending<T>, StoreCommand),
    /// The request is over and its slot is used up. `delivered` says whether a
    /// message was put in the slot and not handed back.
    Done { outcome: Outcome, delivered: bool },
}

impl<T> Progress<T> {
    /// The step of the session that this progress stands for.
    pub open spec fn step(self) -> StepModel<SessionModel> {
        match self {
            Progress::Ask(pending, command) => StepModel::Ask(pending.session@, command@),
            Progress::Done { outcome, delivered } => StepModel::Done(outcome@),
        }
    }

    /// Whether the slot `slot` is accounted for: still held by the request while it
    /// goes on; once it is over, used up, with a message only for an outcome that owes
    /// one.
    pub open spec fn keeps(self, slot: Sender<T>) -> bool {
        match self {
            Progress::Ask(pending, command) => pending.tx_channel == slot,
            Progress::Done { outcome, delivered } => delivered ==> !(outcome is Failed),
        }
    }
}

/// Ends a request: an outcome that owes a message has it put in the slot; a failed one
/// lets the slot go, which tells the caller that no message will come.
fn finish<T: From<String>>(slot: Sender<T>, outcome: Outcome) -> (progress: Progress<T>)
    ensures
        progress.step() == StepModel::<SessionModel>::Done(outcome@),
        progress.keeps(slot),
{
    let delivered = match &outcome {
        Outcome::Reply(message) => send_once(slot, T::from(message.clone())).is_none(),
        Outcome::Unrecorded(message) => send_once(slot, T::from(message.clone())).is_none(),
        Outcome::Failed(_) => false,
    };
    Progress::Done { outcome, delivered }
}

fn carry_on<T: From<String>>(slot: Sender<T>, step: Step<Session>) -> (progress: Progress<T>)
    ensures
        progress.step() == step@,
        progress.keeps(slot),
{
    match step {
        Step::Ask(session, command) => Progress::Ask(
            Pending { session, tx_channel: slot },
            command,
        ),
        Step::Done(outcome) => finish(slot, outcome),
    }
}

/// Takes up one command from the queue: begins its request and keeps its slot until
/// the request is over.
pub fn db_task<T: From<String>>(command: ApplicationCommand<T>) -> (progress: Progress<T>)
    ensures
        progress.step() == session_begin(command.db_cmd@),
        progress.keeps(command.tx_channel),
{
    let ApplicationCommand { db_cmd, tx_channel } = command;
    carry_on(tx_channel, Session::begin(db_cmd))
}

impl<T: From<String>> Pending<T> {
    /// Resumes the request with the store's `reply`; a credential made in this step is
    /// made for the time `millis`.
    pub fn resume_at(self, reply: StoreReply, millis: u128) -> (progress: Progress<T>)
        ensures
            progress.step() == session_step(self.session@, reply@, millis),
            progress.keeps(self.tx_channel),
    {
        let Pending { session, tx_channel } = self;
        carry_on(tx_channel, session.advance_at(reply, millis))
    }

    /// Resumes the request with the store's `reply`. A credential made in this step is
    /// made for the time that the system clock shows.
    pub fn resume(self, reply: StoreReply) -> (progress: Progress<T>)
        ensures
            exists|millis: u128|
                progress.step() == #[trigger] session_step(self.session@, reply@, millis),
            !reads_clock(self.session@, reply@) ==> progress.step() == session_step(
                self.session@,
                reply@,
                0,
            ),
            progress.keeps(self.tx_channel),
    {
        let Pending { session, tx_channel } = self;
        carry_on(tx_channel, session.advance(reply))
    }
}

} // verus!
