//! Taking an address report: the credential must name an application that the store
//! holds and must equal the credential stored for it.

use crate::db::{
    app_key, make_app_key, AppIpReport, Failure, Outcome, OutcomeModel, ReportModel, Step,
    StepModel, APP_ADDRESS_KEY, APP_TOKEN_KEY,
};
use crate::store::{CommandModel, ReplyModel, StoreCommand, StoreReply};
use vstd::prelude::*;

verus! {

/// The message that confirms a report.
pub const REPORT_TAKEN: &'static str = "ok";

/// Where an address report stands: which reply it waits for.
#[derive(Clone, Debug, PartialEq, Eq)]
pub enum IpReport {
    /// Waiting to learn whether the application exists.
    Exists { report: AppIpReport },
    /// Waiting for the credential stored for the application.
    Token { report: AppIpReport },
    /// Waiting for the store to take the address.
    Write,
}

/// An `IpReport` with texts for strings.
pub enum IpReportModel {
    Exists { report: ReportModel },
    Token { report: ReportModel },
    Write,
}

impl View for IpReport {
    type V = IpReportModel;

    open spec fn view(&self) -> IpReportModel {
        match *self {
            IpReport::Exists { report } => IpReportModel::Exists { report: report@ },
            IpReport::Token { report } => IpReportModel::Token { report: report@ },
            IpReport::Write => IpReportModel::Write,
        }
    }
}

/// How an address report begins: an address that is not IPv4 ends it at once; else it
/// asks whether the application exists.
pub open spec fn report_begin(report: ReportModel) -> StepModel<IpReportModel> {
    if report.addr.spec_is_ipv4() {
        StepModel::Ask(
            IpReportModel::Exists { report },
            CommandModel::Exists { key: app_key(report.id) },
        )
    } else {
        StepModel::Done(OutcomeModel::Failed(Failure::NotIpv4))
    }
}

/// What an address report does with a reply.
///
/// - Existence answered: an application that exists has its credential read; one that
///   does not ends the report.
/// - Credential read: one equal to the presented credential, character for character,
///   has the address written under the application's key; any other, or none, ends
///   the report.
/// - Write answered: the report is confirmed if the store took the address.
///
/// A failure of the store ends the report at any step.
pub open spec fn report_step(state: IpReportModel, reply: ReplyModel) -> StepModel<IpReportModel> {
    match state {
        IpReportModel::Exists { report } => match reply {
            ReplyModel::Exists(true) => StepModel::Ask(
                IpReportModel::Token { report },
                CommandModel::HashGet { key: app_key(report.id), field: APP_TOKEN_KEY@ },
            ),
            ReplyModel::Exists(false) => StepModel::Done(
                OutcomeModel::Failed(Failure::UnknownApplication),
            ),
            _ => StepModel::Done(OutcomeModel::Failed(Failure::StoreFailure)),
        },
        IpReportModel::Token { report } => match reply {
            ReplyModel::Value(Some(stored)) => if stored == report.token {
                match report.addr.spec_text() {
                    Some(address) => StepModel::Ask(
                        IpReportModel::Write,
                        CommandModel::HashPut {
                            key: app_key(report.id),
                            field: APP_ADDRESS_KEY@,
                            value: address,
                        },
                    ),
                    None => StepModel::Done(OutcomeModel::Failed(Failure::NotIpv4)),
                }
            } else {
                StepModel::Done(OutcomeModel::Failed(Failure::CredentialMismatch))
            },
            ReplyModel::Value(None) => StepModel::Done(
                OutcomeModel::Failed(Failure::CredentialMismatch),
            ),
            _ => StepModel::Done(OutcomeModel::Failed(Failure::StoreFailure)),
        },
        IpReportModel::Write => match reply {
            ReplyModel::Written => StepModel::Done(OutcomeModel::Reply(REPORT_TAKEN@)),
            _ => StepModel::Done(OutcomeModel::Failed(Failure::StoreFailure)),
        },
    }
}

/// Begins the address report `report`.
pub fn begin_ip_report(report: AppIpReport) -> (step: Step<IpReport>)
    ensures
        step@ == report_begin(report@),
{
    if report.addr.is_ipv4() {
        let key = make_app_key(report.id.0);
        Step::Ask(IpReport::Exists { report }, StoreCommand::Exists { key })
    } else {
        Step::Done(Outcome::Failed(Failure::NotIpv4))
    }
}

/// Takes an address report one step further with the store's `reply`.
pub fn process_ip_report(state: IpReport, reply: StoreReply) -> (step: Step<IpReport>)
    ensures
        step@ == report_step(state@, reply@),
{
    match state {
        IpReport::Exists { report } => match reply {
            StoreReply::Exists(true) => {
                let key = make_app_key(report.id.0);
                Step::Ask(
                    IpReport::Token { report },
                    StoreCommand::HashGet { key, field: APP_TOKEN_KEY.to_owned() },
                )
            },
            StoreReply::Exists(false) => Step::Done(Outcome::Failed(Failure::UnknownApplication)),
            _ => Step::Done(Outcome::Failed(Failure::StoreFailure)),
        },
        IpReport::Token { report } => match reply {
            StoreReply::Value(Some(stored)) => {
                if stored == report.token {
                    match report.addr.text() {
                        Some(address) => Step::Ask(
                            IpReport::Write,
                            StoreCommand::HashPut {
                                key: make_app_key(report.id.0),
                                field: APP_ADDRESS_KEY.to_owned(),
                                value: address,
                            },
                        ),
                        None => Step::Done(Outcome::Failed(Failure::NotIpv4)),
                    }
                } else {
                    Step::Done(Outcome::Failed(Failure::CredentialMismatch))
                }
            },
            StoreReply::Value(None) => Step::Done(Outcome::Failed(Failure::CredentialMismatch)),
            _ => Step::Done(Outcome::Failed(Failure::StoreFailure)),
        },
        IpReport::Write => match reply {
            StoreReply::Written => Step::Done(Outcome::Reply(REPORT_TAKEN.to_owned())),
            _ => Step::Done(Outcome::Failed(Failure::StoreFailure)),
        },
    }
}

} // verus!
