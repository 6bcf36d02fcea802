//! The HTTP side of an address report: which reports go on to the worker, and the
//! status that answers each.

use crate::address::IpAddress;
use crate::credential::credential_id;
use crate::db::{AppIpReport, DbCommand, DbCommandModel, ReportModel};
use vstd::prelude::*;

verus! {

/// The status that answers a report.
#[derive(Clone, Copy, Debug, PartialEq, Eq, Structural)]
pub enum Status {
    /// The report was taken.
    Taken,
    /// The address is not an IPv4 address.
    NotAcceptable,
    /// The credential could not be read, or the worker did not confirm the report.
    InternalServerError,
}

impl Status {
    /// The number of the status.
    pub open spec fn spec_code(self) -> u16 {
        match self {
            Status::Taken => 200,
            Status::NotAcceptable => 406,
            Status::InternalServerError => 500,
        }
    }

    /// The number of the status.
    pub fn code(self) -> (code: u16)
        ensures
            code == self.spec_code(),
    {
        match self {
            Status::Taken => 200,
            Status::NotAcceptable => 406,
            Status::InternalServerError => 500,
        }
    }
}

/// What becomes of a report with the credential `id` and the address `addr`: the
/// command that goes on to the worker, or the status that answers it at once.
///
/// An address that is not IPv4 is refused before the credential is looked at, so it
/// never reaches the worker. A credential that cannot be read is refused next.
pub open spec fn admission(id: Seq<char>, addr: IpAddress) -> Result<DbCommandModel, Status> {
    if !addr.spec_is_ipv4() {
        Err(Status::NotAcceptable)
    } else {
        match credential_id(id) {
            Ok(app_id) => Ok(
                DbCommandModel::IpReport(ReportModel { id: app_id, token: id, addr }),
            ),
            Err(_) => Err(Status::InternalServerError),
        }
    }
}

/// Decides on a report with the credential `id` and the address `addr`: the command
/// to put in the worker's queue, or the status to answer with at once.
pub fn request_handler(id: &str, addr: IpAddress) -> (decision: Result<DbCommand, Status>)
    ensures
        match admission(id@, addr) {
            Ok(command) => decision matches Ok(c) && c@ == command,
            Err(status) => decision == Err::<DbCommand, Status>(status),
        },
        !addr.spec_is_ipv4() ==> decision == Err::<DbCommand, Status>(Status::NotAcceptable),
{
    if addr.is_ipv6() {
        return Err(Status::NotAcceptable);
    }
    match AppIpReport::from_str(id, addr) {
        Ok(report) => Ok(DbCommand::IpReport(report)),
        Err(_) => Err(Status::InternalServerError),
    }
}

/// The status that answers a report which went on to the worker. `queued` says
/// whether the queue took the command, `confirmed` whether the worker's message came.
pub fn answer_status(queued: bool, confirmed: bool) -> (status: Status)
    ensures
        status == if queued && confirmed {
            Status::Taken
        } else {
            Status::InternalServerError
        },
{
    if queued && confirmed {
        Status::Taken
    } else {
        Status::InternalServerError
    }
}

} // verus!
