//! Asking for the address that a user's application reported last.

use crate::db::{
    make_user_key, user_key, Failure, Outcome, OutcomeModel, Step, StepModel, UserId,
    APP_ADDRESS_KEY,
};
use crate::store::{CommandModel, ReplyModel, StoreCommand, StoreReply};
use vstd::prelude::*;

verus! {

/// The message for a user who has no application.
pub const NO_APPLICATION: &'static str = "No application registered, so no reports available";

/// The message for a user whose application has reported no address.
pub const NO_ADDRESS: &'static str = "No reported IP addresses for you";

/// What goes before the address in the message that holds one.
pub const ADDRESS_OPENING: &'static str = "Your reported IP is `";

/// What goes after the address in the message that holds one.
pub const ADDRESS_CLOSING: &'static str = "`";

/// Where an address request stands: which reply it waits for.
#[derive(Clone, Copy, Debug, PartialEq, Eq, Structural)]
pub enum IpGetRequest {
    /// Waiting for the members of the user's application set.
    Members,
    /// Waiting for the address stored under the first application's key.
    Address,
}

impl View for IpGetRequest {
    type V = IpGetRequest;

    open spec fn view(&self) -> IpGetRequest {
        *self
    }
}

/// The message that holds the reported address, word for word.
pub open spec fn address_message(address: Seq<char>) -> Seq<char> {
    ADDRESS_OPENING@ + address + ADDRESS_CLOSING@
}

/// How an address request begins: by listing the user's applications.
pub open spec fn get_ip_begin(id: u64) -> StepModel<IpGetRequest> {
    StepModel::Ask(IpGetRequest::Members, CommandModel::SetMembers { key: user_key(id) })
}

/// What an address request does with a reply.
///
/// - Members listed: with none, the answer is `NO_APPLICATION`; else read the address
///   under the first member's key. A failure ends the request.
/// - Address read: a stored one is embedded in the answer; with none, or on a
///   failure, the answer is `NO_ADDRESS`.
pub open spec fn get_ip_step(state: IpGetRequest, reply: ReplyModel) -> StepModel<IpGetRequest> {
    match state {
        IpGetRequest::Members => match reply {
            ReplyModel::Members(list) => if list.len() == 0 {
                StepModel::Done(OutcomeModel::Reply(NO_APPLICATION@))
            } else {
                StepModel::Ask(
                    IpGetRequest::Address,
                    CommandModel::HashGet { key: list[0], field: APP_ADDRESS_KEY@ },
                )
            },
            _ => StepModel::Done(OutcomeModel::Failed(Failure::StoreFailure)),
        },
        IpGetRequest::Address => match reply {
            ReplyModel::Value(Some(address)) => StepModel::Done(
                OutcomeModel::Reply(address_message(address)),
            ),
            _ => StepModel::Done(OutcomeModel::Reply(NO_ADDRESS@)),
        },
    }
}

/// Begins the address request of the user `id`.
pub fn begin_get_ip_request(id: UserId) -> (step: Step<IpGetRequest>)
    ensures
        step@ == get_ip_begin(id.0),
{
    Step::Ask(IpGetRequest::Members, StoreCommand::SetMembers { key: make_user_key(id.0) })
}

/// Takes an address request one step further with the store's `reply`.
pub fn process_get_ip_reqeust(state: IpGetRequest, reply: StoreReply) -> (step: Step<IpGetRequest>)
    ensures
        step@ == get_ip_step(state, reply@),
{
    match state {
        IpGetRequest::Members => match reply {
            StoreReply::Members(list) => {
                if list.len() == 0 {
                    Step::Done(Outcome::Reply(NO_APPLICATION.to_owned()))
                } else {
                    Step::Ask(
                        IpGetRequest::Address,
                        StoreCommand::HashGet {
                            key: list[0].clone(),
                            field: APP_ADDRESS_KEY.to_owned(),
                        },
                    )
                }
            },
            _ => Step::Done(Outcome::Failed(Failure::StoreFailure)),
        },
        IpGetRequest::Address => match reply {
            StoreReply::Value(Some(address)) => {
                let mut message = ADDRESS_OPENING.to_owned();
                message.append(address.as_str());
                message.append(ADDRESS_CLOSING);
                Step::Done(Outcome::Reply(message))
            },
            _ => Step::Done(Outcome::Reply(NO_ADDRESS.to_owned())),
        },
    }
}

} // verus!
