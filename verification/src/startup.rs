//! Starting the worker: the counter of application ids is seeded once, if the store
//! does not hold it yet.

use crate::db::USER_ID_KEY;
use crate::store::{CommandModel, ReplyModel, StoreCommand, StoreReply};
use crate::text::{decimal, push_decimal};
use rand::Rng;
use vstd::prelude::*;

verus! {

/// The least value that a new counter is seeded with.
pub const SEED_FLOOR: u32 = 1000;

/// The bound below which a new counter is seeded.
pub const SEED_CEILING: u32 = 10000;

/// The error of a start whose existence check failed.
pub const EXISTS_FAILED: &'static str = "Failed to execute EXISTS command";

/// The error of a start whose seed the store did not take.
pub const SEED_FAILED: &'static str = "Failed to set user ID";

/// `rand::thread_rng().gen_range(low..high)`: a number drawn from the half-open range,
/// which must not be empty. Only the range is claimed of it.
#[verifier::external_body]
fn random_in(low: u32, high: u32) -> (n: u32)
    requires
        low < high,
    ensures
        low <= n < high,
{
    rand::thread_rng().gen_range::<u32, _>(low..high)
}

/// Where the start stands: which reply it waits for.
#[derive(Clone, Copy, Debug, PartialEq, Eq, Structural)]
pub enum Startup {
    /// Waiting to learn whether the counter exists.
    Exists,
    /// Waiting for the store to take the seed.
    Seed,
}

/// What the start does next.
#[derive(Clone, Debug, PartialEq, Eq)]
pub enum StartupStep {
    /// Put the command to the store; hand its reply to the state.
    Ask(Startup, StoreCommand),
    /// The counter is there: the worker can serve.
    Ready,
    /// The start failed, with the error's message: the worker must not serve.
    Fatal(&'static str),
}

/// A `StartupStep` with models for its parts.
pub enum StartupStepModel {
    Ask(Startup, CommandModel),
    Ready,
    Fatal(Seq<char>),
}

impl View for StartupStep {
    type V = StartupStepModel;

    open spec fn view(&self) -> StartupStepModel {
        match *self {
            StartupStep::Ask(state, command) => StartupStepModel::Ask(state, command@),
            StartupStep::Ready => StartupStepModel::Ready,
            StartupStep::Fatal(message) => StartupStepModel::Fatal(message@),
        }
    }
}

/// How the start begins: by asking whether the counter exists.
pub open spec fn startup_begin() -> StartupStepModel {
    StartupStepModel::Ask(Startup::Exists, CommandModel::Exists { key: USER_ID_KEY@ })
}

/// What the start does with a reply. `seed` is the value that a missing counter is
/// set to.
///
/// - Existence answered: a counter that exists is left alone; a missing one is set to
///   `seed`; a failure is fatal.
/// - Seed answered: the worker is ready if the store took the seed; else the start is
///   fatal.
pub open spec fn startup_step(state: Startup, reply: ReplyModel, seed: u32) -> StartupStepModel {
    match state {
        Startup::Exists => match reply {
            ReplyModel::Exists(true) => StartupStepModel::Ready,
            ReplyModel::Exists(false) => StartupStepModel::Ask(
                Startup::Seed,
                CommandModel::Put { key: USER_ID_KEY@, value: decimal(seed as nat) },
            ),
            _ => StartupStepModel::Fatal(EXISTS_FAILED@),
        },
        Startup::Seed => match reply {
            ReplyModel::Written => StartupStepModel::Ready,
            _ => StartupStepModel::Fatal(SEED_FAILED@),
        },
    }
}

/// Whether this step seeds the counter, and so draws a number.
pub open spec fn draws_seed(state: Startup, reply: ReplyModel) -> bool {
    state is Exists && reply == ReplyModel::Exists(false)
}

/// Begins the start of the worker.
pub fn begin_check_user_id() -> (step: StartupStep)
    ensures
        step@ == startup_begin(),
{
    StartupStep::Ask(Startup::Exists, StoreCommand::Exists { key: USER_ID_KEY.to_owned() })
}

/// Takes the start one step further with the store's `reply`; a missing counter is
/// set to `seed`.
pub fn check_user_id_with(state: Startup, reply: StoreReply, seed: u32) -> (step: StartupStep)
    ensures
        step@ == startup_step(state, reply@, seed),
{
    match state {
        Startup::Exists => match reply {
            StoreReply::Exists(true) => StartupStep::Ready,
            StoreReply::Exists(false) => {
                let mut value = String::new();
                push_decimal(&mut value, seed as u128);
                StartupStep::Ask(
                    Startup::Seed,
                    StoreCommand::Put { key: USER_ID_KEY.to_owned(), value },
                )
            },
            _ => StartupStep::Fatal(EXISTS_FAILED),
        },
        Startup::Seed => match reply {
            StoreReply::Written => StartupStep::Ready,
            _ => StartupStep::Fatal(SEED_FAILED),
        },
    }
}

/// Takes the start one step further with the store's `reply`. A missing counter is set
/// to a number drawn at random from `SEED_FLOOR` up to, not including, `SEED_CEILING`.
pub fn check_user_id(state: Startup, reply: StoreReply) -> (step: StartupStep)
    ensures
        exists|seed: u32|
            SEED_FLOOR <= seed < SEED_CEILING && step@ == #[trigger] startup_step(
                state,
                reply@,
                seed,
            ),
        !draws_seed(state, reply@) ==> step@ == startup_step(state, reply@, SEED_FLOOR),
{
    let draws = match state {
        Startup::Exists => match reply {
            StoreReply::Exists(false) => true,
            _ => false,
        },
        Startup::Seed => false,
    };
    let seed = if draws {
        random_in(SEED_FLOOR, SEED_CEILING)
    } else {
        SEED_FLOOR
    };
    check_user_id_with(state, reply, seed)
}

} // verus!
