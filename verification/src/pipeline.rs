//! Store commands as Redis takes them: each command of the worker becomes a pipeline
//! of Redis commands, each a list of arguments, each argument a run of bytes.

use crate::store::{CommandModel, StoreCommand, StoreWrite, WriteModel};
use redis::Pipeline;
use vstd::prelude::*;
use vstd::utf8::encode_utf8;

verus! {

/// A pipeline of Redis commands, `redis::Pipeline`.
#[verifier::external_type_specification]
#[verifier::external_body]
pub struct ExPipeline(Pipeline);

/// The commands that a pipeline holds, in order: each a list of arguments, the
/// command's name first, each argument as its bytes.
pub uninterp spec fn pipeline_commands(pipeline: Pipeline) -> Seq<Seq<Seq<u8>>>;

/// Whether a pipeline is sent as one transaction.
pub uninterp spec fn pipeline_atomic(pipeline: Pipeline) -> bool;

/// `redis::pipe`: a pipeline that holds no command and is not in atomic mode.
#[verifier::external_body]
fn pipe() -> (pipeline: Pipeline)
    ensures
        pipeline_commands(pipeline) == Seq::<Seq<Seq<u8>>>::empty(),
        !pipeline_atomic(pipeline),
{
    redis::pipe()
}

/// `Pipeline::atomic`: switches atomic mode on and leaves the commands as they are.
#[verifier::external_body]
fn atomic(pipeline: &mut Pipeline)
    ensures
        pipeline_commands(*final(pipeline)) == pipeline_commands(*old(pipeline)),
        pipeline_atomic(*final(pipeline)),
{
    pipeline.atomic();
}

/// `Pipeline::cmd`: starts a new command whose one argument so far is `name`.
#[verifier::external_body]
fn cmd(pipeline: &mut Pipeline, name: &str)
    ensures
        pipeline_commands(*final(pipeline)) == pipeline_commands(*old(pipeline)).push(
            seq![encode_utf8(name@)],
        ),
        pipeline_atomic(*final(pipeline)) == pipeline_atomic(*old(pipeline)),
{
    pipeline.cmd(name);
}

/// `Pipeline::arg` with a string: adds the bytes of `value` as one more argument to the
/// command started last. The pipeline must hold a command.
#[verifier::external_body]
fn arg(pipeline: &mut Pipeline, value: &str)
    requires
        pipeline_commands(*old(pipeline)).len() > 0,
    ensures
        pipeline_commands(*final(pipeline)) == pipeline_commands(*old(pipeline)).drop_last().push(
            pipeline_commands(*old(pipeline)).last().push(encode_utf8(value@)),
        ),
        pipeline_atomic(*final(pipeline)) == pipeline_atomic(*old(pipeline)),
{
    pipeline.arg(value);
}

/// `Pipeline::hset` with strings: adds the command `HSET key field value`.
#[verifier::external_body]
fn hset(pipeline: &mut Pipeline, key: &str, field: &str, value: &str)
    ensures
        pipeline_commands(*final(pipeline)) == pipeline_commands(*old(pipeline)).push(
            seq![encode_utf8("HSET"@), encode_utf8(key@), encode_utf8(field@), encode_utf8(value@)],
        ),
        pipeline_atomic(*final(pipeline)) == pipeline_atomic(*old(pipeline)),
{
    pipeline.hset(key, field, value);
}

/// `Pipeline::sadd` with strings: adds the command `SADD key member`.
#[verifier::external_body]
fn sadd(pipeline: &mut Pipeline, key: &str, member: &str)
    ensures
        pipeline_commands(*final(pipeline)) == pipeline_commands(*old(pipeline)).push(
            seq![encode_utf8("SADD"@), encode_utf8(key@), encode_utf8(member@)],
        ),
        pipeline_atomic(*final(pipeline)) == pipeline_atomic(*old(pipeline)),
{
    pipeline.sadd(key, member);
}

/// `Pipeline::ignore`: leaves the reply of the command added last out of the
/// pipeline's result. The commands and the mode stay as they are.
#[verifier::external_body]
fn ignore(pipeline: &mut Pipeline)
    ensures
        pipeline_commands(*final(pipeline)) == pipeline_commands(*old(pipeline)),
        pipeline_atomic(*final(pipeline)) == pipeline_atomic(*old(pipeline)),
{
    pipeline.ignore();
}

/// The Redis command of one write.
pub open spec fn write_words(write: WriteModel) -> Seq<Seq<u8>> {
    match write {
        WriteModel::HashPut { key, field, value } => seq![
            encode_utf8("HSET"@),
            encode_utf8(key),
            encode_utf8(field),
            encode_utf8(value),
        ],
        WriteModel::Increment { key } => seq![encode_utf8("INCR"@), encode_utf8(key)],
        WriteModel::SetAdd { key, member } => seq![
            encode_utf8("SADD"@),
            encode_utf8(key),
            encode_utf8(member),
        ],
    }
}

/// The Redis commands of a store command: one for each kind but the batch, which has
/// one for each of its writes, in order.
pub open spec fn command_words(command: CommandModel) -> Seq<Seq<Seq<u8>>> {
    match command {
        CommandModel::Exists { key } => seq![seq![encode_utf8("EXISTS"@), encode_utf8(key)]],
        CommandModel::Get { key } => seq![seq![encode_utf8("GET"@), encode_utf8(key)]],
        CommandModel::Put { key, value } => seq![
            seq![encode_utf8("SET"@), encode_utf8(key), encode_utf8(value)],
        ],
        CommandModel::HashGet { key, field } => seq![
            seq![encode_utf8("HGET"@), encode_utf8(key), encode_utf8(field)],
        ],
        CommandModel::HashPut { key, field, value } => seq![
            write_words(WriteModel::HashPut { key, field, value }),
        ],
        CommandModel::SetMembers { key } => seq![seq![encode_utf8("SMEMBERS"@), encode_utf8(key)]],
        CommandModel::Atomic { writes } => Seq::new(writes.len(), |i: int| write_words(writes[i])),
    }
}

/// Adds a command with one argument after its name.
fn add_one(pipeline: &mut Pipeline, name: &str, first: &str)
    ensures
        pipeline_commands(*final(pipeline)) == pipeline_commands(*old(pipeline)).push(
            seq![encode_utf8(name@), encode_utf8(first@)],
        ),
        pipeline_atomic(*final(pipeline)) == pipeline_atomic(*old(pipeline)),
{
    cmd(pipeline, name);
    let ghost started = pipeline_commands(*pipeline);
    arg(pipeline, first);
    assert(started.drop_last() =~= pipeline_commands(*old(pipeline)));
    assert(started.last().push(encode_utf8(first@)) =~= seq![
        encode_utf8(name@),
        encode_utf8(first@),
    ]);
    assert(pipeline_commands(*pipeline) =~= pipeline_commands(*old(pipeline)).push(
        seq![encode_utf8(name@), encode_utf8(first@)],
    ));
}

/// Adds a command with two arguments after its name.
fn add_two(pipeline: &mut Pipeline, name: &str, first: &str, second: &str)
    ensures
        pipeline_commands(*final(pipeline)) == pipeline_commands(*old(pipeline)).push(
            seq![encode_utf8(name@), encode_utf8(first@), encode_utf8(second@)],
        ),
        pipeline_atomic(*final(pipeline)) == pipeline_atomic(*old(pipeline)),
{
    add_one(pipeline, name, first);
    let ghost started = pipeline_commands(*pipeline);
    arg(pipeline, second);
    assert(started.drop_last() =~= pipeline_commands(*old(pipeline)));
    assert(started.last().push(encode_utf8(second@)) =~= seq![
        encode_utf8(name@),
        encode_utf8(first@),
        encode_utf8(second@),
    ]);
    assert(pipeline_commands(*pipeline) =~= pipeline_commands(*old(pipeline)).push(
        seq![encode_utf8(name@), encode_utf8(first@), encode_utf8(second@)],
    ));
}

/// Adds the Redis command of one write of a batch; its reply is left out of the
/// batch's result.
fn add_write(pipeline: &mut Pipeline, write: &StoreWrite)
    ensures
        pipeline_commands(*final(pipeline)) == pipeline_commands(*old(pipeline)).push(
            write_words(write@),
        ),
        pipeline_atomic(*final(pipeline)) == pipeline_atomic(*old(pipeline)),
{
    match write {
        StoreWrite::HashPut { key, field, value } => {
            hset(pipeline, key.as_str(), field.as_str(), value.as_str());
        },
        StoreWrite::Increment { key } => {
            add_one(pipeline, "INCR", key.as_str());
        },
        StoreWrite::SetAdd { key, member } => {
            sadd(pipeline, key.as_str(), member.as_str());
        },
    }
    ignore(pipeline);
}

/// The pipeline that carries `command` to Redis: its commands are those of
/// `command_words`, and it is atomic exactly for a batch.
pub fn pipeline_of(command: &StoreCommand) -> (pipeline: Pipeline)
    ensures
        pipeline_commands(pipeline) == command_words(command@),
        pipeline_atomic(pipeline) == (command@ is Atomic),
{
    let mut pipeline = pipe();
    match command {
        StoreCommand::Exists { key } => {
            add_one(&mut pipeline, "EXISTS", key.as_str());
        },
        StoreCommand::Get { key } => {
            add_one(&mut pipeline, "GET", key.as_str());
        },
        StoreCommand::Put { key, value } => {
            add_two(&mut pipeline, "SET", key.as_str(), value.as_str());
        },
        StoreCommand::HashGet { key, field } => {
            add_two(&mut pipeline, "HGET", key.as_str(), field.as_str());
        },
        StoreCommand::HashPut { key, field, value } => {
            hset(&mut pipeline, key.as_str(), field.as_str(), value.as_str());
        },
        StoreCommand::SetMembers { key } => {
            add_one(&mut pipeline, "SMEMBERS", key.as_str());
        },
        StoreCommand::Atomic { writes } => {
            atomic(&mut pipeline);
            let mut i: usize = 0;
            while i < writes.len()
                invariant
                    i <= writes@.len(),
                    pipeline_atomic(pipeline),
                    pipeline_commands(pipeline) == Seq::new(
                        i as nat,
                        |j: int| write_words(writes@[j]@),
                    ),
                decreases writes@.len() - i,
            {
                add_write(&mut pipeline, &writes[i]);
                i = i + 1;
                assert(pipeline_commands(pipeline) =~= Seq::new(
                    i as nat,
                    |j: int| write_words(writes@[j]@),
                ));
            }
            assert(pipeline_commands(pipeline) =~= command_words(command@));
        },
    }
    assert(pipeline_commands(pipeline) =~= command_words(command@));
    pipeline
}

} // verus!
