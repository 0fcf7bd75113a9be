//! The counter store client: the transaction that counts one observation of
//! a key, as commands for the store.

use crate::decimal::decimal_bytes;
use redis::Pipeline;
use vstd::prelude::*;
use vstd::utf8::encode_utf8;

verus! {

/// The Redis client's pipeline of commands. What it holds is known by
/// `pipeline_commands` and `pipeline_is_atomic` alone.
#[verifier::external_type_specification]
#[verifier::external_body]
pub struct ExPipeline(Pipeline);

/// One command of a pipeline: its arguments, the command's name first, and
/// whether the store's reply to it is left out of the pipeline's result.
pub struct Command {
    pub args: Seq<Seq<u8>>,
    pub ignored: bool,
}

/// The commands that a pipeline holds, in the order in which they are sent.
pub uninterp spec fn pipeline_commands(pipeline: Pipeline) -> Seq<Command>;

/// Whether a pipeline is sent as one transaction.
pub uninterp spec fn pipeline_is_atomic(pipeline: Pipeline) -> bool;

/// The commands once `arg` has been added to the last of them.
pub open spec fn with_arg(commands: Seq<Command>, arg: Seq<u8>) -> Seq<Command> {
    commands.update(
        commands.len() - 1,
        Command { args: commands.last().args.push(arg), ignored: commands.last().ignored },
    )
}

/// The commands once the reply to the last of them is to be ignored.
pub open spec fn with_last_ignored(commands: Seq<Command>) -> Seq<Command> {
    commands.update(commands.len() - 1, Command { args: commands.last().args, ignored: true })
}

/// The transaction that counts one observation of `key` in a window of
/// `period` seconds:
///
/// 1. `SET key 0 EX period NX` creates the counter at zero with its expiry,
///    only if the key has none; its reply is ignored.
/// 2. `INCR key` counts the observation and replies with the new count.
/// 3. `TTL key` replies with the seconds left until the counter expires.
pub open spec fn track_commands(key: Seq<char>, period: u64) -> Seq<Command> {
    seq![
        Command {
            args: seq![
                encode_utf8("SET"@),
                encode_utf8(key),
                decimal_bytes(0),
                encode_utf8("EX"@),
                decimal_bytes(period as nat),
                encode_utf8("NX"@),
            ],
            ignored: true,
        },
        Command { args: seq![encode_utf8("INCR"@), encode_utf8(key)], ignored: false },
        Command { args: seq![encode_utf8("TTL"@), encode_utf8(key)], ignored: false },
    ]
}

/// Calls `redis::pipe`: a pipeline without commands, not atomic.
#[verifier::external_body]
fn new_pipeline() -> (pipeline: Pipeline)
    ensures
        pipeline_commands(pipeline) == Seq::<Command>::empty(),
        !pipeline_is_atomic(pipeline),
{
    redis::pipe()
}

/// Calls `Pipeline::atomic`: the commands stay, and the pipeline is from now
/// on sent as one transaction.
#[verifier::external_body]
fn make_atomic(pipeline: &mut Pipeline)
    ensures
        pipeline_commands(*final(pipeline)) == pipeline_commands(*old(pipeline)),
        pipeline_is_atomic(*final(pipeline)),
{
    pipeline.atomic();
}

/// Calls `Pipeline::cmd`: a new command follows the others, with its name as
/// its only argument and with a reply that counts.
#[verifier::external_body]
fn start_command(pipeline: &mut Pipeline, name: &str)
    ensures
        pipeline_commands(*final(pipeline)) == pipeline_commands(*old(pipeline)).push(
            (Command { args: seq![encode_utf8(name@)], ignored: false }),
        ),
        pipeline_is_atomic(*final(pipeline)) == pipeline_is_atomic(*old(pipeline)),
{
    pipeline.cmd(name);
}

/// Calls `Pipeline::arg` with a string: its bytes become the next argument of
/// the last command.
#[verifier::external_body]
fn add_text(pipeline: &mut Pipeline, text: &str)
    requires
        pipeline_commands(*old(pipeline)).len() > 0,
    ensures
        pipeline_commands(*final(pipeline)) == with_arg(
            pipeline_commands(*old(pipeline)),
            encode_utf8(text@),
        ),
        pipeline_is_atomic(*final(pipeline)) == pipeline_is_atomic(*old(pipeline)),
{
    pipeline.arg(text);
}

/// Calls `Pipeline::arg` with a number: its decimal digits become the next
/// argument of the last command.
#[verifier::external_body]
fn add_number(pipeline: &mut Pipeline, number: u64)
    requires
        pipeline_commands(*old(pipeline)).len() > 0,
    ensures
        pipeline_commands(*final(pipeline)) == with_arg(
            pipeline_commands(*old(pipeline)),
            decimal_bytes(number as nat),
        ),
        pipeline_is_atomic(*final(pipeline)) == pipeline_is_atomic(*old(pipeline)),
{
    pipeline.arg(number);
}

/// Calls `Pipeline::ignore`: the reply to the last command is left out of the
/// pipeline's result.
#[verifier::external_body]
fn ignore_reply(pipeline: &mut Pipeline)
    requires
        pipeline_commands(*old(pipeline)).len() > 0,
    ensures
        pipeline_commands(*final(pipeline)) == with_last_ignored(pipeline_commands(*old(pipeline))),
        pipeline_is_atomic(*final(pipeline)) == pipeline_is_atomic(*old(pipeline)),
{
    pipeline.ignore();
}

/// Builds the transaction that counts one observation of `key` in a window of
/// `period` seconds. The three commands go to the store as one atomic unit,
/// so that no other caller sees the counter created but not yet counted.
pub fn track(key: &str, period: u64) -> (pipeline: Pipeline)
    ensures
        pipeline_commands(pipeline) == track_commands(key@, period),
        pipeline_is_atomic(pipeline),
{
    let mut pipeline = new_pipeline();
    make_atomic(&mut pipeline);
    start_command(&mut pipeline, "SET");
    add_text(&mut pipeline, key);
    add_number(&mut pipeline, 0);
    add_text(&mut pipeline, "EX");
    add_number(&mut pipeline, period);
    add_text(&mut pipeline, "NX");
    ignore_reply(&mut pipeline);
    proof {
        let wanted = track_commands(key@, period);
        assert(pipeline_commands(pipeline).len() == 1);
        assert(pipeline_commands(pipeline)[0].args =~= wanted[0].args);
        assert(pipeline_commands(pipeline) =~= wanted.take(1));
    }
    start_command(&mut pipeline, "INCR");
    add_text(&mut pipeline, key);
    proof {
        let wanted = track_commands(key@, period);
        assert(pipeline_commands(pipeline).len() == 2);
        assert(pipeline_commands(pipeline)[1].args =~= wanted[1].args);
        assert(pipeline_commands(pipeline) =~= wanted.take(2));
    }
    start_command(&mut pipeline, "TTL");
    add_text(&mut pipeline, key);
    proof {
        let wanted = track_commands(key@, period);
        assert(pipeline_commands(pipeline).len() == 3);
        assert(pipeline_commands(pipeline)[2].args =~= wanted[2].args);
        assert(pipeline_commands(pipeline) =~= wanted);
    }
    pipeline
}

} // verus!
