//! The counter store's side: what the store does with the commands of the
//! tracking transaction.
//!
//! The three commands are stated one by one, as the store documents them.
//! Run in order and without anything in between, they come to the one step
//! that `window::counted` describes; that is proved here, and it is where the
//! fixed window comes from: the first command never touches a record that
//! lives, so the expiry that it once set stays.

use crate::decimal::{decimal_bytes, decimal_value, is_digits, law_digits_read_back};
use crate::store::{track_commands, Command};
use crate::window::{counted, is_live, time_to_live, CounterRecord, CounterStore};
use vstd::prelude::*;
use vstd::utf8::{encode_utf8, is_ascii_chars_encode_utf8};

verus! {

/// What the store replies to a command.
pub enum Reply {
    /// Nothing was done.
    Nil,
    /// The command was carried out.
    Okay,
    /// A number.
    Integer(int),
}

/// What running a command leaves behind: the store after it, and the reply.
pub struct Ran {
    pub store: CounterStore,
    pub reply: Reply,
}

/// `SET key value EX seconds NX`: a key without a live record gets a record
/// with this value, which expires `seconds` from now. A record that lives is
/// not touched.
pub open spec fn ran_set(
    store: CounterStore,
    key: Seq<u8>,
    value: nat,
    seconds: nat,
    now: int,
) -> Ran {
    if is_live(store, key, now) {
        Ran { store, reply: Reply::Nil }
    } else {
        Ran {
            store: store.insert(
                key,
                CounterRecord { count: value, expires_at: Some(now + seconds) },
            ),
            reply: Reply::Okay,
        }
    }
}

/// `INCR key`: the value of the key goes up by one, and the new value is the
/// reply. The expiry of a record that lives stays; a key without a live
/// record starts at zero, without an expiry.
pub open spec fn ran_incr(store: CounterStore, key: Seq<u8>, now: int) -> Ran {
    let before = if is_live(store, key, now) {
        store[key]
    } else {
        CounterRecord { count: 0, expires_at: None }
    };
    let after = CounterRecord { count: before.count + 1, expires_at: before.expires_at };
    Ran { store: store.insert(key, after), reply: Reply::Integer(after.count as int) }
}

/// `TTL key`: the seconds that the key has left to live; -1 for a record
/// without an expiry, and -2 for a key without a live record.
pub open spec fn ran_ttl(store: CounterStore, key: Seq<u8>, now: int) -> Ran {
    if is_live(store, key, now) {
        Ran { store, reply: Reply::Integer(time_to_live(store[key], now)) }
    } else {
        Ran { store, reply: Reply::Integer(-2) }
    }
}

/// A number as an argument: decimal digits, at least one.
pub open spec fn is_number(arg: Seq<u8>) -> bool {
    arg.len() > 0 && is_digits(arg)
}

/// A command of the form `SET key value EX seconds NX`, with numbers for
/// value and seconds, and with more than zero seconds. Of an expiry of zero,
/// which the store does not take, nothing is said here.
pub open spec fn is_set(command: Command) -> bool {
    &&& command.args.len() == 6
    &&& command.args[0] == encode_utf8("SET"@)
    &&& is_number(command.args[2])
    &&& command.args[3] == encode_utf8("EX"@)
    &&& is_number(command.args[4])
    &&& decimal_value(command.args[4]) > 0
    &&& command.args[5] == encode_utf8("NX"@)
}

/// A command of the form `INCR key`.
pub open spec fn is_incr(command: Command) -> bool {
    command.args.len() == 2 && command.args[0] == encode_utf8("INCR"@)
}

/// A command of the form `TTL key`.
pub open spec fn is_ttl(command: Command) -> bool {
    command.args.len() == 2 && command.args[0] == encode_utf8("TTL"@)
}

/// What the store does with one command at the time `now`; nothing is said
/// of a command that is none of the three.
pub open spec fn ran(store: CounterStore, command: Command, now: int) -> Option<Ran> {
    if is_set(command) {
        Some(
            ran_set(
                store,
                command.args[1],
                decimal_value(command.args[2]),
                decimal_value(command.args[4]),
                now,
            ),
        )
    } else if is_incr(command) {
        Some(ran_incr(store, command.args[1], now))
    } else if is_ttl(command) {
        Some(ran_ttl(store, command.args[1], now))
    } else {
        None
    }
}

/// What running some commands leaves behind: the store after them, and the
/// reply to each.
pub struct RanAll {
    pub store: CounterStore,
    pub replies: Seq<Reply>,
}

/// What the store does with the commands of one transaction: it runs them in
/// order at the one time `now`, with no other command in between.
pub open spec fn ran_all(store: CounterStore, commands: Seq<Command>, now: int) -> Option<RanAll>
    decreases commands.len(),
{
    if commands.len() == 0 {
        Some(RanAll { store, replies: Seq::empty() })
    } else {
        match ran_all(store, commands.drop_last(), now) {
            Some(before) => match ran(before.store, commands.last(), now) {
                Some(last) => Some(
                    RanAll { store: last.store, replies: before.replies.push(last.reply) },
                ),
                None => None,
            },
            None => None,
        }
    }
}

/// The replies that the caller of a transaction gets: those to the commands
/// whose reply is not ignored.
pub open spec fn replies_kept(commands: Seq<Command>, replies: Seq<Reply>) -> Seq<Reply>
    decreases commands.len(),
{
    if commands.len() == 0 || replies.len() != commands.len() {
        Seq::empty()
    } else if commands.last().ignored {
        replies_kept(commands.drop_last(), replies.drop_last())
    } else {
        replies_kept(commands.drop_last(), replies.drop_last()).push(replies.last())
    }
}

/// The names of the three commands differ.
proof fn lemma_command_names()
    ensures
        encode_utf8("SET"@).len() == 3,
        encode_utf8("INCR"@).len() == 4,
        encode_utf8("TTL"@).len() == 3,
{
    reveal_strlit("SET");
    reveal_strlit("INCR");
    reveal_strlit("TTL");
    is_ascii_chars_encode_utf8("SET"@);
    is_ascii_chars_encode_utf8("INCR"@);
    is_ascii_chars_encode_utf8("TTL"@);
}

/// The tracking transaction counts in a fixed window. Run against a store,
/// the three commands that `track` builds for a key and a period of more
/// than zero seconds come to the one step `counted`: the caller is told the
/// new count and the time that the record has left, and the store is left
/// with the record counted up, its expiry set once and not moved.
pub proof fn law_tracking_is_one_step(store: CounterStore, key: Seq<char>, period: u64, now: int)
    requires
        period > 0,
    ensures
        ({
            let commands = track_commands(key, period);
            let step = counted(store, encode_utf8(key), period as nat, now);
            &&& ran_all(store, commands, now) is Some
            &&& ran_all(store, commands, now).unwrap().store == step.store
            &&& replies_kept(commands, ran_all(store, commands, now).unwrap().replies) == seq![
                Reply::Integer(step.count as int),
                Reply::Integer(step.ttl),
            ]
        }),
{
    lemma_command_names();
    law_digits_read_back(0);
    law_digits_read_back(period as nat);
    let name = encode_utf8(key);
    let commands = track_commands(key, period);
    let set = commands[0];
    let incr = commands[1];
    let ttl = commands[2];
    assert(is_set(set));
    assert(!is_set(incr) && is_incr(incr));
    assert(!is_set(ttl) && !is_incr(ttl) && is_ttl(ttl));

    let none = commands.take(0);
    let one = commands.take(1);
    let two = commands.take(2);
    assert(none.len() == 0);
    assert(one.drop_last() == none && one.last() == set);
    assert(two.drop_last() == one && two.last() == incr);
    assert(commands.drop_last() == two && commands.last() == ttl);

    let after_set = ran_set(store, name, 0, period as nat, now);
    assert(ran_all(store, none, now) == Some(RanAll { store, replies: Seq::empty() }));
    assert(ran_all(store, one, now) == Some(
        RanAll { store: after_set.store, replies: Seq::<Reply>::empty().push(after_set.reply) },
    ));
    assert(is_live(after_set.store, name, now));
    let after_incr = ran_incr(after_set.store, name, now);
    assert(ran_all(store, two, now) == Some(
        RanAll {
            store: after_incr.store,
            replies: Seq::<Reply>::empty().push(after_set.reply).push(after_incr.reply),
        },
    ));
    assert(is_live(after_incr.store, name, now));
    let after_ttl = ran_ttl(after_incr.store, name, now);
    let replies = Seq::<Reply>::empty().push(after_set.reply).push(after_incr.reply).push(
        after_ttl.reply,
    );
    assert(ran_all(store, commands, now) == Some(RanAll { store: after_ttl.store, replies }));

    let step = counted(store, name, period as nat, now);
    assert(after_ttl.store =~= step.store);
    assert(after_incr.reply == Reply::Integer(step.count as int));
    assert(after_ttl.reply == Reply::Integer(step.ttl));

    assert(replies.drop_last() == Seq::<Reply>::empty().push(after_set.reply).push(
        after_incr.reply,
    ));
    assert(replies.drop_last().drop_last() == Seq::<Reply>::empty().push(after_set.reply));
    assert(replies.drop_last().drop_last().drop_last() == Seq::<Reply>::empty());
    assert(replies_kept(none, Seq::<Reply>::empty()) == Seq::<Reply>::empty());
    assert(replies_kept(one, replies.drop_last().drop_last()) == Seq::<Reply>::empty());
    assert(replies_kept(two, replies.drop_last()) == seq![after_incr.reply]);
    assert(replies_kept(commands, replies) == seq![after_incr.reply, after_ttl.reply]);
}

} // verus!
