//! What a whole operation of the camera driver amounts to, from its first
//! request to its result.

use crate::ov2640::{
    answers, outcome, reads_among, script, startable, step, writes, Error, Job, Progress, Reply,
    Request, Step,
};
use crate::registers::{DEFAULT_REGS, RGB565_REGS, SVGA_REGS};
use crate::window::size_recipe;
use vstd::prelude::*;

verus! {

/// An operation after some replies: how far it has come, if it is still under
/// way, what it has asked for, and its result, once there is one.
#[verifier::ext_equal]
pub struct Session<E> {
    pub progress: Option<Progress>,
    pub asked: Seq<Request>,
    pub result: Option<Result<(), Error<E>>>,
}

/// The operation after the replies, given one by one from its start. Replies
/// that come after the result change nothing.
pub open spec fn play<E>(job: Job, replies: Seq<Reply<E>>) -> Session<E>
    decreases replies.len(),
{
    if replies.len() == 0 {
        let start = Progress::start(job);
        Session { progress: Some(start), asked: seq![start.pending()], result: None }
    } else {
        let before = play(job, replies.drop_last());
        match before.progress {
            None => before,
            Some(p) => match step(p, replies.last()) {
                (next, Step::Ask(request)) => Session {
                    progress: next,
                    asked: before.asked.push(request),
                    result: None,
                },
                (next, Step::Finished(result)) => Session {
                    progress: next,
                    asked: before.asked,
                    result: Some(result),
                },
            },
        }
    }
}

/// The bytes that the replies bring, in order.
pub open spec fn bytes_of<E>(replies: Seq<Reply<E>>) -> Seq<u8>
    decreases replies.len(),
{
    if replies.len() == 0 {
        Seq::empty()
    } else {
        let before = bytes_of(replies.drop_last());
        match replies.last() {
            Reply::Byte(byte) => before.push(byte),
            _ => before,
        }
    }
}

/// The replies are those of a working sensor: each is the answer to the request
/// with its number, and none is a failure.
pub open spec fn granted<E>(job: Job, replies: Seq<Reply<E>>) -> bool {
    forall|i: int|
        0 <= i < replies.len() ==> {
            &&& answers(script(job, bytes_of(replies))[i], #[trigger] replies[i])
            &&& !(replies[i] is Failed)
        }
}

/// Which requests of an operation are reads does not depend on the bytes read.
proof fn lemma_reads_among(job: Job, reads: Seq<u8>, i: int)
    requires
        startable(job),
        0 <= i < script(job, reads).len(),
    ensures
        reads_among(job, i + 1) == reads_among(job, i) + (if script(job, reads)[i] is Read {
            1int
        } else {
            0
        }),
{
}

/// A byte that is read after request `i` has no bearing on the requests up to it.
proof fn lemma_script_settled(job: Job, reads: Seq<u8>, byte: u8, i: int)
    requires
        startable(job),
        0 <= i < script(job, reads).len(),
        reads.len() == reads_among(job, i),
    ensures
        script(job, reads.push(byte)).len() == script(job, reads).len(),
        forall|k: int|
            0 <= k <= i ==> script(job, reads.push(byte))[k] == #[trigger] script(job, reads)[k],
{
    match job {
        Job::ColorBar { enable } => {
            if i == 2 {
                assert(reads.push(byte)[0] == reads[0]);
            }
        },
        _ => {},
    }
}

/// How many requests an operation has, and which replies they can have, does
/// not depend on the bytes read.
proof fn lemma_same_kind<E>(job: Job, reads: Seq<u8>, other: Seq<u8>, i: int, reply: Reply<E>)
    requires
        startable(job),
        0 <= i < script(job, reads).len(),
    ensures
        script(job, reads).len() == script(job, other).len(),
        answers(script(job, reads)[i], reply) == answers(script(job, other)[i], reply),
{
}

/// What a working sensor has answered so far, it has also answered without the
/// last reply.
pub proof fn lemma_granted_before<E>(job: Job, replies: Seq<Reply<E>>)
    requires
        startable(job),
        granted(job, replies),
        0 < replies.len() <= script(job, bytes_of(replies)).len(),
    ensures
        granted(job, replies.drop_last()),
        script(job, bytes_of(replies.drop_last())).len() == script(job, bytes_of(replies)).len(),
{
    let before = replies.drop_last();
    lemma_same_kind(job, bytes_of(replies), bytes_of(before), 0, replies[0]);
    assert forall|i: int| 0 <= i < before.len() implies {
        &&& answers(script(job, bytes_of(before))[i], #[trigger] before[i])
        &&& !(before[i] is Failed)
    } by {
        assert(before[i] == replies[i]);
        lemma_same_kind(job, bytes_of(replies), bytes_of(before), i, replies[i]);
    }
}

/// While a working sensor answers, the operation asks for the requests of its
/// script, one after the other, and keeps the bytes that it reads.
pub proof fn law_under_way<E>(job: Job, replies: Seq<Reply<E>>)
    requires
        startable(job),
        granted(job, replies),
        replies.len() < script(job, bytes_of(replies)).len(),
    ensures
        ({
            let n = replies.len() as int;
            let reads = bytes_of(replies);
            &&& reads.len() == reads_among(job, n)
            &&& play(job, replies) == (Session::<E> {
                progress: Some(Progress { job, done: n, reads }),
                asked: script(job, reads).take(n + 1),
                result: None,
            })
        }),
    decreases replies.len(),
{
    let n = replies.len() as int;
    let reads = bytes_of(replies);
    if n == 0 {
        assert(script(job, reads).take(1) =~= seq![script(job, reads)[0]]);
    } else {
        let before = replies.drop_last();
        let old_reads = bytes_of(before);
        lemma_granted_before(job, replies);
        law_under_way(job, before);
        lemma_reads_among(job, old_reads, n - 1);
        if let Reply::Byte(byte) = replies.last() {
            lemma_script_settled(job, old_reads, byte, n - 1);
        }
        assert(answers(script(job, reads)[n - 1], replies[n - 1]));
        assert(script(job, old_reads).take(n).push(script(job, reads)[n]) =~= script(
            job,
            reads,
        ).take(n + 1));
    }
}

/// An operation whose requests are all granted asks for its whole script, in
/// order and nothing else, and ends with the outcome that the bytes read call
/// for.
pub proof fn law_completes<E>(job: Job, replies: Seq<Reply<E>>)
    requires
        startable(job),
        granted(job, replies),
        replies.len() == script(job, bytes_of(replies)).len(),
    ensures
        play(job, replies) == (Session::<E> {
            progress: None,
            asked: script(job, bytes_of(replies)),
            result: Some(outcome(job, bytes_of(replies))),
        }),
{
    let n = replies.len() as int;
    let before = replies.drop_last();
    let old_reads = bytes_of(before);
    let reads = bytes_of(replies);
    lemma_granted_before(job, replies);
    law_under_way(job, before);
    if let Reply::Byte(byte) = replies.last() {
        lemma_script_settled(job, old_reads, byte, n - 1);
    }
    assert(answers(script(job, reads)[n - 1], replies[n - 1]));
    assert(script(job, old_reads).take(n) =~= script(job, reads));
}

/// The first request that fails is the last one asked: the operation ends there
/// with the bus error, whatever the replies that follow.
pub proof fn law_stops_at_failure<E>(job: Job, replies: Seq<Reply<E>>, e: E, rest: Seq<Reply<E>>)
    requires
        startable(job),
        granted(job, replies),
        replies.len() < script(job, bytes_of(replies)).len(),
    ensures
        play(job, replies.push(Reply::Failed(e)) + rest) == (Session::<E> {
            progress: None,
            asked: script(job, bytes_of(replies)).take(replies.len() as int + 1),
            result: Some(Err(Error::I2c(e))),
        }),
    decreases rest.len(),
{
    let all = replies.push(Reply::Failed(e)) + rest;
    if rest.len() == 0 {
        law_under_way(job, replies);
        assert(all.drop_last() =~= replies);
        assert(all.last() == Reply::Failed(e));
    } else {
        law_stops_at_failure(job, replies, e, rest.drop_last());
        assert(all.drop_last() =~= replies.push(Reply::Failed(e)) + rest.drop_last());
    }
}

/// The transactions that were made, and how they ended.
#[verifier::ext_equal]
pub struct Transactions<E> {
    pub made: Seq<Request>,
    pub result: Result<(), Error<E>>,
}

/// Writing a recipe pair by pair, up to the first failure. `replies` are what the
/// bus answers to the transactions, by their numbers.
pub open spec fn write_all<E>(recipe: Seq<(u8, u8)>, replies: Seq<Reply<E>>) -> Transactions<E>
    decreases recipe.len(),
{
    if recipe.len() == 0 {
        Transactions { made: Seq::empty(), result: Ok(()) }
    } else {
        let before = write_all(recipe.drop_last(), replies);
        if before.result is Err {
            before
        } else {
            let (reg, val) = recipe.last();
            Transactions {
                made: before.made.push(Request::Write { reg, val }),
                result: match replies[recipe.len() - 1] {
                    Reply::Failed(e) => Err(Error::I2c(e)),
                    _ => Ok(()),
                },
            }
        }
    }
}

/// One `write_all` after another, which is not begun where the first one fails.
pub open spec fn write_both<E>(
    a: Seq<(u8, u8)>,
    b: Seq<(u8, u8)>,
    replies: Seq<Reply<E>>,
) -> Transactions<E> {
    let first = write_all(a, replies);
    if first.result is Err {
        first
    } else {
        let second = write_all(b, replies.skip(a.len() as int));
        Transactions { made: first.made + second.made, result: second.result }
    }
}

/// Writing two recipes joined is writing the one and then, if that went well,
/// the other: the same transactions, and the same result.
pub proof fn law_joined_recipes<E>(a: Seq<(u8, u8)>, b: Seq<(u8, u8)>, replies: Seq<Reply<E>>)
    requires
        a.len() + b.len() <= replies.len(),
    ensures
        writes(a + b) == writes(a) + writes(b),
        write_all(a + b, replies) == write_both(a, b, replies),
    decreases b.len(),
{
    assert(writes(a + b) =~= writes(a) + writes(b));
    let first = write_all(a, replies);
    if b.len() == 0 {
        assert(a + b =~= a);
        assert(first.made + Seq::empty() =~= first.made);
    } else {
        law_joined_recipes(a, b.drop_last(), replies);
        assert((a + b).drop_last() =~= a + b.drop_last());
        let rest = replies.skip(a.len() as int);
        let second = write_all(b.drop_last(), rest);
        let (reg, val) = b.last();
        let request = Request::Write { reg, val };
        assert((first.made + second.made).push(request) =~= first.made + second.made.push(request));
        assert(rest[b.len() - 1] == replies[(a + b).len() - 1]);
    }
}

/// The recipe that an operation writes, of those that do nothing else.
pub open spec fn recipe_of(job: Job) -> Option<Seq<(u8, u8)>> {
    match job {
        Job::PixelFormatRgb565 => Some(RGB565_REGS@),
        Job::OutputSize { width, height } => Some(
            SVGA_REGS@ + size_recipe(width as int, height as int),
        ),
        _ => None,
    }
}

/// An operation that does nothing but write a recipe makes the transactions of
/// `write_all` and has its result, whatever the bus answers.
pub proof fn law_recipe_is_written<E>(job: Job, replies: Seq<Reply<E>>)
    requires
        startable(job),
        recipe_of(job) matches Some(recipe) && recipe.len() == replies.len(),
        forall|i: int|
            0 <= i < replies.len() ==> (#[trigger] replies[i] is Done || replies[i] is Failed),
    ensures
        ({
            let all = write_all(recipe_of(job)->0, replies);
            play(job, replies) == (Session::<E> {
                progress: None,
                asked: all.made,
                result: Some(all.result),
            })
        }),
{
    let recipe = recipe_of(job)->0;
    lemma_written(job, replies, recipe.len() as int);
    assert(recipe.take(recipe.len() as int) =~= recipe);
    assert(replies.take(recipe.len() as int) =~= replies);
}

/// The first `n` answers: the operation has ended as `write_all` has, or it is
/// under way.
proof fn lemma_written<E>(job: Job, replies: Seq<Reply<E>>, n: int)
    requires
        startable(job),
        recipe_of(job) matches Some(recipe) && recipe.len() == replies.len(),
        forall|i: int|
            0 <= i < replies.len() ==> (#[trigger] replies[i] is Done || replies[i] is Failed),
        0 <= n <= replies.len(),
    ensures
        ({
            let recipe = recipe_of(job)->0;
            let all = write_all(recipe.take(n), replies);
            let session = play(job, replies.take(n));
            if all.result is Ok && n < recipe.len() {
                &&& session.progress == Some(Progress { job, done: n, reads: Seq::empty() })
                &&& session.asked == all.made.push(script(job, Seq::empty())[n])
            } else {
                session == (Session::<E> {
                    progress: None,
                    asked: all.made,
                    result: Some(all.result),
                })
            }
        }),
    decreases n,
{
    let recipe = recipe_of(job)->0;
    assert(script(job, Seq::empty()) =~= writes(recipe));
    if n == 0 {
        assert(replies.take(0) =~= Seq::empty());
        assert(seq![Progress::start(job).pending()] =~= Seq::empty().push(
            script(job, Seq::empty())[0],
        ));
    } else {
        lemma_written(job, replies, n - 1);
        assert(recipe.take(n).drop_last() =~= recipe.take(n - 1));
        assert(replies.take(n).drop_last() =~= replies.take(n - 1));
        assert(replies.take(n).last() == replies[n - 1]);
        assert(recipe.take(n).last() == recipe[n - 1]);
        assert(script(job, Seq::empty())[n - 1] == writes(recipe)[n - 1]);
    }
}

/// A probe succeeds exactly when the device names itself an OV2640, and reports
/// the identity of any other device.
pub proof fn law_probe_identifies<E>(pid: u8, ver: u8)
    ensures
        play(
            Job::Probe,
            seq![Reply::<E>::Done, Reply::Byte(pid), Reply::Byte(ver)],
        ).result == Some(
            if pid == 0x26 {
                Ok::<(), Error<E>>(())
            } else {
                Err(Error::WrongId { pid, ver })
            },
        ),
{
    let replies = seq![Reply::<E>::Done, Reply::Byte(pid), Reply::Byte(ver)];
    reveal_with_fuel(bytes_of, 4);
    assert(replies.drop_last() =~= seq![Reply::<E>::Done, Reply::Byte(pid)]);
    assert(replies.drop_last().drop_last() =~= seq![Reply::<E>::Done]);
    assert(replies.drop_last().drop_last().drop_last() =~= Seq::<Reply<E>>::empty());
    assert(bytes_of(replies) =~= seq![pid, ver]);
    law_completes(Job::Probe, replies);
}

/// A probe selects the sensor bank and reads the product ID and the version, in
/// this order.
pub proof fn law_probe_requests(reads: Seq<u8>)
    ensures
        ({
            let s = script(Job::Probe, reads);
            &&& s.len() == 3
            &&& s[0] == (Request::Write { reg: 0xFF, val: 0x01 })
            &&& s[1] == (Request::Read { reg: 0x0A })
            &&& s[2] == (Request::Read { reg: 0x0B })
        }),
{
}

/// The baseline is loaded after a soft reset in the sensor bank: the sensor gets
/// 10 ms after the reset and 300 ms after the last pair, all pairs are written in
/// their order, and there is nothing else.
pub proof fn law_init_requests(reads: Seq<u8>, i: int)
    requires
        0 <= i < 174,
    ensures
        ({
            let s = script(Job::Init, reads);
            &&& s.len() == 174 + 4
            &&& s[0] == (Request::Write { reg: 0xFF, val: 0x01 })
            &&& s[1] == (Request::Write { reg: 0x12, val: 0x80 })
            &&& s[2] == (Request::Delay { millis: 10 })
            &&& s[3 + i] == (Request::Write { reg: DEFAULT_REGS@[i].0, val: DEFAULT_REGS@[i].1 })
            &&& s[177] == (Request::Delay { millis: 300 })
        }),
{
}

/// Switching the test pattern reads register 0x12 of the sensor bank and writes
/// the same register back.
pub proof fn law_colorbar_requests(enable: bool, com7: u8)
    ensures
        ({
            let s = script(Job::ColorBar { enable }, seq![com7]);
            &&& s.len() == 3
            &&& s[0] == (Request::Write { reg: 0xFF, val: 0x01 })
            &&& s[1] == (Request::Read { reg: 0x12 })
            &&& s[2] matches Request::Write { reg, val } && reg == 0x12 && val & 0xFD == com7 & 0xFD
                && val & 0x02 == (if enable {
                0x02u8
            } else {
                0
            })
        }),
{
    assert((com7 | 2) & 0xFD == com7 & 0xFD && (com7 & !2u8) & 0xFD == com7 & 0xFD && (com7 | 2) & 2
        == 2 && (com7 & !2u8) & 2 == 0) by (bit_vector);
}

/// The operations that only write: the pairs of their recipes in order, the frame
/// timing before the sizes. The output path is in reset from before the first
/// size to after the last.
pub proof fn law_recipe_requests(width: u16, height: u16, reads: Seq<u8>, i: int)
    ensures
        ({
            let s = script(Job::PixelFormatRgb565, reads);
            &&& s.len() == 6
            &&& 0 <= i < 6 ==> s[i] == (Request::Write {
                reg: RGB565_REGS@[i].0,
                val: RGB565_REGS@[i].1,
            })
        }),
        ({
            let s = script(Job::OutputSize { width, height }, reads);
            &&& s.len() == 14 + 12
            &&& 0 <= i < 14 ==> s[i] == (Request::Write {
                reg: SVGA_REGS@[i].0,
                val: SVGA_REGS@[i].1,
            })
            &&& s[9] == (Request::Write { reg: 0xE0, val: 0x04 })
            &&& s[25] == (Request::Write { reg: 0xE0, val: 0x00 })
            &&& 9 < i < 25 ==> (s[i] matches Request::Write { reg, .. } && reg != 0xE0)
        }),
{
}

/// Only a probe can end badly on a bus without failures, and it does so exactly
/// if the first byte it reads is not 0x26; it then reports both bytes.
pub proof fn law_only_probe_refuses<E>(job: Job, reads: Seq<u8>)
    ensures
        !(job is Probe) || reads[0] == 0x26 ==> outcome::<E>(job, reads) == Ok::<(), Error<E>>(()),
        job is Probe && reads[0] != 0x26 ==> outcome::<E>(job, reads) == Err::<(), Error<E>>(
            Error::WrongId { pid: reads[0], ver: reads[1] },
        ),
{
}

/// A reply ends the operation with the bus error if it is a failure, and else
/// with its outcome if it was the last one that the operation waited for; any
/// other reply leads to the next request. A byte is kept, and nothing else is.
pub proof fn law_reply_by_reply<E>(p: Progress, reply: Reply<E>, e: E)
    ensures
        step(p, Reply::Failed(e)) == (
            None::<Progress>,
            Step::<E>::Finished(Err(Error::I2c(e))),
        ),
        !(reply is Failed) ==> {
            let reads = if reply is Byte {
                p.reads.push(reply->Byte_0)
            } else {
                p.reads
            };
            let s = script(p.job, reads);
            &&& p.done + 1 < s.len() ==> step(p, reply) == (
                Some(Progress { job: p.job, done: p.done + 1, reads }),
                Step::<E>::Ask(s[p.done + 1]),
            )
            &&& p.done + 1 >= s.len() ==> step(p, reply) == (
                None::<Progress>,
                Step::<E>::Finished(outcome(p.job, reads)),
            )
        },
{
}

} // verus!
