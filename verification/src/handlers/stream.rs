//! The live stream of a run's output.
//!
//! One browser follows a run: streams are numbered, and a new one takes the place of the
//! one before.

use vstd::prelude::*;
use vstd::string::*;

use crate::agent::DONE;
use crate::state::AppState;
use crate::text::text_eq;

verus! {

/// What a browser that asks for the stream gets.
#[derive(Debug)]
pub enum StreamStart {
    /// This event, and no other: no run is under way.
    Ended { event: String },
    /// Every line from now on, up to the one that tells of the run's end, as long as the
    /// stream with this number is kept.
    Live { number: u64 },
}

/// The number of the stream that follows the one with the number `latest`.
pub open spec fn next_number(latest: u64) -> u64 {
    if latest == u64::MAX {
        0
    } else {
        (latest + 1) as u64
    }
}

/// Answers a request for the stream, where `latest` is the number of the latest stream.
pub fn get_stream(app: &AppState, latest: u64) -> (r: StreamStart)
    ensures
        if app@.run.status is Running {
            r == (StreamStart::Live { number: next_number(latest) })
        } else {
            r matches StreamStart::Ended { event } && event@ == DONE@
        },
{
    if app.run.status.is_running() {
        let number: u64 = if latest == u64::MAX {
            0
        } else {
            latest + 1
        };
        StreamStart::Live { number }
    } else {
        StreamStart::Ended { event: DONE.to_owned() }
    }
}

/// Whether the stream with this number is kept, where `latest` is the number of the latest.
pub open spec fn kept(number: u64, latest: u64) -> bool {
    number == latest
}

/// Whether the stream with this number is kept, where `latest` is the number of the latest:
/// every other one is dropped.
pub fn keeps(number: u64, latest: u64) -> (r: bool)
    ensures
        r == kept(number, latest),
{
    number == latest
}

/// Whether this line is the last one of a stream.
pub open spec fn is_last(line: Seq<char>) -> bool {
    line == DONE@
}

/// Whether this line is the last one of a stream: it tells of the run's end.
pub fn ends(line: &str) -> (r: bool)
    ensures
        r == is_last(line@),
{
    text_eq(line, DONE)
}

/// What a stream shows of these lines: all up to the last one of the stream.
pub open spec fn streamed(lines: Seq<Seq<char>>) -> Seq<Seq<char>>
    decreases lines.len(),
{
    if lines.len() == 0 {
        seq![]
    } else if is_last(lines[0]) {
        seq![lines[0]]
    } else {
        seq![lines[0]] + streamed(lines.drop_first())
    }
}

// ── Laws ────────────────────────────────────────────────────────────────────

/// A new stream is kept, and the one before it is dropped.
pub proof fn law_new_stream_takes_the_place(latest: u64)
    ensures
        kept(next_number(latest), next_number(latest)),
        !kept(latest, next_number(latest)),
{
}

/// At most one stream is kept at a time.
pub proof fn law_one_stream_is_kept(a: u64, b: u64, latest: u64)
    requires
        kept(a, latest),
        kept(b, latest),
    ensures
        a == b,
{
}

/// A stream shows every line of a run and the one that tells of its end, and nothing of what
/// comes later.
pub proof fn law_stream_ends_with_the_run(lines: Seq<Seq<char>>, later: Seq<Seq<char>>)
    requires
        forall|i: int| 0 <= i < lines.len() ==> !is_last(#[trigger] lines[i]),
    ensures
        streamed(lines.push(DONE@) + later) == lines.push(DONE@),
        streamed(lines) == lines,
    decreases lines.len(),
{
    let all = lines.push(DONE@) + later;
    if lines.len() == 0 {
        assert(all[0] == DONE@);
        assert(streamed(all) =~= lines.push(DONE@));
        assert(streamed(lines) =~= lines);
    } else {
        let rest = lines.drop_first();
        assert(!is_last(lines[0]));
        assert forall|i: int| 0 <= i < rest.len() implies !is_last(#[trigger] rest[i]) by {
            assert(rest[i] == lines[i + 1]);
        }
        law_stream_ends_with_the_run(rest, later);
        assert(all[0] == lines[0]);
        assert(all.drop_first() =~= rest.push(DONE@) + later);
        assert(streamed(all) =~= lines.push(DONE@));
        assert(streamed(lines) =~= lines);
    }
}

} // verus!
