//! What holds of a transfer over a whole run of events.

use crate::connector::Refusal;
use crate::download_file::{
    resume_range, spec_step, Action, Destination, DownloadStateReturn, Event, FileInformation, Status,
    Transfer,
};
use crate::progress::saturated;
use vstd::prelude::*;

verus! {

/// The transfer after a run of events.
pub open spec fn run(t: Transfer, events: Seq<Event>) -> Transfer
    decreases events.len(),
{
    if events.len() == 0 {
        t
    } else {
        spec_step(run(t, events.drop_last()), events.last()).0
    }
}

/// The events of a probe that is refused once for each of `refusals`.
pub open spec fn refused(refusals: Seq<Refusal>) -> Seq<Event> {
    Seq::new(refusals.len(), |i: int| Event::Refused(refusals[i]))
}

/// One more event is one more step.
pub proof fn lemma_run_next(t: Transfer, events: Seq<Event>, k: int)
    requires
        0 <= k < events.len(),
    ensures
        run(t, events.take(k + 1)) == spec_step(run(t, events.take(k)), events[k]).0,
{
    assert(events.take(k + 1).drop_last() =~= events.take(k));
}

/// A run in two parts is the run of the second part after the first.
pub proof fn lemma_run_concat(t: Transfer, first: Seq<Event>, second: Seq<Event>)
    ensures
        run(t, first + second) == run(run(t, first), second),
    decreases second.len(),
{
    if second.len() == 0 {
        assert(first + second =~= first);
    } else {
        lemma_run_concat(t, first, second.drop_last());
        assert((first + second).drop_last() =~= first + second.drop_last());
    }
}

/// Nothing leads out of a terminal status, and nothing more is asked for.
pub proof fn lemma_terminal_is_final(t: Transfer, events: Seq<Event>)
    requires
        t.status.is_terminal(),
    ensures
        run(t, events) == t,
        forall|event: Event| spec_step(t, event).1 is None,
    decreases events.len(),
{
    if events.len() > 0 {
        lemma_terminal_is_final(t, events.drop_last());
    }
}

/// The file is asked for in two cases only: whole, when nothing was found
/// at the destination, and from the length of what was found, when the user
/// agreed to go on with it.
pub proof fn lemma_fetch_is_gated(t: Transfer, event: Event)
    requires
        spec_step(t, event).1 matches Some(Action::Fetch(_)),
    ensures
        ({
            let range = spec_step(t, event).1->Some_0->Fetch_0;
            ||| {
                &&& t.status is ProbingMetadata
                &&& event == Event::Destination(Destination::Absent)
                &&& range is None
            }
            ||| {
                &&& t.status is AwaitingResumeConsent
                &&& event == Event::Consent(Some(DownloadStateReturn::Continue(true)))
                &&& range == Some(resume_range(t.downloaded, t.file.size))
            }
        }),
{
}

/// A cancellation that reaches a transfer before it has ended aborts it,
/// whatever follows: the run ends aborted, never completed.
pub proof fn lemma_cancellation_is_final(t: Transfer, events: Seq<Event>, k: int)
    requires
        0 <= k < events.len(),
        events[k] == Event::Cancelled,
        !run(t, events.take(k)).status.is_terminal(),
    ensures
        spec_step(run(t, events.take(k)), events[k]).1 == Some(Action::Stop),
        run(t, events).status == Status::Aborted,
{
    lemma_run_next(t, events, k);
    let aborted = run(t, events.take(k + 1));
    let rest = events.skip(k + 1);
    lemma_terminal_is_final(aborted, rest);
    lemma_run_concat(t, events.take(k + 1), rest);
    assert(events.take(k + 1) + rest =~= events);
}

/// A connecting transfer whose probe is refused any number of times, each
/// time for a reason worth another attempt, stays connecting and asks for a
/// retry each time; the answer that follows takes it to the look at the
/// destination, with what the answer told of the file.
pub proof fn lemma_retries_until_answered(
    t: Transfer,
    refusals: Seq<Refusal>,
    file: FileInformation,
)
    requires
        t.status is Connecting,
        forall|i: int| 0 <= i < refusals.len() ==> !(#[trigger] refusals[i] is TerminalError),
    ensures
        forall|k: int|
            0 <= k <= refusals.len() ==> (#[trigger] run(
                t,
                refused(refusals).take(k),
            )).status is Connecting,
        forall|k: int|
            0 <= k < refusals.len() ==> spec_step(
                #[trigger] run(t, refused(refusals).take(k)),
                refused(refusals)[k],
            ).1 == Some(Action::Retry),
        spec_step(run(t, refused(refusals)), Event::Probed(file)).1 == Some(
            Action::InspectDestination,
        ),
        run(t, refused(refusals).push(Event::Probed(file))).status == Status::ProbingMetadata,
        run(t, refused(refusals).push(Event::Probed(file))).file == file,
{
    let events = refused(refusals);
    assert forall|k: int| 0 <= k <= refusals.len() implies (#[trigger] run(
        t,
        events.take(k),
    )).status is Connecting by {
        lemma_connecting_while_refused(t, refusals, k);
    }
    assert forall|k: int| 0 <= k < refusals.len() implies spec_step(
        #[trigger] run(t, events.take(k)),
        events[k],
    ).1 == Some(Action::Retry) by {
        lemma_connecting_while_refused(t, refusals, k);
        assert(!(refusals[k] is TerminalError));
    }
    lemma_connecting_while_refused(t, refusals, refusals.len() as int);
    assert(events.take(refusals.len() as int) =~= events);
    assert(events.push(Event::Probed(file)).drop_last() =~= events);
}

proof fn lemma_connecting_while_refused(t: Transfer, refusals: Seq<Refusal>, k: int)
    requires
        t.status is Connecting,
        forall|i: int| 0 <= i < refusals.len() ==> !(#[trigger] refusals[i] is TerminalError),
        0 <= k <= refusals.len(),
    ensures
        run(t, refused(refusals).take(k)).status is Connecting,
    decreases k,
{
    if k > 0 {
        lemma_connecting_while_refused(t, refusals, k - 1);
        lemma_run_next(t, refused(refusals), k - 1);
        assert(!(refusals[k - 1] is TerminalError));
    }
}

/// Granting consent to go on with a file of `len` bytes asks for the file
/// from byte `len` on, and counts from there; declining asks for nothing.
pub proof fn lemma_resume_starts_at_length(t: Transfer, len: u64)
    requires
        t.status is ProbingMetadata,
    ensures
        ({
            let asked = spec_step(t, Event::Destination(Destination::RegularFile { len }));
            let granted = spec_step(
                asked.0,
                Event::Consent(Some(DownloadStateReturn::Continue(true))),
            );
            let declined = spec_step(
                asked.0,
                Event::Consent(Some(DownloadStateReturn::Continue(false))),
            );
            &&& asked.1 == Some(Action::AwaitConsent)
            &&& granted.1 matches Some(Action::Fetch(Some(range)))
            &&& range.start == len
            &&& granted.0.downloaded == len
            &&& declined.1 == Some(Action::Stop)
            &&& declined.0.status == Status::Aborted
        }),
{
}

/// Every chunk is reported, with the bytes counted and a rate.
pub proof fn lemma_chunk_is_reported(t: Transfer, len: u64, at_us: u64)
    requires
        t.status.is_receiving(),
    ensures
        ({
            let after = spec_step(t, Event::Chunk { len, at_us }).0;
            &&& after.spec_progress() matches Some(p)
            &&& p.downloaded_bytes == saturated(t.downloaded + len)
            &&& after.speed == Some(p.speed_bytes_per_sec)
        }),
{
}

/// Once progress has been reported, the transfer either reports progress
/// that is no less, or has ended.
proof fn lemma_after_progress(t: Transfer, events: Seq<Event>, i: int, j: int)
    requires
        0 <= i <= j <= events.len(),
        run(t, events.take(i)).status is Downloading,
    ensures
        ({
            let from = run(t, events.take(i));
            let to = run(t, events.take(j));
            to.status.is_terminal() || (to.status is Downloading && from.downloaded
                <= to.downloaded)
        }),
    decreases j - i,
{
    if i < j {
        lemma_after_progress(t, events, i, j - 1);
        lemma_run_next(t, events, j - 1);
    }
}

/// The bytes reported never go down within a run.
pub proof fn lemma_progress_is_monotonic(t: Transfer, events: Seq<Event>, i: int, j: int)
    requires
        0 <= i <= j <= events.len(),
        run(t, events.take(i)).spec_progress() is Some,
        run(t, events.take(j)).spec_progress() is Some,
    ensures
        run(t, events.take(i)).spec_progress()->Some_0.downloaded_bytes <= run(
            t,
            events.take(j),
        ).spec_progress()->Some_0.downloaded_bytes,
{
    lemma_after_progress(t, events, i, j);
}

/// Where no size is declared, at the outset or by any probe of the run, no
/// progress of the run carries a percentage.
pub proof fn lemma_unknown_size_has_no_percent(t: Transfer, events: Seq<Event>, k: int)
    requires
        t.file.size == 0,
        forall|i: int|
            0 <= i < events.len() ==> (#[trigger] events[i] matches Event::Probed(file)
                ==> file.size == 0),
        0 <= k <= events.len(),
    ensures
        run(t, events.take(k)).file.size == 0,
        run(t, events.take(k)).spec_progress() matches Some(p) ==> p.millipercent is None,
    decreases k,
{
    if k > 0 {
        lemma_unknown_size_has_no_percent(t, events, k - 1);
        lemma_run_next(t, events, k - 1);
        assert(events[k - 1] matches Event::Probed(file) ==> file.size == 0);
    }
}

} // verus!
