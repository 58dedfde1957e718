//! How often progress is reported over a run.
//!
//! On a clock that never runs backwards, any two reports of progress that
//! a download tells, and any two that an installation hands on, lie a
//! period apart at least: there is one report a second at most.

use crate::download_run::{lemma_reports_concat, reports};
use crate::file_download::{
    DownloadActionView, DownloadEventView, DownloadMessageView, DownloadPhase, DownloadView,
    FileDownloadMessageView,
};
use crate::progress::{
    clock_runs_on, lemma_reports_lie_a_period_apart, ProgressGate, REPORT_PERIOD_MS,
};
use crate::tasks::install::{
    InstallActionView, InstallEventView, InstallPhase, InstallTaskProgressView, InstallTaskView,
};
use vstd::prelude::*;

verus! {

/// Offering one report more is offering it to the state that the others left.
pub proof fn lemma_offer_one_more(gate: ProgressGate, times: Seq<u64>, now: u64)
    ensures
        gate.after_all(times.push(now)) == gate.after_all(times).after(now),
        gate.passed(times.push(now)) == if gate.after_all(times).lets_through(now) {
            gate.passed(times).push(now)
        } else {
            gate.passed(times)
        },
{
    assert(times.push(now).drop_last() =~= times);
}

/// Do all of `times` lie at or before `limit`?
pub open spec fn all_at_most(times: Seq<u64>, limit: u64) -> bool {
    forall|i: int| 0 <= i < times.len() ==> times[i] <= limit
}

/// Times that run on, with one more that is no earlier than any of them,
/// run on.
pub proof fn lemma_clock_runs_on_push(times: Seq<u64>, now: u64)
    requires
        clock_runs_on(times),
        all_at_most(times, now),
        now + REPORT_PERIOD_MS <= u64::MAX,
    ensures
        clock_runs_on(times.push(now)),
        all_at_most(times.push(now), now),
{
    let all = times.push(now);
    assert forall|i: int, j: int| 0 <= i <= j < all.len() implies all[i] <= all[j] by {
        if j < times.len() {
            assert(all[i] == times[i] && all[j] == times[j]);
        } else if i < times.len() {
            assert(all[i] == times[i]);
        }
    }
    assert forall|i: int| 0 <= i < all.len() implies all[i] + REPORT_PERIOD_MS <= u64::MAX by {
        if i < times.len() {
            assert(all[i] == times[i]);
        }
    }
    assert forall|i: int| 0 <= i < all.len() implies all[i] <= now by {
        if i < times.len() {
            assert(all[i] == times[i]);
        }
    }
}

/// The time at which a stream told the download something.
pub open spec fn download_time(event: DownloadEventView) -> Option<u64> {
    match event {
        DownloadEventView::File { now, .. } => Some(now),
        _ => None,
    }
}

/// Do the times of the events never run backwards, and can the clock tell
/// a period later than each of them?
pub open spec fn download_clock_runs_on(events: Seq<DownloadEventView>) -> bool {
    &&& forall|i: int, j: int|
        0 <= i <= j < events.len() && download_time(events[i]) is Some && download_time(
            events[j],
        ) is Some ==> download_time(events[i])->0 <= download_time(events[j])->0
    &&& forall|i: int|
        0 <= i < events.len() && download_time(events[i]) is Some ==> download_time(
            events[i],
        )->0 + REPORT_PERIOD_MS <= u64::MAX
}

/// Is the event a piece that a running download takes in?
pub open spec fn takes_piece(download: DownloadView, event: DownloadEventView) -> bool {
    download.phase == DownloadPhase::Streaming && event matches DownloadEventView::File {
        message: FileDownloadMessageView::Chunk { .. },
        ..
    }
}

/// The times at which a piece was taken in, over a run.
pub open spec fn piece_times(download: DownloadView, events: Seq<DownloadEventView>) -> Seq<u64>
    decreases events.len(),
{
    if events.len() == 0 {
        Seq::empty()
    } else if takes_piece(download.run(events.drop_last()).0, events.last()) {
        piece_times(download, events.drop_last()).push(download_time(events.last())->0)
    } else {
        piece_times(download, events.drop_last())
    }
}

/// The times at which progress was reported, over a run: those of the
/// pieces whose report was let through.
pub open spec fn report_times(download: DownloadView, events: Seq<DownloadEventView>) -> Seq<u64>
    decreases events.len(),
{
    if events.len() == 0 {
        Seq::empty()
    } else if takes_piece(download.run(events.drop_last()).0, events.last()) && download.run(
        events.drop_last(),
    ).0.gate.lets_through(download_time(events.last())->0) {
        report_times(download, events.drop_last()).push(download_time(events.last())->0)
    } else {
        report_times(download, events.drop_last())
    }
}

/// A list of actions that reports no progress reports none.
proof fn lemma_reports_none(actions: Seq<DownloadActionView>)
    requires
        forall|i: int|
            0 <= i < actions.len() ==> !(#[trigger] actions[i] matches DownloadActionView::Send(
                DownloadMessageView::Progress { .. },
            )),
    ensures
        reports(actions).len() == 0,
    decreases actions.len(),
{
    if actions.len() > 0 {
        assert(!(actions[actions.len() - 1] matches DownloadActionView::Send(
            DownloadMessageView::Progress { .. },
        )));
        assert forall|i: int| 0 <= i < actions.drop_last().len() implies !(
        #[trigger] actions.drop_last()[i] matches DownloadActionView::Send(
            DownloadMessageView::Progress { .. },
        )) by {
            assert(actions.drop_last()[i] == actions[i]);
        }
        lemma_reports_none(actions.drop_last());
    }
}

/// One step of a download reports progress exactly when it takes a piece
/// in at a time at which the report is let through; only then does the
/// state that holds reports back change.
pub proof fn lemma_step_reports_when_let_through(download: DownloadView, event: DownloadEventView)
    ensures
        takes_piece(download, event) ==> download.step(event).0.gate == download.gate.after(
            download_time(event)->0,
        ),
        !takes_piece(download, event) ==> download.step(event).0.gate == download.gate,
        reports(download.step(event).1).len() == if takes_piece(download, event)
            && download.gate.lets_through(download_time(event)->0) {
            1nat
        } else {
            0nat
        },
{
    reveal_with_fuel(reports, 4);
    let step = download.step(event);
    if step.1.len() > 3 {
        lemma_reports_none(step.1);
    }
}

/// Over a run, the state that holds reports back is the one that the
/// pieces' times leave, and the reports are those that it lets through:
/// one report of progress for each of the times.
pub proof fn lemma_reports_follow_the_gate(download: DownloadView, events: Seq<DownloadEventView>)
    ensures
        download.run(events).0.gate == download.gate.after_all(piece_times(download, events)),
        report_times(download, events) == download.gate.passed(piece_times(download, events)),
        reports(download.run(events).1).len() == report_times(download, events).len(),
    decreases events.len(),
{
    reveal_with_fuel(reports, 1);
    if events.len() > 0 {
        let earlier = download.run(events.drop_last());
        let step = earlier.0.step(events.last());
        lemma_reports_follow_the_gate(download, events.drop_last());
        lemma_step_reports_when_let_through(earlier.0, events.last());
        lemma_reports_concat(earlier.1, step.1);
        if takes_piece(earlier.0, events.last()) {
            lemma_offer_one_more(
                download.gate,
                piece_times(download, events.drop_last()),
                download_time(events.last())->0,
            );
        }
    }
}

/// Over a run on a clock that never runs backwards, the times at which
/// pieces are taken in run on, and none is later than the last event's.
proof fn lemma_piece_times_run_on(
    download: DownloadView,
    events: Seq<DownloadEventView>,
    limit: u64,
)
    requires
        download_clock_runs_on(events),
        forall|i: int|
            0 <= i < events.len() && download_time(events[i]) is Some ==> download_time(
                events[i],
            )->0 <= limit,
    ensures
        clock_runs_on(piece_times(download, events)),
        all_at_most(piece_times(download, events), limit),
    decreases events.len(),
{
    if events.len() > 0 {
        let shorter = events.drop_last();
        assert forall|i: int| 0 <= i < shorter.len() implies shorter[i] == events[i] by {}
        assert(download_clock_runs_on(shorter)) by {
            assert forall|i: int, j: int|
                0 <= i <= j < shorter.len() && download_time(shorter[i]) is Some
                    && download_time(shorter[j]) is Some implies download_time(shorter[i])->0
                <= download_time(shorter[j])->0 by {
                assert(shorter[i] == events[i] && shorter[j] == events[j]);
            }
            assert forall|i: int|
                0 <= i < shorter.len() && download_time(shorter[i]) is Some implies download_time(
                shorter[i],
            )->0 + REPORT_PERIOD_MS <= u64::MAX by {
                assert(shorter[i] == events[i]);
            }
        }
        if takes_piece(download.run(shorter).0, events.last()) {
            let now = download_time(events.last())->0;
            assert(events.last() == events[events.len() - 1]);
            assert forall|i: int|
                0 <= i < shorter.len() && download_time(shorter[i]) is Some implies download_time(
                shorter[i],
            )->0 <= now by {
                assert(shorter[i] == events[i]);
            }
            lemma_piece_times_run_on(download, shorter, now);
            lemma_clock_runs_on_push(piece_times(download, shorter), now);
            assert forall|i: int|
                0 <= i < piece_times(download, events).len() implies piece_times(
                download,
                events,
            )[i] <= limit by {
                assert(piece_times(download, events)[i] <= now);
            }
        } else {
            assert forall|i: int|
                0 <= i < shorter.len() && download_time(shorter[i]) is Some implies download_time(
                shorter[i],
            )->0 <= limit by {
                assert(shorter[i] == events[i]);
            }
            lemma_piece_times_run_on(download, shorter, limit);
        }
    }
}

/// In every run of a download on a clock that never runs backwards, any
/// two reports of progress lie a period apart at least: the download tells
/// one report for each of the times at which a report was let through, and
/// any two of those times lie a period apart.
pub proof fn lemma_download_reports_lie_a_period_apart(
    download: DownloadView,
    events: Seq<DownloadEventView>,
)
    requires
        download_clock_runs_on(events),
    ensures
        reports(download.run(events).1).len() == report_times(download, events).len(),
        forall|i: int, j: int|
            0 <= i < j < report_times(download, events).len() ==> report_times(
                download,
                events,
            )[i] + REPORT_PERIOD_MS <= report_times(download, events)[j],
{
    lemma_reports_follow_the_gate(download, events);
    lemma_piece_times_run_on(download, events, u64::MAX);
    lemma_reports_lie_a_period_apart(download.gate, piece_times(download, events));
}

/// The progress that a list of an installation's actions hands on, in order.
pub open spec fn relayed(actions: Seq<InstallActionView>) -> Seq<u64>
    decreases actions.len(),
{
    if actions.len() == 0 {
        Seq::empty()
    } else {
        match actions.last() {
            InstallActionView::Send(
                InstallTaskProgressView::DownloadProgress { finished_length },
            ) => relayed(actions.drop_last()).push(finished_length),
            _ => relayed(actions.drop_last()),
        }
    }
}

/// The progress that two lists of actions hand on, one after the other.
pub proof fn lemma_relayed_concat(a: Seq<InstallActionView>, b: Seq<InstallActionView>)
    ensures
        relayed(a + b) == relayed(a) + relayed(b),
    decreases b.len(),
{
    if b.len() == 0 {
        assert(a + b =~= a);
        assert(relayed(a) + relayed(b) =~= relayed(a));
    } else {
        lemma_relayed_concat(a, b.drop_last());
        assert((a + b).drop_last() =~= a + b.drop_last());
        assert((a + b).last() == b.last());
        assert(relayed(a + b) =~= relayed(a) + relayed(b));
    }
}

/// The time at which the download told the installation something.
pub open spec fn install_time(event: InstallEventView) -> Option<u64> {
    match event {
        InstallEventView::Download { now, .. } => Some(now),
        _ => None,
    }
}

/// Do the times of the events never run backwards, and can the clock tell
/// a period later than each of them?
pub open spec fn install_clock_runs_on(events: Seq<InstallEventView>) -> bool {
    &&& forall|i: int, j: int|
        0 <= i <= j < events.len() && install_time(events[i]) is Some && install_time(
            events[j],
        ) is Some ==> install_time(events[i])->0 <= install_time(events[j])->0
    &&& forall|i: int|
        0 <= i < events.len() && install_time(events[i]) is Some ==> install_time(
            events[i],
        )->0 + REPORT_PERIOD_MS <= u64::MAX
}

/// Is the event a report of progress that a downloading installation
/// takes in?
pub open spec fn takes_report(task: InstallTaskView, event: InstallEventView) -> bool {
    task.phase == InstallPhase::Downloading && event matches InstallEventView::Download {
        message: DownloadMessageView::Progress { .. },
        ..
    }
}

/// The times at which the download reported progress to the
/// installation, over a run.
pub open spec fn offered_times(task: InstallTaskView, events: Seq<InstallEventView>) -> Seq<u64>
    decreases events.len(),
{
    if events.len() == 0 {
        Seq::empty()
    } else if takes_report(task.run(events.drop_last()).0, events.last()) {
        offered_times(task, events.drop_last()).push(install_time(events.last())->0)
    } else {
        offered_times(task, events.drop_last())
    }
}

/// The times at which the installation handed progress on, over a run.
pub open spec fn relay_times(task: InstallTaskView, events: Seq<InstallEventView>) -> Seq<u64>
    decreases events.len(),
{
    if events.len() == 0 {
        Seq::empty()
    } else if takes_report(task.run(events.drop_last()).0, events.last()) && task.run(
        events.drop_last(),
    ).0.gate.lets_through(install_time(events.last())->0) {
        relay_times(task, events.drop_last()).push(install_time(events.last())->0)
    } else {
        relay_times(task, events.drop_last())
    }
}

/// One step of an installation hands progress on exactly when the
/// download reports it at a time at which the report is let through; only
/// then does the state that holds reports back change.
pub proof fn lemma_step_relays_when_let_through(task: InstallTaskView, event: InstallEventView)
    ensures
        takes_report(task, event) ==> task.step(event).0.gate == task.gate.after(
            install_time(event)->0,
        ),
        !takes_report(task, event) ==> task.step(event).0.gate == task.gate,
        relayed(task.step(event).1).len() == if takes_report(task, event)
            && task.gate.lets_through(install_time(event)->0) {
            1nat
        } else {
            0nat
        },
{
    reveal_with_fuel(relayed, 3);
    assert(task.step(event).1.len() <= 2);
}

/// Over a run, the state that holds reports back is the one that the
/// reports' times leave, and what is handed on is what it lets through.
pub proof fn lemma_relays_follow_the_gate(task: InstallTaskView, events: Seq<InstallEventView>)
    ensures
        task.run(events).0.gate == task.gate.after_all(offered_times(task, events)),
        relay_times(task, events) == task.gate.passed(offered_times(task, events)),
        relayed(task.run(events).1).len() == relay_times(task, events).len(),
    decreases events.len(),
{
    reveal_with_fuel(relayed, 1);
    if events.len() > 0 {
        let earlier = task.run(events.drop_last());
        let step = earlier.0.step(events.last());
        lemma_relays_follow_the_gate(task, events.drop_last());
        lemma_step_relays_when_let_through(earlier.0, events.last());
        lemma_relayed_concat(earlier.1, step.1);
        if takes_report(earlier.0, events.last()) {
            lemma_offer_one_more(
                task.gate,
                offered_times(task, events.drop_last()),
                install_time(events.last())->0,
            );
        }
    }
}

/// Over a run on a clock that never runs backwards, the times at which
/// the download reports progress run on, and none is later than the last
/// event's.
proof fn lemma_offered_times_run_on(
    task: InstallTaskView,
    events: Seq<InstallEventView>,
    limit: u64,
)
    requires
        install_clock_runs_on(events),
        forall|i: int|
            0 <= i < events.len() && install_time(events[i]) is Some ==> install_time(
                events[i],
            )->0 <= limit,
    ensures
        clock_runs_on(offered_times(task, events)),
        all_at_most(offered_times(task, events), limit),
    decreases events.len(),
{
    if events.len() > 0 {
        let shorter = events.drop_last();
        assert forall|i: int| 0 <= i < shorter.len() implies shorter[i] == events[i] by {}
        assert(install_clock_runs_on(shorter)) by {
            assert forall|i: int, j: int|
                0 <= i <= j < shorter.len() && install_time(shorter[i]) is Some && install_time(
                    shorter[j],
                ) is Some implies install_time(shorter[i])->0 <= install_time(shorter[j])->0 by {
                assert(shorter[i] == events[i] && shorter[j] == events[j]);
            }
            assert forall|i: int|
                0 <= i < shorter.len() && install_time(shorter[i]) is Some implies install_time(
                shorter[i],
            )->0 + REPORT_PERIOD_MS <= u64::MAX by {
                assert(shorter[i] == events[i]);
            }
        }
        if takes_report(task.run(shorter).0, events.last()) {
            let now = install_time(events.last())->0;
            assert(events.last() == events[events.len() - 1]);
            assert forall|i: int|
                0 <= i < shorter.len() && install_time(shorter[i]) is Some implies install_time(
                shorter[i],
            )->0 <= now by {
                assert(shorter[i] == events[i]);
            }
            lemma_offered_times_run_on(task, shorter, now);
            lemma_clock_runs_on_push(offered_times(task, shorter), now);
            assert forall|i: int|
                0 <= i < offered_times(task, events).len() implies offered_times(task, events)[i]
                <= limit by {
                assert(offered_times(task, events)[i] <= now);
            }
        } else {
            assert forall|i: int|
                0 <= i < shorter.len() && install_time(shorter[i]) is Some implies install_time(
                shorter[i],
            )->0 <= limit by {
                assert(shorter[i] == events[i]);
            }
            lemma_offered_times_run_on(task, shorter, limit);
        }
    }
}

/// In every run of an installation on a clock that never runs backwards,
/// any two reports of progress that it hands on lie a period apart at
/// least, however often the download reports: the installation hands on
/// one report for each of the times at which a report was let through, and
/// any two of those times lie a period apart.
pub proof fn lemma_install_reports_lie_a_period_apart(
    task: InstallTaskView,
    events: Seq<InstallEventView>,
)
    requires
        install_clock_runs_on(events),
    ensures
        relayed(task.run(events).1).len() == relay_times(task, events).len(),
        forall|i: int, j: int|
            0 <= i < j < relay_times(task, events).len() ==> relay_times(task, events)[i]
                + REPORT_PERIOD_MS <= relay_times(task, events)[j],
{
    lemma_relays_follow_the_gate(task, events);
    lemma_offered_times_run_on(task, events, u64::MAX);
    lemma_reports_lie_a_period_apart(task.gate, offered_times(task, events));
}

} // verus!
