//! What holds of every run of a download: which files are asked for, how
//! the reported progress moves, and how a cancelled download ends.

use crate::file_download::{
    begin_download, DownloadActionView, DownloadEventView, DownloadMessageView, DownloadOutcome,
    DownloadPhase, DownloadView, FileDownloadMessageView, FileStreamView, StreamActionView,
    StreamEventView, StreamPhase,
};
use crate::path::PathView;
use crate::progress::{add_capped, capped, lemma_add_capped_is_capped_sum};
use vstd::prelude::*;

verus! {

/// The files that a list of actions reports as done, in order.
pub open spec fn files_done(actions: Seq<DownloadActionView>) -> Seq<PathView>
    decreases actions.len(),
{
    if actions.len() == 0 {
        Seq::empty()
    } else {
        match actions.last() {
            DownloadActionView::Send(DownloadMessageView::FileDone { path }) => files_done(
                actions.drop_last(),
            ).push(path),
            _ => files_done(actions.drop_last()),
        }
    }
}

/// The addresses that a list of actions asks a server for, in order.
pub open spec fn requests(actions: Seq<DownloadActionView>) -> Seq<Seq<char>>
    decreases actions.len(),
{
    if actions.len() == 0 {
        Seq::empty()
    } else {
        match actions.last() {
            DownloadActionView::Request { url } => requests(actions.drop_last()).push(url),
            _ => requests(actions.drop_last()),
        }
    }
}

/// The progress that a list of actions reports, in order.
pub open spec fn reports(actions: Seq<DownloadActionView>) -> Seq<u64>
    decreases actions.len(),
{
    if actions.len() == 0 {
        Seq::empty()
    } else {
        match actions.last() {
            DownloadActionView::Send(
                DownloadMessageView::Progress { progress_length },
            ) => reports(actions.drop_last()).push(progress_length),
            _ => reports(actions.drop_last()),
        }
    }
}

/// The messages among a list of actions, in order.
pub open spec fn told(actions: Seq<DownloadActionView>) -> Seq<DownloadMessageView>
    decreases actions.len(),
{
    if actions.len() == 0 {
        Seq::empty()
    } else {
        match actions.last() {
            DownloadActionView::Send(message) => told(actions.drop_last()).push(message),
            _ => told(actions.drop_last()),
        }
    }
}

/// The files that two lists of actions report as done, one after the other.
pub proof fn lemma_files_done_concat(a: Seq<DownloadActionView>, b: Seq<DownloadActionView>)
    ensures
        files_done(a + b) == files_done(a) + files_done(b),
    decreases b.len(),
{
    if b.len() == 0 {
        assert(a + b =~= a);
        assert(files_done(a) + files_done(b) =~= files_done(a));
    } else {
        lemma_files_done_concat(a, b.drop_last());
        assert((a + b).drop_last() =~= a + b.drop_last());
        assert((a + b).last() == b.last());
        assert(files_done(a + b) =~= files_done(a) + files_done(b));
    }
}

/// The addresses that two lists of actions ask for, one after the other.
pub proof fn lemma_requests_concat(a: Seq<DownloadActionView>, b: Seq<DownloadActionView>)
    ensures
        requests(a + b) == requests(a) + requests(b),
    decreases b.len(),
{
    if b.len() == 0 {
        assert(a + b =~= a);
        assert(requests(a) + requests(b) =~= requests(a));
    } else {
        lemma_requests_concat(a, b.drop_last());
        assert((a + b).drop_last() =~= a + b.drop_last());
        assert((a + b).last() == b.last());
        assert(requests(a + b) =~= requests(a) + requests(b));
    }
}

/// The progress that two lists of actions report, one after the other.
pub proof fn lemma_reports_concat(a: Seq<DownloadActionView>, b: Seq<DownloadActionView>)
    ensures
        reports(a + b) == reports(a) + reports(b),
    decreases b.len(),
{
    if b.len() == 0 {
        assert(a + b =~= a);
        assert(reports(a) + reports(b) =~= reports(a));
    } else {
        lemma_reports_concat(a, b.drop_last());
        assert((a + b).drop_last() =~= a + b.drop_last());
        assert((a + b).last() == b.last());
        assert(reports(a + b) =~= reports(a) + reports(b));
    }
}

/// A list of actions without a request asks for nothing.
pub proof fn lemma_no_requests(actions: Seq<DownloadActionView>)
    requires
        forall|i: int| 0 <= i < actions.len() ==> !(#[trigger] actions[i] is Request),
    ensures
        requests(actions) == Seq::<Seq<char>>::empty(),
    decreases actions.len(),
{
    if actions.len() > 0 {
        assert(!(actions[actions.len() - 1] is Request));
        assert forall|i: int| 0 <= i < actions.drop_last().len() implies !(
        #[trigger] actions.drop_last()[i] is Request) by {
            assert(actions.drop_last()[i] == actions[i]);
        }
        lemma_no_requests(actions.drop_last());
    }
}

/// The addresses whose files were not found: `found[i]` tells whether the
/// file of `urls[i]` is on disk.
pub open spec fn not_on_disk(urls: Seq<Seq<char>>, found: Seq<bool>) -> Seq<Seq<char>>
    decreases urls.len(),
{
    if urls.len() == 0 || found.len() != urls.len() {
        Seq::empty()
    } else if found.last() {
        not_on_disk(urls.drop_last(), found.drop_last())
    } else {
        not_on_disk(urls.drop_last(), found.drop_last()).push(urls.last())
    }
}

/// The number of files that were found on disk.
pub open spec fn count_found(found: Seq<bool>) -> nat
    decreases found.len(),
{
    if found.len() == 0 {
        0
    } else if found.last() {
        count_found(found.drop_last()) + 1
    } else {
        count_found(found.drop_last())
    }
}

/// Every file was either found or not.
pub proof fn lemma_found_and_missing(urls: Seq<Seq<char>>, found: Seq<bool>)
    requires
        found.len() == urls.len(),
    ensures
        not_on_disk(urls, found).len() + count_found(found) == urls.len(),
    decreases urls.len(),
{
    if urls.len() > 0 {
        lemma_found_and_missing(urls.drop_last(), found.drop_last());
    }
}

/// What happens while the files are looked for: the directory is created,
/// then each question is answered as `found` tells.
pub open spec fn probing_events(found: Seq<bool>) -> Seq<DownloadEventView> {
    Seq::new(
        found.len() + 1,
        |i: int|
            if i == 0 {
                DownloadEventView::DirectoryCreated
            } else {
                DownloadEventView::Exists(found[i - 1])
            },
    )
}

/// What a server answers to a request: the length it announces and the
/// value of its `Content-Disposition` header.
pub struct Answer {
    pub content_length: Option<u64>,
    pub content_disposition: Option<Seq<char>>,
}

/// The events in which the servers' answers arrive.
pub open spec fn response_events(answers: Seq<Answer>) -> Seq<DownloadEventView> {
    Seq::new(
        answers.len(),
        |i: int|
            DownloadEventView::Response {
                content_length: answers[i].content_length,
                content_disposition: answers[i].content_disposition,
            },
    )
}

/// The state of a download while the files are looked for, after `n` answers.
spec fn probing_holds(
    urls: Seq<Seq<char>>,
    output_dir: PathView,
    found: Seq<bool>,
    n: int,
    out: (DownloadView, Seq<DownloadActionView>),
) -> bool {
    let d = out.0;
    &&& d.urls == urls
    &&& d.output_dir == output_dir
    &&& d.targets == Seq::<crate::file_download::DownloadTargetView>::empty()
    &&& d.pending == not_on_disk(urls.take(n), found.take(n))
    &&& files_done(out.1).len() == count_found(found.take(n))
    &&& n < urls.len() ==> d.phase == DownloadPhase::Probing && d.next == n && requests(out.1)
        == Seq::<Seq<char>>::empty()
    &&& n == urls.len() ==> {
        &&& d.next == 0
        &&& d.pending.len() > 0 ==> d.phase == DownloadPhase::Requesting && requests(out.1)
            == seq![d.pending[0]] && out.1.last() is Request
        &&& d.pending.len() == 0 ==> d.phase == DownloadPhase::Finished(
            DownloadOutcome::Completed,
        ) && requests(out.1) == Seq::<Seq<char>>::empty()
    }
}

proof fn lemma_probing(urls: Seq<Seq<char>>, output_dir: PathView, found: Seq<bool>, n: int)
    requires
        found.len() == urls.len(),
        urls.len() <= usize::MAX,
        0 <= n <= urls.len(),
    ensures
        probing_holds(
            urls,
            output_dir,
            found,
            n,
            begin_download(urls, output_dir).0.run(probing_events(found).take(n + 1)),
        ),
    decreases n,
{
    let start = begin_download(urls, output_dir).0;
    let events = probing_events(found).take(n + 1);
    let earlier = start.run(events.drop_last());
    let step = earlier.0.step(events.last());
    assert(start.run(events) == (step.0, earlier.1 + step.1));
    lemma_files_done_concat(earlier.1, step.1);
    lemma_requests_concat(earlier.1, step.1);
    reveal_with_fuel(files_done, 4);
    reveal_with_fuel(requests, 4);
    if n == 0 {
        assert(events.drop_last() =~= Seq::<DownloadEventView>::empty());
        assert(earlier == (start, Seq::<DownloadActionView>::empty()));
        assert(urls.take(0) =~= Seq::<Seq<char>>::empty());
        assert(found.take(0) =~= Seq::<bool>::empty());
        assert(events.last() == DownloadEventView::DirectoryCreated);
        if urls.len() == 0 {
            assert(step.1.len() == 3);
        } else {
            assert(step.1.len() == 2);
        }
    } else {
        assert(events.drop_last() =~= probing_events(found).take(n));
        lemma_probing(urls, output_dir, found, n - 1);
        assert(events.last() == DownloadEventView::Exists(found[n - 1]));
        assert(urls.take(n).drop_last() =~= urls.take(n - 1));
        assert(found.take(n).drop_last() =~= found.take(n - 1));
        assert(urls.take(n).last() == urls[n - 1]);
        assert(found.take(n).last() == found[n - 1]);
        let d = earlier.0;
        assert(d.phase == DownloadPhase::Probing && d.next == n - 1);
        if n == urls.len() {
            assert(urls.take(n) =~= urls);
            assert(found.take(n) =~= found);
        }
        assert(step == d.on_exists(found[n - 1]));
        let moved = if found[n - 1] {
            DownloadView { next: n as usize, ..d }
        } else {
            DownloadView { next: n as usize, pending: d.pending.push(urls[n - 1]), ..d }
        };
        let rest = moved.probe_next();
        assert(step.0 == rest.0);
        if found[n - 1] {
            let done = DownloadActionView::Send(
                DownloadMessageView::FileDone { path: d.probe_path(n - 1) },
            );
            assert(step.1 =~= seq![done] + rest.1);
            lemma_files_done_concat(seq![done], rest.1);
            lemma_requests_concat(seq![done], rest.1);
            assert(files_done(seq![done]).len() == 1);
            assert(requests(seq![done]).len() == 0);
            assert(requests(seq![done]) + requests(rest.1) =~= requests(rest.1));
        } else {
            assert(step.1 == rest.1);
        }
        if n < urls.len() {
            assert(rest.1.len() == 1);
            assert(rest.1[0] is ProbeFile);
        } else {
            let asking = DownloadView { next: 0, ..moved };
            assert(rest == asking.request_next());
            if moved.pending.len() > 0 {
                assert(rest.1 =~= seq![DownloadActionView::Request { url: moved.pending[0] }]);
                assert(requests(rest.1) =~= seq![moved.pending[0]]);
                assert(step.1.last() == rest.1[0]);
            } else {
                assert(rest == asking.begin_streams());
                assert(rest.1.len() == 2);
            }
        }
        assert(requests(earlier.1) + requests(step.1) =~= requests(step.1));
    }
}

/// The state of a download while the missing files are asked for, after `k`
/// answers; `asked` is what was asked for before the first of them.
spec fn requesting_holds(
    before: DownloadView,
    k: int,
    out: (DownloadView, Seq<DownloadActionView>),
) -> bool {
    let d = out.0;
    &&& d.pending == before.pending
    &&& d.targets.len() == k
    &&& requests(out.1) == before.pending.subrange(1, if k < before.pending.len() {
        k + 1
    } else {
        k
    })
    &&& k < before.pending.len() ==> d.phase == DownloadPhase::Requesting && d.next == k
    &&& k == before.pending.len() ==> d.phase == DownloadPhase::Streaming && d.remaining == k
    &&& forall|i: int| 0 <= i < k ==> (#[trigger] d.targets[i]).url == before.pending[i]
}

proof fn lemma_requesting(before: DownloadView, answers: Seq<Answer>, k: int)
    requires
        before.phase == DownloadPhase::Requesting,
        before.next == 0,
        before.targets.len() == 0,
        0 < before.pending.len() <= usize::MAX,
        0 <= k <= before.pending.len(),
        k <= answers.len(),
    ensures
        requesting_holds(before, k, before.run(response_events(answers).take(k))),
    decreases k,
{
    let events = response_events(answers).take(k);
    reveal_with_fuel(requests, 3);
    if k == 0 {
        assert(events =~= Seq::<DownloadEventView>::empty());
        assert(before.pending.subrange(1, 1) =~= Seq::<Seq<char>>::empty());
    } else {
        let earlier = before.run(events.drop_last());
        let step = earlier.0.step(events.last());
        assert(before.run(events) == (step.0, earlier.1 + step.1));
        assert(events.drop_last() =~= response_events(answers).take(k - 1));
        lemma_requesting(before, answers, k - 1);
        lemma_requests_concat(earlier.1, step.1);
        let d = earlier.0;
        assert(d.phase == DownloadPhase::Requesting && d.next == k - 1);
        assert(events.last() is Response);
        let url = before.pending[k - 1];
        assert(step == d.on_response(
            events.last()->content_length,
            events.last()->content_disposition,
        ));
        let moved = DownloadView {
            next: k as usize,
            targets: d.targets.push(
                crate::file_download::DownloadTargetView {
                    url,
                    path: d.output_dir.join(
                        crate::file_download::download_filename(
                            events.last()->content_disposition,
                            url,
                        ),
                    ),
                },
            ),
            content_length: add_capped(
                d.content_length,
                match events.last()->content_length {
                    Some(n) => n,
                    None => 0,
                },
            ),
            ..d
        };
        assert(step == moved.request_next());
        assert(moved.targets.len() == k);
        if k < before.pending.len() {
            assert(step.1 =~= seq![DownloadActionView::Request { url: before.pending[k] }]);
            assert(requests(step.1) =~= seq![before.pending[k]]);
            assert(before.pending.subrange(1, k) + seq![before.pending[k]]
                =~= before.pending.subrange(1, k + 1));
        } else {
            assert(step == moved.begin_streams());
            assert forall|i: int| 0 <= i < step.1.len() implies !(#[trigger] step.1[i]
                is Request) by {
                if i > 0 {
                    assert(step.1[i] == moved.stream_actions()[i - 1]);
                }
            }
            lemma_no_requests(step.1);
            assert(before.pending.subrange(1, k) + Seq::<Seq<char>>::empty()
                =~= before.pending.subrange(1, k));
        }
    }
}

/// Of `urls.len()` files of which some are on disk already, as `found`
/// tells, a download reports those on disk as done, one message for each,
/// before it asks any server for anything; and what it asks the servers for,
/// through all the answers, are the other files, each once, in their order.
/// The list of addresses is one that fits in memory.
pub proof fn lemma_only_missing_files_are_requested(
    urls: Seq<Seq<char>>,
    output_dir: PathView,
    found: Seq<bool>,
    answers: Seq<Answer>,
)
    requires
        found.len() == urls.len(),
        urls.len() <= usize::MAX,
        answers.len() == not_on_disk(urls, found).len(),
    ensures
        ({
            let looked = begin_download(urls, output_dir).0.run(probing_events(found));
            let asked = looked.0.run(response_events(answers));
            &&& files_done(looked.1).len() == count_found(found)
            &&& forall|i: int|
                0 <= i < looked.1.len() && (#[trigger] looked.1[i]) is Request ==> i
                    == looked.1.len() - 1
            &&& requests(looked.1 + asked.1) == not_on_disk(urls, found)
            &&& not_on_disk(urls, found).len() == urls.len() - count_found(found)
            &&& files_done(asked.1).len() == 0
        }),
{
    let n = urls.len() as int;
    let looked = begin_download(urls, output_dir).0.run(probing_events(found));
    let asked = looked.0.run(response_events(answers));
    lemma_probing(urls, output_dir, found, n);
    assert(probing_events(found).take(n + 1) =~= probing_events(found));
    assert(urls.take(n) =~= urls);
    assert(found.take(n) =~= found);
    lemma_found_and_missing(urls, found);
    lemma_requests_concat(looked.1, asked.1);
    lemma_request_is_last(looked.1);
    let missing = not_on_disk(urls, found);
    if missing.len() > 0 {
        lemma_requesting(looked.0, answers, missing.len() as int);
        assert(response_events(answers).take(missing.len() as int) =~= response_events(answers));
        assert(seq![missing[0]] + missing.subrange(1, missing.len() as int) =~= missing);
        lemma_asking_reports_no_file(looked.0, answers, missing.len() as int);
    } else {
        assert(response_events(answers) =~= Seq::<DownloadEventView>::empty());
        assert(requests(looked.1) + requests(asked.1) =~= Seq::<Seq<char>>::empty());
    }
}

/// Where a list of actions asks for at most one file, and does so last, no
/// request stands before its end.
proof fn lemma_request_is_last(actions: Seq<DownloadActionView>)
    requires
        requests(actions).len() == 0 || (requests(actions).len() == 1 && actions.last() is Request),
    ensures
        forall|i: int|
            0 <= i < actions.len() && (#[trigger] actions[i]) is Request ==> i == actions.len() - 1,
{
    assert forall|i: int| 0 <= i < actions.len() && (#[trigger] actions[i]) is Request implies i
        == actions.len() - 1 by {
        if i < actions.len() - 1 {
            lemma_request_counts(actions.drop_last(), i);
            if actions.last() is Request {
                assert(requests(actions).len() == requests(actions.drop_last()).len() + 1);
            }
        }
    }
}

/// A list of actions with a request asks for at least one file.
proof fn lemma_request_counts(actions: Seq<DownloadActionView>, i: int)
    requires
        0 <= i < actions.len(),
        actions[i] is Request,
    ensures
        requests(actions).len() > 0,
    decreases actions.len(),
{
    if i < actions.len() - 1 {
        lemma_request_counts(actions.drop_last(), i);
    }
}

/// While the missing files are asked for, no file is reported as done.
proof fn lemma_asking_reports_no_file(before: DownloadView, answers: Seq<Answer>, k: int)
    requires
        before.phase == DownloadPhase::Requesting,
        before.next == 0,
        before.targets.len() == 0,
        0 < before.pending.len() <= usize::MAX,
        0 <= k <= before.pending.len(),
        k <= answers.len(),
    ensures
        files_done(before.run(response_events(answers).take(k)).1).len() == 0,
    decreases k,
{
    let events = response_events(answers).take(k);
    reveal_with_fuel(files_done, 3);
    if k == 0 {
        assert(events =~= Seq::<DownloadEventView>::empty());
    } else {
        let earlier = before.run(events.drop_last());
        let step = earlier.0.step(events.last());
        assert(events.drop_last() =~= response_events(answers).take(k - 1));
        lemma_requesting(before, answers, k - 1);
        lemma_asking_reports_no_file(before, answers, k - 1);
        lemma_files_done_concat(earlier.1, step.1);
        assert(events.last() is Response);
        if k < before.pending.len() {
            assert(step.1.len() == 1);
        } else {
            lemma_no_files_done(step.1);
        }
    }
}

/// A list of actions that reports no file as done reports none.
proof fn lemma_no_files_done(actions: Seq<DownloadActionView>)
    requires
        forall|i: int|
            0 <= i < actions.len() ==> !(#[trigger] actions[i] matches DownloadActionView::Send(
                DownloadMessageView::FileDone { .. },
            )),
    ensures
        files_done(actions).len() == 0,
    decreases actions.len(),
{
    if actions.len() > 0 {
        assert(!(actions[actions.len() - 1] matches DownloadActionView::Send(
            DownloadMessageView::FileDone { .. },
        )));
        assert forall|i: int| 0 <= i < actions.drop_last().len() implies !(
        #[trigger] actions.drop_last()[i] matches DownloadActionView::Send(
            DownloadMessageView::FileDone { .. },
        )) by {
            assert(actions.drop_last()[i] == actions[i]);
        }
        lemma_no_files_done(actions.drop_last());
    }
}

/// Does no count of `counts` fall below one before it?
pub open spec fn never_falls(counts: Seq<u64>) -> bool {
    forall|i: int, j: int| 0 <= i <= j < counts.len() ==> counts[i] <= counts[j]
}

/// Whatever happens outside, the progress that a download reports never
/// falls, no report exceeds the count that the download has reached, and
/// that count never falls either.
pub proof fn lemma_progress_never_falls(download: DownloadView, events: Seq<DownloadEventView>)
    ensures
        never_falls(reports(download.run(events).1)),
        forall|i: int|
            0 <= i < reports(download.run(events).1).len() ==> download.progress_length
                <= #[trigger] reports(download.run(events).1)[i] <= download.run(
                events,
            ).0.progress_length,
        download.progress_length <= download.run(events).0.progress_length,
    decreases events.len(),
{
    if events.len() > 0 {
        let earlier = download.run(events.drop_last());
        let step = earlier.0.step(events.last());
        lemma_progress_never_falls(download, events.drop_last());
        lemma_reports_concat(earlier.1, step.1);
        lemma_step_reports(earlier.0, events.last());
        let all = reports(earlier.1) + reports(step.1);
        assert forall|i: int, j: int| 0 <= i <= j < all.len() implies all[i] <= all[j] by {
            if j >= reports(earlier.1).len() {
                assert(all[j] == reports(step.1)[j - reports(earlier.1).len()]);
            }
            if i < reports(earlier.1).len() {
                assert(all[i] == reports(earlier.1)[i]);
            }
        }
    }
}

/// One step reports at most one count: the count that the download has
/// reached by it, which is no less than the count before.
pub proof fn lemma_step_reports(download: DownloadView, event: DownloadEventView)
    ensures
        download.progress_length <= download.step(event).0.progress_length,
        reports(download.step(event).1).len() <= 1,
        forall|i: int|
            0 <= i < reports(download.step(event).1).len() ==> #[trigger] reports(
                download.step(event).1,
            )[i] == download.step(event).0.progress_length,
{
    reveal_with_fuel(reports, 4);
    let step = download.step(event);
    if step.1.len() > 3 {
        lemma_begins_report_nothing(download, event);
    }
}

/// A step with more than three actions is one that begins the streams; it
/// reports no progress.
proof fn lemma_begins_report_nothing(download: DownloadView, event: DownloadEventView)
    requires
        download.step(event).1.len() > 3,
    ensures
        reports(download.step(event).1).len() == 0,
        download.step(event).0.progress_length == download.progress_length,
{
    let actions = download.step(event).1;
    lemma_no_reports(actions);
}

/// A list of actions that reports no progress reports none.
proof fn lemma_no_reports(actions: Seq<DownloadActionView>)
    requires
        forall|i: int|
            0 <= i < actions.len() ==> !(#[trigger] actions[i] matches DownloadActionView::Send(
                DownloadMessageView::Progress { .. },
            )),
    ensures
        reports(actions).len() == 0,
    decreases actions.len(),
{
    if actions.len() > 0 {
        assert(!(actions[actions.len() - 1] matches DownloadActionView::Send(
            DownloadMessageView::Progress { .. },
        )));
        assert forall|i: int| 0 <= i < actions.drop_last().len() implies !(
        #[trigger] actions.drop_last()[i] matches DownloadActionView::Send(
            DownloadMessageView::Progress { .. },
        )) by {
            assert(actions.drop_last()[i] == actions[i]);
        }
        lemma_no_reports(actions.drop_last());
    }
}

/// The sum of the lengths of the pieces that a sequence of events tells of.
pub open spec fn chunk_total(events: Seq<DownloadEventView>) -> int
    decreases events.len(),
{
    if events.len() == 0 {
        0
    } else {
        chunk_total(events.drop_last()) + match events.last() {
            DownloadEventView::File {
                message: FileDownloadMessageView::Chunk { chunk_length },
                ..
            } => chunk_length as int,
            _ => 0,
        }
    }
}

/// Were the streams running when each of `events` arrived?
pub open spec fn streaming_through(download: DownloadView, events: Seq<DownloadEventView>) -> bool {
    forall|k: int|
        0 <= k < events.len() ==> (#[trigger] download.run(events.take(k))).0.phase
            == DownloadPhase::Streaming
}

/// The count that a download has reached is the sum of the lengths of all
/// pieces received while its streams ran, held at the greatest count that
/// can be told. So it is when the last of the events completes the download.
pub proof fn lemma_progress_is_chunk_total(download: DownloadView, events: Seq<DownloadEventView>)
    requires
        streaming_through(download, events),
    ensures
        download.run(events).0.progress_length == capped(
            download.progress_length + chunk_total(events),
        ),
    decreases events.len(),
{
    if events.len() > 0 {
        let shorter = events.drop_last();
        assert forall|k: int| 0 <= k < shorter.len() implies (#[trigger] download.run(
            shorter.take(k),
        )).0.phase == DownloadPhase::Streaming by {
            assert(shorter.take(k) =~= events.take(k));
        }
        lemma_progress_is_chunk_total(download, shorter);
        assert(events.take(events.len() - 1) =~= shorter);
        assert(download.run(events.take(events.len() - 1)).0.phase == DownloadPhase::Streaming);
        lemma_chunk_total_is_not_negative(shorter);
        match events.last() {
            DownloadEventView::File {
                message: FileDownloadMessageView::Chunk { chunk_length },
                ..
            } => {
                lemma_add_capped_is_capped_sum(
                    download.progress_length + chunk_total(shorter),
                    chunk_length,
                );
            },
            _ => {},
        }
    }
}

/// Where the report of the last piece is let through, it is the last
/// report, and it tells the sum of the lengths of all pieces received, held
/// at the greatest count that can be told.
pub proof fn lemma_last_report_is_chunk_total(
    download: DownloadView,
    events: Seq<DownloadEventView>,
    chunk_length: u64,
    now: u64,
)
    requires
        download.phase == DownloadPhase::Streaming,
        streaming_through(download, events),
        download.run(events).0.phase == DownloadPhase::Streaming,
        download.run(events).0.gate.lets_through(now),
    ensures
        ({
            let last = DownloadEventView::File {
                message: FileDownloadMessageView::Chunk { chunk_length },
                now,
            };
            let told = reports(download.run(events.push(last)).1);
            &&& told.len() > 0
            &&& told.last() == capped(
                download.progress_length + chunk_total(events.push(last)),
            )
        }),
{
    reveal_with_fuel(reports, 2);
    let last = DownloadEventView::File {
        message: FileDownloadMessageView::Chunk { chunk_length },
        now,
    };
    let all = events.push(last);
    assert(all.drop_last() =~= events);
    let earlier = download.run(events);
    let step = earlier.0.step(last);
    assert(download.run(all) == (step.0, earlier.1 + step.1));
    lemma_progress_is_chunk_total(download, events);
    lemma_chunk_total_is_not_negative(events);
    lemma_add_capped_is_capped_sum(download.progress_length + chunk_total(events), chunk_length);
    lemma_reports_concat(earlier.1, step.1);
    assert(reports(step.1) =~= seq![add_capped(earlier.0.progress_length, chunk_length)]);
    assert((reports(earlier.1) + reports(step.1)).last() == reports(step.1)[0]);
}

/// A sum of lengths is not negative.
pub proof fn lemma_chunk_total_is_not_negative(events: Seq<DownloadEventView>)
    ensures
        chunk_total(events) >= 0,
    decreases events.len(),
{
    if events.len() > 0 {
        lemma_chunk_total_is_not_negative(events.drop_last());
    }
}

/// Once a download is over, nothing changes it and it asks for nothing.
pub proof fn lemma_finished_is_final(download: DownloadView, events: Seq<DownloadEventView>)
    requires
        download.phase is Finished,
    ensures
        download.run(events) == (download, Seq::<DownloadActionView>::empty()),
    decreases events.len(),
{
    if events.len() > 0 {
        lemma_finished_is_final(download, events.drop_last());
        assert(Seq::<DownloadActionView>::empty() + Seq::<DownloadActionView>::empty()
            =~= Seq::<DownloadActionView>::empty());
    }
}

/// A download that is cancelled before it is over ends as cancelled: it
/// tells nothing then or later, so neither `Done` nor `Error`, and asks for
/// nothing but, where streams run, their shutdown.
pub proof fn lemma_cancelled_download_ends_quietly(
    download: DownloadView,
    later: Seq<DownloadEventView>,
)
    requires
        !(download.phase is Finished),
    ensures
        ({
            let cancelled = download.step(DownloadEventView::Cancelled);
            let after = cancelled.0.run(later);
            &&& cancelled.0.phase == DownloadPhase::Finished(DownloadOutcome::Cancelled)
            &&& after.0.phase == DownloadPhase::Finished(DownloadOutcome::Cancelled)
            &&& told(cancelled.1 + after.1) == Seq::<DownloadMessageView>::empty()
            &&& cancelled.1 + after.1 == if download.phase == DownloadPhase::Streaming {
                seq![DownloadActionView::Shutdown]
            } else {
                Seq::<DownloadActionView>::empty()
            }
        }),
{
    reveal_with_fuel(told, 2);
    let cancelled = download.step(DownloadEventView::Cancelled);
    lemma_finished_is_final(cancelled.0, later);
    assert(cancelled.1 + Seq::<DownloadActionView>::empty() =~= cancelled.1);
    if download.phase == DownloadPhase::Streaming {
        assert(cancelled.1 =~= seq![DownloadActionView::Shutdown]);
    }
}

/// A stream that is cancelled before it has ended removes its file, reports
/// nothing, and takes no notice of anything after.
pub proof fn lemma_cancelled_stream_removes_its_file(stream: FileStreamView, later: StreamEventView)
    requires
        stream.phase != StreamPhase::Closed,
    ensures
        stream.step(StreamEventView::Cancelled).1 == seq![
            StreamActionView::RemoveFile { path: stream.path },
        ],
        stream.step(StreamEventView::Cancelled).0.phase == StreamPhase::Closed,
        stream.step(StreamEventView::Cancelled).0.step(later) == (
            stream.step(StreamEventView::Cancelled).0,
            Seq::<StreamActionView>::empty(),
        ),
{
}

/// A download whose stream reports a failure has the file of that stream
/// removed, tells the failure, shuts the other streams down and ends as failed.
pub proof fn lemma_failed_file_is_removed(
    download: DownloadView,
    path: PathView,
    message: Seq<char>,
    now: u64,
)
    requires
        download.phase == DownloadPhase::Streaming,
    ensures
        ({
            let failed = download.step(
                DownloadEventView::File {
                    message: FileDownloadMessageView::Error { path, message },
                    now,
                },
            );
            &&& failed.0.phase == DownloadPhase::Finished(DownloadOutcome::Failed)
            &&& failed.1 =~= seq![
                DownloadActionView::RemoveFile { path },
                DownloadActionView::Send(DownloadMessageView::Error { message }),
                DownloadActionView::Shutdown,
            ]
        }),
{
}

} // verus!
