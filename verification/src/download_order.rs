//! The order in which a download tells what it does.
//!
//! Whatever happens outside, the messages of a download come as
//! `GatheringData`, then `FileDone` for each file found on disk, then
//! `Started`, then `Progress` and `FileDone` as the files arrive, then `Done`;
//! `Error` may end the messages once `GatheringData` was told, and nothing
//! follows `Done` or `Error`.

use crate::download_run::told;
use crate::file_download::{
    begin_download, DownloadActionView, DownloadEventView, DownloadMessageView, DownloadOutcome,
    DownloadPhase, DownloadView, FileDownloadMessageView,
};
use crate::path::PathView;
use vstd::prelude::*;

verus! {

/// How far the messages of a download have come.
pub enum Told {
    /// Nothing was told yet.
    Silent,
    /// The files are looked for and asked for.
    Gathering,
    /// The streams run.
    Streaming,
    /// The last word was told.
    Over,
}

/// Where the messages stand after `message` was told at `stage`; `None` if
/// the message may not be told there.
pub open spec fn after_message(stage: Told, message: DownloadMessageView) -> Option<Told> {
    match message {
        DownloadMessageView::GatheringData => if stage == Told::Silent {
            Some(Told::Gathering)
        } else {
            None
        },
        DownloadMessageView::FileDone { .. } => if stage == Told::Gathering || stage == Told::Streaming {
            Some(stage)
        } else {
            None
        },
        DownloadMessageView::Started { .. } => if stage == Told::Gathering {
            Some(Told::Streaming)
        } else {
            None
        },
        DownloadMessageView::Progress { .. } => if stage == Told::Streaming {
            Some(Told::Streaming)
        } else {
            None
        },
        DownloadMessageView::Done => if stage == Told::Streaming {
            Some(Told::Over)
        } else {
            None
        },
        DownloadMessageView::Error { .. } => if stage == Told::Gathering || stage == Told::Streaming {
            Some(Told::Over)
        } else {
            None
        },
    }
}

/// Where the messages stand after all of `messages` were told in turn from
/// `stage`; `None` if one of them may not be told where it stands.
pub open spec fn after_messages(stage: Told, messages: Seq<DownloadMessageView>) -> Option<Told>
    decreases messages.len(),
{
    if messages.len() == 0 {
        Some(stage)
    } else {
        match after_messages(stage, messages.drop_last()) {
            Some(reached) => after_message(reached, messages.last()),
            None => None,
        }
    }
}

/// Does the phase of a download agree with where its messages stand?
pub open spec fn stage_fits(phase: DownloadPhase, stage: Told) -> bool {
    match phase {
        DownloadPhase::CreatingDirectory => stage == Told::Silent,
        DownloadPhase::Probing => stage == Told::Gathering,
        DownloadPhase::Requesting => stage == Told::Gathering,
        DownloadPhase::Streaming => stage == Told::Streaming,
        DownloadPhase::Finished(DownloadOutcome::Completed) => stage == Told::Over,
        DownloadPhase::Finished(DownloadOutcome::Failed) => stage == Told::Silent || stage == Told::Over,
        DownloadPhase::Finished(DownloadOutcome::Cancelled) => stage != Told::Over,
    }
}

/// The messages of two lists of actions, one after the other.
pub proof fn lemma_told_concat(a: Seq<DownloadActionView>, b: Seq<DownloadActionView>)
    ensures
        told(a + b) == told(a) + told(b),
    decreases b.len(),
{
    if b.len() == 0 {
        assert(a + b =~= a);
        assert(told(a) + told(b) =~= told(a));
    } else {
        lemma_told_concat(a, b.drop_last());
        assert((a + b).drop_last() =~= a + b.drop_last());
        assert((a + b).last() == b.last());
        assert(told(a + b) =~= told(a) + told(b));
    }
}

/// Telling two runs of messages in turn is telling the second from where
/// the first has come.
pub proof fn lemma_after_messages_concat(
    stage: Told,
    a: Seq<DownloadMessageView>,
    b: Seq<DownloadMessageView>,
)
    ensures
        after_messages(stage, a + b) == match after_messages(stage, a) {
            Some(reached) => after_messages(reached, b),
            None => None,
        },
    decreases b.len(),
{
    if b.len() == 0 {
        assert(a + b =~= a);
    } else {
        lemma_after_messages_concat(stage, a, b.drop_last());
        assert((a + b).drop_last() =~= a + b.drop_last());
        assert((a + b).last() == b.last());
    }
}

/// A list of actions that sends nothing tells nothing.
proof fn lemma_tells_nothing(actions: Seq<DownloadActionView>)
    requires
        forall|i: int| 0 <= i < actions.len() ==> !(#[trigger] actions[i] is Send),
    ensures
        told(actions) == Seq::<DownloadMessageView>::empty(),
    decreases actions.len(),
{
    if actions.len() > 0 {
        assert(!(actions[actions.len() - 1] is Send));
        assert forall|i: int| 0 <= i < actions.drop_last().len() implies !(
        #[trigger] actions.drop_last()[i] is Send) by {
            assert(actions.drop_last()[i] == actions[i]);
        }
        lemma_tells_nothing(actions.drop_last());
    }
}

/// The step that begins the streams tells `Started`, and `Done` behind it
/// where there is nothing to stream.
proof fn lemma_begin_streams_told(download: DownloadView)
    ensures
        told(download.begin_streams().1) == if download.targets.len() == 0 {
            seq![
                DownloadMessageView::Started { content_length: download.content_length },
                DownloadMessageView::Done,
            ]
        } else {
            seq![DownloadMessageView::Started { content_length: download.content_length }]
        },
{
    reveal_with_fuel(told, 3);
    let started = DownloadActionView::Send(
        DownloadMessageView::Started { content_length: download.content_length },
    );
    if download.targets.len() == 0 {
        assert(told(download.begin_streams().1) =~= seq![
            DownloadMessageView::Started { content_length: download.content_length },
            DownloadMessageView::Done,
        ]);
    } else {
        lemma_tells_nothing(download.stream_actions());
        lemma_told_concat(seq![started], download.stream_actions());
        assert(download.begin_streams().1 =~= seq![started] + download.stream_actions());
        assert(told(seq![started]) =~= seq![
            DownloadMessageView::Started { content_length: download.content_length },
        ]);
        assert(told(seq![started]) + Seq::<DownloadMessageView>::empty() =~= told(seq![started]));
    }
}

/// The step that asks for the next file, or begins the streams, keeps the
/// messages in order.
proof fn lemma_request_next_in_order(download: DownloadView)
    ensures
        after_messages(Told::Gathering, told(download.request_next().1)) is Some,
        stage_fits(
            download.request_next().0.phase,
            after_messages(Told::Gathering, told(download.request_next().1))->0,
        ),
{
    reveal_with_fuel(told, 2);
    reveal_with_fuel(after_messages, 3);
    if download.next < download.pending.len() {
    } else {
        lemma_begin_streams_told(download);
    }
}

/// The step that looks for the next file, or turns to asking, keeps the
/// messages in order.
proof fn lemma_probe_next_in_order(download: DownloadView)
    ensures
        after_messages(Told::Gathering, told(download.probe_next().1)) is Some,
        stage_fits(
            download.probe_next().0.phase,
            after_messages(Told::Gathering, told(download.probe_next().1))->0,
        ),
{
    reveal_with_fuel(told, 2);
    reveal_with_fuel(after_messages, 3);
    if download.next < download.urls.len() {
    } else {
        lemma_request_next_in_order(DownloadView { next: 0, ..download });
    }
}

/// A message told before a list of actions stands before their messages.
proof fn lemma_told_behind(message: DownloadMessageView, rest: Seq<DownloadActionView>)
    ensures
        told(seq![DownloadActionView::Send(message)] + rest) == seq![message] + told(rest),
{
    reveal_with_fuel(told, 2);
    lemma_told_concat(seq![DownloadActionView::Send(message)], rest);
    assert(told(seq![DownloadActionView::Send(message)]) =~= seq![message]);
}

proof fn lemma_gathering_step_in_order(download: DownloadView, event: DownloadEventView)
    requires
        download.phase == DownloadPhase::CreatingDirectory || download.phase
            == DownloadPhase::Probing || download.phase == DownloadPhase::Requesting,
        !(event is Cancelled),
    ensures
        ({
            let stage = if download.phase == DownloadPhase::CreatingDirectory {
                Told::Silent
            } else {
                Told::Gathering
            };
            &&& after_messages(stage, told(download.step(event).1)) is Some
            &&& stage_fits(
                download.step(event).0.phase,
                after_messages(stage, told(download.step(event).1))->0,
            )
        }),
{
    reveal_with_fuel(told, 2);
    reveal_with_fuel(after_messages, 2);
    let step = download.step(event);
    match (download.phase, event) {
        (DownloadPhase::CreatingDirectory, DownloadEventView::DirectoryCreated) => {
            let probing = DownloadView { next: 0, ..download };
            lemma_probe_next_in_order(probing);
            lemma_told_behind(DownloadMessageView::GatheringData, probing.probe_next().1);
            lemma_after_messages_concat(
                Told::Silent,
                seq![DownloadMessageView::GatheringData],
                told(probing.probe_next().1),
            );
            assert(step.1 =~= seq![DownloadActionView::Send(DownloadMessageView::GatheringData)]
                + probing.probe_next().1);
        },
        (DownloadPhase::Probing, DownloadEventView::Exists(exists)) => {
            if download.next < download.urls.len() {
                if exists {
                    let moved = DownloadView { next: (download.next + 1) as usize, ..download };
                    let done = DownloadMessageView::FileDone {
                        path: download.probe_path(download.next as int),
                    };
                    lemma_probe_next_in_order(moved);
                    lemma_told_behind(done, moved.probe_next().1);
                    lemma_after_messages_concat(Told::Gathering, seq![done], told(moved.probe_next().1));
                    assert(step.1 =~= seq![DownloadActionView::Send(done)] + moved.probe_next().1);
                } else {
                    lemma_probe_next_in_order(
                        DownloadView {
                            next: (download.next + 1) as usize,
                            pending: download.pending.push(download.urls[download.next as int]),
                            ..download
                        },
                    );
                }
            } else {
                lemma_probe_next_in_order(download);
            }
        },
        (
            DownloadPhase::Requesting,
            DownloadEventView::Response { content_length, content_disposition },
        ) => {
            if download.next < download.pending.len() {
                lemma_request_next_in_order(
                    download.on_response(content_length, content_disposition).0,
                );
                let url = download.pending[download.next as int];
                lemma_request_next_in_order(
                    DownloadView {
                        next: (download.next + 1) as usize,
                        targets: download.targets.push(
                            crate::file_download::DownloadTargetView {
                                url,
                                path: download.output_dir.join(
                                    crate::file_download::download_filename(
                                        content_disposition,
                                        url,
                                    ),
                                ),
                            },
                        ),
                        content_length: crate::progress::add_capped(
                            download.content_length,
                            match content_length {
                                Some(n) => n,
                                None => 0,
                            },
                        ),
                        ..download
                    },
                );
            } else {
                lemma_request_next_in_order(download);
            }
        },
        _ => {},
    }
}

proof fn lemma_streaming_step_in_order(download: DownloadView, event: DownloadEventView)
    requires
        download.phase == DownloadPhase::Streaming,
        !(event is Cancelled),
    ensures
        after_messages(Told::Streaming, told(download.step(event).1)) is Some,
        stage_fits(
            download.step(event).0.phase,
            after_messages(Told::Streaming, told(download.step(event).1))->0,
        ),
{
    reveal_with_fuel(told, 4);
    reveal_with_fuel(after_messages, 3);
    let step = download.step(event);
    match event {
        DownloadEventView::File { message, now } => {
            match message {
                FileDownloadMessageView::Chunk { .. } => {
                    assert(step.1.len() <= 1);
                },
                FileDownloadMessageView::Error { .. } => {
                    assert(step.1.len() == 3);
                },
                FileDownloadMessageView::Done { .. } => {
                    assert(step.1.len() <= 2);
                },
            }
        },
        _ => {},
    }
}

/// One step of a download whose phase agrees with where its messages stand
/// tells its messages in order, and the phase agrees again.
pub proof fn lemma_step_told_in_order(download: DownloadView, stage: Told, event: DownloadEventView)
    requires
        stage_fits(download.phase, stage),
    ensures
        after_messages(stage, told(download.step(event).1)) is Some,
        stage_fits(
            download.step(event).0.phase,
            after_messages(stage, told(download.step(event).1))->0,
        ),
{
    reveal_with_fuel(told, 2);
    reveal_with_fuel(after_messages, 2);
    if download.phase is Finished {
    } else if event is Cancelled {
    } else if download.phase == DownloadPhase::Streaming {
        lemma_streaming_step_in_order(download, event);
    } else {
        lemma_gathering_step_in_order(download, event);
    }
}

/// A run of a download whose phase agrees with where its messages stand
/// tells its messages in order, and the phase agrees again.
pub proof fn lemma_run_told_in_order(
    download: DownloadView,
    stage: Told,
    events: Seq<DownloadEventView>,
)
    requires
        stage_fits(download.phase, stage),
    ensures
        after_messages(stage, told(download.run(events).1)) is Some,
        stage_fits(
            download.run(events).0.phase,
            after_messages(stage, told(download.run(events).1))->0,
        ),
    decreases events.len(),
{
    if events.len() > 0 {
        let earlier = download.run(events.drop_last());
        lemma_run_told_in_order(download, stage, events.drop_last());
        let reached = after_messages(stage, told(earlier.1))->0;
        lemma_step_told_in_order(earlier.0, reached, events.last());
        let step = earlier.0.step(events.last());
        lemma_told_concat(earlier.1, step.1);
        lemma_after_messages_concat(stage, told(earlier.1), told(step.1));
    }
}

/// Whatever happens outside, a download tells its messages in order:
/// `GatheringData` first, `FileDone` for the files on disk, `Started` once,
/// `Progress` and `FileDone` only while the streams run, and `Done` or
/// `Error` as the last word. A download that has completed has told `Done`;
/// one that was cancelled has told neither `Done` nor `Error`.
pub proof fn lemma_download_messages_in_order(
    urls: Seq<Seq<char>>,
    output_dir: PathView,
    events: Seq<DownloadEventView>,
)
    ensures
        ({
            let start = begin_download(urls, output_dir);
            let after = start.0.run(events);
            let reached = after_messages(Told::Silent, told(start.1 + after.1));
            &&& reached is Some
            &&& stage_fits(after.0.phase, reached->0)
        }),
{
    reveal_with_fuel(told, 2);
    let start = begin_download(urls, output_dir);
    let after = start.0.run(events);
    lemma_run_told_in_order(start.0, Told::Silent, events);
    lemma_told_concat(start.1, after.1);
    assert(told(start.1) =~= Seq::<DownloadMessageView>::empty());
    assert(told(start.1) + told(after.1) =~= told(after.1));
}

} // verus!
