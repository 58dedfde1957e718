//! The order in which an installation tells what it does.
//!
//! Whatever happens outside, the messages of an installation come as
//! `Pending`, then what the download tells, then `Installing`, then
//! `Complete`; `Complete` alone where the game is installed already; and
//! `Error` in place of any of them, as the last word.

use crate::path::PathView;
use crate::tasks::install::{
    begin_installation, lemma_said_concat, said, InstallEventView, InstallOutcome, InstallPhase,
    InstallTaskProgressView, InstallTaskView,
};
use vstd::prelude::*;

verus! {

/// How far the messages of an installation have come.
pub enum Said {
    /// Nothing was told yet.
    Nothing,
    /// The download was announced.
    Downloading,
    /// The installer was announced.
    Installing,
    /// The last word was told.
    Over,
}

/// Where the messages stand after `message` was told at `stage`; `None` if
/// the message may not be told there.
pub open spec fn after_word(stage: Said, message: InstallTaskProgressView) -> Option<Said> {
    match message {
        InstallTaskProgressView::Pending => if stage == Said::Nothing {
            Some(Said::Downloading)
        } else {
            None
        },
        InstallTaskProgressView::DownloadStarted { .. } => if stage == Said::Downloading {
            Some(Said::Downloading)
        } else {
            None
        },
        InstallTaskProgressView::DownloadProgress { .. } => if stage == Said::Downloading {
            Some(Said::Downloading)
        } else {
            None
        },
        InstallTaskProgressView::Installing => if stage == Said::Downloading {
            Some(Said::Installing)
        } else {
            None
        },
        InstallTaskProgressView::Complete => if stage == Said::Nothing || stage
            == Said::Installing {
            Some(Said::Over)
        } else {
            None
        },
        InstallTaskProgressView::Error(_) => if stage != Said::Over {
            Some(Said::Over)
        } else {
            None
        },
    }
}

/// Where the messages stand after all of `messages` were told in turn from
/// `stage`; `None` if one of them may not be told where it stands.
pub open spec fn after_words(stage: Said, messages: Seq<InstallTaskProgressView>) -> Option<Said>
    decreases messages.len(),
{
    if messages.len() == 0 {
        Some(stage)
    } else {
        match after_words(stage, messages.drop_last()) {
            Some(reached) => after_word(reached, messages.last()),
            None => None,
        }
    }
}

/// Does the phase of an installation agree with where its messages stand?
pub open spec fn word_fits(phase: InstallPhase, stage: Said) -> bool {
    match phase {
        InstallPhase::Checking => stage == Said::Nothing,
        InstallPhase::Downloading => stage == Said::Downloading,
        InstallPhase::Installing => stage == Said::Installing,
        InstallPhase::Verifying => stage == Said::Installing,
        InstallPhase::Finished(InstallOutcome::Completed) => stage == Said::Over,
        InstallPhase::Finished(InstallOutcome::Failed) => stage == Said::Over,
        InstallPhase::Finished(InstallOutcome::Cancelled) => stage != Said::Over,
    }
}

/// Telling two runs of messages in turn is telling the second from where
/// the first has come.
pub proof fn lemma_after_words_concat(
    stage: Said,
    a: Seq<InstallTaskProgressView>,
    b: Seq<InstallTaskProgressView>,
)
    ensures
        after_words(stage, a + b) == match after_words(stage, a) {
            Some(reached) => after_words(reached, b),
            None => None,
        },
    decreases b.len(),
{
    if b.len() == 0 {
        assert(a + b =~= a);
    } else {
        lemma_after_words_concat(stage, a, b.drop_last());
        assert((a + b).drop_last() =~= a + b.drop_last());
        assert((a + b).last() == b.last());
    }
}

/// One step of an installation whose phase agrees with where its messages
/// stand tells its messages in order, and the phase agrees again.
pub proof fn lemma_step_said_in_order(task: InstallTaskView, stage: Said, event: InstallEventView)
    requires
        word_fits(task.phase, stage),
    ensures
        after_words(stage, said(task.step(event).1)) is Some,
        word_fits(task.step(event).0.phase, after_words(stage, said(task.step(event).1))->0),
{
    reveal_with_fuel(said, 3);
    reveal_with_fuel(after_words, 3);
    let step = task.step(event);
    assert(step.1.len() <= 2);
}

/// A run of an installation whose phase agrees with where its messages
/// stand tells its messages in order, and the phase agrees again.
pub proof fn lemma_run_said_in_order(
    task: InstallTaskView,
    stage: Said,
    events: Seq<InstallEventView>,
)
    requires
        word_fits(task.phase, stage),
    ensures
        after_words(stage, said(task.run(events).1)) is Some,
        word_fits(task.run(events).0.phase, after_words(stage, said(task.run(events).1))->0),
    decreases events.len(),
{
    if events.len() > 0 {
        let earlier = task.run(events.drop_last());
        lemma_run_said_in_order(task, stage, events.drop_last());
        let reached = after_words(stage, said(earlier.1))->0;
        lemma_step_said_in_order(earlier.0, reached, events.last());
        let step = earlier.0.step(events.last());
        lemma_said_concat(earlier.1, step.1);
        lemma_after_words_concat(stage, said(earlier.1), said(step.1));
    }
}

/// Whatever happens outside, an installation tells its messages in order:
/// `Pending` before anything of the download, `Installing` behind the
/// download, `Complete` behind `Installing` or as the only message, and
/// `Error` as the last word wherever it comes. An installation that has
/// completed or failed has told its last word; one that goes on or was
/// cancelled has not.
pub proof fn lemma_install_messages_in_order(
    download_info: Seq<Seq<char>>,
    download_dir: PathView,
    output_dir: PathView,
    events: Seq<InstallEventView>,
)
    ensures
        ({
            let start = begin_installation(download_info, download_dir, output_dir);
            let after = start.0.run(events);
            let reached = after_words(Said::Nothing, said(start.1 + after.1));
            &&& reached is Some
            &&& word_fits(after.0.phase, reached->0)
        }),
{
    reveal_with_fuel(said, 2);
    let start = begin_installation(download_info, download_dir, output_dir);
    let after = start.0.run(events);
    lemma_run_said_in_order(start.0, Said::Nothing, events);
    lemma_said_concat(start.1, after.1);
    assert(said(start.1) =~= Seq::<InstallTaskProgressView>::empty());
    assert(said(start.1) + said(after.1) =~= said(after.1));
}

} // verus!
