use vstd::prelude::*;

use crate::catalog::{earned, lemma_earned_push};
use crate::command::{kill_command, remove_command};
use crate::error::ErrorView;
use crate::model::{illegal_operation, no_such_command, Outcome, SessionView};
use crate::protocol::{ActionView, EventView, ProcessOutputView};
use crate::report::lemma_case_lines_push;
use crate::stage::{Phase, Stage};
use crate::text::{decoded, trimmed};

verus! {

/// Whatever a session is told, what holds of every session holds of it
/// afterwards.
pub proof fn lemma_step_preserves_inv(s: SessionView, event: EventView, stamp: Seq<char>)
    requires
        s.inv(),
    ensures
        s.step(event, stamp).next.inv(),
{
    match s.stage {
        Stage::Executing(k) => {
            lemma_earned_push(s.catalog, s.verdicts, true);
            lemma_earned_push(s.catalog, s.verdicts, false);
            lemma_case_lines_push(s.catalog, s.verdicts, true);
            lemma_case_lines_push(s.catalog, s.verdicts, false);
        },
        _ => {},
    }
}

/// Teardown keeps what holds of every session.
pub proof fn lemma_clean_up_preserves_inv(s: SessionView)
    requires
        s.inv(),
    ensures
        s.clean_up().next.inv(),
{
}

/// The score of a session that is done is the sum of the scores of the cases
/// that passed, over all cases of the catalog.
pub proof fn lemma_score_of_finished_session(s: SessionView)
    requires
        s.inv(),
        s.stage is Done,
    ensures
        s.verdicts.len() == s.catalog.len(),
        s.score == earned(s.catalog, s.verdicts),
{
}

/// A case passes exactly if what the emulated run printed equals the
/// expected output, both without the white space at their ends. A case that
/// passes adds its score to the total; one that does not adds nothing.
pub proof fn lemma_verdict_is_comparison(
    s: SessionView,
    k: usize,
    output: ProcessOutputView,
    stamp: Seq<char>,
)
    requires
        s.inv(),
        s.stage == Stage::Executing(k),
        s.phase is Emulating,
        decoded(output.stdout) is Some,
        decoded(output.stderr) is Some,
    ensures
        ({
            let next = s.step(EventView::Exited(output), stamp).next;
            let passed = trimmed(decoded(output.stdout).unwrap()) == trimmed(s.expected);
            &&& next.verdicts == s.verdicts.push(passed)
            &&& next.score == s.score + if passed {
                s.catalog[k as int].score
            } else {
                0
            }
        }),
{
}

/// After teardown a session holds neither workspace nor environment,
/// whatever its stage was, and all else is as it was; and the host has been
/// asked to delete the workspace and to stop and remove the environment that
/// it held.
pub proof fn lemma_clean_up_releases(s: SessionView)
    ensures
        s.clean_up().next == (SessionView { workspace: None, environment: None, ..s }),
        s.workspace matches Some(path) ==> s.clean_up().actions.contains(
            ActionView::RemoveDir(path),
        ),
        s.environment matches Some(id) ==> s.clean_up().actions.contains(
            ActionView::Discard(kill_command(id)),
        ) && s.clean_up().actions.contains(ActionView::Discard(remove_command(id))),
{
    let actions = s.clean_up().actions;
    match s.workspace {
        Some(path) => {
            assert(actions[0] == ActionView::RemoveDir(path));
        },
        None => {},
    }
    match s.environment {
        Some(id) => {
            let at: int = if s.workspace is Some {
                1
            } else {
                0
            };
            assert(actions[at] == ActionView::Discard(kill_command(id)));
            assert(actions[at + 1] == ActionView::Discard(remove_command(id)));
        },
        None => {},
    }
}

/// A second teardown changes nothing and asks for nothing.
pub proof fn lemma_clean_up_idempotent(s: SessionView)
    ensures
        s.clean_up().next.clean_up().next == s.clean_up().next,
        s.clean_up().next.clean_up().actions == Seq::<ActionView>::empty(),
{
}

/// A session never lets go of a workspace or an environment without asking
/// the host to remove it.
pub proof fn lemma_nothing_dropped_unreleased(s: SessionView, event: EventView, stamp: Seq<char>)
    requires
        s.inv(),
    ensures
        ({
            let out = s.step(event, stamp);
            &&& s.workspace matches Some(path) ==> out.next.workspace == s.workspace
                || out.actions.contains(ActionView::RemoveDir(path))
            &&& s.environment matches Some(id) ==> out.next.environment == s.environment
                || out.actions.contains(ActionView::Discard(remove_command(id)))
        }),
{
    let out = s.step(event, stamp);
    let unstarted = s.stage is Provisioning && s.phase is Starting && event is Exited;
    if s.workspace is Some && out.next.workspace != s.workspace {
        if unstarted {
            lemma_release_is_asked(SessionView { environment: None, ..s }, out.actions);
        } else {
            lemma_release_is_asked(s, out.actions);
        }
    }
    if s.environment is Some && out.next.environment != s.environment {
        if unstarted {
            assert(out.actions[0] == ActionView::Discard(remove_command(s.environment.unwrap())));
        } else {
            lemma_release_is_asked(s, out.actions);
        }
    }
}

/// A list of actions that ends with the actions of teardown asks for all
/// that teardown asks for.
proof fn lemma_release_is_asked(s: SessionView, actions: Seq<ActionView>)
    requires
        s.release_actions().len() <= actions.len(),
        actions.subrange(actions.len() - s.release_actions().len(), actions.len() as int)
            =~= s.release_actions(),
    ensures
        s.workspace matches Some(path) ==> actions.contains(ActionView::RemoveDir(path)),
        s.environment matches Some(id) ==> actions.contains(
            ActionView::Discard(remove_command(id)),
        ),
{
    lemma_clean_up_releases(s);
    let release = s.release_actions();
    let before = actions.len() - release.len();
    assert forall|a: ActionView| release.contains(a) implies actions.contains(a) by {
        let i = choose|i: int| 0 <= i < release.len() && release[i] == a;
        assert(actions.subrange(before, actions.len() as int)[i] == a);
        assert(actions[before + i] == a);
    }
}

/// A session that is done, or that an error other than a rejected message
/// has aborted, holds neither workspace nor environment.
pub proof fn lemma_ended_session_holds_nothing(s: SessionView, event: EventView, stamp: Seq<char>)
    requires
        s.inv(),
        !s.stage.terminal(),
        s.step(event, stamp).next.stage.terminal(),
        !(s.step(event, stamp).next.failure matches Some(ErrorView::ProtocolError(_))),
    ensures
        s.step(event, stamp).next.workspace is None,
        s.step(event, stamp).next.environment is None,
{
}

/// A step signal that arrives before the upload is rejected as a protocol
/// error, and the workspace and the environment are as they were.
pub proof fn lemma_step_before_upload_rejected(s: SessionView, stamp: Seq<char>)
    requires
        s.stage is AwaitingUpload,
    ensures
        s.step(EventView::Step, stamp) == s.reject(no_such_command()),
        s.step(EventView::Step, stamp).next.stage is Failed,
        s.step(EventView::Step, stamp).next.failure == Some(
            ErrorView::ProtocolError(no_such_command()),
        ),
        s.step(EventView::Step, stamp).next.workspace == s.workspace,
        s.step(EventView::Step, stamp).next.environment == s.environment,
{
}

/// A step signal that arrives while the session waits for the outcome of
/// work that it asked for is rejected as a protocol error: no step is begun
/// before the last one has ended.
pub proof fn lemma_step_out_of_turn_rejected(s: SessionView, stamp: Seq<char>)
    requires
        !s.stage.terminal(),
        !(s.phase is Idle),
    ensures
        s.step(EventView::Step, stamp) == s.reject(no_such_command()),
{
}

/// An archive is accepted once, by a session that waits for it; any other
/// session under way rejects it as a protocol error.
pub proof fn lemma_upload_accepted_once(s: SessionView, data: Seq<u8>, stamp: Seq<char>)
    requires
        !s.stage.terminal(),
        !(s.stage is AwaitingUpload && s.phase is Idle),
    ensures
        s.step(EventView::Upload(data), stamp) == s.reject(no_such_command()),
{
}

/// A message that is rejected as a protocol error ends the session and
/// leaves the workspace and the environment as they were.
pub proof fn lemma_rejection_keeps_resources(s: SessionView, event: EventView, stamp: Seq<char>)
    requires
        s.inv(),
        !s.stage.terminal(),
        s.step(event, stamp).next.failure matches Some(ErrorView::ProtocolError(_)),
    ensures
        s.step(event, stamp).next.stage is Failed,
        s.step(event, stamp).next.workspace == s.workspace,
        s.step(event, stamp).next.environment == s.environment,
{
}

/// Stages are visited in order: an event leaves the stage as it is, moves it
/// to the next one, or aborts the session. No stage is skipped and none is
/// entered again.
pub proof fn lemma_stage_order(s: SessionView, event: EventView, stamp: Seq<char>)
    requires
        s.inv(),
    ensures
        ({
            let next = s.step(event, stamp).next;
            let cases = s.catalog.len();
            &&& s.stage.rank(cases) <= next.stage.rank(cases)
            &&& next.stage is Failed || next.stage.rank(cases) <= s.stage.rank(cases) + 1
        }),
{
}

/// Only a step signal, or the answer to work that the session asked for,
/// moves a session to another stage.
pub proof fn lemma_stage_moves_on_answer_only(s: SessionView, event: EventView, stamp: Seq<char>)
    requires
        s.inv(),
        s.step(event, stamp).next.stage != s.stage,
        !(s.step(event, stamp).next.stage is Failed),
    ensures
        event is Stored || event is Exited,
        s.step(event, stamp).actions.last() == ActionView::Ping
            || s.step(event, stamp).next.stage is Done,
{
}

/// What a session has gained it keeps: the score never decreases, the
/// report and the verdicts only grow at their ends, the checksum never
/// changes once it is set, and the image and the catalog never change.
pub proof fn lemma_progress_is_kept(s: SessionView, event: EventView, stamp: Seq<char>)
    requires
        s.inv(),
    ensures
        ({
            let next = s.step(event, stamp).next;
            &&& s.score <= next.score
            &&& s.report.is_prefix_of(next.report)
            &&& s.verdicts.is_prefix_of(next.verdicts)
            &&& s.checksum is Some ==> next.checksum == s.checksum
            &&& next.image == s.image
            &&& next.catalog == s.catalog
        }),
{
}

/// A session under way that no longer holds its environment, because
/// teardown has run, is aborted by the next step that needs the environment:
/// the step signal that begins the build or the signing.
pub proof fn lemma_step_after_teardown_fails(s: SessionView, stamp: Seq<char>)
    requires
        s.inv(),
        s.stage is Building || s.stage is Finalizing,
        s.phase is Idle,
        s.environment is None,
    ensures
        ({
            let out = s.step(EventView::Step, stamp);
            &&& out.next.stage is Failed
            &&& s.stage is Building ==> out.next.failure == Some(
                ErrorView::BuildFailure(illegal_operation()),
            )
            &&& s.stage is Finalizing ==> out.next.failure == Some(
                ErrorView::SigningFailure(illegal_operation()),
            )
            &&& out.actions.contains(ActionView::Text(illegal_operation()))
            &&& out.next.report == s.report
            &&& out.next.score == s.score
        }),
{
    let out = s.step(EventView::Step, stamp);
    assert(out.actions[1] == ActionView::Text(illegal_operation()));
}

/// A session that is over takes no notice of anything.
pub proof fn lemma_over_is_over(s: SessionView, event: EventView, stamp: Seq<char>)
    requires
        s.stage.terminal(),
    ensures
        s.step(event, stamp) == (Outcome { next: s, actions: Seq::empty() }),
{
}

} // verus!
