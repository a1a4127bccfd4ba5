use std::sync::Arc;

use autograder::catalog::{TestCase, TestCatalog};
use autograder::checksum::checksum;
use autograder::command::Command;
use autograder::error::PipelineError;
use autograder::protocol::{Action, Event, ProcessOutput};
use autograder::session::Session;
use autograder::stage::{Phase, Stage};

const STAMP: &str = "2021-03-04 05:06:07.000000089 +08:00";

fn case(name: &str, score: usize) -> TestCase {
    TestCase {
        name: name.to_string(),
        source: format!("cases/{}.c", name),
        input_file: format!("cases/{}.in", name),
        output_file: format!("cases/{}.out", name),
        score,
    }
}

fn session(cases: Vec<TestCase>) -> Session {
    Session::new("judge:latest".to_string(), Arc::new(TestCatalog::new(cases).unwrap()))
}

fn exited(success: bool, stdout: &str, stderr: &str) -> Event {
    Event::Exited(ProcessOutput {
        success,
        status: if success { "exit status: 0" } else { "exit status: 1" }.to_string(),
        stdout: stdout.as_bytes().to_vec(),
        stderr: stderr.as_bytes().to_vec(),
    })
}

fn text(s: &str) -> Action {
    Action::Text(s.to_string())
}

fn go(session: &mut Session, event: Event) -> Vec<Action> {
    session.advance(event, STAMP)
}

fn upload(session: &mut Session) {
    go(session, Event::Upload(b"archive".to_vec()));
    go(session, Event::Stored("/tmp/ws".to_string()));
}

fn provision(session: &mut Session) {
    upload(session);
    go(session, Event::Step);
    go(session, exited(true, "c0ffee\n", ""));
    go(session, exited(true, "c0ffee\n", ""));
}

fn build(session: &mut Session) {
    provision(session);
    go(session, Event::Step);
    go(session, exited(true, "", ""));
    go(session, exited(true, "", ""));
    go(session, exited(true, "configured", ""));
    go(session, exited(true, "built", ""));
}

fn run_case(session: &mut Session, expected: &str, actual: &str) -> Vec<Action> {
    go(session, Event::Step);
    go(session, Event::Loaded("int main() {}".to_string()));
    go(session, Event::Loaded("1 2\n".to_string()));
    go(session, Event::Loaded(expected.to_string()));
    go(session, exited(true, ".text\n", ""));
    go(session, exited(true, "", ""));
    go(session, exited(true, actual, ""))
}

fn teardown_of_both() -> Vec<Action> {
    vec![
        Action::RemoveDir("/tmp/ws".to_string()),
        Action::Discard(Command::kill("c0ffee")),
        Action::Discard(Command::remove("c0ffee")),
    ]
}

fn protocol_error(session: &Session) -> bool {
    matches!(session.failure(), Some(PipelineError::ProtocolError(_)))
}

#[test]
fn new_session_waits_for_the_upload() {
    let s = session(vec![case("a", 5)]);
    assert_eq!(s.stage(), Stage::AwaitingUpload);
    assert_eq!(s.phase(), Phase::Idle);
    assert_eq!(s.image(), "judge:latest");
    assert_eq!(s.catalog().len(), 1);
    assert_eq!(s.score(), 0);
    assert_eq!(s.report(), "");
    assert_eq!(s.checksum(), None);
    assert_eq!(s.workspace(), None);
    assert_eq!(s.environment(), None);
    assert_eq!(s.failure(), None);
    assert!(s.verdicts().is_empty());
    assert!(!s.is_over());
}

#[test]
fn upload_is_checksummed_and_stored() {
    let mut s = session(vec![case("a", 5)]);
    let actions = go(&mut s, Event::Upload(b"archive".to_vec()));
    assert_eq!(actions, vec![Action::Store(b"archive".to_vec())]);
    assert_eq!(s.stage(), Stage::AwaitingUpload);
    assert_eq!(s.phase(), Phase::Storing);
    assert_eq!(s.checksum(), Some(checksum(b"archive").as_str()));
    assert_eq!(s.workspace(), None);

    let actions = go(&mut s, Event::Stored("/tmp/ws".to_string()));
    assert_eq!(actions, vec![text("[file received]\n"), Action::Ping]);
    assert_eq!(s.stage(), Stage::Provisioning);
    assert_eq!(s.phase(), Phase::Idle);
    assert_eq!(s.workspace(), Some("/tmp/ws"));
    assert_eq!(s.checksum(), Some(checksum(b"archive").as_str()));
}

#[test]
fn failed_upload_is_an_upload_error_with_nothing_to_tear_down() {
    let mut s = session(vec![case("a", 5)]);
    go(&mut s, Event::Upload(b"archive".to_vec()));
    let actions = go(&mut s, Event::Failed("No space left on device".to_string()));
    assert_eq!(actions, vec![text("No space left on device"), Action::Close]);
    assert_eq!(s.stage(), Stage::Failed);
    assert_eq!(
        s.failure(),
        Some(&PipelineError::UploadIO("No space left on device".to_string()))
    );
    assert_eq!(s.workspace(), None);
    assert_eq!(s.environment(), None);
}

#[test]
fn step_before_upload_is_a_protocol_error() {
    let mut s = session(vec![case("a", 5)]);
    let actions = go(&mut s, Event::Step);
    assert_eq!(actions, vec![text("[error: no such command]"), Action::Close]);
    assert_eq!(s.stage(), Stage::Failed);
    assert_eq!(
        s.failure(),
        Some(&PipelineError::ProtocolError("[error: no such command]".to_string()))
    );
    assert_eq!(s.workspace(), None);
    assert_eq!(s.environment(), None);
    assert_eq!(s.checksum(), None);
}

#[test]
fn second_upload_is_a_protocol_error_and_leaves_the_resources() {
    let mut s = session(vec![case("a", 5)]);
    provision(&mut s);
    assert_eq!(s.stage(), Stage::Building);
    let before = s.checksum().map(|c| c.to_string());
    let actions = go(&mut s, Event::Upload(b"another".to_vec()));
    assert_eq!(actions, vec![text("[error: no such command]"), Action::Close]);
    assert_eq!(s.stage(), Stage::Failed);
    assert!(protocol_error(&s));
    assert_eq!(s.workspace(), Some("/tmp/ws"));
    assert_eq!(s.environment(), Some("c0ffee"));
    assert_eq!(s.checksum().map(|c| c.to_string()), before);
    assert_eq!(s.clean_up(), teardown_of_both());
    assert_eq!(s.workspace(), None);
    assert_eq!(s.environment(), None);
}

#[test]
fn step_while_work_is_under_way_is_a_protocol_error() {
    let mut s = session(vec![case("a", 5)]);
    upload(&mut s);
    go(&mut s, Event::Step);
    assert_eq!(s.phase(), Phase::Creating);
    let actions = go(&mut s, Event::Step);
    assert_eq!(actions, vec![text("[error: no such command]"), Action::Close]);
    assert!(protocol_error(&s));
    assert_eq!(s.workspace(), Some("/tmp/ws"));
}

#[test]
fn answer_that_nobody_asked_for_is_a_protocol_error() {
    let mut s = session(vec![case("a", 5)]);
    upload(&mut s);
    let actions = go(&mut s, exited(true, "", ""));
    assert_eq!(actions, vec![text("[error: no such command]"), Action::Close]);
    assert!(protocol_error(&s));

    let mut s = session(vec![case("a", 5)]);
    build(&mut s);
    go(&mut s, Event::Failed("late".to_string()));
    assert!(protocol_error(&s));
    assert_eq!(s.environment(), Some("c0ffee"));
}

#[test]
fn garbled_and_unexpected_messages_are_protocol_errors() {
    let mut s = session(vec![case("a", 5)]);
    let actions = go(&mut s, Event::Garbled("bad opcode".to_string()));
    assert_eq!(actions, vec![text("bad opcode"), Action::Close]);
    assert_eq!(s.failure(), Some(&PipelineError::ProtocolError("bad opcode".to_string())));

    let mut s = session(vec![case("a", 5)]);
    upload(&mut s);
    let actions = go(&mut s, Event::Unexpected);
    assert_eq!(actions, vec![text("unexpected message"), Action::Close]);
    assert_eq!(s.stage(), Stage::Failed);
    assert_eq!(s.workspace(), Some("/tmp/ws"));
}

#[test]
fn environment_is_created_and_started() {
    let mut s = session(vec![case("a", 5)]);
    upload(&mut s);
    let actions = go(&mut s, Event::Step);
    assert_eq!(actions, vec![Action::Run(Command::create("judge:latest"))]);
    assert_eq!(s.stage(), Stage::Provisioning);

    let actions = go(&mut s, exited(true, "  c0ffee\n", "ignored"));
    assert_eq!(
        actions,
        vec![text("created docker: c0ffee\n"), Action::Run(Command::start("c0ffee"))]
    );
    assert_eq!(s.environment(), Some("c0ffee"));
    assert_eq!(s.stage(), Stage::Provisioning);

    let actions = go(&mut s, exited(true, "c0ffee\n", ""));
    assert_eq!(actions, vec![text("docker started\n"), Action::Ping]);
    assert_eq!(s.stage(), Stage::Building);
    assert_eq!(s.phase(), Phase::Idle);
}

#[test]
fn environment_that_is_not_created_fails_provisioning() {
    let mut s = session(vec![case("a", 5)]);
    upload(&mut s);
    go(&mut s, Event::Step);
    let actions = go(&mut s, exited(false, "", "no such image"));
    assert_eq!(
        actions,
        vec![
            text("create"),
            Action::Close,
            Action::RemoveDir("/tmp/ws".to_string()),
        ]
    );
    assert_eq!(
        s.failure(),
        Some(&PipelineError::EnvironmentProvisionFailure("create".to_string()))
    );
    assert_eq!(s.stage(), Stage::Failed);
    assert_eq!(s.workspace(), None);
    assert_eq!(s.environment(), None);

    let mut s = session(vec![case("a", 5)]);
    upload(&mut s);
    go(&mut s, Event::Step);
    let actions = go(&mut s, Event::Failed("docker: not found".to_string()));
    assert_eq!(
        actions,
        vec![
            text("docker: not found"),
            Action::Close,
            Action::RemoveDir("/tmp/ws".to_string()),
        ]
    );
}

#[test]
fn environment_that_does_not_start_is_removed_before_the_error() {
    let mut s = session(vec![case("a", 5)]);
    upload(&mut s);
    go(&mut s, Event::Step);
    go(&mut s, exited(true, "c0ffee\n", ""));
    let actions = go(&mut s, exited(false, "", "cannot start"));
    assert_eq!(
        actions,
        vec![
            Action::Discard(Command::remove("c0ffee")),
            text("start"),
            Action::Close,
            Action::RemoveDir("/tmp/ws".to_string()),
        ]
    );
    assert_eq!(
        s.failure(),
        Some(&PipelineError::EnvironmentProvisionFailure("start".to_string()))
    );
    assert_eq!(s.environment(), None);
    assert_eq!(s.workspace(), None);
    assert_eq!(s.clean_up(), Vec::<Action>::new());
}

#[test]
fn output_that_is_not_text_aborts_the_stage() {
    let mut s = session(vec![case("a", 5)]);
    upload(&mut s);
    go(&mut s, Event::Step);
    let actions = go(
        &mut s,
        Event::Exited(ProcessOutput {
            success: true,
            status: "exit status: 0".to_string(),
            stdout: vec![0x63, 0xff, 0xfe],
            stderr: Vec::new(),
        }),
    );
    assert_eq!(
        actions,
        vec![
            text("output is not valid UTF-8"),
            Action::Close,
            Action::RemoveDir("/tmp/ws".to_string()),
        ]
    );
    assert_eq!(
        s.failure(),
        Some(&PipelineError::EnvironmentProvisionFailure(
            "output is not valid UTF-8".to_string()
        ))
    );
}

#[test]
fn build_runs_its_four_steps_in_order() {
    let mut s = session(vec![case("a", 5)]);
    provision(&mut s);
    let actions = go(&mut s, Event::Step);
    assert_eq!(
        actions,
        vec![text("[copy files]"), Action::Run(Command::copy("/tmp/ws", "c0ffee"))]
    );
    let actions = go(&mut s, exited(false, "", ""));
    assert_eq!(actions, vec![text("[untar files]"), Action::Run(Command::extract("c0ffee"))]);
    let actions = go(&mut s, exited(true, "", ""));
    assert_eq!(
        actions,
        vec![
            text("finished with exit status: 0"),
            text("[run cmake]"),
            Action::Run(Command::configure("c0ffee")),
        ]
    );
    let actions = go(&mut s, exited(true, "-- Configuring done", "CMake Warning"));
    assert_eq!(
        actions,
        vec![
            text("-- Configuring done"),
            text("[cmake stderr]"),
            text("CMake Warning"),
            text("[build]"),
            Action::Run(Command::build("c0ffee")),
        ]
    );
    assert_eq!(s.stage(), Stage::Building);
    let actions = go(&mut s, exited(true, "[1/1] Linking", ""));
    assert_eq!(
        actions,
        vec![text("[1/1] Linking"), text("[build stderr]"), text(""), Action::Ping]
    );
    assert_eq!(s.stage(), Stage::Executing(0));
    assert_eq!(s.phase(), Phase::Idle);
    assert_eq!(s.failure(), None);
}

#[test]
fn build_step_that_fails_lets_the_rest_run_and_then_fails_the_build() {
    let mut s = session(vec![case("a", 5)]);
    provision(&mut s);
    go(&mut s, Event::Step);
    go(&mut s, exited(true, "", ""));
    go(&mut s, exited(true, "", ""));
    let actions = go(&mut s, exited(false, "", "CMake Error"));
    assert_eq!(actions.len(), 5);
    assert_eq!(s.stage(), Stage::Building);
    let mut expected = vec![text("ninja: no work"), text("[build stderr]"), text("")];
    expected.push(text("compile"));
    expected.push(Action::Close);
    expected.extend(teardown_of_both());
    let actions = go(&mut s, exited(true, "ninja: no work", ""));
    assert_eq!(actions, expected);
    assert_eq!(s.stage(), Stage::Failed);
    assert_eq!(s.failure(), Some(&PipelineError::BuildFailure("compile".to_string())));
    assert_eq!(s.workspace(), None);
    assert_eq!(s.environment(), None);
}

#[test]
fn failed_unpacking_fails_the_build() {
    let mut s = session(vec![case("a", 5)]);
    provision(&mut s);
    go(&mut s, Event::Step);
    go(&mut s, exited(true, "", ""));
    let actions = go(&mut s, exited(false, "", "tar: error"));
    assert_eq!(actions[0], text("finished with exit status: 1"));
    go(&mut s, exited(true, "", ""));
    go(&mut s, exited(true, "", ""));
    assert_eq!(s.failure(), Some(&PipelineError::BuildFailure("compile".to_string())));
}

#[test]
fn build_process_that_cannot_run_fails_the_build() {
    let mut s = session(vec![case("a", 5)]);
    provision(&mut s);
    go(&mut s, Event::Step);
    let mut expected = vec![text("Permission denied"), Action::Close];
    expected.extend(teardown_of_both());
    assert_eq!(go(&mut s, Event::Failed("Permission denied".to_string())), expected);
    assert_eq!(s.failure(), Some(&PipelineError::BuildFailure("Permission denied".to_string())));
}

#[test]
fn empty_catalog_goes_from_the_build_to_finalizing() {
    let mut s = session(Vec::new());
    build(&mut s);
    assert_eq!(s.stage(), Stage::Finalizing);
    go(&mut s, Event::Step);
    go(&mut s, exited(true, "SIGNED", ""));
    assert_eq!(s.stage(), Stage::Done);
    assert_eq!(s.score(), 0);
}

#[test]
fn case_is_read_compiled_assembled_and_emulated() {
    let mut s = session(vec![case("a", 5)]);
    build(&mut s);
    let actions = go(&mut s, Event::Step);
    assert_eq!(actions, vec![text("[compile a]"), Action::Load("cases/a.c".to_string())]);
    let actions = go(&mut s, Event::Loaded("int main() {}\n".to_string()));
    assert_eq!(actions, vec![Action::Load("cases/a.in".to_string())]);
    let actions = go(&mut s, Event::Loaded(" 1 2 \n".to_string()));
    assert_eq!(actions, vec![Action::Load("cases/a.out".to_string())]);
    let actions = go(&mut s, Event::Loaded("3\n".to_string()));
    assert_eq!(actions, vec![Action::Run(Command::generate("c0ffee", "int main() {}\n"))]);
    let actions = go(&mut s, exited(false, "\n  .text\n  jr $ra\n\n", "warning"));
    assert_eq!(
        actions,
        vec![
            text("finished with exit status: 1"),
            text("[gcc a]\n"),
            Action::Run(Command::assemble("c0ffee", ".text\n  jr $ra")),
        ]
    );
    let actions = go(&mut s, exited(true, "", "as: note"));
    assert_eq!(
        actions,
        vec![
            text("finished with exit status: 0"),
            text("[gcc a stderr]\n"),
            text("as: note"),
            text("[qemu a]\n"),
            Action::Run(Command::emulate("c0ffee", "1 2")),
        ]
    );
    let actions = go(&mut s, exited(true, " 3 \n", "qemu: note"));
    assert_eq!(
        actions,
        vec![
            text("[qemu a return code]"),
            text("exit status: 0"),
            text("[qemu a stderr]"),
            text("qemu: note"),
            Action::Ping,
        ]
    );
    assert_eq!(s.score(), 5);
    assert_eq!(s.verdicts(), &vec![true]);
    assert_eq!(s.report(), "test a, score: 5, success: true\n");
    assert_eq!(s.stage(), Stage::Finalizing);
}

#[test]
fn mismatch_is_scored_zero_and_shown_as_a_diff() {
    let mut s = session(vec![case("a", 5), case("b", 10)]);
    build(&mut s);
    let actions = run_case(&mut s, "1\n2\n3\n", "1\n2\n4\n");
    assert_eq!(
        actions,
        vec![
            text("[qemu a return code]"),
            text("exit status: 0"),
            text("[qemu a stderr]"),
            text(""),
            text("[a output differences]"),
            text("  1"),
            text("  2"),
            text("- 3"),
            text("+ 4"),
            Action::Ping,
        ]
    );
    assert_eq!(s.score(), 0);
    assert_eq!(s.verdicts(), &vec![false]);
    assert_eq!(s.report(), "test a, score: 5, success: false\n");
    assert_eq!(s.stage(), Stage::Executing(1));
    assert_eq!(s.failure(), None);
}

#[test]
fn failing_file_or_process_aborts_the_run() {
    let mut s = session(vec![case("a", 5)]);
    build(&mut s);
    go(&mut s, Event::Step);
    let mut expected = vec![text("No such file or directory"), Action::Close];
    expected.extend(teardown_of_both());
    assert_eq!(
        go(&mut s, Event::Failed("No such file or directory".to_string())),
        expected
    );
    assert_eq!(
        s.failure(),
        Some(&PipelineError::ExecutionFailure("No such file or directory".to_string()))
    );
    assert_eq!(s.stage(), Stage::Failed);
    assert_eq!(s.score(), 0);

    let mut s = session(vec![case("a", 5)]);
    build(&mut s);
    go(&mut s, Event::Step);
    go(&mut s, Event::Loaded("".to_string()));
    go(&mut s, Event::Loaded("".to_string()));
    go(&mut s, Event::Loaded("".to_string()));
    go(&mut s, Event::Failed("cannot spawn".to_string()));
    assert_eq!(
        s.failure(),
        Some(&PipelineError::ExecutionFailure("cannot spawn".to_string()))
    );
    assert_eq!(s.workspace(), None);
    assert_eq!(s.environment(), None);
}

#[test]
fn score_is_the_sum_of_the_scores_of_the_cases_that_passed() {
    let mut s = session(vec![case("a", 1), case("b", 20), case("c", 300), case("d", 4000)]);
    build(&mut s);
    run_case(&mut s, "x", "x\n");
    run_case(&mut s, "x", "y");
    run_case(&mut s, "1 2", "1  2");
    run_case(&mut s, "\n\nlast\n", "last");
    assert_eq!(s.verdicts(), &vec![true, false, false, true]);
    assert_eq!(s.score(), 4001);
    assert_eq!(s.stage(), Stage::Finalizing);
    go(&mut s, Event::Step);
    go(&mut s, exited(true, "SIGNED", ""));
    assert_eq!(s.stage(), Stage::Done);
    assert_eq!(s.score(), 4001);
}

#[test]
fn end_to_end_session_of_two_cases() {
    let mut s = session(vec![case("a", 5), case("b", 10)]);
    build(&mut s);
    run_case(&mut s, "3\n", "3");
    let actions = run_case(&mut s, "1\n2\n3", "1\n2\n4");
    assert!(actions.contains(&text("- 3")));
    assert_eq!(s.stage(), Stage::Finalizing);
    assert_eq!(s.score(), 5);

    let report = format!(
        "test a, score: 5, success: true\n\
         test b, score: 10, success: false\n\
         datetime: {}\n\
         total score: 5\n\
         file checksum: {}\n\
         docker uuid: c0ffee\n\n",
        STAMP,
        checksum(b"archive")
    );
    let actions = go(&mut s, Event::Step);
    assert_eq!(actions, vec![text("[gpg report]"), Action::Run(Command::sign(&report))]);
    assert_eq!(s.report(), report);
    assert_eq!(s.stage(), Stage::Finalizing);

    let signed = format!("-----BEGIN PGP SIGNED MESSAGE-----\n{}-----END-----\n", report);
    let mut expected = vec![text(&signed), Action::Close];
    expected.extend(teardown_of_both());
    assert_eq!(go(&mut s, exited(true, &signed, "gpg: using key")), expected);
    assert_eq!(s.stage(), Stage::Done);
    assert!(s.is_over());
    assert_eq!(s.score(), 5);
    assert_eq!(s.failure(), None);
    assert_eq!(s.workspace(), None);
    assert_eq!(s.environment(), None);
    assert_eq!(s.verdicts(), &vec![true, false]);
}

#[test]
fn signing_that_fails_is_a_signing_error() {
    let mut s = session(Vec::new());
    build(&mut s);
    go(&mut s, Event::Step);
    let mut expected = vec![text("gpg"), Action::Close];
    expected.extend(teardown_of_both());
    assert_eq!(go(&mut s, exited(false, "", "gpg: no default secret key")), expected);
    assert_eq!(s.failure(), Some(&PipelineError::SigningFailure("gpg".to_string())));
    assert_eq!(s.stage(), Stage::Failed);

    let mut s = session(Vec::new());
    build(&mut s);
    go(&mut s, Event::Step);
    go(&mut s, Event::Failed("gpg: not found".to_string()));
    assert_eq!(
        s.failure(),
        Some(&PipelineError::SigningFailure("gpg: not found".to_string()))
    );
}

#[test]
fn session_that_is_over_takes_no_notice() {
    let mut s = session(Vec::new());
    build(&mut s);
    go(&mut s, Event::Step);
    go(&mut s, exited(true, "SIGNED", ""));
    assert_eq!(s.stage(), Stage::Done);
    let report = s.report().to_string();
    for event in [
        Event::Step,
        Event::Upload(vec![1]),
        Event::Unexpected,
        Event::Garbled("x".to_string()),
        Event::Failed("x".to_string()),
        exited(true, "", ""),
    ] {
        assert_eq!(go(&mut s, event), Vec::<Action>::new());
        assert_eq!(s.stage(), Stage::Done);
        assert_eq!(s.failure(), None);
        assert_eq!(s.report(), report);
    }
}

#[test]
fn teardown_twice_asks_once() {
    let mut s = session(vec![case("a", 5)]);
    build(&mut s);
    assert_eq!(s.clean_up(), teardown_of_both());
    assert_eq!(s.workspace(), None);
    assert_eq!(s.environment(), None);
    assert_eq!(s.clean_up(), Vec::<Action>::new());
    assert_eq!(s.workspace(), None);
    assert_eq!(s.environment(), None);
}

#[test]
fn teardown_changes_nothing_but_what_is_held() {
    let mut s = session(vec![case("a", 5), case("b", 10)]);
    build(&mut s);
    run_case(&mut s, "1", "1");
    go(&mut s, Event::Step);
    let report = s.report().to_string();
    let checksum = s.checksum().map(|c| c.to_string());
    assert_eq!(s.stage(), Stage::Executing(1));
    assert_eq!(s.phase(), Phase::LoadingSource);
    assert_eq!(s.clean_up(), teardown_of_both());
    assert_eq!(s.stage(), Stage::Executing(1));
    assert_eq!(s.phase(), Phase::LoadingSource);
    assert_eq!(s.score(), 5);
    assert_eq!(s.verdicts(), &vec![true]);
    assert_eq!(s.report(), report);
    assert_eq!(s.checksum().map(|c| c.to_string()), checksum);
    assert_eq!(s.image(), "judge:latest");
    assert_eq!(s.catalog().len(), 2);
    assert_eq!(s.failure(), None);
    assert!(!s.is_over());
}

#[test]
fn teardown_releases_what_is_held_at_every_stage() {
    let mut s = session(vec![case("a", 5)]);
    assert_eq!(s.clean_up(), Vec::<Action>::new());
    assert_eq!(s.stage(), Stage::AwaitingUpload);

    let mut s = session(vec![case("a", 5)]);
    upload(&mut s);
    assert_eq!(s.clean_up(), vec![Action::RemoveDir("/tmp/ws".to_string())]);
    assert_eq!(s.stage(), Stage::Provisioning);

    let mut s = session(vec![case("a", 5)]);
    upload(&mut s);
    go(&mut s, Event::Step);
    go(&mut s, exited(true, "c0ffee", ""));
    assert_eq!(s.clean_up(), teardown_of_both());
    assert_eq!(s.stage(), Stage::Provisioning);
    assert_eq!(s.phase(), Phase::Starting);

    let mut s = session(vec![case("a", 5)]);
    build(&mut s);
    run_case(&mut s, "1", "1");
    assert_eq!(s.clean_up(), teardown_of_both());
    assert_eq!(s.score(), 5);
    assert_eq!(s.stage(), Stage::Finalizing);

    let mut s = session(Vec::new());
    build(&mut s);
    go(&mut s, Event::Step);
    go(&mut s, exited(true, "SIGNED", ""));
    assert_eq!(s.clean_up(), Vec::<Action>::new());
    assert_eq!(s.stage(), Stage::Done);

    let mut s = session(vec![case("a", 5)]);
    go(&mut s, Event::Step);
    assert_eq!(s.stage(), Stage::Failed);
    assert_eq!(s.clean_up(), Vec::<Action>::new());
    assert_eq!(s.stage(), Stage::Failed);
    assert!(protocol_error(&s));
}

#[test]
fn build_after_teardown_is_an_illegal_operation() {
    let mut s = session(vec![case("a", 5)]);
    provision(&mut s);
    s.clean_up();
    assert_eq!(s.stage(), Stage::Building);
    let actions = go(&mut s, Event::Step);
    assert_eq!(actions, vec![text("[copy files]"), text("illegal operation"), Action::Close]);
    assert_eq!(s.stage(), Stage::Failed);
    assert_eq!(s.failure(), Some(&PipelineError::BuildFailure("illegal operation".to_string())));

    let mut s = session(vec![case("a", 5)]);
    provision(&mut s);
    go(&mut s, Event::Step);
    go(&mut s, exited(true, "", ""));
    s.clean_up();
    let actions = go(&mut s, exited(true, "", ""));
    assert_eq!(
        actions,
        vec![
            text("finished with exit status: 0"),
            text("[run cmake]"),
            text("illegal operation"),
            Action::Close,
        ]
    );
    assert_eq!(s.failure(), Some(&PipelineError::BuildFailure("illegal operation".to_string())));
}

#[test]
fn case_after_teardown_is_an_illegal_operation() {
    let mut s = session(vec![case("a", 5)]);
    build(&mut s);
    s.clean_up();
    assert_eq!(
        go(&mut s, Event::Step),
        vec![text("[compile a]"), Action::Load("cases/a.c".to_string())]
    );
    go(&mut s, Event::Loaded("".to_string()));
    go(&mut s, Event::Loaded("".to_string()));
    let actions = go(&mut s, Event::Loaded("".to_string()));
    assert_eq!(actions, vec![text("illegal operation"), Action::Close]);
    assert_eq!(
        s.failure(),
        Some(&PipelineError::ExecutionFailure("illegal operation".to_string()))
    );
    assert_eq!(s.score(), 0);
}

#[test]
fn signing_after_teardown_is_an_illegal_operation() {
    let mut s = session(vec![case("a", 5)]);
    build(&mut s);
    run_case(&mut s, "1", "1");
    s.clean_up();
    assert_eq!(s.stage(), Stage::Finalizing);
    let actions = go(&mut s, Event::Step);
    assert_eq!(actions, vec![text("[gpg report]"), text("illegal operation"), Action::Close]);
    assert_eq!(s.stage(), Stage::Failed);
    assert_eq!(
        s.failure(),
        Some(&PipelineError::SigningFailure("illegal operation".to_string()))
    );
    assert_eq!(s.report(), "test a, score: 5, success: true\n");
    assert_eq!(s.score(), 5);
}

#[test]
fn provisioning_after_teardown_makes_an_environment_that_is_torn_down_in_turn() {
    let mut s = session(vec![case("a", 5)]);
    upload(&mut s);
    s.clean_up();
    assert_eq!(go(&mut s, Event::Step), vec![Action::Run(Command::create("judge:latest"))]);
    go(&mut s, exited(true, "c0ffee\n", ""));
    go(&mut s, exited(true, "", ""));
    assert_eq!(s.stage(), Stage::Building);
    let actions = go(&mut s, Event::Step);
    assert_eq!(
        actions,
        vec![
            text("[copy files]"),
            text("illegal operation"),
            Action::Close,
            Action::Discard(Command::kill("c0ffee")),
            Action::Discard(Command::remove("c0ffee")),
        ]
    );
    assert_eq!(s.environment(), None);
}

#[test]
fn handle_stamps_the_report_with_the_time() {
    let mut s = session(Vec::new());
    for event in [
        Event::Upload(b"archive".to_vec()),
        Event::Stored("/tmp/ws".to_string()),
        Event::Step,
        exited(true, "c0ffee\n", ""),
        exited(true, "", ""),
        Event::Step,
        exited(true, "", ""),
        exited(true, "", ""),
        exited(true, "", ""),
        exited(true, "", ""),
    ] {
        s.handle(event);
    }
    assert_eq!(s.stage(), Stage::Finalizing);
    let actions = s.handle(Event::Step);
    assert_eq!(actions.len(), 2);
    let report = s.report().to_string();
    assert!(report.starts_with("datetime: 2"));
    let rest = format!(
        "\ntotal score: 0\nfile checksum: {}\ndocker uuid: c0ffee\n\n",
        checksum(b"archive")
    );
    assert!(report.ends_with(&rest));
    assert!(report.len() > "datetime: ".len() + rest.len() + 18);
    assert_eq!(actions[1], Action::Run(Command::sign(&report)));
}

#[test]
fn catalog_whose_scores_overflow_is_refused() {
    assert!(TestCatalog::new(vec![case("a", usize::MAX), case("b", 1)]).is_none());
    let catalog = TestCatalog::new(vec![case("a", usize::MAX - 1), case("b", 1)]).unwrap();
    assert_eq!(catalog.total(), usize::MAX);
    assert_eq!(catalog.len(), 2);
    assert_eq!(catalog.case(1), &case("b", 1));
    assert_eq!(TestCatalog::new(Vec::new()).unwrap().total(), 0);
}

#[test]
fn stages_are_visited_in_order() {
    let mut s = session(vec![case("a", 5), case("b", 10)]);
    let mut seen = vec![s.stage()];
    let events = vec![
        Event::Upload(b"archive".to_vec()),
        Event::Stored("/tmp/ws".to_string()),
        Event::Step,
        exited(true, "c0ffee\n", ""),
        exited(true, "", ""),
        Event::Step,
        exited(true, "", ""),
        exited(true, "", ""),
        exited(true, "", ""),
        exited(true, "", ""),
    ];
    for event in events {
        go(&mut s, event);
        if *seen.last().unwrap() != s.stage() {
            seen.push(s.stage());
        }
    }
    run_case(&mut s, "1", "1");
    seen.push(s.stage());
    run_case(&mut s, "1", "1");
    seen.push(s.stage());
    go(&mut s, Event::Step);
    go(&mut s, exited(true, "SIGNED", ""));
    seen.push(s.stage());
    assert_eq!(
        seen,
        vec![
            Stage::AwaitingUpload,
            Stage::Provisioning,
            Stage::Building,
            Stage::Executing(0),
            Stage::Executing(1),
            Stage::Finalizing,
            Stage::Done,
        ]
    );
    assert!(Stage::Done.is_terminal());
    assert!(Stage::Failed.is_terminal());
    assert!(!Stage::Executing(3).is_terminal());
    assert!(Phase::Emulating.is_in_case());
    assert!(!Phase::Signing.is_in_case());
}
