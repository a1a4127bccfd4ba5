use vstd::prelude::*;

use crate::catalog::{earned, total_weight, TestCaseView};
use crate::checksum::checksum_text;
use crate::command::{
    assemble_command, build_command, configure_command, copy_command, create_command,
    emulate_command, extract_command, kill_command, remove_command, sign_command, start_command,
    generate_command,
};
use crate::compare::{comparable, line_diff, rendered, DiffLineView};
use crate::error::ErrorView;
use crate::protocol::{ActionView, EventView, ProcessOutputView};
use crate::report::{case_line, case_lines, summary};
use crate::stage::{Phase, Stage};
use crate::text::{decoded, trimmed};

verus! {

/// A session as plain values.
pub struct SessionView {
    /// The image that the environment is created from.
    pub image: Seq<char>,
    /// The test cases, in the order in which they are run and reported.
    pub catalog: Seq<TestCaseView>,
    /// The directory that holds the uploaded archive, while there is one.
    pub workspace: Option<Seq<char>>,
    /// The identifier of the environment, while there is one.
    pub environment: Option<Seq<char>>,
    /// The checksum of the uploaded archive, once it has arrived.
    pub checksum: Option<Seq<char>>,
    /// The report written so far.
    pub report: Seq<char>,
    /// The score earned so far.
    pub score: nat,
    /// For each case judged so far, whether it passed.
    pub verdicts: Seq<bool>,
    pub stage: Stage,
    pub phase: Phase,
    /// The error that aborted the session, if one did.
    pub failure: Option<ErrorView>,
    /// Whether every build step so far reported success.
    pub healthy: bool,
    /// The program text of the case that is being run.
    pub source: Seq<char>,
    /// The input of the case that is being run.
    pub input: Seq<char>,
    /// The expected output of the case that is being run.
    pub expected: Seq<char>,
}

/// What a session makes of an event: the session afterwards, and what it
/// asks of its host, in order.
pub struct Outcome {
    pub next: SessionView,
    pub actions: Seq<ActionView>,
}

/// The stage in which case `k` of `cases` is run, or the one that follows the
/// last case.
pub open spec fn stage_of_case(k: nat, cases: nat) -> Stage {
    if k < cases {
        Stage::Executing(k as usize)
    } else {
        Stage::Finalizing
    }
}

/// The description of a message that the current stage does not accept.
pub open spec fn no_such_command() -> Seq<char> {
    "[error: no such command]"@
}

/// The description of a message of a kind that no stage accepts.
pub open spec fn unexpected_message() -> Seq<char> {
    "unexpected message"@
}

/// The description of a step that needs a workspace or an environment which
/// the session no longer holds.
pub open spec fn illegal_operation() -> Seq<char> {
    "illegal operation"@
}

/// The description of process output that is not text.
pub open spec fn not_text() -> Seq<char> {
    "output is not valid UTF-8"@
}

/// The text that announces the exit status of a process.
pub open spec fn finished_with(status: Seq<char>) -> Seq<char> {
    "finished with "@ + status
}

/// A progress line about the case called `name`.
pub open spec fn headline(before: Seq<char>, name: Seq<char>, after: Seq<char>) -> Seq<char> {
    before + name + after
}

/// The lines of a comparison as messages to the client.
pub open spec fn diff_messages(lines: Seq<DiffLineView>) -> Seq<ActionView> {
    Seq::new(lines.len(), |i: int| ActionView::Text(rendered(lines[i])))
}

/// What the client is shown of the differences between the expected and the
/// actual output of a case that did not pass: the comparison of the two line
/// by line, both without the white space at their ends, or a note where they
/// are too large to be compared.
pub open spec fn difference_messages(expected: Seq<char>, actual: Seq<char>) -> Seq<ActionView> {
    if comparable(trimmed(expected), trimmed(actual)) {
        diff_messages(line_diff(trimmed(expected), trimmed(actual)))
    } else {
        seq![ActionView::Text("[too large to compare line by line]"@)]
    }
}

impl SessionView {
    /// A session that has just been accepted.
    pub open spec fn fresh(image: Seq<char>, catalog: Seq<TestCaseView>) -> SessionView {
        SessionView {
            image,
            catalog,
            workspace: None,
            environment: None,
            checksum: None,
            report: Seq::empty(),
            score: 0,
            verdicts: Seq::empty(),
            stage: Stage::AwaitingUpload,
            phase: Phase::Idle,
            failure: None,
            healthy: true,
            source: Seq::empty(),
            input: Seq::empty(),
            expected: Seq::empty(),
        }
    }

    /// Whether the report holds the lines of the judged cases and nothing
    /// else: so it is until the closing block is appended.
    pub open spec fn report_open(self) -> bool {
        match self.stage {
            Stage::Finalizing => !(self.phase is Signing),
            Stage::Done => false,
            Stage::Failed => false,
            _ => true,
        }
    }

    /// What holds of every session, whatever it has been told. Teardown may
    /// have run at any stage, so a stage does not tell whether the session
    /// still holds its workspace and its environment.
    pub open spec fn inv(self) -> bool {
        &&& self.catalog.len() <= usize::MAX
        &&& total_weight(self.catalog) <= usize::MAX
        &&& self.verdicts.len() <= self.catalog.len()
        &&& self.score == earned(self.catalog, self.verdicts)
        &&& self.report_open() ==> self.report == case_lines(self.catalog, self.verdicts)
        &&& !(self.stage is Failed) ==> self.failure is None
        &&& match self.stage {
            Stage::AwaitingUpload => {
                &&& self.verdicts.len() == 0
                &&& self.workspace is None
                &&& self.environment is None
                &&& self.phase is Idle ==> self.checksum is None
                &&& self.phase is Storing ==> self.checksum is Some
            },
            Stage::Provisioning => {
                &&& self.verdicts.len() == 0
                &&& self.checksum is Some
                &&& self.environment is Some ==> self.phase is Starting
            },
            Stage::Building => {
                &&& self.verdicts.len() == 0
                &&& self.checksum is Some
            },
            Stage::Executing(k) => {
                &&& k < self.catalog.len()
                &&& self.verdicts.len() == k
                &&& self.checksum is Some
            },
            Stage::Finalizing => {
                &&& self.verdicts.len() == self.catalog.len()
                &&& self.checksum is Some
            },
            Stage::Done => {
                &&& self.verdicts.len() == self.catalog.len()
                &&& self.workspace is None
                &&& self.environment is None
            },
            Stage::Failed => true,
        }
    }

    /// What teardown asks of the host: to delete the workspace, and to stop
    /// the environment by force and remove it, each where the session holds
    /// one.
    pub open spec fn release_actions(self) -> Seq<ActionView> {
        (match self.workspace {
            Some(path) => seq![ActionView::RemoveDir(path)],
            None => Seq::empty(),
        }) + (match self.environment {
            Some(id) => seq![
                ActionView::Discard(kill_command(id)),
                ActionView::Discard(remove_command(id)),
            ],
            None => Seq::empty(),
        })
    }

    /// Teardown: the session lets go of its workspace and its environment.
    /// Nothing else changes.
    pub open spec fn clean_up(self) -> Outcome {
        Outcome {
            next: SessionView { workspace: None, environment: None, ..self },
            actions: self.release_actions(),
        }
    }

    /// The session is aborted by `error`: the client is told, the connection
    /// is closed, and teardown runs.
    pub open spec fn fail(self, error: ErrorView) -> Outcome {
        Outcome {
            next: SessionView {
                workspace: None,
                environment: None,
                stage: Stage::Failed,
                phase: Phase::Idle,
                failure: Some(error),
                ..self
            },
            actions: seq![ActionView::Text(error.message()), ActionView::Close]
                + self.release_actions(),
        }
    }

    /// The session is aborted by `error` after the messages `shown` have been
    /// sent.
    pub open spec fn fail_after(self, shown: Seq<ActionView>, error: ErrorView) -> Outcome {
        Outcome { next: self.fail(error).next, actions: shown + self.fail(error).actions }
    }

    /// A message that the session does not accept is rejected: the client is
    /// told and the connection is closed. The workspace and the environment
    /// are left to the teardown that follows when the session is discarded.
    pub open spec fn reject(self, detail: Seq<char>) -> Outcome {
        Outcome {
            next: SessionView {
                stage: Stage::Failed,
                phase: Phase::Idle,
                failure: Some(ErrorView::ProtocolError(detail)),
                ..self
            },
            actions: seq![
                ActionView::Text(ErrorView::ProtocolError(detail).message()),
                ActionView::Close,
            ],
        }
    }

    /// The session goes on to `phase` and asks for `actions`.
    pub open spec fn proceed(self, phase: Phase, actions: Seq<ActionView>) -> Outcome {
        Outcome { next: SessionView { phase, ..self }, actions }
    }

    /// The stage `AwaitingUpload`: the archive arrives, is given its
    /// checksum and is stored.
    pub open spec fn recv_file(self, event: EventView) -> Outcome {
        match self.phase {
            Phase::Idle => match event {
                EventView::Upload(data) => Outcome {
                    next: SessionView {
                        checksum: Some(checksum_text(data)),
                        phase: Phase::Storing,
                        ..self
                    },
                    actions: seq![ActionView::Store(data)],
                },
                _ => self.reject(no_such_command()),
            },
            Phase::Storing => match event {
                EventView::Stored(path) => Outcome {
                    next: SessionView {
                        workspace: Some(path),
                        stage: Stage::Provisioning,
                        phase: Phase::Idle,
                        ..self
                    },
                    actions: seq![ActionView::Text("[file received]\n"@), ActionView::Ping],
                },
                EventView::Failed(why) => self.fail(ErrorView::UploadIO(why)),
                _ => self.reject(no_such_command()),
            },
            _ => self.reject(no_such_command()),
        }
    }

    /// The stage `Provisioning`, once the environment has been created and
    /// the runtime has printed `output`.
    pub open spec fn created(self, output: ProcessOutputView) -> Outcome {
        match decoded(output.stdout) {
            Some(printed) => if output.success {
                let id = trimmed(printed);
                Outcome {
                    next: SessionView { environment: Some(id), phase: Phase::Starting, ..self },
                    actions: seq![
                        ActionView::Text(headline("created docker: "@, id, "\n"@)),
                        ActionView::Run(start_command(id)),
                    ],
                }
            } else {
                self.fail(ErrorView::EnvironmentProvisionFailure("create"@))
            },
            None => self.fail(ErrorView::EnvironmentProvisionFailure(not_text())),
        }
    }

    /// The stage `Provisioning`, once the attempt to start the environment
    /// has ended. An environment that did not start is removed before the
    /// error is reported.
    pub open spec fn started(self, output: ProcessOutputView) -> Outcome {
        if output.success {
            Outcome {
                next: SessionView { stage: Stage::Building, phase: Phase::Idle, ..self },
                actions: seq![ActionView::Text("docker started\n"@), ActionView::Ping],
            }
        } else {
            let removal = match self.environment {
                Some(id) => seq![ActionView::Discard(remove_command(id))],
                None => Seq::empty(),
            };
            let failed = SessionView { environment: None, ..self }.fail(
                ErrorView::EnvironmentProvisionFailure("start"@),
            );
            Outcome { next: failed.next, actions: removal + failed.actions }
        }
    }

    /// The stage `Provisioning`: an environment is created from the image
    /// and started.
    pub open spec fn start_docker(self, event: EventView) -> Outcome {
        match self.phase {
            Phase::Idle => match event {
                EventView::Step => self.proceed(
                    Phase::Creating,
                    seq![ActionView::Run(create_command(self.image))],
                ),
                _ => self.reject(no_such_command()),
            },
            Phase::Creating => match event {
                EventView::Exited(output) => self.created(output),
                EventView::Failed(why) => self.fail(ErrorView::EnvironmentProvisionFailure(why)),
                _ => self.reject(no_such_command()),
            },
            Phase::Starting => match event {
                EventView::Exited(output) => self.started(output),
                EventView::Failed(why) => self.fail(ErrorView::EnvironmentProvisionFailure(why)),
                _ => self.reject(no_such_command()),
            },
            _ => self.reject(no_such_command()),
        }
    }

    /// The stage `Building`, once the build files have been generated.
    pub open spec fn configured(self, output: ProcessOutputView) -> Outcome {
        match (decoded(output.stdout), decoded(output.stderr)) {
            (Some(printed), Some(errors)) => {
                let shown = seq![
                    ActionView::Text(printed),
                    ActionView::Text("[cmake stderr]"@),
                    ActionView::Text(errors),
                    ActionView::Text("[build]"@),
                ];
                match self.environment {
                    Some(id) => Outcome {
                        next: SessionView {
                            phase: Phase::Compiling,
                            healthy: self.healthy && output.success,
                            ..self
                        },
                        actions: shown + seq![ActionView::Run(build_command(id))],
                    },
                    None => self.fail_after(
                        shown,
                        ErrorView::BuildFailure(illegal_operation()),
                    ),
                }
            },
            _ => self.fail(ErrorView::BuildFailure(not_text())),
        }
    }

    /// The stage `Building`, once the build has ended: its output is shown,
    /// and the session goes on to the first case if every build step
    /// reported success.
    pub open spec fn built(self, output: ProcessOutputView) -> Outcome {
        match (decoded(output.stdout), decoded(output.stderr)) {
            (Some(printed), Some(errors)) => {
                let shown = seq![
                    ActionView::Text(printed),
                    ActionView::Text("[build stderr]"@),
                    ActionView::Text(errors),
                ];
                if self.healthy && output.success {
                    Outcome {
                        next: SessionView {
                            stage: stage_of_case(0, self.catalog.len()),
                            phase: Phase::Idle,
                            ..self
                        },
                        actions: shown + seq![ActionView::Ping],
                    }
                } else {
                    self.fail_after(shown, ErrorView::BuildFailure("compile"@))
                }
            },
            _ => self.fail(ErrorView::BuildFailure(not_text())),
        }
    }

    /// The stage `Building`: the archive is copied into the environment and
    /// unpacked, the build files are generated, and the submission is built.
    /// All four steps are run; the build has failed if unpacking, generating
    /// or building did not report success. A step that needs a workspace or
    /// an environment which the session no longer holds fails the build.
    pub open spec fn compile(self, event: EventView) -> Outcome {
        let gone = ErrorView::BuildFailure(illegal_operation());
        match self.phase {
            Phase::Idle => match event {
                EventView::Step => {
                    let shown = seq![ActionView::Text("[copy files]"@)];
                    match (self.workspace, self.environment) {
                        (Some(path), Some(id)) => self.proceed(
                            Phase::Copying,
                            shown + seq![ActionView::Run(copy_command(path, id))],
                        ),
                        _ => self.fail_after(shown, gone),
                    }
                },
                _ => self.reject(no_such_command()),
            },
            Phase::Copying => match event {
                EventView::Exited(output) => {
                    let shown = seq![ActionView::Text("[untar files]"@)];
                    match self.environment {
                        Some(id) => self.proceed(
                            Phase::Extracting,
                            shown + seq![ActionView::Run(extract_command(id))],
                        ),
                        None => self.fail_after(shown, gone),
                    }
                },
                EventView::Failed(why) => self.fail(ErrorView::BuildFailure(why)),
                _ => self.reject(no_such_command()),
            },
            Phase::Extracting => match event {
                EventView::Exited(output) => {
                    let shown = seq![
                        ActionView::Text(finished_with(output.status)),
                        ActionView::Text("[run cmake]"@),
                    ];
                    match self.environment {
                        Some(id) => Outcome {
                            next: SessionView {
                                phase: Phase::Configuring,
                                healthy: output.success,
                                ..self
                            },
                            actions: shown + seq![ActionView::Run(configure_command(id))],
                        },
                        None => self.fail_after(shown, gone),
                    }
                },
                EventView::Failed(why) => self.fail(ErrorView::BuildFailure(why)),
                _ => self.reject(no_such_command()),
            },
            Phase::Configuring => match event {
                EventView::Exited(output) => self.configured(output),
                EventView::Failed(why) => self.fail(ErrorView::BuildFailure(why)),
                _ => self.reject(no_such_command()),
            },
            Phase::Compiling => match event {
                EventView::Exited(output) => self.built(output),
                EventView::Failed(why) => self.fail(ErrorView::BuildFailure(why)),
                _ => self.reject(no_such_command()),
            },
            _ => self.reject(no_such_command()),
        }
    }

    /// Whether the output `actual` passes the case that is being run: it
    /// does if it equals the expected output, both without the white space
    /// at their ends.
    pub open spec fn passes(self, actual: Seq<char>) -> bool {
        trimmed(actual) == trimmed(self.expected)
    }

    /// The stage `Executing(k)`, once the emulated run has ended with
    /// `status`, having printed `actual` and, as errors, `errors`. A case
    /// that passes earns its score; of one that does not, the differences
    /// are shown. Either way the case gets its line in the report, and the
    /// session goes on to the next case or, after the last, to finalizing.
    pub open spec fn judged(
        self,
        k: usize,
        status: Seq<char>,
        actual: Seq<char>,
        errors: Seq<char>,
    ) -> Outcome {
        let case = self.catalog[k as int];
        let passed = self.passes(actual);
        let shown = seq![
            ActionView::Text(headline("[qemu "@, case.name, " return code]"@)),
            ActionView::Text(status),
            ActionView::Text(headline("[qemu "@, case.name, " stderr]"@)),
            ActionView::Text(errors),
        ];
        let differences = if passed {
            Seq::empty()
        } else {
            seq![ActionView::Text(headline("["@, case.name, " output differences]"@))]
                + difference_messages(self.expected, actual)
        };
        Outcome {
            next: SessionView {
                score: if passed {
                    self.score + case.score
                } else {
                    self.score
                },
                verdicts: self.verdicts.push(passed),
                report: self.report + case_line(case, passed),
                stage: stage_of_case((k + 1) as nat, self.catalog.len()),
                phase: Phase::Idle,
                ..self
            },
            actions: shown + differences + seq![ActionView::Ping],
        }
    }

    /// The stage `Executing(k)`, once a file or a process has answered. A
    /// command that is to run in an environment which the session no longer
    /// holds aborts the session.
    pub open spec fn case_answered(self, k: usize, event: EventView) -> Outcome {
        let case = self.catalog[k as int];
        let gone = ErrorView::ExecutionFailure(illegal_operation());
        match self.phase {
            Phase::LoadingSource => match event {
                EventView::Loaded(text) => Outcome {
                    next: SessionView { phase: Phase::LoadingInput, source: text, ..self },
                    actions: seq![ActionView::Load(case.input_file)],
                },
                _ => self.reject(no_such_command()),
            },
            Phase::LoadingInput => match event {
                EventView::Loaded(text) => Outcome {
                    next: SessionView { phase: Phase::LoadingExpected, input: text, ..self },
                    actions: seq![ActionView::Load(case.output_file)],
                },
                _ => self.reject(no_such_command()),
            },
            Phase::LoadingExpected => match event {
                EventView::Loaded(text) => match self.environment {
                    Some(id) => Outcome {
                        next: SessionView { phase: Phase::Generating, expected: text, ..self },
                        actions: seq![ActionView::Run(generate_command(id, self.source))],
                    },
                    None => self.fail(gone),
                },
                _ => self.reject(no_such_command()),
            },
            Phase::Generating => match event {
                EventView::Exited(output) => match decoded(output.stdout) {
                    Some(code) => {
                        let shown = seq![
                            ActionView::Text(finished_with(output.status)),
                            ActionView::Text(headline("[gcc "@, case.name, "]\n"@)),
                        ];
                        match self.environment {
                            Some(id) => self.proceed(
                                Phase::Assembling,
                                shown + seq![
                                    ActionView::Run(assemble_command(id, trimmed(code))),
                                ],
                            ),
                            None => self.fail_after(shown, gone),
                        }
                    },
                    None => self.fail(ErrorView::ExecutionFailure(not_text())),
                },
                _ => self.reject(no_such_command()),
            },
            Phase::Assembling => match event {
                EventView::Exited(output) => match decoded(output.stderr) {
                    Some(errors) => {
                        let shown = seq![
                            ActionView::Text(finished_with(output.status)),
                            ActionView::Text(headline("[gcc "@, case.name, " stderr]\n"@)),
                            ActionView::Text(errors),
                            ActionView::Text(headline("[qemu "@, case.name, "]\n"@)),
                        ];
                        match self.environment {
                            Some(id) => self.proceed(
                                Phase::Emulating,
                                shown + seq![
                                    ActionView::Run(emulate_command(id, trimmed(self.input))),
                                ],
                            ),
                            None => self.fail_after(shown, gone),
                        }
                    },
                    None => self.fail(ErrorView::ExecutionFailure(not_text())),
                },
                _ => self.reject(no_such_command()),
            },
            Phase::Emulating => match event {
                EventView::Exited(output) => match (
                    decoded(output.stdout),
                    decoded(output.stderr),
                ) {
                    (Some(actual), Some(errors)) => self.judged(k, output.status, actual, errors),
                    _ => self.fail(ErrorView::ExecutionFailure(not_text())),
                },
                _ => self.reject(no_such_command()),
            },
            _ => self.reject(no_such_command()),
        }
    }

    /// The stage `Executing(k)`: the files of case `k` are read, the built
    /// artifact generates code from the program text, the generated code is
    /// assembled, the executable runs under the emulator, and its output is
    /// judged. A file or a process that fails aborts the session; an output
    /// that differs does not.
    pub open spec fn run_cases(self, k: usize, event: EventView) -> Outcome {
        let case = self.catalog[k as int];
        match self.phase {
            Phase::Idle => match event {
                EventView::Step => self.proceed(
                    Phase::LoadingSource,
                    seq![
                        ActionView::Text(headline("[compile "@, case.name, "]"@)),
                        ActionView::Load(case.source),
                    ],
                ),
                _ => self.reject(no_such_command()),
            },
            _ => match event {
                EventView::Failed(why) => if self.phase.in_case() {
                    self.fail(ErrorView::ExecutionFailure(why))
                } else {
                    self.reject(no_such_command())
                },
                _ => self.case_answered(k, event),
            },
        }
    }

    /// The stage `Finalizing`: the closing block, with the time `stamp`, is
    /// appended to the report, the report is signed, and the signed text is
    /// sent to the client as the last message of a session that is `Done`.
    /// A session that no longer holds its environment has nothing to report
    /// of it and is aborted, its report as it was.
    pub open spec fn gpg(self, event: EventView, stamp: Seq<char>) -> Outcome {
        match self.phase {
            Phase::Idle => match event {
                EventView::Step => {
                    let shown = seq![ActionView::Text("[gpg report]"@)];
                    match self.environment {
                        Some(id) => {
                            let report = self.report + summary(
                                stamp,
                                self.score,
                                self.checksum.unwrap(),
                                id,
                            );
                            Outcome {
                                next: SessionView { report, phase: Phase::Signing, ..self },
                                actions: shown + seq![ActionView::Run(sign_command(report))],
                            }
                        },
                        None => self.fail_after(
                            shown,
                            ErrorView::SigningFailure(illegal_operation()),
                        ),
                    }
                },
                _ => self.reject(no_such_command()),
            },
            Phase::Signing => match event {
                EventView::Exited(output) => match decoded(output.stdout) {
                    Some(signed) => if output.success {
                        Outcome {
                            next: SessionView {
                                workspace: None,
                                environment: None,
                                stage: Stage::Done,
                                phase: Phase::Idle,
                                ..self
                            },
                            actions: seq![ActionView::Text(signed), ActionView::Close]
                                + self.release_actions(),
                        }
                    } else {
                        self.fail(ErrorView::SigningFailure("gpg"@))
                    },
                    None => self.fail(ErrorView::SigningFailure(not_text())),
                },
                EventView::Failed(why) => self.fail(ErrorView::SigningFailure(why)),
                _ => self.reject(no_such_command()),
            },
            _ => self.reject(no_such_command()),
        }
    }

    /// What the session makes of `event`. `stamp` is the time that is
    /// written into the report if the event begins the signing.
    ///
    /// A session that is over takes no notice of anything. A session under
    /// way rejects what the transport could not read and messages of a kind
    /// that it does not know, and hands everything else to its stage.
    pub open spec fn step(self, event: EventView, stamp: Seq<char>) -> Outcome {
        match self.stage {
            Stage::Done => Outcome { next: self, actions: Seq::empty() },
            Stage::Failed => Outcome { next: self, actions: Seq::empty() },
            _ => match event {
                EventView::Garbled(why) => self.reject(why),
                EventView::Unexpected => self.reject(unexpected_message()),
                _ => match self.stage {
                    Stage::AwaitingUpload => self.recv_file(event),
                    Stage::Provisioning => self.start_docker(event),
                    Stage::Building => self.compile(event),
                    Stage::Executing(k) => self.run_cases(k, event),
                    _ => self.gpg(event, stamp),
                },
            },
        }
    }
}

} // verus!
