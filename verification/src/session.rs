use std::sync::Arc;
use vstd::prelude::*;
use vstd::string::*;

use crate::catalog::{
    lemma_earned_bounded, lemma_earned_push, lemma_weight_monotonic, TestCatalog,
};
use crate::checksum::checksum;
use crate::clock::local_timestamp;
use crate::command::Command;
use crate::compare::{differences, rendered};
use crate::error::PipelineError;
use crate::laws::{lemma_clean_up_preserves_inv, lemma_step_preserves_inv};
use crate::model::{diff_messages, finished_with, headline, stage_of_case, SessionView};
use crate::protocol::{emit, emit_all, no_actions, say, Action, ActionView, Event, ProcessOutput};
use crate::report::{append_case_line, append_summary};
use crate::stage::{Phase, Stage};
use crate::text::{decode, outputs_match, trim};

verus! {

/// One grading session: the state of one connection, from the upload of a
/// submission to the signed report.
///
/// A session does no outside work itself. It is told what happened, one
/// event at a time, and answers each event with the actions that its host
/// is to carry out.
#[derive(Debug)]
pub struct Session {
    image: String,
    catalog: Arc<TestCatalog>,
    workspace: Option<String>,
    environment: Option<String>,
    checksum: Option<String>,
    report: String,
    score: usize,
    verdicts: Vec<bool>,
    stage: Stage,
    phase: Phase,
    failure: Option<PipelineError>,
    healthy: bool,
    source: String,
    input: String,
    expected: String,
}

impl View for Session {
    type V = SessionView;

    closed spec fn view(&self) -> SessionView {
        SessionView {
            image: self.image@,
            catalog: self.catalog@,
            workspace: self.workspace.deep_view(),
            environment: self.environment.deep_view(),
            checksum: self.checksum.deep_view(),
            report: self.report@,
            score: self.score as nat,
            verdicts: self.verdicts@,
            stage: self.stage,
            phase: self.phase,
            failure: self.failure.deep_view(),
            healthy: self.healthy,
            source: self.source@,
            input: self.input@,
            expected: self.expected@,
        }
    }
}

fn headline_text(before: &str, name: &str, after: &str) -> (text: String)
    ensures
        text@ == headline(before@, name@, after@),
{
    let mut text = String::from_str(before);
    text.append(name);
    text.append(after);
    text
}

fn finished_text(status: &str) -> (text: String)
    ensures
        text@ == finished_with(status@),
{
    let mut text = String::from_str("finished with ");
    text.append(status);
    text
}

/// What the client is shown of the differences between the expected and the
/// actual output.
fn difference_messages(expected: &str, actual: &str) -> (actions: Vec<Action>)
    ensures
        actions.deep_view() == crate::model::difference_messages(expected@, actual@),
{
    let lines = match differences(expected, actual) {
        Some(lines) => lines,
        None => {
            let mut actions = no_actions();
            say(&mut actions, "[too large to compare line by line]");
            return actions;
        },
    };
    let mut actions: Vec<Action> = Vec::new();
    let mut i: usize = 0;
    while i < lines.len()
        invariant
            i <= lines.len(),
            actions.len() == i,
            forall|j: int|
                0 <= j < i ==> (#[trigger] actions[j])@ == ActionView::Text(rendered(lines[j]@)),
        decreases lines.len() - i,
    {
        actions.push(Action::Text(lines[i].render()));
        i = i + 1;
    }
    assert(actions.deep_view() =~= diff_messages(lines.deep_view()));
    actions
}

impl Session {
    /// What holds of every session, whatever it has been told.
    pub open spec fn inv(&self) -> bool {
        self@.inv()
    }

    /// A session for a connection that has just been accepted. It waits for
    /// the upload and holds neither workspace nor environment.
    pub fn new(image: String, catalog: Arc<TestCatalog>) -> (session: Session)
        ensures
            session@ == SessionView::fresh(image@, catalog@),
            session.inv(),
    {
        // The total and the length are read for their bounds.
        let _total: usize = catalog.total();
        let _cases: usize = catalog.len();
        Session {
            image,
            catalog,
            workspace: None,
            environment: None,
            checksum: None,
            report: String::new(),
            score: 0,
            verdicts: Vec::new(),
            stage: Stage::AwaitingUpload,
            phase: Phase::Idle,
            failure: None,
            healthy: true,
            source: String::new(),
            input: String::new(),
            expected: String::new(),
        }
    }

    /// The image that the environment is created from.
    pub fn image(&self) -> (image: &str)
        ensures
            image@ == self@.image,
    {
        self.image.as_str()
    }

    /// The catalog of test cases.
    pub fn catalog(&self) -> (catalog: &TestCatalog)
        ensures
            catalog@ == self@.catalog,
    {
        &self.catalog
    }

    /// The stage that the session is in.
    pub fn stage(&self) -> (stage: Stage)
        ensures
            stage == self@.stage,
    {
        self.stage
    }

    /// What the session is waiting for within its stage.
    pub fn phase(&self) -> (phase: Phase)
        ensures
            phase == self@.phase,
    {
        self.phase
    }

    /// Whether the session is over.
    pub fn is_over(&self) -> (over: bool)
        ensures
            over == self@.stage.terminal(),
    {
        self.stage.is_terminal()
    }

    /// The score earned so far.
    pub fn score(&self) -> (score: usize)
        ensures
            score == self@.score,
    {
        self.score
    }

    /// For each case judged so far, whether it passed.
    pub fn verdicts(&self) -> (verdicts: &Vec<bool>)
        ensures
            verdicts@ == self@.verdicts,
    {
        &self.verdicts
    }

    /// The report written so far.
    pub fn report(&self) -> (report: &str)
        ensures
            report@ == self@.report,
    {
        self.report.as_str()
    }

    /// The checksum of the uploaded archive, once it has arrived.
    pub fn checksum(&self) -> (checksum: Option<&str>)
        ensures
            checksum.deep_view() == self@.checksum,
    {
        match &self.checksum {
            Some(text) => Some(text.as_str()),
            None => None,
        }
    }

    /// The directory that holds the uploaded archive, while there is one.
    pub fn workspace(&self) -> (workspace: Option<&str>)
        ensures
            workspace.deep_view() == self@.workspace,
    {
        match &self.workspace {
            Some(path) => Some(path.as_str()),
            None => None,
        }
    }

    /// The identifier of the environment, while there is one.
    pub fn environment(&self) -> (environment: Option<&str>)
        ensures
            environment.deep_view() == self@.environment,
    {
        match &self.environment {
            Some(id) => Some(id.as_str()),
            None => None,
        }
    }

    /// The error that aborted the session, if one did.
    pub fn failure(&self) -> (failure: Option<&PipelineError>)
        ensures
            failure.deep_view() == self@.failure,
    {
        self.failure.as_ref()
    }

    /// Lets go of the workspace and the environment, and asks the host to
    /// remove them.
    fn release(&mut self) -> (actions: Vec<Action>)
        ensures
            final(self)@ == (SessionView { workspace: None, environment: None, ..old(self)@ }),
            actions.deep_view() == old(self)@.release_actions(),
    {
        let mut actions = no_actions();
        match self.workspace.take() {
            Some(path) => {
                emit(&mut actions, Action::RemoveDir(path));
            },
            None => {},
        }
        match self.environment.take() {
            Some(id) => {
                emit(&mut actions, Action::Discard(Command::kill(id.as_str())));
                emit(&mut actions, Action::Discard(Command::remove(id.as_str())));
            },
            None => {},
        }
        actions
    }

    /// Teardown. The session lets go of its workspace and its environment
    /// and asks the host to delete the one and to stop and remove the other.
    /// Nothing else changes: not the stage, the score or the report.
    /// Teardown may be run at any time and any number of times: once nothing
    /// is held, it asks for nothing.
    pub fn clean_up(&mut self) -> (actions: Vec<Action>)
        requires
            old(self).inv(),
        ensures
            final(self).inv(),
            final(self)@ == (SessionView { workspace: None, environment: None, ..old(self)@ }),
            final(self)@ == old(self)@.clean_up().next,
            actions.deep_view() == old(self)@.clean_up().actions,
    {
        proof {
            lemma_clean_up_preserves_inv(self@);
        }
        self.release()
    }

    /// Aborts the session with `error`.
    fn fail(&mut self, error: PipelineError) -> (actions: Vec<Action>)
        ensures
            final(self)@ == old(self)@.fail(error@).next,
            actions.deep_view() == old(self)@.fail(error@).actions,
    {
        let mut actions = no_actions();
        emit(&mut actions, Action::Text(String::from_str(error.message())));
        emit(&mut actions, Action::Close);
        let release = self.release();
        emit_all(&mut actions, release);
        self.stage = Stage::Failed;
        self.phase = Phase::Idle;
        self.failure = Some(error);
        actions
    }

    /// Aborts the session with `error` after the messages `shown`.
    fn fail_after(&mut self, shown: Vec<Action>, error: PipelineError) -> (actions: Vec<Action>)
        ensures
            final(self)@ == old(self)@.fail_after(shown.deep_view(), error@).next,
            actions.deep_view() == old(self)@.fail_after(shown.deep_view(), error@).actions,
    {
        let mut actions = shown;
        let failed = self.fail(error);
        emit_all(&mut actions, failed);
        actions
    }

    /// Rejects a message that the session does not accept.
    fn reject(&mut self, detail: &str) -> (actions: Vec<Action>)
        ensures
            final(self)@ == old(self)@.reject(detail@).next,
            actions.deep_view() == old(self)@.reject(detail@).actions,
    {
        let error = PipelineError::ProtocolError(String::from_str(detail));
        let mut actions = no_actions();
        emit(&mut actions, Action::Text(String::from_str(error.message())));
        emit(&mut actions, Action::Close);
        self.stage = Stage::Failed;
        self.phase = Phase::Idle;
        self.failure = Some(error);
        actions
    }

    /// The stage `AwaitingUpload`.
    fn recv_file(&mut self, event: Event) -> (actions: Vec<Action>)
        ensures
            final(self)@ == old(self)@.recv_file(event@).next,
            actions.deep_view() == old(self)@.recv_file(event@).actions,
    {
        match self.phase {
            Phase::Idle => match event {
                Event::Upload(data) => {
                    self.checksum = Some(checksum(data.as_slice()));
                    self.phase = Phase::Storing;
                    let mut actions = no_actions();
                    emit(&mut actions, Action::Store(data));
                    actions
                },
                _ => self.reject("[error: no such command]"),
            },
            Phase::Storing => match event {
                Event::Stored(path) => {
                    self.workspace = Some(path);
                    self.stage = Stage::Provisioning;
                    self.phase = Phase::Idle;
                    let mut actions = no_actions();
                    say(&mut actions, "[file received]\n");
                    emit(&mut actions, Action::Ping);
                    actions
                },
                Event::Failed(why) => self.fail(PipelineError::UploadIO(why)),
                _ => self.reject("[error: no such command]"),
            },
            _ => self.reject("[error: no such command]"),
        }
    }

    /// The stage `Provisioning`, once the environment has been created.
    fn created(&mut self, output: ProcessOutput) -> (actions: Vec<Action>)
        ensures
            final(self)@ == old(self)@.created(output@).next,
            actions.deep_view() == old(self)@.created(output@).actions,
    {
        let success = output.success;
        match decode(output.stdout) {
            Some(printed) => {
                if success {
                    let id = String::from_str(trim(printed.as_str()));
                    let mut actions = no_actions();
                    emit(
                        &mut actions,
                        Action::Text(headline_text("created docker: ", id.as_str(), "\n")),
                    );
                    emit(&mut actions, Action::Run(Command::start(id.as_str())));
                    self.environment = Some(id);
                    self.phase = Phase::Starting;
                    actions
                } else {
                    self.fail(
                        PipelineError::EnvironmentProvisionFailure(String::from_str("create")),
                    )
                }
            },
            None => self.fail(
                PipelineError::EnvironmentProvisionFailure(
                    String::from_str("output is not valid UTF-8"),
                ),
            ),
        }
    }

    /// The stage `Provisioning`, once the attempt to start the environment
    /// has ended.
    fn started(&mut self, output: ProcessOutput) -> (actions: Vec<Action>)
        ensures
            final(self)@ == old(self)@.started(output@).next,
            actions.deep_view() == old(self)@.started(output@).actions,
    {
        if output.success {
            self.stage = Stage::Building;
            self.phase = Phase::Idle;
            let mut actions = no_actions();
            say(&mut actions, "docker started\n");
            emit(&mut actions, Action::Ping);
            actions
        } else {
            let mut actions = no_actions();
            match self.environment.take() {
                Some(id) => {
                    emit(&mut actions, Action::Discard(Command::remove(id.as_str())));
                },
                None => {},
            }
            let failed = self.fail(
                PipelineError::EnvironmentProvisionFailure(String::from_str("start")),
            );
            emit_all(&mut actions, failed);
            actions
        }
    }

    /// The stage `Provisioning`.
    fn start_docker(&mut self, event: Event) -> (actions: Vec<Action>)
        ensures
            final(self)@ == old(self)@.start_docker(event@).next,
            actions.deep_view() == old(self)@.start_docker(event@).actions,
    {
        match self.phase {
            Phase::Idle => match event {
                Event::Step => {
                    let mut actions = no_actions();
                    emit(&mut actions, Action::Run(Command::create(self.image.as_str())));
                    self.phase = Phase::Creating;
                    actions
                },
                _ => self.reject("[error: no such command]"),
            },
            Phase::Creating => match event {
                Event::Exited(output) => self.created(output),
                Event::Failed(why) => self.fail(PipelineError::EnvironmentProvisionFailure(why)),
                _ => self.reject("[error: no such command]"),
            },
            Phase::Starting => match event {
                Event::Exited(output) => self.started(output),
                Event::Failed(why) => self.fail(PipelineError::EnvironmentProvisionFailure(why)),
                _ => self.reject("[error: no such command]"),
            },
            _ => self.reject("[error: no such command]"),
        }
    }

    /// A copy of the identifier of the environment, where the session holds
    /// one.
    fn held_environment(&self) -> (id: Option<String>)
        ensures
            id.deep_view() == self@.environment,
    {
        match &self.environment {
            Some(id) => Some(id.clone()),
            None => None,
        }
    }

    /// The stage `Building`, once the build files have been generated.
    fn configured(&mut self, output: ProcessOutput) -> (actions: Vec<Action>)
        ensures
            final(self)@ == old(self)@.configured(output@).next,
            actions.deep_view() == old(self)@.configured(output@).actions,
    {
        let success = output.success;
        match (decode(output.stdout), decode(output.stderr)) {
            (Some(printed), Some(errors)) => {
                let mut actions = no_actions();
                emit(&mut actions, Action::Text(printed));
                say(&mut actions, "[cmake stderr]");
                emit(&mut actions, Action::Text(errors));
                say(&mut actions, "[build]");
                match self.held_environment() {
                    Some(id) => {
                        emit(&mut actions, Action::Run(Command::build(id.as_str())));
                        self.healthy = self.healthy && success;
                        self.phase = Phase::Compiling;
                        actions
                    },
                    None => self.fail_after(
                        actions,
                        PipelineError::BuildFailure(String::from_str("illegal operation")),
                    ),
                }
            },
            _ => self.fail(
                PipelineError::BuildFailure(String::from_str("output is not valid UTF-8")),
            ),
        }
    }

    /// The stage that follows the build, or case `k - 1`.
    fn stage_of(&self, k: usize) -> (stage: Stage)
        ensures
            stage == stage_of_case(k as nat, self@.catalog.len()),
    {
        if k < self.catalog.len() {
            Stage::Executing(k)
        } else {
            Stage::Finalizing
        }
    }

    /// The stage `Building`, once the build has ended.
    fn built(&mut self, output: ProcessOutput) -> (actions: Vec<Action>)
        ensures
            final(self)@ == old(self)@.built(output@).next,
            actions.deep_view() == old(self)@.built(output@).actions,
    {
        let success = output.success;
        match (decode(output.stdout), decode(output.stderr)) {
            (Some(printed), Some(errors)) => {
                let mut actions = no_actions();
                emit(&mut actions, Action::Text(printed));
                say(&mut actions, "[build stderr]");
                emit(&mut actions, Action::Text(errors));
                if self.healthy && success {
                    emit(&mut actions, Action::Ping);
                    self.stage = self.stage_of(0);
                    self.phase = Phase::Idle;
                    actions
                } else {
                    self.fail_after(
                        actions,
                        PipelineError::BuildFailure(String::from_str("compile")),
                    )
                }
            },
            _ => self.fail(
                PipelineError::BuildFailure(String::from_str("output is not valid UTF-8")),
            ),
        }
    }

    /// The stage `Building`.
    fn compile(&mut self, event: Event) -> (actions: Vec<Action>)
        ensures
            final(self)@ == old(self)@.compile(event@).next,
            actions.deep_view() == old(self)@.compile(event@).actions,
    {
        match self.phase {
            Phase::Idle => match event {
                Event::Step => {
                    let mut actions = no_actions();
                    say(&mut actions, "[copy files]");
                    match (&self.workspace, &self.environment) {
                        (Some(path), Some(id)) => {
                            let command = Command::copy(path.as_str(), id.as_str());
                            emit(&mut actions, Action::Run(command));
                            self.phase = Phase::Copying;
                            actions
                        },
                        _ => self.fail_after(
                            actions,
                            PipelineError::BuildFailure(String::from_str("illegal operation")),
                        ),
                    }
                },
                _ => self.reject("[error: no such command]"),
            },
            Phase::Copying => match event {
                Event::Exited(_) => {
                    let mut actions = no_actions();
                    say(&mut actions, "[untar files]");
                    match self.held_environment() {
                        Some(id) => {
                            emit(&mut actions, Action::Run(Command::extract(id.as_str())));
                            self.phase = Phase::Extracting;
                            actions
                        },
                        None => self.fail_after(
                            actions,
                            PipelineError::BuildFailure(String::from_str("illegal operation")),
                        ),
                    }
                },
                Event::Failed(why) => self.fail(PipelineError::BuildFailure(why)),
                _ => self.reject("[error: no such command]"),
            },
            Phase::Extracting => match event {
                Event::Exited(output) => {
                    let mut actions = no_actions();
                    emit(&mut actions, Action::Text(finished_text(output.status.as_str())));
                    say(&mut actions, "[run cmake]");
                    match self.held_environment() {
                        Some(id) => {
                            emit(&mut actions, Action::Run(Command::configure(id.as_str())));
                            self.healthy = output.success;
                            self.phase = Phase::Configuring;
                            actions
                        },
                        None => self.fail_after(
                            actions,
                            PipelineError::BuildFailure(String::from_str("illegal operation")),
                        ),
                    }
                },
                Event::Failed(why) => self.fail(PipelineError::BuildFailure(why)),
                _ => self.reject("[error: no such command]"),
            },
            Phase::Configuring => match event {
                Event::Exited(output) => self.configured(output),
                Event::Failed(why) => self.fail(PipelineError::BuildFailure(why)),
                _ => self.reject("[error: no such command]"),
            },
            Phase::Compiling => match event {
                Event::Exited(output) => self.built(output),
                Event::Failed(why) => self.fail(PipelineError::BuildFailure(why)),
                _ => self.reject("[error: no such command]"),
            },
            _ => self.reject("[error: no such command]"),
        }
    }

    /// The stage `Executing(k)`, once the emulated run has ended.
    fn judged(&mut self, k: usize, status: String, actual: String, errors: String) -> (actions: Vec<
        Action,
    >)
        requires
            old(self).inv(),
            old(self)@.stage == Stage::Executing(k),
        ensures
            final(self)@ == old(self)@.judged(k, status@, actual@, errors@).next,
            actions.deep_view() == old(self)@.judged(k, status@, actual@, errors@).actions,
    {
        let passed = outputs_match(actual.as_str(), self.expected.as_str());
        let case = self.catalog.case(k);
        let mut actions = no_actions();
        emit(
            &mut actions,
            Action::Text(headline_text("[qemu ", case.name.as_str(), " return code]")),
        );
        emit(&mut actions, Action::Text(status));
        emit(&mut actions, Action::Text(headline_text("[qemu ", case.name.as_str(), " stderr]")));
        emit(&mut actions, Action::Text(errors));
        if !passed {
            emit(
                &mut actions,
                Action::Text(headline_text("[", case.name.as_str(), " output differences]")),
            );
            let lines = difference_messages(self.expected.as_str(), actual.as_str());
            emit_all(&mut actions, lines);
        }
        emit(&mut actions, Action::Ping);
        proof {
            let total = self@.catalog.len();
            lemma_earned_push(self@.catalog, self@.verdicts, true);
            lemma_earned_bounded(self@.catalog, self@.verdicts.push(true));
            lemma_weight_monotonic(self@.catalog, (k + 1) as nat, total);
        }
        append_case_line(&mut self.report, case, passed);
        if passed {
            self.score = self.score + case.score;
        }
        self.verdicts.push(passed);
        self.stage = self.stage_of(k + 1);
        self.phase = Phase::Idle;
        actions
    }

    /// The stage `Executing(k)`, once a file or a process has answered.
    fn case_answered(&mut self, k: usize, event: Event) -> (actions: Vec<Action>)
        requires
            old(self).inv(),
            old(self)@.stage == Stage::Executing(k),
        ensures
            final(self)@ == old(self)@.case_answered(k, event@).next,
            actions.deep_view() == old(self)@.case_answered(k, event@).actions,
    {
        match self.phase {
            Phase::LoadingSource => match event {
                Event::Loaded(text) => {
                    let case = self.catalog.case(k);
                    let mut actions = no_actions();
                    emit(&mut actions, Action::Load(case.input_file.clone()));
                    self.source = text;
                    self.phase = Phase::LoadingInput;
                    actions
                },
                _ => self.reject("[error: no such command]"),
            },
            Phase::LoadingInput => match event {
                Event::Loaded(text) => {
                    let case = self.catalog.case(k);
                    let mut actions = no_actions();
                    emit(&mut actions, Action::Load(case.output_file.clone()));
                    self.input = text;
                    self.phase = Phase::LoadingExpected;
                    actions
                },
                _ => self.reject("[error: no such command]"),
            },
            Phase::LoadingExpected => match event {
                Event::Loaded(text) => match self.held_environment() {
                    Some(id) => {
                        let mut actions = no_actions();
                        emit(
                            &mut actions,
                            Action::Run(Command::generate(id.as_str(), self.source.as_str())),
                        );
                        self.expected = text;
                        self.phase = Phase::Generating;
                        actions
                    },
                    None => self.fail(
                        PipelineError::ExecutionFailure(String::from_str("illegal operation")),
                    ),
                },
                _ => self.reject("[error: no such command]"),
            },
            Phase::Generating => match event {
                Event::Exited(output) => {
                    let status = finished_text(output.status.as_str());
                    match decode(output.stdout) {
                        Some(code) => {
                            let case = self.catalog.case(k);
                            let mut actions = no_actions();
                            emit(&mut actions, Action::Text(status));
                            emit(
                                &mut actions,
                                Action::Text(headline_text("[gcc ", case.name.as_str(), "]\n")),
                            );
                            match self.held_environment() {
                                Some(id) => {
                                    emit(
                                        &mut actions,
                                        Action::Run(
                                            Command::assemble(id.as_str(), trim(code.as_str())),
                                        ),
                                    );
                                    self.phase = Phase::Assembling;
                                    actions
                                },
                                None => self.fail_after(
                                    actions,
                                    PipelineError::ExecutionFailure(
                                        String::from_str("illegal operation"),
                                    ),
                                ),
                            }
                        },
                        None => self.fail(
                            PipelineError::ExecutionFailure(
                                String::from_str("output is not valid UTF-8"),
                            ),
                        ),
                    }
                },
                _ => self.reject("[error: no such command]"),
            },
            Phase::Assembling => match event {
                Event::Exited(output) => {
                    let status = finished_text(output.status.as_str());
                    match decode(output.stderr) {
                        Some(errors) => {
                            let case = self.catalog.case(k);
                            let mut actions = no_actions();
                            emit(&mut actions, Action::Text(status));
                            emit(
                                &mut actions,
                                Action::Text(
                                    headline_text("[gcc ", case.name.as_str(), " stderr]\n"),
                                ),
                            );
                            emit(&mut actions, Action::Text(errors));
                            emit(
                                &mut actions,
                                Action::Text(headline_text("[qemu ", case.name.as_str(), "]\n")),
                            );
                            match self.held_environment() {
                                Some(id) => {
                                    emit(
                                        &mut actions,
                                        Action::Run(
                                            Command::emulate(
                                                id.as_str(),
                                                trim(self.input.as_str()),
                                            ),
                                        ),
                                    );
                                    self.phase = Phase::Emulating;
                                    actions
                                },
                                None => self.fail_after(
                                    actions,
                                    PipelineError::ExecutionFailure(
                                        String::from_str("illegal operation"),
                                    ),
                                ),
                            }
                        },
                        None => self.fail(
                            PipelineError::ExecutionFailure(
                                String::from_str("output is not valid UTF-8"),
                            ),
                        ),
                    }
                },
                _ => self.reject("[error: no such command]"),
            },
            Phase::Emulating => match event {
                Event::Exited(output) => {
                    let status = output.status;
                    match (decode(output.stdout), decode(output.stderr)) {
                        (Some(actual), Some(errors)) => self.judged(k, status, actual, errors),
                        _ => self.fail(
                            PipelineError::ExecutionFailure(
                                String::from_str("output is not valid UTF-8"),
                            ),
                        ),
                    }
                },
                _ => self.reject("[error: no such command]"),
            },
            _ => self.reject("[error: no such command]"),
        }
    }

    /// The stage `Executing(k)`.
    fn run_cases(&mut self, k: usize, event: Event) -> (actions: Vec<Action>)
        requires
            old(self).inv(),
            old(self)@.stage == Stage::Executing(k),
        ensures
            final(self)@ == old(self)@.run_cases(k, event@).next,
            actions.deep_view() == old(self)@.run_cases(k, event@).actions,
    {
        match self.phase {
            Phase::Idle => match event {
                Event::Step => {
                    let case = self.catalog.case(k);
                    let mut actions = no_actions();
                    emit(
                        &mut actions,
                        Action::Text(headline_text("[compile ", case.name.as_str(), "]")),
                    );
                    emit(&mut actions, Action::Load(case.source.clone()));
                    self.phase = Phase::LoadingSource;
                    actions
                },
                _ => self.reject("[error: no such command]"),
            },
            _ => match event {
                Event::Failed(why) => {
                    if self.phase.is_in_case() {
                        self.fail(PipelineError::ExecutionFailure(why))
                    } else {
                        self.reject("[error: no such command]")
                    }
                },
                _ => self.case_answered(k, event),
            },
        }
    }

    /// The stage `Finalizing`.
    fn gpg(&mut self, event: Event, stamp: &str) -> (actions: Vec<Action>)
        requires
            old(self)@.checksum is Some,
        ensures
            final(self)@ == old(self)@.gpg(event@, stamp@).next,
            actions.deep_view() == old(self)@.gpg(event@, stamp@).actions,
    {
        match self.phase {
            Phase::Idle => match event {
                Event::Step => {
                    let mut actions = no_actions();
                    say(&mut actions, "[gpg report]");
                    match &self.environment {
                        Some(id) => {
                            let checksum = match &self.checksum {
                                Some(text) => text.as_str(),
                                None => "",
                            };
                            append_summary(
                                &mut self.report,
                                stamp,
                                self.score,
                                checksum,
                                id.as_str(),
                            );
                            emit(&mut actions, Action::Run(Command::sign(self.report.as_str())));
                            self.phase = Phase::Signing;
                            actions
                        },
                        None => self.fail_after(
                            actions,
                            PipelineError::SigningFailure(String::from_str("illegal operation")),
                        ),
                    }
                },
                _ => self.reject("[error: no such command]"),
            },
            Phase::Signing => match event {
                Event::Exited(output) => {
                    let success = output.success;
                    match decode(output.stdout) {
                        Some(signed) => {
                            if success {
                                let mut actions = no_actions();
                                emit(&mut actions, Action::Text(signed));
                                emit(&mut actions, Action::Close);
                                let release = self.release();
                                emit_all(&mut actions, release);
                                self.stage = Stage::Done;
                                self.phase = Phase::Idle;
                                actions
                            } else {
                                self.fail(PipelineError::SigningFailure(String::from_str("gpg")))
                            }
                        },
                        None => self.fail(
                            PipelineError::SigningFailure(
                                String::from_str("output is not valid UTF-8"),
                            ),
                        ),
                    }
                },
                Event::Failed(why) => self.fail(PipelineError::SigningFailure(why)),
                _ => self.reject("[error: no such command]"),
            },
            _ => self.reject("[error: no such command]"),
        }
    }

    /// Tells the session what happened and returns what it asks of its host
    /// in answer, in order. `stamp` is the time that is written into the
    /// report if the event begins the signing; otherwise it is not used.
    pub fn advance(&mut self, event: Event, stamp: &str) -> (actions: Vec<Action>)
        requires
            old(self).inv(),
        ensures
            final(self).inv(),
            final(self)@ == old(self)@.step(event@, stamp@).next,
            actions.deep_view() == old(self)@.step(event@, stamp@).actions,
    {
        proof {
            lemma_step_preserves_inv(self@, event@, stamp@);
        }
        match self.stage {
            Stage::Done => no_actions(),
            Stage::Failed => no_actions(),
            _ => match event {
                Event::Garbled(why) => self.reject(why.as_str()),
                Event::Unexpected => self.reject("unexpected message"),
                _ => match self.stage {
                    Stage::AwaitingUpload => self.recv_file(event),
                    Stage::Provisioning => self.start_docker(event),
                    Stage::Building => self.compile(event),
                    Stage::Executing(k) => self.run_cases(k, event),
                    _ => self.gpg(event, stamp),
                },
            },
        }
    }

    /// Whether `event` begins the signing: whether it is the step signal for
    /// which a session in `Finalizing` waits.
    fn begins_signing(&self, event: &Event) -> (begins: bool)
        ensures
            begins == (self@.stage is Finalizing && self@.phase is Idle && event@ is Step),
    {
        match self.stage {
            Stage::Finalizing => match self.phase {
                Phase::Idle => match event {
                    Event::Step => true,
                    _ => false,
                },
                _ => false,
            },
            _ => false,
        }
    }

    /// Tells the session what happened and returns what it asks of its host
    /// in answer, in order. The time that the report is given is the local
    /// time at which the signing begins; the clock is read for no other
    /// event.
    pub fn handle(&mut self, event: Event) -> (actions: Vec<Action>)
        requires
            old(self).inv(),
        ensures
            final(self).inv(),
            exists|stamp: Seq<char>|
                {
                    &&& final(self)@ == (#[trigger] old(self)@.step(event@, stamp)).next
                    &&& actions.deep_view() == old(self)@.step(event@, stamp).actions
                },
    {
        let stamp = if self.begins_signing(&event) {
            local_timestamp()
        } else {
            String::new()
        };
        self.advance(event, stamp.as_str())
    }
}

} // verus!
