use vstd::prelude::*;

verus! {

/// The stage of a grading session. Stages are visited in the order in which
/// the variants are listed; `Failed` is the terminal state of a session that
/// was aborted by an error.
#[derive(Clone, Copy, Debug, PartialEq, Eq, Structural)]
pub enum Stage {
    AwaitingUpload,
    Provisioning,
    Building,
    Executing(usize),
    Finalizing,
    Done,
    Failed,
}

impl Stage {
    /// Position of the stage in the forward order of a session over a
    /// catalog of `cases` test cases.
    pub open spec fn rank(self, cases: nat) -> nat {
        match self {
            Stage::AwaitingUpload => 0,
            Stage::Provisioning => 1,
            Stage::Building => 2,
            Stage::Executing(i) => 3 + i as nat,
            Stage::Finalizing => 3 + cases,
            Stage::Done => 4 + cases,
            Stage::Failed => 5 + cases,
        }
    }

    /// A terminal stage ends the session.
    pub open spec fn terminal(self) -> bool {
        self is Done || self is Failed
    }

    pub fn is_terminal(self) -> (b: bool)
        ensures
            b == self.terminal(),
    {
        match self {
            Stage::Done => true,
            Stage::Failed => true,
            _ => false,
        }
    }
}

} // verus!

verus! {

/// What a session is waiting for within its stage. `Idle` waits for the
/// client; every other phase waits for the outcome of the one piece of
/// outside work that the session asked for last.
#[derive(Clone, Copy, Debug, PartialEq, Eq, Structural)]
pub enum Phase {
    Idle,
    /// The archive is being written to a fresh workspace.
    Storing,
    /// The environment is being created.
    Creating,
    /// The environment is being started.
    Starting,
    /// The archive is being copied into the environment.
    Copying,
    /// The archive is being unpacked.
    Extracting,
    /// The build files are being generated.
    Configuring,
    /// The submission is being built.
    Compiling,
    /// The program text of the case is being read.
    LoadingSource,
    /// The input of the case is being read.
    LoadingInput,
    /// The expected output of the case is being read.
    LoadingExpected,
    /// The built artifact is generating code from the program text.
    Generating,
    /// The generated code is being assembled.
    Assembling,
    /// The assembled executable is running under the emulator.
    Emulating,
    /// The report is being signed.
    Signing,
}

impl Phase {
    /// Whether the phase belongs to the run of a test case.
    pub open spec fn in_case(self) -> bool {
        match self {
            Phase::LoadingSource => true,
            Phase::LoadingInput => true,
            Phase::LoadingExpected => true,
            Phase::Generating => true,
            Phase::Assembling => true,
            Phase::Emulating => true,
            _ => false,
        }
    }

    pub fn is_in_case(self) -> (b: bool)
        ensures
            b == self.in_case(),
    {
        match self {
            Phase::LoadingSource => true,
            Phase::LoadingInput => true,
            Phase::LoadingExpected => true,
            Phase::Generating => true,
            Phase::Assembling => true,
            Phase::Emulating => true,
            _ => false,
        }
    }
}

} // verus!
