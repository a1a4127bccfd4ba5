use vstd::prelude::*;
use vstd::string::*;

use crate::command::{Command, CommandView};

verus! {

/// What is known of an external process that ran to its end.
#[derive(Clone, Debug, PartialEq, Eq)]
pub struct ProcessOutput {
    /// Whether the process reported success.
    pub success: bool,
    /// The exit status, as it is shown to the client.
    pub status: String,
    pub stdout: Vec<u8>,
    pub stderr: Vec<u8>,
}

/// The outcome of a process as plain values.
pub struct ProcessOutputView {
    pub success: bool,
    pub status: Seq<char>,
    pub stdout: Seq<u8>,
    pub stderr: Seq<u8>,
}

impl View for ProcessOutput {
    type V = ProcessOutputView;

    open spec fn view(&self) -> ProcessOutputView {
        ProcessOutputView {
            success: self.success,
            status: self.status@,
            stdout: self.stdout@,
            stderr: self.stderr@,
        }
    }
}

/// What a session is told: a message of the client, or the outcome of the
/// outside work that the session asked for last.
#[derive(Clone, Debug, PartialEq, Eq)]
pub enum Event {
    /// The client sent the archive of its submission.
    Upload(Vec<u8>),
    /// The client acknowledged the last step: the next one may begin.
    Step,
    /// The transport could not make sense of what the client sent.
    Garbled(String),
    /// The client sent a message of any other kind.
    Unexpected,
    /// The archive was written; the path of the workspace that holds it.
    Stored(String),
    /// A file was read; its text.
    Loaded(String),
    /// A process ran to its end.
    Exited(ProcessOutput),
    /// The work could not be done: a file or a process failed.
    Failed(String),
}

/// An event as plain values.
pub enum EventView {
    Upload(Seq<u8>),
    Step,
    Garbled(Seq<char>),
    Unexpected,
    Stored(Seq<char>),
    Loaded(Seq<char>),
    Exited(ProcessOutputView),
    Failed(Seq<char>),
}

impl View for Event {
    type V = EventView;

    open spec fn view(&self) -> EventView {
        match self {
            Event::Upload(data) => EventView::Upload(data@),
            Event::Step => EventView::Step,
            Event::Garbled(why) => EventView::Garbled(why@),
            Event::Unexpected => EventView::Unexpected,
            Event::Stored(path) => EventView::Stored(path@),
            Event::Loaded(text) => EventView::Loaded(text@),
            Event::Exited(output) => EventView::Exited(output@),
            Event::Failed(why) => EventView::Failed(why@),
        }
    }
}

/// What a session asks of its host. The host carries the actions out in
/// order. `Store`, `Load` and `Run` are answered with an event; the others
/// are not.
#[derive(Clone, Debug, PartialEq, Eq)]
pub enum Action {
    /// Send the client a text message.
    Text(String),
    /// Ask the client to acknowledge the step.
    Ping,
    /// Close the connection.
    Close,
    /// Make a fresh workspace and write the archive into it; answered by
    /// `Stored` or `Failed`.
    Store(Vec<u8>),
    /// Read the file at this path; answered by `Loaded` or `Failed`.
    Load(String),
    /// Run the command to its end; answered by `Exited` or `Failed`.
    Run(Command),
    /// Run the command and ignore how it ends.
    Discard(Command),
    /// Delete the directory at this path with all it holds, and ignore
    /// whether that worked.
    RemoveDir(String),
}

/// An action as plain values.
pub enum ActionView {
    Text(Seq<char>),
    Ping,
    Close,
    Store(Seq<u8>),
    Load(Seq<char>),
    Run(CommandView),
    Discard(CommandView),
    RemoveDir(Seq<char>),
}

impl View for Action {
    type V = ActionView;

    open spec fn view(&self) -> ActionView {
        match self {
            Action::Text(text) => ActionView::Text(text@),
            Action::Ping => ActionView::Ping,
            Action::Close => ActionView::Close,
            Action::Store(data) => ActionView::Store(data@),
            Action::Load(path) => ActionView::Load(path@),
            Action::Run(command) => ActionView::Run(command@),
            Action::Discard(command) => ActionView::Discard(command@),
            Action::RemoveDir(path) => ActionView::RemoveDir(path@),
        }
    }
}

impl DeepView for Action {
    type V = ActionView;

    open spec fn deep_view(&self) -> ActionView {
        self@
    }
}

/// The payload of the ping that asks the client to acknowledge a step.
pub const PING_PAYLOAD: &'static str = "next";

/// The largest message that a session accepts from its client, in bytes.
pub const MAX_MESSAGE_BYTES: usize = 67108864;

/// The name of the archive inside its workspace.
pub const ARCHIVE_NAME: &'static str = "src.tgz";

pub(crate) fn emit(list: &mut Vec<Action>, action: Action)
    ensures
        final(list).deep_view() == old(list).deep_view().push(action@),
{
    list.push(action);
    assert(list.deep_view() =~= old(list).deep_view().push(action@));
}

pub(crate) fn say(list: &mut Vec<Action>, text: &str)
    ensures
        final(list).deep_view() == old(list).deep_view().push(ActionView::Text(text@)),
{
    emit(list, Action::Text(String::from_str(text)));
}

pub(crate) fn emit_all(list: &mut Vec<Action>, more: Vec<Action>)
    ensures
        final(list).deep_view() == old(list).deep_view() + more.deep_view(),
{
    let mut more = more;
    let ghost tail = more.deep_view();
    list.append(&mut more);
    assert(list.deep_view() =~= old(list).deep_view() + tail);
}

pub(crate) fn no_actions() -> (list: Vec<Action>)
    ensures
        list.deep_view() == Seq::<ActionView>::empty(),
{
    let list: Vec<Action> = Vec::new();
    assert(list.deep_view() =~= Seq::<ActionView>::empty());
    list
}

} // verus!
