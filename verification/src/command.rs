use vstd::prelude::*;
use vstd::string::*;

verus! {

/// An external command: the program, its arguments, the directory it runs
/// in where that matters, and the text that is written to its standard input
/// before the input is closed.
#[derive(Clone, Debug, PartialEq, Eq)]
pub struct Command {
    pub program: String,
    pub args: Vec<String>,
    pub dir: Option<String>,
    pub stdin: Option<String>,
}

/// A command as plain values.
pub struct CommandView {
    pub program: Seq<char>,
    pub args: Seq<Seq<char>>,
    pub dir: Option<Seq<char>>,
    pub stdin: Option<Seq<char>>,
}

impl View for Command {
    type V = CommandView;

    open spec fn view(&self) -> CommandView {
        CommandView {
            program: self.program@,
            args: self.args.deep_view(),
            dir: self.dir.deep_view(),
            stdin: self.stdin.deep_view(),
        }
    }
}

impl DeepView for Command {
    type V = CommandView;

    open spec fn deep_view(&self) -> CommandView {
        self@
    }
}

/// A call of the container runtime with the given arguments.
pub open spec fn docker(args: Seq<Seq<char>>) -> CommandView {
    CommandView { program: "docker"@, args, dir: None, stdin: None }
}

/// A call of the container runtime that runs `tail` in the working
/// directory of environment `id`, with `stdin` on its standard input.
pub open spec fn docker_piped(id: Seq<char>, tail: Seq<Seq<char>>, stdin: Seq<char>) -> CommandView {
    CommandView {
        program: "docker"@,
        args: seq!["exec"@, "-w"@, "/tmp"@, "-i"@, id] + tail,
        dir: None,
        stdin: Some(stdin),
    }
}

/// Creates an environment from `image`; the runtime prints its identifier.
pub open spec fn create_command(image: Seq<char>) -> CommandView {
    docker(seq!["create"@, image])
}

/// Starts environment `id`.
pub open spec fn start_command(id: Seq<char>) -> CommandView {
    docker(seq!["start"@, id])
}

/// Stops environment `id` by force.
pub open spec fn kill_command(id: Seq<char>) -> CommandView {
    docker(seq!["kill"@, id])
}

/// Removes environment `id`.
pub open spec fn remove_command(id: Seq<char>) -> CommandView {
    docker(seq!["rm"@, id])
}

/// Copies the archive from `workspace` into the working directory of
/// environment `id`.
pub open spec fn copy_command(workspace: Seq<char>, id: Seq<char>) -> CommandView {
    CommandView {
        program: "docker"@,
        args: seq!["cp"@, "src.tgz"@, id + ":/tmp"@],
        dir: Some(workspace),
        stdin: None,
    }
}

/// Unpacks the archive inside environment `id`.
pub open spec fn extract_command(id: Seq<char>) -> CommandView {
    docker(seq!["exec"@, "-w"@, "/tmp"@, id, "tar"@, "xzf"@, "src.tgz"@])
}

/// Generates the build files of the submission inside environment `id`.
pub open spec fn configure_command(id: Seq<char>) -> CommandView {
    docker(
        seq![
            "exec"@,
            "-w"@,
            "/tmp"@,
            id,
            "cmake"@,
            "."@,
            "-G"@,
            "Ninja"@,
            "-DCMAKE_BUILD_TYPE=Release"@,
        ],
    )
}

/// Builds the submission inside environment `id`.
pub open spec fn build_command(id: Seq<char>) -> CommandView {
    docker(seq!["exec"@, "-w"@, "/tmp"@, id, "cmake"@, "--build"@, "."@, "--parallel"@, "4"@])
}

/// Runs the built artifact inside environment `id` on the program text
/// `source`.
pub open spec fn generate_command(id: Seq<char>, source: Seq<char>) -> CommandView {
    docker_piped(id, seq!["/tmp/main"@], source)
}

/// Assembles `code` into an executable inside environment `id`.
pub open spec fn assemble_command(id: Seq<char>, code: Seq<char>) -> CommandView {
    docker_piped(id, seq!["mcc"@, "-static"@, "-x"@, "assembler"@, "-"@], code)
}

/// Runs the assembled executable under the emulator inside environment
/// `id`, with `input` on its standard input.
pub open spec fn emulate_command(id: Seq<char>, input: Seq<char>) -> CommandView {
    docker_piped(id, seq!["qemu-mipsel"@, "./a.out"@], input)
}

/// Clear-signs `report`.
pub open spec fn sign_command(report: Seq<char>) -> CommandView {
    CommandView {
        program: "gpg"@,
        args: seq!["--clear-sign"@],
        dir: None,
        stdin: Some(report),
    }
}

fn arg(list: &mut Vec<String>, text: &str)
    ensures
        final(list).deep_view() == old(list).deep_view().push(text@),
{
    list.push(String::from_str(text));
    assert(list.deep_view() =~= old(list).deep_view().push(text@));
}

fn exec_prefix(id: &str, piped: bool) -> (list: Vec<String>)
    ensures
        list.deep_view() == if piped {
            seq!["exec"@, "-w"@, "/tmp"@, "-i"@, id@]
        } else {
            seq!["exec"@, "-w"@, "/tmp"@, id@]
        },
{
    let mut list: Vec<String> = Vec::new();
    assert(list.deep_view() =~= Seq::<Seq<char>>::empty());
    arg(&mut list, "exec");
    arg(&mut list, "-w");
    arg(&mut list, "/tmp");
    if piped {
        arg(&mut list, "-i");
    }
    arg(&mut list, id);
    list
}

fn docker_with(args: Vec<String>) -> (command: Command)
    ensures
        command@ == docker(args.deep_view()),
{
    Command { program: String::from_str("docker"), args, dir: None, stdin: None }
}

fn docker_on(verb: &str, subject: &str) -> (command: Command)
    ensures
        command@ == docker(seq![verb@, subject@]),
{
    let mut list: Vec<String> = Vec::new();
    assert(list.deep_view() =~= Seq::<Seq<char>>::empty());
    arg(&mut list, verb);
    arg(&mut list, subject);
    assert(list.deep_view() =~= seq![verb@, subject@]);
    docker_with(list)
}

impl Command {
    pub fn create(image: &str) -> (command: Command)
        ensures
            command@ == create_command(image@),
    {
        docker_on("create", image)
    }

    pub fn start(id: &str) -> (command: Command)
        ensures
            command@ == start_command(id@),
    {
        docker_on("start", id)
    }

    pub fn kill(id: &str) -> (command: Command)
        ensures
            command@ == kill_command(id@),
    {
        docker_on("kill", id)
    }

    pub fn remove(id: &str) -> (command: Command)
        ensures
            command@ == remove_command(id@),
    {
        docker_on("rm", id)
    }

    pub fn copy(workspace: &str, id: &str) -> (command: Command)
        ensures
            command@ == copy_command(workspace@, id@),
    {
        let mut target = String::from_str(id);
        target.append(":/tmp");
        let mut list: Vec<String> = Vec::new();
        assert(list.deep_view() =~= Seq::<Seq<char>>::empty());
        arg(&mut list, "cp");
        arg(&mut list, "src.tgz");
        arg(&mut list, target.as_str());
        assert(list.deep_view() =~= copy_command(workspace@, id@).args);
        Command {
            program: String::from_str("docker"),
            args: list,
            dir: Some(String::from_str(workspace)),
            stdin: None,
        }
    }

    pub fn extract(id: &str) -> (command: Command)
        ensures
            command@ == extract_command(id@),
    {
        let mut list = exec_prefix(id, false);
        arg(&mut list, "tar");
        arg(&mut list, "xzf");
        arg(&mut list, "src.tgz");
        assert(list.deep_view() =~= extract_command(id@).args);
        docker_with(list)
    }

    pub fn configure(id: &str) -> (command: Command)
        ensures
            command@ == configure_command(id@),
    {
        let mut list = exec_prefix(id, false);
        arg(&mut list, "cmake");
        arg(&mut list, ".");
        arg(&mut list, "-G");
        arg(&mut list, "Ninja");
        arg(&mut list, "-DCMAKE_BUILD_TYPE=Release");
        assert(list.deep_view() =~= configure_command(id@).args);
        docker_with(list)
    }

    pub fn build(id: &str) -> (command: Command)
        ensures
            command@ == build_command(id@),
    {
        let mut list = exec_prefix(id, false);
        arg(&mut list, "cmake");
        arg(&mut list, "--build");
        arg(&mut list, ".");
        arg(&mut list, "--parallel");
        arg(&mut list, "4");
        assert(list.deep_view() =~= build_command(id@).args);
        docker_with(list)
    }

    pub fn generate(id: &str, source: &str) -> (command: Command)
        ensures
            command@ == generate_command(id@, source@),
    {
        let mut list = exec_prefix(id, true);
        arg(&mut list, "/tmp/main");
        let command = Command {
            program: String::from_str("docker"),
            args: list,
            dir: None,
            stdin: Some(String::from_str(source)),
        };
        assert(command@.args =~= generate_command(id@, source@).args);
        command
    }

    pub fn assemble(id: &str, code: &str) -> (command: Command)
        ensures
            command@ == assemble_command(id@, code@),
    {
        let mut list = exec_prefix(id, true);
        arg(&mut list, "mcc");
        arg(&mut list, "-static");
        arg(&mut list, "-x");
        arg(&mut list, "assembler");
        arg(&mut list, "-");
        let command = Command {
            program: String::from_str("docker"),
            args: list,
            dir: None,
            stdin: Some(String::from_str(code)),
        };
        assert(command@.args =~= assemble_command(id@, code@).args);
        command
    }

    pub fn emulate(id: &str, input: &str) -> (command: Command)
        ensures
            command@ == emulate_command(id@, input@),
    {
        let mut list = exec_prefix(id, true);
        arg(&mut list, "qemu-mipsel");
        arg(&mut list, "./a.out");
        let command = Command {
            program: String::from_str("docker"),
            args: list,
            dir: None,
            stdin: Some(String::from_str(input)),
        };
        assert(command@.args =~= emulate_command(id@, input@).args);
        command
    }

    pub fn sign(report: &str) -> (command: Command)
        ensures
            command@ == sign_command(report@),
    {
        let mut list: Vec<String> = Vec::new();
        assert(list.deep_view() =~= Seq::<Seq<char>>::empty());
        arg(&mut list, "--clear-sign");
        Command {
            program: String::from_str("gpg"),
            args: list,
            dir: None,
            stdin: Some(String::from_str(report)),
        }
    }
}

} // verus!
