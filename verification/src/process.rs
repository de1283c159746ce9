//! Child processes as values: what to run, with which arguments and
//! environment. Running them is the caller's part.

use vstd::prelude::*;
use crate::env::Vars;

verus! {

/// How the program of a command is found.
#[derive(Clone, Copy, Debug, PartialEq, Eq, Structural)]
pub enum Resolution {
    /// The program is a bare name, looked up on the search path.
    SearchPath,
    /// The program is addressed directly by its path.
    Absolute,
}

/// What a [`Command`] holds, as sequences.
pub struct CommandView {
    pub program: Seq<char>,
    pub resolution: Resolution,
    pub args: Seq<Seq<char>>,
    pub env: Vars,
}

/// A child process to run. Its environment is exactly `env`: nothing is
/// inherited from the host.
#[derive(Clone, Debug, PartialEq, Eq)]
pub struct Command {
    program: String,
    resolution: Resolution,
    args: Vec<String>,
    env: Vec<(String, String)>,
}

impl View for Command {
    type V = CommandView;

    closed spec fn view(&self) -> CommandView {
        CommandView {
            program: self.program@,
            resolution: self.resolution,
            args: self.args.deep_view(),
            env: self.env.deep_view(),
        }
    }
}

impl Command {
    /// A command for the program called `name` on the search path, with no
    /// arguments and an empty environment.
    pub fn on_search_path(name: String) -> (res: Command)
        ensures
            res@ == (CommandView {
                program: name@,
                resolution: Resolution::SearchPath,
                args: Seq::empty(),
                env: Seq::empty(),
            }),
    {
        let res = Command {
            program: name,
            resolution: Resolution::SearchPath,
            args: Vec::new(),
            env: Vec::new(),
        };
        assert(res.args.deep_view() =~= Seq::empty());
        assert(res.env.deep_view() =~= Seq::empty());
        res
    }

    /// A command for the program at `path`, with no arguments and an empty
    /// environment.
    pub fn at_path(path: String) -> (res: Command)
        ensures
            res@ == (CommandView {
                program: path@,
                resolution: Resolution::Absolute,
                args: Seq::empty(),
                env: Seq::empty(),
            }),
    {
        let res = Command {
            program: path,
            resolution: Resolution::Absolute,
            args: Vec::new(),
            env: Vec::new(),
        };
        assert(res.args.deep_view() =~= Seq::empty());
        assert(res.env.deep_view() =~= Seq::empty());
        res
    }

    /// The same command with `arg` as one more argument, after the others.
    pub fn with_arg(self, arg: String) -> (res: Command)
        ensures
            res@ == (CommandView { args: self@.args.push(arg@), ..self@ }),
    {
        let mut res = self;
        res.args.push(arg);
        assert(res.args.deep_view() =~= self.args.deep_view().push(arg@));
        res
    }

    /// The same command with `vars` as its whole environment.
    pub fn with_env_vars(self, vars: Vec<(String, String)>) -> (res: Command)
        ensures
            res@ == (CommandView { env: vars.deep_view(), ..self@ }),
    {
        let mut res = self;
        res.env = vars;
        res
    }

    /// The program: a bare name or a path, as `resolution` says.
    pub fn program(&self) -> (res: &str)
        ensures
            res@ == self@.program,
    {
        self.program.as_str()
    }

    /// How the program is found.
    pub fn resolution(&self) -> (res: Resolution)
        ensures
            res == self@.resolution,
    {
        self.resolution
    }

    /// The arguments, in order.
    pub fn args(&self) -> (res: &Vec<String>)
        ensures
            res.deep_view() == self@.args,
    {
        &self.args
    }

    /// The environment, in order.
    pub fn env(&self) -> (res: &Vec<(String, String)>)
        ensures
            res.deep_view() == self@.env,
    {
        &self.env
    }
}

/// What a process said when it could not be started or did not succeed.
#[derive(Clone, Debug, PartialEq, Eq)]
pub struct ProcessError {
    message: String,
}

impl View for ProcessError {
    type V = Seq<char>;

    closed spec fn view(&self) -> Seq<char> {
        self.message@
    }
}

impl ProcessError {
    /// A process failure with the diagnostic `message`.
    pub fn new(message: String) -> (res: ProcessError)
        ensures
            res@ == message@,
    {
        ProcessError { message }
    }

    /// The diagnostic text.
    pub fn message(&self) -> (res: &str)
        ensures
            res@ == self@,
    {
        self.message.as_str()
    }
}

} // verus!
