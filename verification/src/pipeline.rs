use vstd::prelude::*;
use crate::config::{Config, ConfigView};
use crate::error::ChpError;
use crate::text::{append_texts, copy_texts, texts};

verus! {

/// A process to start: the program and its arguments, in order.
#[derive(Debug, Clone, PartialEq, Eq)]
pub struct Invocation {
    pub program: String,
    pub args: Vec<String>,
}

/// What the caller asked for.
#[derive(Debug, Clone, PartialEq, Eq)]
pub enum Request {
    /// Compile the project.
    Build { release: bool },
    /// Compile the project, then start the built program with `args`.
    Run { release: bool, args: Vec<String> },
}

/// Everything a build or run needs to know about the project.
#[derive(Debug, Clone, PartialEq, Eq)]
pub struct Job {
    /// The project root.
    pub root: String,
    pub config: Config,
    /// The sources discovered, relative to the root.
    pub cpp_files: Vec<String>,
    pub request: Request,
}

/// What came of starting a process and waiting for it to end.
#[derive(Debug, Clone, PartialEq, Eq)]
pub enum Outcome {
    /// The process could not be started.
    SpawnFailed,
    /// The process ran to its end and wrote this to its two streams.
    Exited { stdout: Vec<u8>, stderr: Vec<u8> },
}

/// Where a build or run stands.
#[derive(Debug, Clone, Copy, PartialEq, Eq, Structural)]
pub enum Stage {
    /// The compiler was started.
    Building,
    /// The built program was started.
    Running,
    /// Nothing more to do.
    Done,
}

/// The end of a command: bytes to pass on to the caller's own streams,
/// and how the command as a whole ended.
#[derive(Debug, PartialEq, Eq)]
pub struct Finish {
    pub stdout: Vec<u8>,
    pub stderr: Vec<u8>,
    pub result: Result<(), ChpError>,
}

/// What to do next.
#[derive(Debug, PartialEq, Eq)]
pub enum Action {
    /// Start this process, wait for it, and report what came of it.
    Spawn(Invocation),
    /// Write the bytes out and end the command.
    Finish(Finish),
}

/// A `Request` as plain values.
pub enum RequestView {
    Build { release: bool },
    Run { release: bool, args: Seq<Seq<char>> },
}

/// A `Job` as plain values.
pub struct JobView {
    pub root: Seq<char>,
    pub config: ConfigView,
    pub cpp_files: Seq<Seq<char>>,
    pub request: RequestView,
}

/// An `Outcome` as plain values.
pub enum OutcomeView {
    SpawnFailed,
    Exited { stdout: Seq<u8>, stderr: Seq<u8> },
}

/// An `Action` as plain values.
pub enum ActionView {
    Spawn { program: Seq<char>, args: Seq<Seq<char>> },
    Finish { stdout: Seq<u8>, stderr: Seq<u8>, result: Result<(), ChpError> },
}

impl View for Invocation {
    type V = ActionView;

    open spec fn view(&self) -> ActionView {
        ActionView::Spawn { program: self.program@, args: texts(self.args@) }
    }
}

impl View for Request {
    type V = RequestView;

    open spec fn view(&self) -> RequestView {
        match *self {
            Request::Build { release } => RequestView::Build { release },
            Request::Run { release, args } => RequestView::Run { release, args: texts(args@) },
        }
    }
}

impl View for Job {
    type V = JobView;

    open spec fn view(&self) -> JobView {
        JobView {
            root: self.root@,
            config: self.config@,
            cpp_files: texts(self.cpp_files@),
            request: self.request@,
        }
    }
}

impl View for Outcome {
    type V = OutcomeView;

    open spec fn view(&self) -> OutcomeView {
        match *self {
            Outcome::SpawnFailed => OutcomeView::SpawnFailed,
            Outcome::Exited { stdout, stderr } => OutcomeView::Exited {
                stdout: stdout@,
                stderr: stderr@,
            },
        }
    }
}

impl View for Finish {
    type V = ActionView;

    open spec fn view(&self) -> ActionView {
        ActionView::Finish { stdout: self.stdout@, stderr: self.stderr@, result: self.result }
    }
}

impl View for Action {
    type V = ActionView;

    open spec fn view(&self) -> ActionView {
        match *self {
            Action::Spawn(invocation) => invocation@,
            Action::Finish(finish) => finish@,
        }
    }
}

impl RequestView {
    /// Whether the release profile was asked for.
    pub open spec fn release(self) -> bool {
        match self {
            RequestView::Build { release } => release,
            RequestView::Run { release, .. } => release,
        }
    }
}

/// The flags of the chosen profile.
pub open spec fn profile_flags(config: ConfigView, release: bool) -> Seq<Seq<char>> {
    if release {
        config.profiles.release
    } else {
        config.profiles.debug
    }
}

/// The directory name of the chosen profile.
pub open spec fn profile_dir(release: bool) -> Seq<char> {
    if release {
        "release"@
    } else {
        "debug"@
    }
}

/// Where the built program is expected:
/// `<root>/build/<profile>/<name>.exe`, with the same suffix on every
/// platform.
pub open spec fn binary_location(root: Seq<char>, name: Seq<char>, release: bool) -> Seq<char> {
    root + "/build/"@ + profile_dir(release) + "/"@ + name + ".exe"@
}

/// The compiler call: the project's command, given the discovered sources
/// first and the chosen profile's flags after them.
pub open spec fn compiler_call(job: JobView) -> ActionView {
    ActionView::Spawn {
        program: job.config.command,
        args: job.cpp_files + profile_flags(job.config, job.request.release()),
    }
}

/// The call of the built program with the caller's arguments.
pub open spec fn program_call(job: JobView, args: Seq<Seq<char>>) -> ActionView {
    ActionView::Spawn {
        program: binary_location(job.root, job.config.name, job.request.release()),
        args,
    }
}

/// Whether a process ended having written to its standard error.
pub open spec fn wrote_errors(outcome: OutcomeView) -> bool {
    match outcome {
        OutcomeView::SpawnFailed => false,
        OutcomeView::Exited { stderr, .. } => stderr.len() > 0,
    }
}

/// Ending the command with nothing to pass on.
pub open spec fn quiet_end(result: Result<(), ChpError>) -> ActionView {
    ActionView::Finish { stdout: Seq::empty(), stderr: Seq::empty(), result }
}

/// The stage and action that follow `outcome`, reported at `stage`.
///
/// A compiler that cannot be started is an error. A compiler that wrote
/// anything to its standard error stops the command: the bytes are passed
/// on, nothing further is started, and the command still counts as
/// completed. After a silent compiler a build is complete, and a run
/// starts the built program; what that program wrote is passed on once it
/// has ended.
pub open spec fn next_step(job: JobView, stage: Stage, outcome: OutcomeView) -> (
    Stage,
    ActionView,
) {
    match stage {
        Stage::Building => match outcome {
            OutcomeView::SpawnFailed => (
                Stage::Done,
                quiet_end(Err(ChpError::ProcessSpawnError)),
            ),
            OutcomeView::Exited { stderr, .. } => if stderr.len() > 0 {
                (
                    Stage::Done,
                    ActionView::Finish { stdout: Seq::empty(), stderr, result: Ok(()) },
                )
            } else {
                match job.request {
                    RequestView::Build { .. } => (Stage::Done, quiet_end(Ok(()))),
                    RequestView::Run { args, .. } => (Stage::Running, program_call(job, args)),
                }
            },
        },
        Stage::Running => match outcome {
            OutcomeView::SpawnFailed => (
                Stage::Done,
                quiet_end(Err(ChpError::ProcessSpawnError)),
            ),
            OutcomeView::Exited { stdout, stderr } => (
                Stage::Done,
                ActionView::Finish { stdout, stderr, result: Ok(()) },
            ),
        },
        Stage::Done => (Stage::Done, quiet_end(Ok(()))),
    }
}

/// The directory name of the chosen profile.
pub fn profile_name(release: bool) -> (name: &'static str)
    ensures
        name@ == profile_dir(release),
{
    if release {
        "release"
    } else {
        "debug"
    }
}

/// The path at which the built program is expected.
pub fn binary_path(root: &str, name: &str, release: bool) -> (path: String)
    ensures
        path@ == binary_location(root@, name@, release),
{
    let mut path = String::from_str(root);
    path.append("/build/");
    path.append(profile_name(release));
    path.append("/");
    path.append(name);
    path.append(".exe");
    path
}

impl Request {
    /// Whether the release profile was asked for.
    pub fn release(&self) -> (release: bool)
        ensures
            release == self@.release(),
    {
        match self {
            Request::Build { release } => *release,
            Request::Run { release, .. } => *release,
        }
    }
}

fn quiet(result: Result<(), ChpError>) -> (action: Action)
    ensures
        action@ == quiet_end(result),
{
    Action::Finish(Finish { stdout: Vec::new(), stderr: Vec::new(), result })
}

/// The compiler call of a job.
pub fn build(job: &Job) -> (invocation: Invocation)
    ensures
        invocation@ == compiler_call(job@),
{
    let mut args = copy_texts(&job.cpp_files);
    append_texts(&mut args, job.config.select_profile(job.request.release()));
    Invocation { program: job.config.command.clone(), args }
}

/// The call of the built program, with `args` handed through unchanged.
pub fn run(job: &Job, args: &Vec<String>) -> (invocation: Invocation)
    ensures
        invocation@ == program_call(job@, texts(args@)),
{
    Invocation {
        program: binary_path(job.root.as_str(), job.config.name.as_str(), job.request.release()),
        args: copy_texts(args),
    }
}

/// The first step of every job: start the compiler.
pub fn start(job: &Job) -> (first: (Stage, Action))
    ensures
        first.0 == Stage::Building,
        first.1@ == compiler_call(job@),
{
    (Stage::Building, Action::Spawn(build(job)))
}

/// The step that follows `outcome`, reported at `stage`. In particular a
/// compiler that wrote to its standard error is never followed by a start
/// of the built program.
pub fn advance(job: &Job, stage: Stage, outcome: Outcome) -> (next: (Stage, Action))
    ensures
        next.0 == next_step(job@, stage, outcome@).0,
        next.1@ == next_step(job@, stage, outcome@).1,
        stage == Stage::Building && wrote_errors(outcome@) ==> next.0 == Stage::Done
            && next.1 is Finish,
{
    match stage {
        Stage::Building => match outcome {
            Outcome::SpawnFailed => (Stage::Done, quiet(Err(ChpError::ProcessSpawnError))),
            Outcome::Exited { stdout, stderr } => {
                if stderr.len() > 0 {
                    (
                        Stage::Done,
                        Action::Finish(Finish { stdout: Vec::new(), stderr, result: Ok(()) }),
                    )
                } else {
                    match &job.request {
                        Request::Build { .. } => (Stage::Done, quiet(Ok(()))),
                        Request::Run { args, .. } => (Stage::Running, Action::Spawn(run(job, args))),
                    }
                }
            },
        },
        Stage::Running => match outcome {
            Outcome::SpawnFailed => (Stage::Done, quiet(Err(ChpError::ProcessSpawnError))),
            Outcome::Exited { stdout, stderr } => (
                Stage::Done,
                Action::Finish(Finish { stdout, stderr, result: Ok(()) }),
            ),
        },
        Stage::Done => (Stage::Done, quiet(Ok(()))),
    }
}

} // verus!
