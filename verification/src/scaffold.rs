use vstd::prelude::*;
use crate::error::ChpError;
use crate::pipeline::{ActionView, Finish, Outcome, OutcomeView};
use crate::text::{child_path, join_path};

verus! {

/// The default project description up to the project's name.
pub const CONFIG_OPENING: &'static str = r#"name = ""#;

/// The default project description between the name and the name of the
/// debug program.
pub const CONFIG_DEBUG_PROFILE: &'static str = r#""
command = "g++"

# chp will recursively look for cpp files in these directories.
# This variable is optional, *if* you provide the files you want
# to compile in the debug and release profiles.
compile_cpp_in_dirs = [
    "src"
]

[profiles]
debug = [
    # All cpp files found in the directories provided in the 
    # `compile_cpp_in_dirs` list, will be inserted here.
    "-fdiagnostics-color=always",
    "-std=c++20", 
    "-Wall", 
    "-Wextra", 
    "-pedantic", 
    "-Weffc++", 
    "-Wsuggest-attribute=const", 
    "-fconcepts", 
    "-Og", 
    "-g", 
    "-o", 
    "build/debug/"#;

/// The default project description between the name of the debug program
/// and that of the release program.
pub const CONFIG_RELEASE_PROFILE: &'static str = r#".exe",
]
release = [
    # All cpp files found in the directories provided in the 
    # `compile_cpp_in_dirs` list, will be inserted here.
    "-fdiagnostics-color=always",
    "-std=c++20", 
    "-Wall", 
    "-Wextra", 
    "-pedantic", 
    "-Weffc++", 
    "-Wsuggest-attribute=const", 
    "-fconcepts", 
    "-O2", 
    "-o", 
    "build/release/"#;

/// The end of the default project description.
pub const CONFIG_CLOSING: &'static str = r#".exe",
]
"#;

/// The source file that a new project starts with.
pub const MAIN_FILE_CONTENT: &'static str = r#"#include <iostream>

int main() {
    std::cout << "Hello, World" << std::endl;
}
"#;

/// What the directory chosen for a new project looks like.
#[derive(Debug, Clone, Copy, PartialEq, Eq, Structural)]
pub enum TargetState {
    /// It does not exist, or could not be listed.
    Absent,
    /// It exists and has no entries.
    Empty,
    /// It exists and has at least one entry.
    Occupied,
}

/// One change to make on disk.
#[derive(Debug, PartialEq, Eq)]
pub enum Effect {
    /// Create this directory and any missing parent.
    CreateDir(String),
    /// Initialise version control in this directory and report what came
    /// of it.
    InitGit(String),
    /// Write this file.
    WriteFile { path: String, content: String },
}

/// What scaffolding does next.
#[derive(Debug, PartialEq, Eq)]
pub enum Plan {
    /// Make these changes, in order.
    Perform(Vec<Effect>),
    /// Make no change; write the bytes out and end the command.
    Finish(Finish),
}

/// An `Effect` as plain values.
pub enum EffectView {
    CreateDir(Seq<char>),
    InitGit(Seq<char>),
    WriteFile { path: Seq<char>, content: Seq<char> },
}

/// A `Plan` as plain values.
pub enum PlanView {
    Perform(Seq<EffectView>),
    Finish(ActionView),
}

impl View for Effect {
    type V = EffectView;

    open spec fn view(&self) -> EffectView {
        match *self {
            Effect::CreateDir(path) => EffectView::CreateDir(path@),
            Effect::InitGit(path) => EffectView::InitGit(path@),
            Effect::WriteFile { path, content } => EffectView::WriteFile {
                path: path@,
                content: content@,
            },
        }
    }
}

/// Each effect of `effects` as plain values, in order.
pub open spec fn effect_views(effects: Seq<Effect>) -> Seq<EffectView> {
    Seq::new(effects.len(), |i: int| effects[i]@)
}

impl View for Plan {
    type V = PlanView;

    open spec fn view(&self) -> PlanView {
        match *self {
            Plan::Perform(effects) => PlanView::Perform(effect_views(effects@)),
            Plan::Finish(finish) => PlanView::Finish(finish@),
        }
    }
}

/// Where the new project goes: the current directory, or the directory
/// `name` inside it.
pub open spec fn target_location(current: Seq<char>, name: Option<Seq<char>>) -> Seq<char> {
    match name {
        Some(n) => child_path(current, n),
        None => current,
    }
}

/// The default project description of a project called `name`: the fixed
/// text with the name in its three places.
pub open spec fn config_text(name: Seq<char>) -> Seq<char> {
    CONFIG_OPENING@ + name + CONFIG_DEBUG_PROFILE@ + name + CONFIG_RELEASE_PROFILE@ + name
        + CONFIG_CLOSING@
}

/// Ending the command with `error` and these bytes for standard error.
pub open spec fn refusal(error: ChpError, stderr: Seq<u8>) -> PlanView {
    PlanView::Finish(ActionView::Finish { stdout: Seq::empty(), stderr, result: Err(error) })
}

/// The changes that come before any file is written: the directory
/// itself, then version control in it.
pub open spec fn opening_effects(target: Seq<char>) -> Seq<EffectView> {
    seq![EffectView::CreateDir(target), EffectView::InitGit(target)]
}

/// The files and directories of a fresh project called `name` in `target`.
pub open spec fn project_effects(target: Seq<char>, name: Seq<char>) -> Seq<EffectView> {
    let src = child_path(target, "src"@);
    seq![
        EffectView::WriteFile { path: child_path(target, "chp.toml"@), content: config_text(name) },
        EffectView::CreateDir(src),
        EffectView::WriteFile { path: child_path(src, "main.cpp"@), content: MAIN_FILE_CONTENT@ },
        EffectView::CreateDir(child_path(child_path(target, "build"@), "debug"@)),
        EffectView::CreateDir(child_path(child_path(target, "build"@), "release"@)),
    ]
}

/// What scaffolding starts with: a refusal where the directory already
/// has entries, the opening changes otherwise.
pub open spec fn opening_plan(target: Seq<char>, state: TargetState) -> PlanView {
    if state == TargetState::Occupied {
        refusal(ChpError::NonEmptyDirectory, Seq::empty())
    } else {
        PlanView::Perform(opening_effects(target))
    }
}

/// What follows the attempt to initialise version control: a refusal
/// where the tool could not be started or wrote anything to its standard
/// error (which is passed on), the project's files otherwise.
pub open spec fn project_plan(target: Seq<char>, name: Seq<char>, git: OutcomeView) -> PlanView {
    match git {
        OutcomeView::SpawnFailed => refusal(ChpError::GitInitError, Seq::empty()),
        OutcomeView::Exited { stderr, .. } => if stderr.len() > 0 {
            refusal(ChpError::GitInitError, stderr)
        } else {
            PlanView::Perform(project_effects(target, name))
        },
    }
}

/// The directory that a new project goes into.
pub fn target_dir(current: &str, maybe_name: Option<&str>) -> (target: String)
    ensures
        target@ == target_location(
            current@,
            match maybe_name {
                Some(name) => Some(name@),
                None => None,
            },
        ),
{
    match maybe_name {
        Some(name) => join_path(current, name),
        None => String::from_str(current),
    }
}

/// The default project description of a project called `name`.
pub fn render_config(name: &str) -> (text: String)
    ensures
        text@ == config_text(name@),
{
    let mut text = String::from_str(CONFIG_OPENING);
    text.append(name);
    text.append(CONFIG_DEBUG_PROFILE);
    text.append(name);
    text.append(CONFIG_RELEASE_PROFILE);
    text.append(name);
    text.append(CONFIG_CLOSING);
    text
}

fn refuse(error: ChpError, stderr: Vec<u8>) -> (plan: Plan)
    ensures
        plan@ == refusal(error, stderr@),
{
    Plan::Finish(Finish { stdout: Vec::new(), stderr, result: Err(error) })
}

/// Decides whether a project may be set up in `target`. A directory that
/// already has entries is refused with `NonEmptyDirectory` and no change
/// at all is planned.
pub fn init_project(target: &str, state: TargetState) -> (plan: Plan)
    ensures
        plan@ == opening_plan(target@, state),
        state == TargetState::Occupied ==> !(plan is Perform),
{
    match state {
        TargetState::Occupied => refuse(ChpError::NonEmptyDirectory, Vec::new()),
        _ => {
            let mut effects: Vec<Effect> = Vec::new();
            effects.push(Effect::CreateDir(String::from_str(target)));
            effects.push(Effect::InitGit(String::from_str(target)));
            assert(effect_views(effects@) =~= opening_effects(target@));
            Plan::Perform(effects)
        },
    }
}

/// Plans the files of a project called `name` in `target`, given what
/// came of initialising version control there.
pub fn write_project(target: &str, name: &str, git: Outcome) -> (plan: Plan)
    ensures
        plan@ == project_plan(target@, name@, git@),
{
    match git {
        Outcome::SpawnFailed => refuse(ChpError::GitInitError, Vec::new()),
        Outcome::Exited { stdout, stderr } => {
            if stderr.len() > 0 {
                refuse(ChpError::GitInitError, stderr)
            } else {
                let src = join_path(target, "src");
                let build = join_path(target, "build");
                let mut effects: Vec<Effect> = Vec::new();
                effects.push(
                    Effect::WriteFile {
                        path: join_path(target, "chp.toml"),
                        content: render_config(name),
                    },
                );
                effects.push(Effect::CreateDir(src.clone()));
                effects.push(
                    Effect::WriteFile {
                        path: join_path(src.as_str(), "main.cpp"),
                        content: String::from_str(MAIN_FILE_CONTENT),
                    },
                );
                effects.push(Effect::CreateDir(join_path(build.as_str(), "debug")));
                effects.push(Effect::CreateDir(join_path(build.as_str(), "release")));
                assert(effect_views(effects@) =~= project_effects(target@, name@));
                Plan::Perform(effects)
            }
        },
    }
}

} // verus!
