use vstd::prelude::*;

verus! {

/// The ways a command can end early.
#[derive(Clone, Copy, Debug, PartialEq, Eq, Structural)]
pub enum ChpError {
    /// No ancestor of the invocation directory holds the marker file.
    RootNotFound,
    /// A directory on the ancestor chain could not be listed.
    DirectoryReadError,
    /// The marker file could not be read as text.
    ConfigReadError,
    /// The marker file is not a valid project description.
    ConfigParseError,
    /// A configured source directory, or one below it, could not be listed.
    DirectoryWalkError,
    /// The directory chosen for a new project already has entries.
    NonEmptyDirectory,
    /// Version control could not be initialised in the new project.
    GitInitError,
    /// The compiler or the built program could not be started.
    ProcessSpawnError,
}

impl ChpError {
    /// What to tell the user about this error.
    pub open spec fn message_text(self) -> Seq<char> {
        match self {
            ChpError::RootNotFound => "Could not find root (chp.toml not found)"@,
            ChpError::DirectoryReadError => "Could not list a directory above the current one"@,
            ChpError::ConfigReadError => "Could not read chp.toml"@,
            ChpError::ConfigParseError => "Could not parse chp.toml"@,
            ChpError::DirectoryWalkError => "Could not search a source directory"@,
            ChpError::NonEmptyDirectory => "Project folder is not empty"@,
            ChpError::GitInitError => "Could not initialize git"@,
            ChpError::ProcessSpawnError => "Could not start the process"@,
        }
    }

    /// What to tell the user about this error.
    pub fn message(&self) -> (text: &'static str)
        ensures
            text@ == self.message_text(),
    {
        match self {
            ChpError::RootNotFound => "Could not find root (chp.toml not found)",
            ChpError::DirectoryReadError => "Could not list a directory above the current one",
            ChpError::ConfigReadError => "Could not read chp.toml",
            ChpError::ConfigParseError => "Could not parse chp.toml",
            ChpError::DirectoryWalkError => "Could not search a source directory",
            ChpError::NonEmptyDirectory => "Project folder is not empty",
            ChpError::GitInitError => "Could not initialize git",
            ChpError::ProcessSpawnError => "Could not start the process",
        }
    }
}

} // verus!
