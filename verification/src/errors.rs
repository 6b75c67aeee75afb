use vstd::prelude::*;

verus! {

/// Why the root-path operation could not produce a directory.
#[derive(Clone, Copy, Debug, PartialEq, Eq, Structural)]
pub enum PathResolutionError {
    /// The hosting process could not resolve the running executable's path.
    Unresolved,
    /// The resolved path has no containing directory (it is a bare name or
    /// the filesystem root).
    NoParent,
}

/// The modal dialog could not be shown (headless environment, or the
/// platform dialog subsystem is unavailable).
#[derive(Clone, Copy, Debug, PartialEq, Eq, Structural)]
pub struct DialogUnavailableError;

/// A fatal failure while bringing up the hosting runtime or its window.
#[derive(Clone, Copy, Debug, PartialEq, Eq, Structural)]
pub enum StartupError {
    /// The runtime itself failed to initialize.
    RuntimeInit,
    /// The runtime came up but the main window could not be created.
    WindowCreation,
}

impl PathResolutionError {
    /// A fixed diagnostic text for each variant.
    pub fn message(&self) -> (m: String)
        ensures
            *self is Unresolved ==> m@ == "executable path could not be resolved"@,
            *self is NoParent ==> m@ == "executable path has no parent directory"@,
    {
        match self {
            PathResolutionError::Unresolved => "executable path could not be resolved".to_owned(),
            PathResolutionError::NoParent => "executable path has no parent directory".to_owned(),
        }
    }
}

impl DialogUnavailableError {
    /// A fixed diagnostic text.
    pub fn message(&self) -> (m: String)
        ensures
            m@ == "dialog subsystem is unavailable"@,
    {
        "dialog subsystem is unavailable".to_owned()
    }
}

impl StartupError {
    /// A fixed diagnostic text for each variant.
    pub fn message(&self) -> (m: String)
        ensures
            *self is RuntimeInit ==> m@ == "runtime failed to initialize"@,
            *self is WindowCreation ==> m@ == "main window could not be created"@,
    {
        match self {
            StartupError::RuntimeInit => "runtime failed to initialize".to_owned(),
            StartupError::WindowCreation => "main window could not be created".to_owned(),
        }
    }
}

} // verus!
