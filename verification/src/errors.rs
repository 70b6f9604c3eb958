//! The errors a build can end in, and the message each one prints.

use vstd::prelude::*;
use crate::paths::{debug_path, path_debug};
use crate::strings::{concat_strs, owned};

verus! {

/// Why a build step failed.
#[derive(Debug, Clone)]
pub enum CompilationError {
    /// The compiler failed on a source file of the named project.
    Compiling(String),
    /// The link step of the named project failed.
    Linking(String),
    /// A dependency could not be found.
    Dependency(String),
    /// Cloning the dependency at this repository failed.
    Cloning(String),
    /// A shell command could not be run.
    ShellCommand(String),
    /// The file at this path could not be created.
    FailedToCreateFile(String),
    /// A file had no extension that could be read.
    Ext,
}

impl CompilationError {
    /// The message of the error in two parts: the part shown highlighted (none for
    /// `Ext`), then the plain rest.
    pub open spec fn message_parts_spec(&self) -> (Option<Seq<char>>, Seq<char>) {
        match self {
            CompilationError::Compiling(name) => (Some("Failed to compile"@), " '"@ + name@ + "'"@),
            CompilationError::Linking(name) => (Some("Failed to link"@), " "@ + name@),
            CompilationError::Dependency(dep) => (Some("Dependency not found"@), ": "@ + dep@),
            CompilationError::Cloning(dep) => (Some("Failed to clone dependency"@), " '"@ + dep@ + "'"@),
            CompilationError::ShellCommand(command) => (
                Some("Failed to run"@),
                " '"@ + command@ + "'\nMake sure it's installed on your machine"@,
            ),
            CompilationError::FailedToCreateFile(file) => (Some("Couldn't create file"@), " "@ + path_debug(file@)),
            CompilationError::Ext => (None, "An internal error occured. please try again."@),
        }
    }

    /// The whole message: the highlighted part, if any, followed by the rest.
    pub open spec fn message_spec(&self) -> Seq<char> {
        let (lead, rest) = self.message_parts_spec();
        match lead {
            Some(l) => l + rest,
            None => rest,
        }
    }

    /// The message in two parts: the highlighted part (none for `Ext`) and the rest.
    pub fn message_parts(&self) -> (res: (Option<String>, String))
        ensures
            res.0.deep_view() == self.message_parts_spec().0,
            res.1@ == self.message_parts_spec().1,
    {
        match self {
            CompilationError::Compiling(name) => {
                let rest = concat_strs(concat_strs(" '", name.as_str()).as_str(), "'");
                (Some(owned("Failed to compile")), rest)
            },
            CompilationError::Linking(name) => (Some(owned("Failed to link")), concat_strs(" ", name.as_str())),
            CompilationError::Dependency(dep) => (Some(owned("Dependency not found")), concat_strs(": ", dep.as_str())),
            CompilationError::Cloning(dep) => {
                let rest = concat_strs(concat_strs(" '", dep.as_str()).as_str(), "'");
                (Some(owned("Failed to clone dependency")), rest)
            },
            CompilationError::ShellCommand(command) => {
                let rest = concat_strs(
                    concat_strs(" '", command.as_str()).as_str(),
                    "'\nMake sure it's installed on your machine",
                );
                (Some(owned("Failed to run")), rest)
            },
            CompilationError::FailedToCreateFile(file) => {
                let shown = debug_path(file.as_str());
                (Some(owned("Couldn't create file")), concat_strs(" ", shown.as_str()))
            },
            CompilationError::Ext => (None, owned("An internal error occured. please try again.")),
        }
    }

    /// The whole message, without highlighting.
    pub fn message(&self) -> (res: String)
        ensures
            res@ == self.message_spec(),
    {
        let (lead, rest) = self.message_parts();
        match lead {
            Some(l) => concat_strs(l.as_str(), rest.as_str()),
            None => rest,
        }
    }
}

} // verus!
