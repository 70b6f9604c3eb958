//! The command line as the library sees it: the subcommand, the name of a
//! project to create, and its language.

use vstd::prelude::*;

verus! {

/// What to do with an existing project.
#[allow(non_camel_case_types)]
#[derive(Debug, Clone, Copy, PartialEq, Eq, Structural)]
pub enum Command {
    run,
    build,
    scripts,
}

/// The language of a project to create.
#[allow(non_camel_case_types)]
#[derive(Debug, Clone, Copy, PartialEq, Eq, Structural)]
pub enum Lang {
    c,
    cpp,
    cxx,
}

impl Default for Lang {
    fn default() -> (res: Self)
        ensures
            res == Lang::c,
    {
        Lang::c
    }
}

impl Lang {
    /// The extension of source files in this language: `c` for C, `cpp` otherwise.
    pub open spec fn extension_spec(self) -> Seq<char> {
        match self {
            Lang::c => "c"@,
            _ => "cpp"@,
        }
    }

    /// The extension of source files in this language.
    pub fn to_extension(&self) -> (res: &'static str)
        ensures
            res@ == self.extension_spec(),
    {
        match self {
            Lang::c => "c",
            _ => "cpp",
        }
    }
}

/// The parsed command line.
#[derive(Debug, Clone)]
pub struct Cli {
    /// The subcommand, if one was given.
    pub initial: Option<Command>,
    /// The name of a new project to create, if one was given.
    pub new: Option<String>,
    /// The language of the new project, if one was given.
    pub language: Option<Lang>,
}

} // verus!
