//! What a new project holds: its main source file and its manifest.

use vstd::prelude::*;
use crate::cli::{Cli, Lang};
use crate::strings::{concat_strs, is_prefix, is_suffix, owned, str_eq};

verus! {

/// The manifest of a new project, up to its name.
pub const MANIFEST_HEAD: &'static str = "# File auto-generated by pwease\n[project]\nname = \"";

/// The manifest of a new project, between its name and the extension of its main file.
pub const MANIFEST_MIDDLE: &'static str = "\"\nversion = \"0.1\"\ntype = \"app\"\n\n[build]\n#compiler = \nsources = [\"src/main.";

/// The manifest of a new project, after the extension of its main file.
pub const MANIFEST_TAIL: &'static str = "\"]\n";

/// The starter program a new project's main file holds.
#[derive(Debug, Clone, Copy, PartialEq, Eq, Structural)]
pub enum Template {
    C,
    Cpp,
}

/// A project to create under the directory `name`.
#[derive(Debug, Clone)]
pub struct NewProject {
    pub name: String,
    /// The extension of the main file, `src/main.<extension>`.
    pub extension: String,
    /// The main file's name, `main.<extension>`.
    pub main_file: String,
    pub template: Template,
    /// The text of `Build.toml`.
    pub manifest: String,
}

/// The manifest of a new project `name` whose main file has extension `ext`.
pub open spec fn manifest_text(name: Seq<char>, ext: Seq<char>) -> Seq<char> {
    MANIFEST_HEAD@ + name + MANIFEST_MIDDLE@ + ext + MANIFEST_TAIL@
}

/// The starter program for a main file with extension `ext`: C++ for `cpp`, else C.
pub open spec fn template_spec(ext: Seq<char>) -> Template {
    if ext == "cpp"@ {
        Template::Cpp
    } else {
        Template::C
    }
}

/// The manifest of a new project `name` whose main file has extension `ext`.
pub fn manifest_for(name: &str, ext: &str) -> (res: String)
    ensures
        res@ == manifest_text(name@, ext@),
{
    let mut text = owned(MANIFEST_HEAD);
    text.append(name);
    text.append(MANIFEST_MIDDLE);
    text.append(ext);
    text.append(MANIFEST_TAIL);
    text
}

/// The starter program for a main file with extension `ext`.
pub fn template_for(ext: &str) -> (res: Template)
    ensures
        res == template_spec(ext@),
{
    if str_eq(ext, "cpp") {
        Template::Cpp
    } else {
        Template::C
    }
}

/// The project that `--new` asks for: none without a name; C unless another
/// language is given.
pub fn plan_new_project(cli: &Cli) -> (res: Option<NewProject>)
    ensures
        match cli.new {
            None => res is None,
            Some(name) => res matches Some(p) && {
                let ext = match cli.language {
                    Some(l) => l.extension_spec(),
                    None => Lang::c.extension_spec(),
                };
                &&& p.name@ == name@
                &&& p.extension@ == ext
                &&& p.main_file@ == "main."@ + ext
                &&& p.template == template_spec(ext)
                &&& p.manifest@ == manifest_text(name@, ext)
            },
        },
{
    let name = match &cli.new {
        Some(n) => n,
        None => return None,
    };
    let lang = match cli.language {
        Some(l) => l,
        None => Lang::c,
    };
    let ext = lang.to_extension();
    let main_file = concat_strs("main.", ext);
    let template = template_for(ext);
    let manifest = manifest_for(name.as_str(), ext);
    Some(NewProject { name: name.clone(), extension: owned(ext), main_file, template, manifest })
}

/// The manifest of a new project starts with its header and the project's name,
/// and ends by listing the main file `src/main.<ext>` as the only source, for every
/// name and extension.
pub proof fn lemma_manifest_names_main_file(name: Seq<char>, ext: Seq<char>)
    ensures
        is_prefix("# File auto-generated by pwease\n[project]\nname = \""@ + name, manifest_text(name, ext)),
        is_suffix("sources = [\"src/main."@ + ext + "\"]\n"@, manifest_text(name, ext)),
{
    reveal_strlit("# File auto-generated by pwease\n[project]\nname = \"");
    reveal_strlit("\"\nversion = \"0.1\"\ntype = \"app\"\n\n[build]\n#compiler = \nsources = [\"src/main.");
    reveal_strlit("\"]\n");
    reveal_strlit("sources = [\"src/main.");
    let m = manifest_text(name, ext);
    let pre = "# File auto-generated by pwease\n[project]\nname = \""@ + name;
    assert(m.subrange(0, pre.len() as int) =~= pre);
    let mid = MANIFEST_MIDDLE@;
    let key = "sources = [\"src/main."@;
    assert(mid.subrange(mid.len() - key.len(), mid.len() as int) =~= key);
    let suf = key + ext + "\"]\n"@;
    assert(m.subrange(m.len() - suf.len(), m.len() as int) =~= suf);
}

} // verus!
