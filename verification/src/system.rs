//! A project found on disk: its directory and its build configuration, and the
//! single compiler invocation that builds it.

use vstd::prelude::*;
use crate::parse::{BuildConfiguration, Language};
use crate::paths::{join_path, path_extension, path_joined, path_with_extension, replace_extension};
use crate::strings::{concat_strs, is_prefix, join, join_strings, owned, starts_with, str_eq, texts};

verus! {

/// `m` resolved against the directory `b`: itself when absolute (it starts with
/// `/`), else joined onto `b`.
pub open spec fn resolved(m: Seq<char>, b: Seq<char>) -> Seq<char> {
    if is_prefix("/"@, m) {
        m
    } else {
        path_joined(b, m)
    }
}

/// The object file of a source: the source with the extension `o`.
pub open spec fn object_of(source: Seq<char>) -> Seq<char> {
    path_with_extension(source, "o"@)
}

/// `m` resolved against the directory `b`.
pub fn absolute_or_relative(m: &String, b: &String) -> (res: String)
    ensures
        res@ == resolved(m@, b@),
{
    if starts_with(m.as_str(), "/") {
        m.clone()
    } else {
        join_path(b.as_str(), m.as_str())
    }
}

/// The object file of `source`.
pub fn to_object(source: &String) -> (res: String)
    ensures
        res@ == object_of(source@),
        res@ == source@ || path_extension(res@) == Some("o"@),
{
    proof {
        reveal_strlit("o");
    }
    replace_extension(source.as_str(), "o")
}

/// A project on disk.
#[derive(Debug, Clone)]
pub struct BuildSystem {
    /// The project's directory, as an absolute path.
    pub path: String,
    pub build_file: BuildConfiguration,
    pub failed: bool,
}

/// What building one project runs, and what is shown about it.
#[derive(Debug, Clone)]
pub struct BuildPlan {
    pub name: String,
    pub version: String,
    pub path: String,
    /// The language shown for the project.
    pub language: String,
    /// The object files of the sources, when the project asks for objects.
    pub objects: Vec<String>,
    /// The compiler invocation: program, then arguments.
    pub command: Vec<String>,
}

impl BuildSystem {
    /// The sources, each resolved against the project's directory.
    pub open spec fn sources_spec(&self) -> Seq<Seq<char>> {
        texts(self.build_file.build.source@).map_values(|s: Seq<char>| resolved(s, self.path@))
    }

    /// The include directories resolved against the project's directory, each
    /// after `-I` when `formatted`.
    pub open spec fn includes_spec(&self, formatted: bool) -> Seq<Seq<char>> {
        texts(self.build_file.build.includes@).map_values(
            |m: Seq<char>|
                if formatted {
                    "-I"@ + resolved(m, self.path@)
                } else {
                    resolved(m, self.path@)
                },
        )
    }

    /// The language shown: the declared one, several joined by `, `, or else
    /// guessed from the compiler (`c` for gcc and clang, `cpp` for g++ and
    /// clang++, `?` otherwise).
    pub open spec fn language_spec(&self) -> Seq<char> {
        match self.build_file.project.language {
            Some(Language::Language(l)) => l@,
            Some(Language::Languages(ls)) => join(texts(ls@), ", "@),
            None => {
                let compiler = self.build_file.build.compiler@;
                if compiler == "gcc"@ || compiler == "clang"@ {
                    "c"@
                } else if compiler == "g++"@ || compiler == "clang++"@ {
                    "cpp"@
                } else {
                    "?"@
                }
            },
        }
    }

    /// The compiler invocation: the compiler, then three arguments: the sources
    /// joined by spaces, the include flags joined by spaces, and `-o` glued to
    /// `<name>.out` in the project's directory.
    pub open spec fn command_spec(&self) -> Seq<Seq<char>> {
        seq![
            self.build_file.build.compiler@,
            join(self.sources_spec(), " "@),
            join(self.includes_spec(true), " "@),
            "-o"@ + path_joined(self.path@, self.build_file.project.name@ + ".out"@),
        ]
    }

    /// The objects of a build plan: those of the sources when the project asks for
    /// objects, else none.
    pub open spec fn objects_spec(&self) -> Seq<Seq<char>> {
        if self.build_file.build.objects == Some(true) {
            self.sources_spec().map_values(|s: Seq<char>| object_of(s))
        } else {
            Seq::empty()
        }
    }

    /// `plan` is the build plan of this project.
    pub open spec fn is_plan(&self, plan: BuildPlan) -> bool {
        &&& plan.name@ == self.build_file.project.name@
        &&& plan.version@ == self.build_file.project.version@
        &&& plan.path@ == self.path@
        &&& plan.language@ == self.language_spec()
        &&& texts(plan.objects@) == self.objects_spec()
        &&& texts(plan.command@) == self.command_spec()
    }

    /// The sources, each resolved against the project's directory.
    pub fn get_sources(&self) -> (res: Vec<String>)
        ensures
            texts(res@) == self.sources_spec(),
    {
        let sources = &self.build_file.build.source;
        let mut out: Vec<String> = Vec::new();
        let n = sources.len();
        let mut i: usize = 0;
        while i < n
            invariant
                n == sources@.len(),
                sources == &self.build_file.build.source,
                i <= n,
                texts(out@) == self.sources_spec().subrange(0, i as int),
            decreases n - i,
        {
            let r = absolute_or_relative(&sources[i], &self.path);
            let ghost prev = out@;
            out.push(r);
            assert(texts(out@) =~= texts(prev).push(r@));
            assert(texts(out@) =~= self.sources_spec().subrange(0, i + 1));
            i = i + 1;
        }
        assert(self.sources_spec().subrange(0, n as int) =~= self.sources_spec());
        out
    }

    /// The include directories resolved against the project's directory, each
    /// after `-I` when `formatted`.
    pub fn get_includes(&self, formatted: bool) -> (res: Vec<String>)
        ensures
            texts(res@) == self.includes_spec(formatted),
    {
        let includes = &self.build_file.build.includes;
        let mut out: Vec<String> = Vec::new();
        let n = includes.len();
        let mut i: usize = 0;
        while i < n
            invariant
                n == includes@.len(),
                includes == &self.build_file.build.includes,
                i <= n,
                texts(out@) == self.includes_spec(formatted).subrange(0, i as int),
            decreases n - i,
        {
            let r = absolute_or_relative(&includes[i], &self.path);
            let item = if formatted {
                concat_strs("-I", r.as_str())
            } else {
                r
            };
            let ghost prev = out@;
            out.push(item);
            assert(texts(out@) =~= texts(prev).push(item@));
            assert(texts(out@) =~= self.includes_spec(formatted).subrange(0, i + 1));
            i = i + 1;
        }
        assert(self.includes_spec(formatted).subrange(0, n as int) =~= self.includes_spec(formatted));
        out
    }

    /// The object file of each of `sources`, in order.
    pub fn all_object(&self, sources: &Vec<String>) -> (res: Vec<String>)
        ensures
            texts(res@) == texts(sources@).map_values(|s: Seq<char>| object_of(s)),
    {
        let ghost target = texts(sources@).map_values(|s: Seq<char>| object_of(s));
        let mut out: Vec<String> = Vec::new();
        let n = sources.len();
        let mut i: usize = 0;
        while i < n
            invariant
                n == sources@.len(),
                i <= n,
                target == texts(sources@).map_values(|s: Seq<char>| object_of(s)),
                texts(out@) == target.subrange(0, i as int),
            decreases n - i,
        {
            let o = to_object(&sources[i]);
            let ghost prev = out@;
            out.push(o);
            assert(texts(out@) =~= texts(prev).push(o@));
            assert(texts(out@) =~= target.subrange(0, i + 1));
            i = i + 1;
        }
        assert(target.subrange(0, n as int) =~= target);
        out
    }

    /// Cloning dependencies with git: nothing yet.
    pub fn invoke_git() {
    }

    /// The language shown for the project.
    pub fn language_label(&self) -> (res: String)
        ensures
            res@ == self.language_spec(),
    {
        match &self.build_file.project.language {
            Some(Language::Language(l)) => l.clone(),
            Some(Language::Languages(ls)) => join_strings(ls, ", "),
            None => {
                let compiler = self.build_file.build.compiler.as_str();
                if str_eq(compiler, "gcc") || str_eq(compiler, "clang") {
                    owned("c")
                } else if str_eq(compiler, "g++") || str_eq(compiler, "clang++") {
                    owned("cpp")
                } else {
                    owned("?")
                }
            },
        }
    }

    /// What building the project runs, and what is shown about it.
    pub fn construct(&self) -> (res: BuildPlan)
        ensures
            self.is_plan(res),
    {
        let name = self.build_file.project.name.clone();
        let version = self.build_file.project.version.clone();
        let path = self.path.clone();
        let language = self.language_label();
        let sources_list = self.get_sources();
        let sources = join_strings(&sources_list, " ");
        let includes_list = self.get_includes(true);
        let includes = join_strings(&includes_list, " ");
        let use_objects = match self.build_file.build.objects {
            Some(value) => value,
            None => false,
        };
        let objects = if use_objects {
            self.all_object(&sources_list)
        } else {
            Vec::new()
        };
        assert(texts(objects@) =~= self.objects_spec());
        let out_name = concat_strs(name.as_str(), ".out");
        let out_path = join_path(path.as_str(), out_name.as_str());
        let out = concat_strs("-o", out_path.as_str());
        let mut command: Vec<String> = Vec::new();
        command.push(self.build_file.build.compiler.clone());
        command.push(sources);
        command.push(includes);
        command.push(out);
        assert(texts(command@) =~= self.command_spec());
        BuildPlan { name, version, path, language, objects, command }
    }
}

/// The include arguments with `-I` are those without, each after `-I`.
pub proof fn lemma_formatted_includes(bs: BuildSystem)
    ensures
        bs.includes_spec(true).len() == bs.includes_spec(false).len(),
        forall|i: int|
            0 <= i < bs.includes_spec(true).len() ==> #[trigger] bs.includes_spec(true)[i] == "-I"@
                + bs.includes_spec(false)[i],
{
}

} // verus!
