//! The project manifest (`build.toml`) as data, and what a build of it runs:
//! compiler, compile and link command lines, linker flags, dependency clones.

use vstd::prelude::*;
use crate::cli::Command;
use crate::paths::{path_extension, path_with_extension};
use crate::utils::get_extension;
use crate::system::to_object;
use crate::strings::{
    concat_strs, concat_all, ends_with, is_prefix, is_suffix, owned, remove_all, remove_char, split_on,
    split_on_char, split_words, starts_with, str_eq, texts, words,
};

pub use crate::errors::CompilationError;

verus! {

/// Whether the project builds a program or a library.
#[allow(non_camel_case_types)]
#[derive(Debug, Clone, Copy, PartialEq, Eq, Structural)]
pub enum ProjectType {
    app,
    lib,
}

impl Default for ProjectType {
    fn default() -> (res: Self)
        ensures
            res == ProjectType::app,
    {
        ProjectType::app
    }
}

/// The languages a manifest may name.
#[allow(non_camel_case_types)]
#[derive(Debug, Clone, Copy, PartialEq, Eq, Structural)]
pub enum Languages {
    c,
    cpp,
    cxx,
    cc,
    Cpp,
}

impl Default for Languages {
    fn default() -> (res: Self)
        ensures
            res == Languages::c,
    {
        Languages::c
    }
}

/// Where a library project puts its output.
#[derive(Debug, Clone)]
pub struct Output {
    pub dir: String,
    pub name: String,
}

/// The `[project]` table of the manifest.
#[derive(Debug, Clone)]
pub struct Project {
    pub name: String,
    pub version: String,
    /// The manifest's `type` key.
    pub project_type: ProjectType,
}

/// Remote dependencies: a name for each, mapped to where it is cloned from.
/// No name occurs twice; the entries keep the order in which their names came.
#[derive(Debug, Clone)]
pub struct Remote {
    entries: Vec<(String, String)>,
}

/// The texts of a list of (name, source) pairs.
pub open spec fn pair_texts(v: Seq<(String, String)>) -> Seq<(Seq<char>, Seq<char>)> {
    v.map_values(|p: (String, String)| (p.0@, p.1@))
}

/// No two entries share a name.
pub open spec fn names_distinct(s: Seq<(Seq<char>, Seq<char>)>) -> bool {
    forall|i: int, j: int| 0 <= i < s.len() && 0 <= j < s.len() && i != j ==> s[i].0 != s[j].0
}

/// The map from names to sources that a list of entries with distinct names stands for.
pub open spec fn entries_map(s: Seq<(Seq<char>, Seq<char>)>) -> Map<Seq<char>, Seq<char>> {
    Map::new(
        |k: Seq<char>| exists|i: int| 0 <= i < s.len() && s[i].0 == k,
        |k: Seq<char>| s[choose|i: int| 0 <= i < s.len() && s[i].0 == k].1,
    )
}

/// Giving the entry at `i` a new source keeps the names distinct and maps its name
/// to the new source, the other names unchanged.
pub proof fn lemma_entries_replace(s: Seq<(Seq<char>, Seq<char>)>, i: int, source: Seq<char>)
    requires
        names_distinct(s),
        0 <= i < s.len(),
    ensures
        names_distinct(s.update(i, (s[i].0, source))),
        entries_map(s.update(i, (s[i].0, source))) == entries_map(s).insert(s[i].0, source),
{
    let name = s[i].0;
    let t = s.update(i, (name, source));
    assert forall|k: Seq<char>| #[trigger] entries_map(t).dom().contains(k) == entries_map(s).insert(
        name,
        source,
    ).dom().contains(k) by {
        if exists|j: int| 0 <= j < t.len() && t[j].0 == k {
            let j = choose|j: int| 0 <= j < t.len() && t[j].0 == k;
            assert(s[j].0 == k);
        }
        if exists|j: int| 0 <= j < s.len() && s[j].0 == k {
            let j = choose|j: int| 0 <= j < s.len() && s[j].0 == k;
            assert(t[j].0 == k);
        }
    }
    assert forall|k: Seq<char>| #[trigger] entries_map(t).dom().contains(k) implies entries_map(t)[k]
        == entries_map(s).insert(name, source)[k] by {
        let j = choose|j: int| 0 <= j < t.len() && t[j].0 == k;
        if k == name {
            assert(j == i);
        } else {
            let js = choose|js: int| 0 <= js < s.len() && s[js].0 == k;
            assert(js == j);
        }
    }
    assert(entries_map(t) =~= entries_map(s).insert(name, source));
}

/// Adding an entry under a new name keeps the names distinct and maps the name to
/// its source, the other names unchanged.
pub proof fn lemma_entries_append(s: Seq<(Seq<char>, Seq<char>)>, name: Seq<char>, source: Seq<char>)
    requires
        names_distinct(s),
        forall|j: int| 0 <= j < s.len() ==> s[j].0 != name,
    ensures
        names_distinct(s.push((name, source))),
        entries_map(s.push((name, source))) == entries_map(s).insert(name, source),
{
    let t = s.push((name, source));
    assert forall|k: Seq<char>| #[trigger] entries_map(t).dom().contains(k) == entries_map(s).insert(
        name,
        source,
    ).dom().contains(k) by {
        if k != name {
            if exists|j: int| 0 <= j < t.len() && t[j].0 == k {
                let j = choose|j: int| 0 <= j < t.len() && t[j].0 == k;
                assert(s[j].0 == k);
            }
            if exists|j: int| 0 <= j < s.len() && s[j].0 == k {
                let j = choose|j: int| 0 <= j < s.len() && s[j].0 == k;
                assert(t[j].0 == k);
            }
        } else {
            assert(t[s.len() as int].0 == k);
        }
    }
    assert forall|k: Seq<char>| #[trigger] entries_map(t).dom().contains(k) implies entries_map(t)[k]
        == entries_map(s).insert(name, source)[k] by {
        let j = choose|j: int| 0 <= j < t.len() && t[j].0 == k;
        if k == name {
            assert(j == s.len());
        } else {
            let js = choose|js: int| 0 <= js < s.len() && s[js].0 == k;
            assert(js == j);
        }
    }
    assert(entries_map(t) =~= entries_map(s).insert(name, source));
}

impl Remote {
    /// The entries as texts, in order.
    pub closed spec fn view_entries(&self) -> Seq<(Seq<char>, Seq<char>)> {
        pair_texts(self.entries@)
    }

    /// The entries' names are distinct.
    pub open spec fn well_formed(&self) -> bool {
        names_distinct(self.view_entries())
    }

    /// The map from names to sources.
    pub open spec fn as_map(&self) -> Map<Seq<char>, Seq<char>> {
        entries_map(self.view_entries())
    }

    /// No remote dependencies.
    pub fn new() -> (res: Self)
        ensures
            res.well_formed(),
            res.view_entries() == Seq::<(Seq<char>, Seq<char>)>::empty(),
    {
        let r = Remote { entries: Vec::new() };
        assert(pair_texts(r.entries@) =~= Seq::<(Seq<char>, Seq<char>)>::empty());
        r
    }

    /// Maps `name` to `source`: an entry with that name gets the new source in
    /// place, otherwise the pair is added at the end.
    pub fn insert(&mut self, name: String, source: String)
        requires
            old(self).well_formed(),
        ensures
            final(self).well_formed(),
            final(self).as_map() == old(self).as_map().insert(name@, source@),
            (exists|i: int|
                0 <= i < old(self).view_entries().len() && old(self).view_entries()[i].0 == name@)
                ==> final(self).view_entries().len() == old(self).view_entries().len(),
            (forall|i: int|
                0 <= i < old(self).view_entries().len() ==> old(self).view_entries()[i].0 != name@)
                ==> final(self).view_entries() == old(self).view_entries().push((name@, source@)),
    {
        let ghost old_entries = self.view_entries();
        let n = self.entries.len();
        let mut i: usize = 0;
        while i < n
            invariant
                n == self.entries@.len(),
                i <= n,
                self.view_entries() == old_entries,
                old_entries == old(self).view_entries(),
                names_distinct(old_entries),
                forall|j: int| 0 <= j < i ==> old_entries[j].0 != name@,
            decreases n - i,
        {
            if str_eq(self.entries[i].0.as_str(), name.as_str()) {
                proof {
                    lemma_entries_replace(old_entries, i as int, source@);
                }
                self.entries.set(i, (name, source));
                assert(self.view_entries() =~= old_entries.update(i as int, (name@, source@)));
                return;
            }
            i = i + 1;
        }
        proof {
            lemma_entries_append(old_entries, name@, source@);
        }
        self.entries.push((name, source));
        assert(self.view_entries() =~= old_entries.push((name@, source@)));
    }

    /// The (name, source) entries, in order.
    pub fn entries(&self) -> (res: &Vec<(String, String)>)
        ensures
            pair_texts(res@) == self.view_entries(),
    {
        &self.entries
    }
}

/// The `[build.dependencies]` table of the manifest.
#[derive(Debug, Clone)]
pub struct Dependencies {
    /// The version control program that clones remote dependencies (`git` when absent).
    pub vcs: Option<String>,
    /// Extra arguments given to every clone.
    pub vcs_flags: Option<Vec<String>>,
    /// Libraries to link: a name, or a shell command in backticks whose output
    /// holds the flags.
    pub local: Option<Vec<String>>,
    /// Dependencies to clone.
    pub remote: Option<Remote>,
}

/// The `[build]` table of the manifest.
#[derive(Debug, Clone)]
pub struct Build {
    pub compiler: String,
    pub sources: Vec<String>,
    pub includes: Option<Vec<String>>,
    /// Warning level: 0 none, 1 `-Wall`, 2 adds `-Wextra`, 3 adds `-Wpedantic`,
    /// 4 and above add `-Werror`.
    pub warnings: Option<u8>,
    /// Compile each source to an object file first, then link the objects.
    pub objects: Option<bool>,
    /// The name of the output (the project's name when absent).
    pub bin: Option<String>,
    pub dependencies: Option<Dependencies>,
}

/// The manifest of a program.
#[derive(Debug, Clone)]
pub struct AppRoot {
    pub project: Project,
    pub build: Build,
}

/// The manifest of a library.
#[derive(Debug, Clone)]
pub struct LibRoot {
    pub project: Project,
    pub build: Build,
    pub output: Output,
}

/// A manifest, by the kind of project it describes.
#[derive(Debug, Clone)]
pub enum Redirect {
    App(AppRoot),
    Lib(LibRoot),
}

/// What running a command on a manifest comes to.
#[derive(Debug, Clone, Copy, PartialEq, Eq, Structural)]
pub enum Action {
    /// Build the program.
    Build,
    /// Nothing to do.
    Nothing,
}

/// How one local dependency is linked.
#[derive(Debug, Clone)]
pub enum LocalLink {
    /// Link the named library with `-l`.
    Library(String),
    /// Run this command (program, then arguments); its output holds the flags.
    Shell(Vec<String>),
}

/// A [`LocalLink`] as texts.
pub enum LocalLinkView {
    Library(Seq<char>),
    Shell(Seq<Seq<char>>),
}

impl View for LocalLink {
    type V = LocalLinkView;

    open spec fn view(&self) -> LocalLinkView {
        match self {
            LocalLink::Library(name) => LocalLinkView::Library(name@),
            LocalLink::Shell(command) => LocalLinkView::Shell(texts(command@)),
        }
    }
}

/// The views of a list of local links.
pub open spec fn link_views(v: Seq<LocalLink>) -> Seq<LocalLinkView> {
    v.map_values(|l: LocalLink| l@)
}

/// A local dependency in backticks is a shell command: the text with every
/// backtick taken out, split at each space. Any other is a library name.
pub open spec fn local_link_spec(dep: Seq<char>) -> LocalLinkView {
    if is_prefix("`"@, dep) && is_suffix("`"@, dep) {
        LocalLinkView::Shell(split_on(remove_char(dep, '`'), ' '))
    } else {
        LocalLinkView::Library(dep)
    }
}

/// The linker flags one local dependency contributes, given what its command printed.
pub open spec fn link_flags_of(step: LocalLinkView, output: Seq<char>) -> Seq<Seq<char>> {
    match step {
        LocalLinkView::Library(name) => seq!["-l"@, name],
        LocalLinkView::Shell(_) => words(output),
    }
}

/// The linker flags of a plan, given the output of each step's command.
pub open spec fn expanded_links(plan: Seq<LocalLinkView>, outputs: Seq<Seq<char>>) -> Seq<Seq<char>> {
    concat_all(Seq::new(plan.len(), |i: int| link_flags_of(plan[i], outputs[i])))
}

/// Where a remote dependency is cloned from: the source itself when it is already
/// an `https://` or `git@` address, else the GitHub repository of that name.
pub open spec fn repository_link(name: Seq<char>) -> Seq<char> {
    if is_prefix("https://"@, name) || is_prefix("git@"@, name) {
        name
    } else {
        "https://github.com/"@ + name
    }
}

/// The warning flags of a level, from the weakest.
pub open spec fn warning_flags(level: u8) -> Seq<Seq<char>> {
    let all = seq!["-Wall"@, "-Wextra"@, "-Wpedantic"@, "-Werror"@];
    if level < 4 {
        all.subrange(0, level as int)
    } else {
        all
    }
}

/// `flag` before each item: `[flag, items[0], flag, items[1], ...]`.
pub open spec fn flag_each(flag: Seq<char>, items: Seq<Seq<char>>) -> Seq<Seq<char>> {
    Seq::new(2 * items.len(), |k: int| if k % 2 == 0 { flag } else { items[k / 2] })
}

/// The extensions of the files that a source directory contributes.
pub open spec fn is_source_extension_spec(ext: Seq<char>) -> bool {
    ext == "c"@ || ext == "cpp"@ || ext == "cxx"@ || ext == "c++"@ || ext == "cc"@ || ext == "C"@
}

/// Where the remote dependency `name` is cloned from.
pub fn dependency_link(name: &String) -> (res: String)
    ensures
        res@ == repository_link(name@),
{
    if starts_with(name.as_str(), "https://") || starts_with(name.as_str(), "git@") {
        return name.clone();
    }
    concat_strs("https://github.com/", name.as_str())
}

/// A remote dependency's source is its own repository address once it is one:
/// resolving an address again changes nothing.
pub proof fn lemma_repository_link_idempotent(name: Seq<char>)
    ensures
        repository_link(repository_link(name)) == repository_link(name),
{
    reveal_strlit("https://");
    reveal_strlit("https://github.com/");
    if !(is_prefix("https://"@, name) || is_prefix("git@"@, name)) {
        let linked = "https://github.com/"@ + name;
        assert(linked.subrange(0, 8) =~= "https://"@);
    }
}

/// Whether a file with extension `ext` in a source directory is a source file.
pub fn is_source_extension(ext: &str) -> (res: bool)
    ensures
        res == is_source_extension_spec(ext@),
{
    str_eq(ext, "c") || str_eq(ext, "cpp") || str_eq(ext, "cxx") || str_eq(ext, "c++") || str_eq(ext, "cc")
        || str_eq(ext, "C")
}

/// How the local dependency `dep` is linked.
pub fn local_link(dep: &String) -> (res: LocalLink)
    ensures
        res@ == local_link_spec(dep@),
{
    if starts_with(dep.as_str(), "`") && ends_with(dep.as_str(), "`") {
        let stripped = remove_all(dep.as_str(), '`');
        LocalLink::Shell(split_on_char(stripped.as_str(), ' '))
    } else {
        LocalLink::Library(dep.clone())
    }
}

/// The linker flags of a plan: `-l` and the name for each library, and the
/// whitespace-separated words of `outputs[i]` for the command of step `i`.
/// (`outputs[i]` is not read for a library.)
pub fn expand_local_links(plan: &Vec<LocalLink>, outputs: &Vec<String>) -> (res: Vec<String>)
    requires
        outputs@.len() == plan@.len(),
    ensures
        texts(res@) == expanded_links(link_views(plan@), texts(outputs@)),
{
    let ghost pv = link_views(plan@);
    let ghost ov = texts(outputs@);
    let ghost f = |i: int| link_flags_of(pv[i], ov[i]);
    let mut out: Vec<String> = Vec::new();
    let n = plan.len();
    let mut i: usize = 0;
    while i < n
        invariant
            n == plan@.len(),
            n == outputs@.len(),
            i <= n,
            pv == link_views(plan@),
            ov == texts(outputs@),
            f == (|i: int| link_flags_of(pv[i], ov[i])),
            texts(out@) == concat_all(Seq::new(i as nat, f)),
        decreases n - i,
    {
        assert(Seq::new((i + 1) as nat, f).drop_last() =~= Seq::new(i as nat, f));
        match &plan[i] {
            LocalLink::Library(name) => {
                out.push(owned("-l"));
                out.push(name.clone());
                assert(texts(out@) =~= concat_all(Seq::new(i as nat, f)) + f(i as int));
            },
            LocalLink::Shell(_) => {
                let words_out = split_words(outputs[i].as_str());
                let ghost before = out@;
                let mut k: usize = 0;
                while k < words_out.len()
                    invariant
                        k <= words_out@.len(),
                        texts(out@) == texts(before) + texts(words_out@).subrange(0, k as int),
                    decreases words_out@.len() - k,
                {
                    let ghost prev = out@;
                    let w = words_out[k].clone();
                    out.push(w);
                    assert(out@ =~= prev.push(words_out@[k as int]));
                    assert(texts(prev.push(words_out@[k as int])) =~= texts(prev).push(words_out@[k as int]@));
                    assert(texts(words_out@).subrange(0, k + 1) =~= texts(words_out@).subrange(0, k as int).push(
                        words_out@[k as int]@,
                    ));
                    assert(texts(out@) =~= texts(before) + texts(words_out@).subrange(0, k + 1));
                    k = k + 1;
                }
                assert(texts(words_out@).subrange(0, k as int) =~= f(i as int));
                assert(texts(out@) =~= concat_all(Seq::new(i as nat, f)) + f(i as int));
            },
        }
        i = i + 1;
    }
    out
}

/// An optional list of strings as texts.
pub open spec fn opt_texts(o: Option<Vec<String>>) -> Option<Seq<Seq<char>>> {
    match o {
        Some(v) => Some(texts(v@)),
        None => None,
    }
}

/// The texts of an optional list, or nothing when it is absent.
pub open spec fn texts_or_empty(o: Option<Vec<String>>) -> Seq<Seq<char>> {
    match o {
        Some(v) => texts(v@),
        None => Seq::empty(),
    }
}

/// The command the user asked for, `build` when none was given.
pub open spec fn command_or_build(cmd: Option<Command>) -> Command {
    match cmd {
        Some(c) => c,
        None => Command::build,
    }
}

/// One clone of a remote dependency.
#[derive(Debug, Clone)]
pub struct CloneJob {
    /// The repository cloned, as named in the error when the clone fails.
    pub repository: String,
    /// The command line: program, then arguments.
    pub command: Vec<String>,
}

/// The compilation of one source file to an object file.
#[derive(Debug, Clone)]
pub struct CompileJob {
    /// The object file the source compiles to.
    pub object: String,
    /// The command line: program, then arguments.
    pub command: Vec<String>,
    /// Whether the compiler has to run: the object is missing, unreadable or older
    /// than the source.
    pub needed: bool,
}

impl AppRoot {
    /// The name of the program built: `bin` when given, else the project's name.
    pub open spec fn output_name_spec(&self) -> Seq<char> {
        match self.build.bin {
            Some(bin) => bin@,
            None => self.project.name@,
        }
    }

    /// The version control program: the dependencies' `vcs` when given, else `git`.
    pub open spec fn vcs_spec(&self) -> Seq<char> {
        match self.build.dependencies {
            Some(d) => match d.vcs {
                Some(v) => v@,
                None => "git"@,
            },
            None => "git"@,
        }
    }

    /// The include flags: none without `includes`, else `-I` before each directory.
    pub open spec fn includes_spec(&self) -> Option<Seq<Seq<char>>> {
        match self.build.includes {
            Some(v) => Some(flag_each("-I"@, texts(v@))),
            None => None,
        }
    }

    /// The warning flags: none at level 0 (the default), else those of the level.
    pub open spec fn warnings_spec(&self) -> Option<Seq<Seq<char>>> {
        let level: u8 = match self.build.warnings {
            Some(l) => l,
            None => 0,
        };
        if level == 0 {
            None
        } else {
            Some(warning_flags(level))
        }
    }

    /// How each local dependency is linked; none without a dependencies table.
    pub open spec fn local_plan_spec(&self) -> Option<Seq<LocalLinkView>> {
        match self.build.dependencies {
            Some(d) => Some(
                match d.local {
                    Some(l) => texts(l@).map_values(|t: Seq<char>| local_link_spec(t)),
                    None => Seq::empty(),
                },
            ),
            None => None,
        }
    }

    /// The remote dependencies, as (name, source) texts in order.
    pub open spec fn remote_spec(&self) -> Seq<(Seq<char>, Seq<char>)> {
        match self.build.dependencies {
            Some(d) => match d.remote {
                Some(r) => r.view_entries(),
                None => Seq::empty(),
            },
            None => Seq::empty(),
        }
    }

    /// The extra clone arguments.
    pub open spec fn vcs_flags_spec(&self) -> Seq<Seq<char>> {
        match self.build.dependencies {
            Some(d) => texts_or_empty(d.vcs_flags),
            None => Seq::empty(),
        }
    }

    /// The command line that clones the remote dependency `name` from `source`.
    pub open spec fn clone_command_spec(&self, name: Seq<char>, source: Seq<char>) -> Seq<Seq<char>> {
        seq![self.vcs_spec(), "clone"@, repository_link(source), name] + self.vcs_flags_spec()
    }

    /// The link command line: the compiler, the inputs, the linker flags, then
    /// `-o` and the output name.
    pub open spec fn link_command_spec(&self, inputs: Seq<Seq<char>>, links: Option<Seq<Seq<char>>>) -> Seq<Seq<char>> {
        let flags = match links {
            Some(l) => l,
            None => Seq::empty(),
        };
        seq![self.build.compiler@] + inputs + flags + seq!["-o"@, self.output_name_spec()]
    }

    /// The compile command line of `file` to `object`: the compiler, `-c`, the file,
    /// `-o`, the object, then the warning and the include flags.
    pub open spec fn compile_command_spec(&self, file: Seq<char>, object: Seq<char>) -> Seq<Seq<char>> {
        let warnings = match self.warnings_spec() {
            Some(w) => w,
            None => Seq::empty(),
        };
        let includes = match self.includes_spec() {
            Some(i) => i,
            None => Seq::empty(),
        };
        seq![self.build.compiler@, "-c"@, file, "-o"@, object] + warnings + includes
    }

    /// The name of the program built.
    pub fn get_output_name(&self) -> (res: String)
        ensures
            res@ == self.output_name_spec(),
    {
        match &self.build.bin {
            Some(bin) => bin.clone(),
            None => self.project.name.clone(),
        }
    }

    /// The version control program that clones remote dependencies.
    pub fn get_vcs(&self) -> (res: String)
        ensures
            res@ == self.vcs_spec(),
    {
        if let Some(dependencies) = &self.build.dependencies {
            match &dependencies.vcs {
                Some(v) => v.clone(),
                None => owned("git"),
            }
        } else {
            owned("git")
        }
    }

    /// The include flags of the compile commands.
    pub fn get_includes(&self) -> (res: Option<Vec<String>>)
        ensures
            opt_texts(res) == self.includes_spec(),
    {
        let includes = match &self.build.includes {
            Some(v) => v,
            None => return None,
        };
        let ghost items = texts(includes@);
        let mut out: Vec<String> = Vec::new();
        let n = includes.len();
        let mut i: usize = 0;
        while i < n
            invariant
                n == includes@.len(),
                items == texts(includes@),
                i <= n,
                texts(out@) == flag_each("-I"@, items.subrange(0, i as int)),
            decreases n - i,
        {
            let ghost prev = texts(out@);
            out.push(owned("-I"));
            out.push(includes[i].clone());
            let ghost next = flag_each("-I"@, items.subrange(0, i + 1));
            assert(texts(out@) =~= next) by {
                assert(texts(out@) =~= prev.push("-I"@).push(items[i as int]));
                assert forall|k: int| 0 <= k < next.len() implies #[trigger] next[k] == prev.push("-I"@).push(
                    items[i as int],
                )[k] by {
                    if k < 2 * i {
                        assert(prev[k] == flag_each("-I"@, items.subrange(0, i as int))[k]);
                    }
                }
            }
            i = i + 1;
        }
        assert(items.subrange(0, n as int) =~= items);
        Some(out)
    }

    /// The warning flags of the compile commands.
    pub fn get_warnings(&self) -> (res: Option<Vec<String>>)
        ensures
            opt_texts(res) == self.warnings_spec(),
    {
        let level: u8 = match self.build.warnings {
            Some(l) => l,
            None => 0,
        };
        if level == 0 {
            return None;
        }
        let mut out: Vec<String> = Vec::new();
        out.push(owned("-Wall"));
        if level >= 2 {
            out.push(owned("-Wextra"));
        }
        if level >= 3 {
            out.push(owned("-Wpedantic"));
        }
        if level >= 4 {
            out.push(owned("-Werror"));
        }
        assert(texts(out@) =~= warning_flags(level));
        Some(out)
    }

    /// Whether sources are compiled to object files before linking (`objects`,
    /// false when absent).
    pub fn uses_objects(&self) -> (res: bool)
        ensures
            res == (self.build.objects == Some(true)),
    {
        match self.build.objects {
            Some(b) => b,
            None => false,
        }
    }

    /// How each local dependency is linked; `None` without a dependencies table.
    pub fn local_link_plan(&self) -> (res: Option<Vec<LocalLink>>)
        ensures
            match res {
                Some(p) => self.local_plan_spec() == Some(link_views(p@)),
                None => self.local_plan_spec() is None,
            },
    {
        let deps = match &self.build.dependencies {
            Some(d) => d,
            None => return None,
        };
        let mut plan: Vec<LocalLink> = Vec::new();
        if let Some(local) = &deps.local {
            let ghost target = texts(local@).map_values(|t: Seq<char>| local_link_spec(t));
            let n = local.len();
            let mut i: usize = 0;
            while i < n
                invariant
                    n == local@.len(),
                    i <= n,
                    target == texts(local@).map_values(|t: Seq<char>| local_link_spec(t)),
                    link_views(plan@) == target.subrange(0, i as int),
                decreases n - i,
            {
                let step = local_link(&local[i]);
                let ghost prev = plan@;
                assert(target[i as int] == local_link_spec(local@[i as int]@));
                plan.push(step);
                assert(plan@ =~= prev.push(step));
                assert(link_views(prev.push(step)) =~= link_views(prev).push(step@));
                assert(link_views(plan@) =~= target.subrange(0, i + 1));
                i = i + 1;
            }
            assert(target.subrange(0, n as int) =~= target);
        } else {
            assert(link_views(plan@) =~= Seq::<LocalLinkView>::empty());
        }
        Some(plan)
    }

    /// The linker flags of the local dependencies, given what each one's command
    /// printed (`outputs[i]` for the `i`-th; read only for commands). `None`
    /// without a dependencies table.
    pub fn get_local_links(&self, outputs: &Vec<String>) -> (res: Option<Vec<String>>)
        requires
            self.local_plan_spec() matches Some(p) ==> outputs@.len() == p.len(),
        ensures
            match self.local_plan_spec() {
                Some(p) => opt_texts(res) == Some(expanded_links(p, texts(outputs@))),
                None => res is None,
            },
    {
        match self.local_link_plan() {
            Some(plan) => Some(expand_local_links(&plan, outputs)),
            None => None,
        }
    }

    /// The clones of the remote dependencies, in order: for each (name, source),
    /// the version control program, `clone`, the repository, the name, then the
    /// extra clone arguments.
    pub fn remote_clone_jobs(&self) -> (res: Vec<CloneJob>)
        ensures
            res@.len() == self.remote_spec().len(),
            forall|i: int|
                0 <= i < res@.len() ==> {
                    &&& (#[trigger] res@[i]).repository@ == repository_link(self.remote_spec()[i].1)
                    &&& texts(res@[i].command@) == self.clone_command_spec(
                        self.remote_spec()[i].0,
                        self.remote_spec()[i].1,
                    )
                },
    {
        let mut jobs: Vec<CloneJob> = Vec::new();
        let deps = match &self.build.dependencies {
            Some(d) => d,
            None => return jobs,
        };
        let remote = match &deps.remote {
            Some(r) => r,
            None => return jobs,
        };
        let entries = remote.entries();
        let vcs = self.get_vcs();
        let ghost flags = self.vcs_flags_spec();
        let n = entries.len();
        let mut i: usize = 0;
        while i < n
            invariant
                n == entries@.len(),
                i <= n,
                pair_texts(entries@) == self.remote_spec(),
                vcs@ == self.vcs_spec(),
                flags == self.vcs_flags_spec(),
                self.build.dependencies == Some(*deps),
                jobs@.len() == i,
                forall|j: int|
                    0 <= j < i ==> {
                        &&& (#[trigger] jobs@[j]).repository@ == repository_link(self.remote_spec()[j].1)
                        &&& texts(jobs@[j].command@) == self.clone_command_spec(
                            self.remote_spec()[j].0,
                            self.remote_spec()[j].1,
                        )
                    },
            decreases n - i,
        {
            let name = &entries[i].0;
            let source = &entries[i].1;
            assert(name@ == self.remote_spec()[i as int].0);
            assert(source@ == self.remote_spec()[i as int].1);
            let repository = dependency_link(source);
            let mut command: Vec<String> = Vec::new();
            command.push(vcs.clone());
            command.push(owned("clone"));
            command.push(repository.clone());
            command.push(name.clone());
            let ghost head = texts(command@);
            assert(head =~= seq![vcs@, "clone"@, repository@, name@]);
            if let Some(extra) = &deps.vcs_flags {
                let m = extra.len();
                let mut k: usize = 0;
                while k < m
                    invariant
                        m == extra@.len(),
                        k <= m,
                        texts(command@) == head + texts(extra@).subrange(0, k as int),
                    decreases m - k,
                {
                    let ghost prev = command@;
                    command.push(extra[k].clone());
                    assert(texts(command@) =~= texts(prev).push(extra@[k as int]@));
                    assert(texts(extra@).subrange(0, k + 1) =~= texts(extra@).subrange(0, k as int).push(
                        extra@[k as int]@,
                    ));
                    k = k + 1;
                }
                assert(texts(extra@).subrange(0, m as int) =~= texts(extra@));
            } else {
                assert(head + Seq::<Seq<char>>::empty() =~= head);
            }
            jobs.push(CloneJob { repository, command });
            i = i + 1;
        }
        jobs
    }

    /// The link command line over `inputs`, with the linker flags `links`.
    pub fn link_command(&self, inputs: &Vec<String>, links: &Option<Vec<String>>) -> (res: Vec<String>)
        ensures
            texts(res@) == self.link_command_spec(texts(inputs@), opt_texts(*links)),
    {
        let mut command: Vec<String> = Vec::new();
        command.push(self.build.compiler.clone());
        assert(texts(command@) =~= seq![self.build.compiler@]);
        append_all(&mut command, inputs);
        let ghost flags = texts_or_empty(*links);
        if let Some(l) = links {
            append_all(&mut command, l);
        } else {
            assert(texts(command@) =~= texts(command@) + flags);
        }
        let ghost mid = texts(command@);
        assert(mid == seq![self.build.compiler@] + texts(inputs@) + flags);
        command.push(owned("-o"));
        let name = self.get_output_name();
        command.push(name);
        assert(texts(command@) =~= mid + seq!["-o"@, self.output_name_spec()]);
        command
    }

    /// The error of a failed link.
    pub fn link_failure(&self) -> (res: CompilationError)
        ensures
            res matches CompilationError::Linking(name) && name@ == self.project.name@,
    {
        CompilationError::Linking(self.project.name.clone())
    }

    /// The error of a failed compilation.
    pub fn compile_failure(&self) -> (res: CompilationError)
        ensures
            res matches CompilationError::Compiling(name) && name@ == self.project.name@,
    {
        CompilationError::Compiling(self.project.name.clone())
    }

    /// The compilation of the source `file`, whose canonical path is `canonical`,
    /// given whether its object was found older than it (`None`: the comparison
    /// failed). The object is `canonical` with the extension `o`.
    pub fn compile_job(&self, file: &String, canonical: &String, modified: Option<bool>) -> (res: CompileJob)
        ensures
            res.object@ == path_with_extension(canonical@, "o"@),
            texts(res.command@) == self.compile_command_spec(file@, res.object@),
            res.needed == (modified != Some(false)),
    {
        let object = to_object(canonical);
        let mut command: Vec<String> = Vec::new();
        command.push(self.build.compiler.clone());
        command.push(owned("-c"));
        command.push(file.clone());
        command.push(owned("-o"));
        command.push(object.clone());
        if let Some(w) = self.get_warnings() {
            append_all(&mut command, &w);
        }
        if let Some(inc) = self.get_includes() {
            append_all(&mut command, &inc);
        }
        assert(texts(command@) =~= self.compile_command_spec(file@, object@));
        let needed = match modified {
            Some(m) => m,
            None => true,
        };
        CompileJob { object, command, needed }
    }

    /// What running `command` on the program comes to: building it. Only `build`
    /// is supported.
    pub fn run(&self, command: &Command) -> (res: Action)
        requires
            *command == Command::build,
        ensures
            res == Action::Build,
    {
        match command {
            Command::build => Action::Build,
            _ => Action::Nothing,
        }
    }
}

/// Appends the strings of `items` to `v`, in order.
pub fn append_all(v: &mut Vec<String>, items: &Vec<String>)
    ensures
        texts(final(v)@) == texts(old(v)@) + texts(items@),
{
    let ghost start = texts(v@);
    let n = items.len();
    let mut k: usize = 0;
    while k < n
        invariant
            n == items@.len(),
            k <= n,
            texts(v@) == start + texts(items@).subrange(0, k as int),
        decreases n - k,
    {
        let ghost prev = v@;
        v.push(items[k].clone());
        assert(texts(v@) =~= texts(prev).push(items@[k as int]@));
        assert(texts(items@).subrange(0, k + 1) =~= texts(items@).subrange(0, k as int).push(items@[k as int]@));
        k = k + 1;
    }
    assert(texts(items@).subrange(0, n as int) =~= texts(items@));
}

impl LibRoot {
    /// Running any command on a library project does nothing.
    pub fn run(&self, _cmd: &Command) {
    }
}

impl Redirect {
    /// What running `cmd` (`build` when absent) on the manifest comes to: a
    /// program is built, a library does nothing. Only `build` is supported on a
    /// program.
    pub fn run(&self, cmd: &Option<Command>) -> (res: Action)
        requires
            self is App ==> command_or_build(*cmd) == Command::build,
        ensures
            res == (if self is App {
                Action::Build
            } else {
                Action::Nothing
            }),
    {
        let command = match cmd {
            Some(c) => *c,
            None => Command::build,
        };
        match self {
            Redirect::App(app) => app.run(&command),
            Redirect::Lib(lib) => {
                lib.run(&command);
                Action::Nothing
            },
        }
    }
}

/// The warning flags of a level are a prefix of those of any higher level.
pub proof fn lemma_warning_flags_grow(low: u8, high: u8)
    requires
        low <= high,
    ensures
        warning_flags(low) == warning_flags(high).subrange(0, warning_flags(low).len() as int),
{
    assert(warning_flags(low) =~= warning_flags(high).subrange(0, warning_flags(low).len() as int));
}

/// The language a build configuration declares: one, or several.
#[derive(Debug, Clone)]
pub enum Language {
    Language(String),
    Languages(Vec<String>),
}

/// The `[project]` table of a build configuration.
#[derive(Debug, Clone)]
pub struct ConfigProject {
    pub name: String,
    pub version: String,
    pub language: Option<Language>,
    pub authors: Option<Vec<String>>,
}

/// The `[build]` table of a build configuration.
#[derive(Debug, Clone)]
pub struct ConfigBuild {
    pub compiler: String,
    /// Source files, relative to the project's directory unless absolute.
    pub source: Vec<String>,
    /// Include directories, relative to the project's directory unless absolute.
    pub includes: Vec<String>,
    pub objects: Option<bool>,
}

/// A project's `build.toml` as read by [`crate::system::BuildSystem`].
#[derive(Debug, Clone)]
pub struct BuildConfiguration {
    pub project: ConfigProject,
    pub build: ConfigBuild,
    pub dependencies: Option<Dependencies>,
}

/// The entries of a directory listing that are source files, in order: those whose
/// extension is a source extension.
pub open spec fn listing_sources(entries: Seq<Seq<char>>) -> Seq<Seq<char>>
    decreases entries.len(),
{
    if entries.len() == 0 {
        Seq::empty()
    } else {
        let rest = listing_sources(entries.drop_last());
        match path_extension(entries.last()) {
            Some(ext) => if is_source_extension_spec(ext) {
                rest.push(entries.last())
            } else {
                rest
            },
            None => rest,
        }
    }
}

/// The source files among the entries of a directory: `Ext` when an entry has no
/// extension, else the entries whose extension is a source extension, in order.
pub fn sources_in_listing(entries: &Vec<String>) -> (res: Result<Vec<String>, CompilationError>)
    ensures
        (exists|i: int| 0 <= i < entries@.len() && path_extension(#[trigger] entries@[i]@) is None)
            ==> res matches Err(CompilationError::Ext),
        (forall|i: int| 0 <= i < entries@.len() ==> path_extension(#[trigger] entries@[i]@) is Some)
            ==> (res matches Ok(v) && texts(v@) == listing_sources(texts(entries@))),
{
    let mut out: Vec<String> = Vec::new();
    let n = entries.len();
    let mut i: usize = 0;
    while i < n
        invariant
            n == entries@.len(),
            i <= n,
            forall|j: int| 0 <= j < i ==> path_extension(#[trigger] entries@[j]@) is Some,
            texts(out@) == listing_sources(texts(entries@).subrange(0, i as int)),
        decreases n - i,
    {
        let ghost pre = texts(entries@).subrange(0, i as int);
        assert(texts(entries@).subrange(0, i + 1).drop_last() =~= pre);
        assert(texts(entries@).subrange(0, i + 1).last() == entries@[i as int]@);
        let extension = match get_extension(entries[i].as_str()) {
            Ok(e) => e,
            Err(err) => {
                return Err(err);
            },
        };
        if is_source_extension(extension.as_str()) {
            let ghost prev = out@;
            out.push(entries[i].clone());
            assert(texts(out@) =~= texts(prev).push(entries@[i as int]@));
        }
        i = i + 1;
    }
    assert(texts(entries@).subrange(0, n as int) =~= texts(entries@));
    Ok(out)
}

/// The compile command of `file` to `object` is the compiler, `-c`, the file, `-o`
/// and the object; then one warning flag per level up to four (`-Wall`, `-Wextra`,
/// `-Wpedantic`, `-Werror`); then, whenever directories are given, `-I` before
/// each of them, whatever the warning level.
pub proof fn lemma_compile_command_layout(app: AppRoot, file: Seq<char>, object: Seq<char>)
    ensures
        ({
            let cmd = app.compile_command_spec(file, object);
            let level: int = match app.build.warnings {
                Some(l) => l as int,
                None => 0,
            };
            let nw: int = if level >= 4 { 4 } else { level };
            let ni: int = match app.build.includes {
                Some(v) => v@.len() as int,
                None => 0,
            };
            &&& cmd.len() == 5 + nw + 2 * ni
            &&& cmd[0] == app.build.compiler@
            &&& cmd[1] == "-c"@
            &&& cmd[2] == file
            &&& cmd[3] == "-o"@
            &&& cmd[4] == object
            &&& level >= 1 ==> cmd[5] == "-Wall"@
            &&& level >= 2 ==> cmd[6] == "-Wextra"@
            &&& level >= 3 ==> cmd[7] == "-Wpedantic"@
            &&& level >= 4 ==> cmd[8] == "-Werror"@
            &&& forall|k: int|
                #![trigger cmd[5 + nw + 2 * k]]
                0 <= k < ni ==> cmd[5 + nw + 2 * k] == "-I"@ && cmd[5 + nw + 2 * k + 1]
                    == app.build.includes.unwrap()@[k]@
        }),
{
    let cmd = app.compile_command_spec(file, object);
    let level: int = match app.build.warnings {
        Some(l) => l as int,
        None => 0,
    };
    let nw: int = if level >= 4 { 4 } else { level };
    let warnings = match app.warnings_spec() {
        Some(w) => w,
        None => Seq::empty(),
    };
    assert(warnings.len() == nw);
    match app.build.includes {
        Some(v) => {
            let flags = flag_each("-I"@, texts(v@));
            assert(cmd == seq![app.build.compiler@, "-c"@, file, "-o"@, object] + warnings + flags);
            assert forall|k: int| 0 <= k < v@.len() implies #[trigger] cmd[5 + nw + 2 * k] == "-I"@
                && cmd[5 + nw + 2 * k + 1] == v@[k]@ by {
                assert(flags[2 * k] == "-I"@);
                assert((2 * k + 1) / 2 == k);
                assert(flags[2 * k + 1] == texts(v@)[k]);
            }
        },
        None => {},
    }
}

/// The clone command of the remote dependency `name` from `source` runs the
/// configured version control program (`git` only when none is configured) with
/// `clone`, the repository and the name, then the extra clone arguments.
pub proof fn lemma_clone_command_layout(app: AppRoot, name: Seq<char>, source: Seq<char>)
    ensures
        ({
            let cmd = app.clone_command_spec(name, source);
            let program = match app.build.dependencies {
                Some(d) => match d.vcs {
                    Some(v) => v@,
                    None => "git"@,
                },
                None => "git"@,
            };
            let extra = match app.build.dependencies {
                Some(d) => match d.vcs_flags {
                    Some(f) => texts(f@),
                    None => Seq::empty(),
                },
                None => Seq::empty(),
            };
            &&& cmd.len() == 4 + extra.len()
            &&& cmd[0] == program
            &&& cmd[1] == "clone"@
            &&& cmd[2] == repository_link(source)
            &&& cmd[3] == name
            &&& cmd.subrange(4, cmd.len() as int) == extra
        }),
{
    let cmd = app.clone_command_spec(name, source);
    assert(cmd.subrange(4, cmd.len() as int) =~= app.vcs_flags_spec());
}

/// The link command is the compiler, the inputs in order, the linker flags, then
/// `-o` and the output name: `bin` when given, else the project's name, whatever
/// the flags.
pub proof fn lemma_link_command_layout(app: AppRoot, inputs: Seq<Seq<char>>, links: Option<Seq<Seq<char>>>)
    ensures
        ({
            let cmd = app.link_command_spec(inputs, links);
            let flags = match links {
                Some(l) => l,
                None => Seq::empty(),
            };
            let out = match app.build.bin {
                Some(b) => b@,
                None => app.project.name@,
            };
            &&& cmd.len() == 3 + inputs.len() + flags.len()
            &&& cmd[0] == app.build.compiler@
            &&& cmd.subrange(1, 1 + inputs.len() as int) == inputs
            &&& cmd.subrange(1 + inputs.len() as int, 1 + inputs.len() + flags.len() as int) == flags
            &&& cmd[cmd.len() - 2] == "-o"@
            &&& cmd[cmd.len() - 1] == out
        }),
{
    let cmd = app.link_command_spec(inputs, links);
    let flags = match links {
        Some(l) => l,
        None => Seq::<Seq<char>>::empty(),
    };
    assert(cmd.subrange(1, 1 + inputs.len() as int) =~= inputs);
    assert(cmd.subrange(1 + inputs.len() as int, 1 + inputs.len() + flags.len() as int) =~= flags);
}

/// The source files of a listing are exactly its entries whose extension is `c`,
/// `cpp`, `cxx`, `c++`, `cc` or `C`, in their order.
pub proof fn lemma_listing_keeps_source_files(entries: Seq<Seq<char>>)
    ensures
        listing_sources(entries) == entries.filter(
            |e: Seq<char>|
                path_extension(e) matches Some(x) && (x == "c"@ || x == "cpp"@ || x == "cxx"@ || x == "c++"@
                    || x == "cc"@ || x == "C"@),
        ),
    decreases entries.len(),
{
    reveal(Seq::filter);
    if entries.len() > 0 {
        lemma_listing_keeps_source_files(entries.drop_last());
    }
}

} // verus!
