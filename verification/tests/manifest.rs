use please::cli::Command;
use please::errors::CompilationError;
use please::parse::{
    dependency_link, is_source_extension, local_link, Action, AppRoot, Build, Dependencies, LibRoot,
    LocalLink, Output, Project, ProjectType, Redirect, Remote,
};

fn project(name: &str) -> Project {
    Project { name: name.to_string(), version: "1.2".to_string(), project_type: ProjectType::app }
}

fn build(compiler: &str) -> Build {
    Build {
        compiler: compiler.to_string(),
        sources: vec!["src".to_string()],
        includes: None,
        warnings: None,
        objects: None,
        bin: None,
        dependencies: None,
    }
}

fn app(name: &str) -> AppRoot {
    AppRoot { project: project(name), build: build("gcc") }
}

fn deps() -> Dependencies {
    Dependencies { vcs: None, vcs_flags: None, local: None, remote: None }
}

fn strings(v: &[&str]) -> Vec<String> {
    v.iter().map(|s| s.to_string()).collect()
}

#[test]
fn dependency_link_expands_short_names() {
    assert_eq!(dependency_link(&"user/repo".to_string()), "https://github.com/user/repo");
}

#[test]
fn dependency_link_keeps_addresses() {
    assert_eq!(dependency_link(&"https://example.org/x.git".to_string()), "https://example.org/x.git");
    assert_eq!(dependency_link(&"git@github.com:u/r.git".to_string()), "git@github.com:u/r.git");
}

#[test]
fn dependency_link_is_idempotent() {
    for name in ["a/b", "https://h/x", "git@h:y", "", "http://h/z"] {
        let once = dependency_link(&name.to_string());
        assert_eq!(dependency_link(&once), once);
    }
    assert_eq!(dependency_link(&"http://h/z".to_string()), "https://github.com/http://h/z");
}

#[test]
fn warnings_by_level() {
    let mut a = app("p");
    assert_eq!(a.get_warnings(), None);
    a.build.warnings = Some(0);
    assert_eq!(a.get_warnings(), None);
    a.build.warnings = Some(1);
    assert_eq!(a.get_warnings(), Some(strings(&["-Wall"])));
    a.build.warnings = Some(2);
    assert_eq!(a.get_warnings(), Some(strings(&["-Wall", "-Wextra"])));
    a.build.warnings = Some(3);
    assert_eq!(a.get_warnings(), Some(strings(&["-Wall", "-Wextra", "-Wpedantic"])));
    a.build.warnings = Some(4);
    assert_eq!(a.get_warnings(), Some(strings(&["-Wall", "-Wextra", "-Wpedantic", "-Werror"])));
    a.build.warnings = Some(200);
    assert_eq!(a.get_warnings(), Some(strings(&["-Wall", "-Wextra", "-Wpedantic", "-Werror"])));
}

#[test]
fn warnings_grow_with_level() {
    let mut a = app("p");
    let mut previous: Vec<String> = Vec::new();
    for level in 1..=6u8 {
        a.build.warnings = Some(level);
        let flags = a.get_warnings().unwrap();
        assert!(flags.starts_with(&previous));
        previous = flags;
    }
}

#[test]
fn includes_are_flagged() {
    let mut a = app("p");
    assert_eq!(a.get_includes(), None);
    a.build.includes = Some(Vec::new());
    assert_eq!(a.get_includes(), Some(Vec::new()));
    a.build.includes = Some(strings(&["inc", "/usr/include/x"]));
    assert_eq!(a.get_includes(), Some(strings(&["-I", "inc", "-I", "/usr/include/x"])));
}

#[test]
fn output_name_prefers_bin() {
    let mut a = app("hello");
    assert_eq!(a.get_output_name(), "hello");
    a.build.bin = Some("hi".to_string());
    assert_eq!(a.get_output_name(), "hi");
}

#[test]
fn vcs_defaults_to_git() {
    let mut a = app("p");
    assert_eq!(a.get_vcs(), "git");
    a.build.dependencies = Some(deps());
    assert_eq!(a.get_vcs(), "git");
    let mut d = deps();
    d.vcs = Some("hg".to_string());
    a.build.dependencies = Some(d);
    assert_eq!(a.get_vcs(), "hg");
}

#[test]
fn objects_off_by_default() {
    let mut a = app("p");
    assert!(!a.uses_objects());
    a.build.objects = Some(false);
    assert!(!a.uses_objects());
    a.build.objects = Some(true);
    assert!(a.uses_objects());
}

#[test]
fn local_library_names() {
    match local_link(&"m".to_string()) {
        LocalLink::Library(n) => assert_eq!(n, "m"),
        LocalLink::Shell(_) => panic!("a name is a library"),
    }
    match local_link(&"`half".to_string()) {
        LocalLink::Library(n) => assert_eq!(n, "`half"),
        LocalLink::Shell(_) => panic!("one backtick is a library"),
    }
}

#[test]
fn local_shell_commands() {
    match local_link(&"`pkg-config --libs gtk`".to_string()) {
        LocalLink::Shell(c) => assert_eq!(c, strings(&["pkg-config", "--libs", "gtk"])),
        LocalLink::Library(_) => panic!("backticks make a command"),
    }
    match local_link(&"`a``b  c`".to_string()) {
        LocalLink::Shell(c) => assert_eq!(c, strings(&["ab", "", "c"])),
        LocalLink::Library(_) => panic!("backticks make a command"),
    }
    match local_link(&"`".to_string()) {
        LocalLink::Shell(c) => assert_eq!(c, strings(&[""])),
        LocalLink::Library(_) => panic!("a lone backtick starts and ends with one"),
    }
}

#[test]
fn local_links_expand() {
    let mut a = app("p");
    assert_eq!(a.local_link_plan().map(|p| p.len()), None);
    assert_eq!(a.get_local_links(&Vec::new()), None);
    a.build.dependencies = Some(deps());
    assert_eq!(a.get_local_links(&Vec::new()), Some(Vec::new()));
    let mut d = deps();
    d.local = Some(strings(&["m", "`pkg-config --libs x`", "pthread"]));
    a.build.dependencies = Some(d);
    assert_eq!(a.local_link_plan().unwrap().len(), 3);
    let outputs = strings(&["", "  -lfoo\t-L/opt/lib\n-lbar \r\n", "ignored"]);
    assert_eq!(
        a.get_local_links(&outputs),
        Some(strings(&["-l", "m", "-lfoo", "-L/opt/lib", "-lbar", "-l", "pthread"]))
    );
}

#[test]
fn remote_insert_replaces_in_place() {
    let mut r = Remote::new();
    r.insert("a".to_string(), "x/a".to_string());
    r.insert("b".to_string(), "x/b".to_string());
    r.insert("a".to_string(), "y/a".to_string());
    let e: Vec<(String, String)> = r.entries().clone();
    assert_eq!(e, vec![("a".to_string(), "y/a".to_string()), ("b".to_string(), "x/b".to_string())]);
}

#[test]
fn clone_jobs_in_order() {
    let mut a = app("p");
    assert!(a.remote_clone_jobs().is_empty());
    let mut r = Remote::new();
    r.insert("fmt".to_string(), "fmtlib/fmt".to_string());
    r.insert("z".to_string(), "git@h:z.git".to_string());
    let mut d = deps();
    d.remote = Some(r);
    d.vcs_flags = Some(strings(&["--depth", "1"]));
    a.build.dependencies = Some(d);
    let jobs = a.remote_clone_jobs();
    assert_eq!(jobs.len(), 2);
    assert_eq!(jobs[0].repository, "https://github.com/fmtlib/fmt");
    assert_eq!(jobs[0].command, strings(&["git", "clone", "https://github.com/fmtlib/fmt", "fmt", "--depth", "1"]));
    assert_eq!(jobs[1].repository, "git@h:z.git");
    assert_eq!(jobs[1].command, strings(&["git", "clone", "git@h:z.git", "z", "--depth", "1"]));
}

#[test]
fn link_command_layout() {
    let mut a = app("hello");
    let inputs = strings(&["a.o", "b.o"]);
    assert_eq!(a.link_command(&inputs, &None), strings(&["gcc", "a.o", "b.o", "-o", "hello"]));
    a.build.bin = Some("out/hi".to_string());
    assert_eq!(
        a.link_command(&inputs, &Some(strings(&["-l", "m"]))),
        strings(&["gcc", "a.o", "b.o", "-l", "m", "-o", "out/hi"])
    );
}

#[test]
fn compile_job_layout() {
    let mut a = app("p");
    a.build.warnings = Some(2);
    a.build.includes = Some(strings(&["inc"]));
    let job = a.compile_job(&"src/x.c".to_string(), &"/w/src/x.c".to_string(), Some(true));
    assert_eq!(job.object, "/w/src/x.o");
    assert_eq!(
        job.command,
        strings(&["gcc", "-c", "src/x.c", "-o", "/w/src/x.o", "-Wall", "-Wextra", "-I", "inc"])
    );
    assert!(job.needed);
    assert!(!a.compile_job(&"x.c".to_string(), &"/w/x.c".to_string(), Some(false)).needed);
    assert!(a.compile_job(&"x.c".to_string(), &"/w/x.c".to_string(), None).needed);
}

#[test]
fn failures_name_the_project() {
    let a = app("proj");
    assert!(matches!(a.link_failure(), CompilationError::Linking(n) if n == "proj"));
    assert!(matches!(a.compile_failure(), CompilationError::Compiling(n) if n == "proj"));
}

#[test]
fn run_builds_programs_only() {
    let r = Redirect::App(app("p"));
    assert_eq!(r.run(&None), Action::Build);
    assert_eq!(r.run(&Some(Command::build)), Action::Build);
    let lib = Redirect::Lib(LibRoot {
        project: project("l"),
        build: build("gcc"),
        output: Output { dir: "out".to_string(), name: "l".to_string() },
    });
    assert_eq!(lib.run(&None), Action::Nothing);
    assert_eq!(lib.run(&Some(Command::run)), Action::Nothing);
    assert_eq!(lib.run(&Some(Command::scripts)), Action::Nothing);
}

#[test]
fn source_extensions() {
    for e in ["c", "cpp", "cxx", "c++", "cc", "C"] {
        assert!(is_source_extension(e));
    }
    for e in ["h", "hpp", "o", "", "CPP", "cc "] {
        assert!(!is_source_extension(e));
    }
}

#[test]
fn listing_keeps_source_files() {
    let entries = strings(&["/d/a.c", "/d/notes.txt", "/d/b.cpp", "/d/c.h", "/d/d.C"]);
    assert_eq!(
        please::parse::sources_in_listing(&entries).unwrap(),
        strings(&["/d/a.c", "/d/b.cpp", "/d/d.C"])
    );
    assert_eq!(please::parse::sources_in_listing(&Vec::new()).unwrap(), Vec::<String>::new());
}

#[test]
fn listing_needs_extensions() {
    let entries = strings(&["/d/a.c", "/d/Makefile", "/d/b.c"]);
    assert!(matches!(please::parse::sources_in_listing(&entries), Err(CompilationError::Ext)));
}
