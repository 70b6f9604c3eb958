use please::cli::{Cli, Lang};
use please::errors::CompilationError;
use please::gen::{manifest_for, plan_new_project, template_for, Template};
use please::strings::{
    concat_strs, ends_with, join_strings, remove_all, split_on_char, split_words, starts_with, str_eq,
};
use please::utils::get_extension;

fn strings(v: &[&str]) -> Vec<String> {
    v.iter().map(|s| s.to_string()).collect()
}

#[test]
fn prefix_and_suffix() {
    assert!(starts_with("https://x", "https://"));
    assert!(!starts_with("http", "https://"));
    assert!(starts_with("abc", ""));
    assert!(ends_with("`x`", "`"));
    assert!(!ends_with("", "`"));
    assert!(str_eq("g++", "g++"));
    assert!(!str_eq("g++", "gcc"));
    assert_eq!(concat_strs("ab", "cd"), "abcd");
}

#[test]
fn backticks_removed() {
    assert_eq!(remove_all("`a`b``c`", '`'), "abc");
    let once = remove_all("``x`", '`');
    assert_eq!(remove_all(&once, '`'), once);
    assert!(!once.contains('`'));
}

#[test]
fn split_keeps_empty_pieces() {
    assert_eq!(split_on_char("a b", ' '), strings(&["a", "b"]));
    assert_eq!(split_on_char("", ' '), strings(&[""]));
    assert_eq!(split_on_char(" a  b ", ' '), strings(&["", "a", "", "b", ""]));
    let s = "x  y z ";
    assert_eq!(join_strings(&split_on_char(s, ' '), " "), s);
}

#[test]
fn words_skip_whitespace_runs() {
    assert_eq!(split_words("  -la\t\n-lb\r\x0c-lc  "), strings(&["-la", "-lb", "-lc"]));
    assert_eq!(split_words(""), Vec::<String>::new());
    assert_eq!(split_words(" \t\n"), Vec::<String>::new());
    assert_eq!(split_words("a\u{0b}b"), strings(&["a\u{0b}b"]));
    for w in split_words(" x  yy\tz ") {
        assert!(!w.is_empty());
        assert!(!w.chars().any(|c| c.is_ascii_whitespace()));
    }
}

#[test]
fn join_with_separator() {
    assert_eq!(join_strings(&strings(&["c", "cpp"]), ", "), "c, cpp");
    assert_eq!(join_strings(&strings(&["only"]), ", "), "only");
    assert_eq!(join_strings(&Vec::new(), ", "), "");
}

#[test]
fn extension_of_files() {
    assert_eq!(get_extension("src/main.cpp").unwrap(), "cpp");
    assert_eq!(get_extension("a/b.tar.gz").unwrap(), "gz");
    assert!(matches!(get_extension("Makefile"), Err(CompilationError::Ext)));
    assert!(matches!(get_extension(".bashrc"), Err(CompilationError::Ext)));
}

#[test]
fn error_messages() {
    let cases = vec![
        (CompilationError::Compiling("p".to_string()), Some("Failed to compile"), " 'p'"),
        (CompilationError::Linking("p".to_string()), Some("Failed to link"), " p"),
        (CompilationError::Dependency("d".to_string()), Some("Dependency not found"), ": d"),
        (CompilationError::Cloning("r".to_string()), Some("Failed to clone dependency"), " 'r'"),
        (
            CompilationError::ShellCommand("ls".to_string()),
            Some("Failed to run"),
            " 'ls'\nMake sure it's installed on your machine",
        ),
        (CompilationError::FailedToCreateFile("/x/Build.toml".to_string()), Some("Couldn't create file"), " \"/x/Build.toml\""),
        (CompilationError::Ext, None, "An internal error occured. please try again."),
    ];
    for (err, lead, rest) in cases {
        let (l, r) = err.message_parts();
        assert_eq!(l.as_deref(), lead);
        assert_eq!(r, rest);
        assert_eq!(err.message(), format!("{}{}", lead.unwrap_or(""), rest));
    }
}

#[test]
fn language_extensions() {
    assert_eq!(Lang::c.to_extension(), "c");
    assert_eq!(Lang::cpp.to_extension(), "cpp");
    assert_eq!(Lang::cxx.to_extension(), "cpp");
    assert_eq!(Lang::default(), Lang::c);
    assert_eq!(template_for("cpp"), Template::Cpp);
    assert_eq!(template_for("c"), Template::C);
}

#[test]
fn new_project_manifest() {
    let text = manifest_for("demo", "cpp");
    assert_eq!(
        text,
        "# File auto-generated by pwease\n[project]\nname = \"demo\"\nversion = \"0.1\"\ntype = \"app\"\n\n[build]\n#compiler = \nsources = [\"src/main.cpp\"]\n"
    );
}

#[test]
fn new_project_plan() {
    let none = Cli { initial: None, new: None, language: Some(Lang::cpp) };
    assert!(plan_new_project(&none).is_none());
    let c = Cli { initial: None, new: Some("demo".to_string()), language: None };
    let p = plan_new_project(&c).unwrap();
    assert_eq!(p.name, "demo");
    assert_eq!(p.extension, "c");
    assert_eq!(p.main_file, "main.c");
    assert_eq!(p.template, Template::C);
    assert_eq!(p.manifest, manifest_for("demo", "c"));
    let cpp = Cli { initial: None, new: Some("x".to_string()), language: Some(Lang::cxx) };
    let q = plan_new_project(&cpp).unwrap();
    assert_eq!(q.main_file, "main.cpp");
    assert_eq!(q.template, Template::Cpp);
}
