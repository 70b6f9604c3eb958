use please::app::App;
use please::parse::{BuildConfiguration, ConfigBuild, ConfigProject, Language};
use please::system::{absolute_or_relative, to_object, BuildSystem};

fn strings(v: &[&str]) -> Vec<String> {
    v.iter().map(|s| s.to_string()).collect()
}

fn system(compiler: &str, language: Option<Language>) -> BuildSystem {
    BuildSystem {
        path: "/home/u/proj".to_string(),
        build_file: BuildConfiguration {
            project: ConfigProject {
                name: "proj".to_string(),
                version: "0.3".to_string(),
                language,
                authors: None,
            },
            build: ConfigBuild {
                compiler: compiler.to_string(),
                source: strings(&["src/main.c", "/abs/util.c"]),
                includes: strings(&["inc", "/usr/include"]),
                objects: None,
            },
            dependencies: None,
        },
        failed: false,
    }
}

#[test]
fn paths_resolve_against_project() {
    assert_eq!(absolute_or_relative(&"src/a.c".to_string(), &"/p".to_string()), "/p/src/a.c");
    assert_eq!(absolute_or_relative(&"/x/a.c".to_string(), &"/p".to_string()), "/x/a.c");
    assert_eq!(absolute_or_relative(&"a.c".to_string(), &"/p/".to_string()), "/p/a.c");
}

#[test]
fn objects_replace_extension() {
    assert_eq!(to_object(&"src/main.c".to_string()), "src/main.o");
    assert_eq!(to_object(&"lib/x.cpp".to_string()), "lib/x.o");
    assert_eq!(to_object(&"noext".to_string()), "noext.o");
}

#[test]
fn sources_and_includes() {
    let bs = system("gcc", None);
    assert_eq!(bs.get_sources(), strings(&["/home/u/proj/src/main.c", "/abs/util.c"]));
    assert_eq!(bs.get_includes(false), strings(&["/home/u/proj/inc", "/usr/include"]));
    assert_eq!(bs.get_includes(true), strings(&["-I/home/u/proj/inc", "-I/usr/include"]));
    let plain = bs.get_includes(false);
    for (f, p) in bs.get_includes(true).iter().zip(plain.iter()) {
        assert_eq!(f, &format!("-I{}", p));
    }
    assert_eq!(bs.all_object(&bs.get_sources()), strings(&["/home/u/proj/src/main.o", "/abs/util.o"]));
    BuildSystem::invoke_git();
}

#[test]
fn language_labels() {
    assert_eq!(system("gcc", None).language_label(), "c");
    assert_eq!(system("clang", None).language_label(), "c");
    assert_eq!(system("g++", None).language_label(), "cpp");
    assert_eq!(system("clang++", None).language_label(), "cpp");
    assert_eq!(system("tcc", None).language_label(), "?");
    assert_eq!(system("gcc", Some(Language::Language("c99".to_string()))).language_label(), "c99");
    assert_eq!(system("gcc", Some(Language::Languages(strings(&["c", "asm"])))).language_label(), "c, asm");
}

#[test]
fn build_plan_command() {
    let mut bs = system("gcc", None);
    let plan = bs.construct();
    assert_eq!(plan.name, "proj");
    assert_eq!(plan.version, "0.3");
    assert_eq!(plan.path, "/home/u/proj");
    assert_eq!(plan.language, "c");
    assert!(plan.objects.is_empty());
    assert_eq!(
        plan.command,
        strings(&[
            "gcc",
            "/home/u/proj/src/main.c /abs/util.c",
            "-I/home/u/proj/inc -I/usr/include",
            "-o/home/u/proj/proj.out",
        ])
    );
    bs.build_file.build.objects = Some(true);
    assert_eq!(bs.construct().objects, strings(&["/home/u/proj/src/main.o", "/abs/util.o"]));
}

#[test]
fn app_plans_each_project() {
    let app = App::new(vec![system("gcc", None), system("g++", None)]);
    let plans = app.run();
    assert_eq!(plans.len(), 2);
    assert_eq!(plans[0].command[0], "gcc");
    assert_eq!(plans[1].command[0], "g++");
    assert_eq!(plans[1].language, "cpp");
    assert!(App::new(Vec::new()).run().is_empty());
}

#[test]
fn objects_carry_the_o_extension() {
    for s in ["src/main.c", "noext", ".hidden", "a/b.tar.gz", "x.o"] {
        let o = to_object(&s.to_string());
        assert!(o == s || please::utils::get_extension(&o).unwrap() == "o");
        assert_eq!(to_object(&o), o);
    }
}
