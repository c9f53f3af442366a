use embargo::config::{default_configuration, Config};
use embargo::jobs::{
    compile_all_objects, compile_job, compile_object, is_swapped, link_program, lint,
    lint_command, CompileJob, Invocation,
};
use embargo::plan::{build, BuildPlan, Platform};

fn strings(list: &[&str]) -> Vec<String> {
    list.iter().map(|s| s.to_string()).collect()
}

fn posix() -> Platform {
    Platform { separator: "/".to_string(), exe_suffix: String::new() }
}

fn windows() -> Platform {
    Platform { separator: "\\".to_string(), exe_suffix: ".exe".to_string() }
}

fn custom() -> Config {
    Config {
        compiler: "g++".to_string(),
        debugger: "gdb".to_string(),
        linter: "tidy".to_string(),
        flags: strings(&["-Wall", "-std=c++20"]),
        debug_flags: strings(&["-g3", "-O0"]),
        release_flags: strings(&["-O3"]),
        linker_flags: strings(&["-lm", "-lpthread"]),
        linter_checks: "modernize-*".to_string(),
    }
}

#[test]
fn debug_plan_of_the_defaults() {
    let plan = build(&default_configuration(), false, &posix());
    assert_eq!(
        plan,
        BuildPlan {
            compiler: "clang++".to_string(),
            compile_flags: strings(&["-Wall", "-Wextra", "-pedantic", "-g", "-Iinclude"]),
            link_flags: strings(&["-Wall", "-Wextra", "-pedantic", "-g"]),
            build_subdir: "debug".to_string(),
            output_dir: "build/debug".to_string(),
            binary: "build/debug/app".to_string(),
            separator: "/".to_string(),
        }
    );
}

#[test]
fn release_plan_of_the_defaults() {
    let plan = build(&default_configuration(), true, &posix());
    assert_eq!(plan.compile_flags, strings(&["-Wall", "-Wextra", "-pedantic", "-O2", "-Iinclude"]));
    assert_eq!(plan.link_flags, strings(&["-Wall", "-Wextra", "-pedantic", "-O2"]));
    assert_eq!(plan.build_subdir, "release");
    assert_eq!(plan.output_dir, "build/release");
    assert_eq!(plan.binary, "build/release/app");
}

#[test]
fn linker_flags_follow_the_variant_flags() {
    let plan = build(&custom(), true, &posix());
    assert_eq!(plan.compiler, "g++");
    assert_eq!(plan.compile_flags, strings(&["-Wall", "-std=c++20", "-O3", "-Iinclude"]));
    assert_eq!(plan.link_flags, strings(&["-Wall", "-std=c++20", "-O3", "-lm", "-lpthread"]));
    let debug = build(&custom(), false, &posix());
    assert_eq!(debug.compile_flags, strings(&["-Wall", "-std=c++20", "-g3", "-O0", "-Iinclude"]));
    assert_eq!(debug.link_flags, strings(&["-Wall", "-std=c++20", "-g3", "-O0", "-lm", "-lpthread"]));
}

#[test]
fn linker_flags_reach_no_compile_job_and_the_include_path_no_link() {
    for release in [false, true] {
        let plan = build(&custom(), release, &posix());
        assert!(!plan.compile_flags.iter().any(|flag| flag == "-lm" || flag == "-lpthread"));
        assert!(!plan.link_flags.iter().any(|flag| flag == "-Iinclude"));
        let jobs = compile_all_objects(&plan, &strings(&["src/a.cpp"]));
        assert!(!compile_object(&jobs[0]).arguments.iter().any(|flag| flag == "-lm"));
    }
}

#[test]
fn binary_name_follows_the_platform() {
    let plan = build(&default_configuration(), false, &windows());
    assert_eq!(plan.output_dir, "build\\debug");
    assert_eq!(plan.binary, "build\\debug\\app.exe");
    assert_eq!(plan.separator, "\\");
}

#[test]
fn compile_job_lies_below_the_output_directory() {
    let plan = build(&custom(), false, &posix());
    let job = compile_job(&plan, "src/a.cpp", "src/a.o");
    assert_eq!(
        job,
        CompileJob {
            source: "src/a.cpp".to_string(),
            object: "build/debug/src/a.o".to_string(),
            flags: strings(&["-Wall", "-std=c++20", "-g3", "-O0", "-Iinclude"]),
            compiler: "g++".to_string(),
        }
    );
}

#[test]
fn one_job_per_source_with_swapped_extension() {
    let plan = build(&default_configuration(), true, &posix());
    let sources = strings(&["src/a.cpp", "src/b.c", "src/sub/d.cpp"]);
    let jobs = compile_all_objects(&plan, &sources);
    assert_eq!(jobs.len(), 3);
    let objects: Vec<&str> = jobs.iter().map(|job| job.object.as_str()).collect();
    assert_eq!(
        objects,
        vec!["build/release/src/a.o", "build/release/src/b.o", "build/release/src/sub/d.o"]
    );
    for (job, source) in jobs.iter().zip(&sources) {
        assert_eq!(&job.source, source);
        assert_eq!(job.compiler, "clang++");
        assert_eq!(job.flags, plan.compile_flags);
    }
}

#[test]
fn no_source_gives_no_job() {
    let plan = build(&default_configuration(), false, &posix());
    assert_eq!(compile_all_objects(&plan, &Vec::new()), Vec::new());
}

#[test]
fn compile_command_line() {
    let job = CompileJob {
        source: "src/a.cpp".to_string(),
        object: "build/debug/src/a.o".to_string(),
        flags: strings(&["-Wall", "-g"]),
        compiler: "clang++".to_string(),
    };
    assert_eq!(
        compile_object(&job),
        Invocation {
            program: "clang++".to_string(),
            arguments: strings(&["-Wall", "-g", "-c", "-o", "build/debug/src/a.o", "src/a.cpp"]),
        }
    );
}

#[test]
fn link_command_line() {
    let plan = build(&custom(), false, &posix());
    let objects = strings(&["build/debug/src/b.o", "build/debug/src/a.o"]);
    assert_eq!(
        link_program(&plan, &objects),
        Invocation {
            program: "g++".to_string(),
            arguments: strings(&[
                "-Wall",
                "-std=c++20",
                "-g3",
                "-O0",
                "-lm",
                "-lpthread",
                "-o",
                "build/debug/app",
                "build/debug/src/b.o",
                "build/debug/src/a.o",
            ]),
        }
    );
}

#[test]
fn link_command_line_without_objects() {
    let plan = build(&default_configuration(), true, &windows());
    let line = link_program(&plan, &Vec::new());
    assert_eq!(
        line.arguments,
        strings(&["-Wall", "-Wextra", "-pedantic", "-O2", "-o", "build\\release\\app.exe"])
    );
}

#[test]
fn lint_command_line() {
    let line = lint("tidy", "bugprone-*", &strings(&["-Wall", "-Iinc"]), &strings(&["a.cpp", "a.hpp"]));
    assert_eq!(
        line,
        Invocation {
            program: "tidy".to_string(),
            arguments: strings(&["a.cpp", "a.hpp", "-checks=bugprone-*", "--", "-Wall", "-Iinc"]),
        }
    );
}

#[test]
fn lint_command_uses_the_common_flags_only() {
    let line = lint_command(&custom(), &strings(&["src/a.cpp"]));
    assert_eq!(
        line,
        Invocation {
            program: "tidy".to_string(),
            arguments: strings(&[
                "src/a.cpp",
                "-checks=modernize-*",
                "--",
                "-Wall",
                "-std=c++20",
                "-Iinclude",
            ]),
        }
    );
    let bare = lint_command(&default_configuration(), &Vec::new());
    assert_eq!(bare.program, "clang-tidy");
    assert_eq!(
        bare.arguments,
        strings(&["-checks=clang-analyzer-*", "--", "-Wall", "-Wextra", "-pedantic", "-Iinclude"])
    );
}

#[test]
fn link_line_of_one_object() {
    let plan = BuildPlan {
        compiler: "cc".to_string(),
        compile_flags: strings(&["-g", "-Iinclude"]),
        link_flags: strings(&["-g", "-lm"]),
        build_subdir: "debug".to_string(),
        output_dir: "build/debug".to_string(),
        binary: "build/debug/app".to_string(),
        separator: "/".to_string(),
    };
    assert_eq!(
        link_program(&plan, &strings(&["build/debug/src/a.o"])),
        Invocation {
            program: "cc".to_string(),
            arguments: strings(&["-g", "-lm", "-o", "build/debug/app", "build/debug/src/a.o"]),
        }
    );
}

#[test]
fn objects_mirror_the_source_tree() {
    let plan = BuildPlan {
        compiler: "cc".to_string(),
        compile_flags: strings(&["-g"]),
        link_flags: strings(&["-g"]),
        build_subdir: "debug".to_string(),
        output_dir: "build/debug".to_string(),
        binary: "build/debug/app".to_string(),
        separator: "/".to_string(),
    };
    let jobs = compile_all_objects(&plan, &strings(&["src/a.cpp", "src/sub/b.c"]));
    let pairs: Vec<(&str, &str)> =
        jobs.iter().map(|job| (job.source.as_str(), job.object.as_str())).collect();
    assert_eq!(
        pairs,
        vec![("src/a.cpp", "build/debug/src/a.o"), ("src/sub/b.c", "build/debug/src/sub/b.o")]
    );
    let lines: Vec<Vec<String>> = jobs.iter().map(|job| compile_object(job).arguments).collect();
    assert_eq!(lines[0], strings(&["-g", "-c", "-o", "build/debug/src/a.o", "src/a.cpp"]));
    assert_eq!(lines[1], strings(&["-g", "-c", "-o", "build/debug/src/sub/b.o", "src/sub/b.c"]));
}

#[test]
fn a_source_without_extension_gets_one() {
    let plan = build(&default_configuration(), false, &posix());
    let jobs = compile_all_objects(&plan, &strings(&["src/Makefile", "src/a.tar.c", "src/.c"]));
    let objects: Vec<&str> = jobs.iter().map(|job| job.object.as_str()).collect();
    assert_eq!(
        objects,
        vec!["build/debug/src/Makefile.o", "build/debug/src/a.tar.o", "build/debug/src/.c.o"]
    );
}

fn object_names(sources: &[&str]) -> Vec<String> {
    let plan = build(&default_configuration(), false, &posix());
    let jobs = compile_all_objects(&plan, &strings(sources));
    jobs.into_iter().map(|job| job.object).collect()
}

#[test]
fn an_extension_is_swapped_and_only_the_last() {
    assert_eq!(
        object_names(&["src/a.cpp", "src/x.y.c", "a.", "src/a.b/c"]),
        strings(&[
            "build/debug/src/a.o",
            "build/debug/src/x.y.o",
            "build/debug/a.o",
            "build/debug/src/a.b/c.o",
        ])
    );
}

#[test]
fn a_name_of_two_dots_and_an_extension_keeps_its_extension() {
    assert_eq!(object_names(&["src/..c"]), strings(&["build/debug/src/..c.o"]));
}

#[test]
fn a_path_ending_in_a_separator_gets_the_extension_added() {
    assert_eq!(object_names(&["src/a.c/"]), strings(&["build/debug/src/a.c/.o"]));
}

#[test]
fn a_path_that_names_no_file_gets_the_extension_added() {
    assert_eq!(object_names(&["..", ""]), strings(&["build/debug/...o", "build/debug/.o"]));
}

#[test]
fn swapped_names_are_told_from_others() {
    assert!(is_swapped("src/a.cpp", "o", "src/a.o"));
    assert!(is_swapped("src/a.cpp", "o", "src/a.cpp.o"));
    assert!(is_swapped("src/a", "o", "src/a.o"));
    assert!(is_swapped("a.", "o", "a.o"));
    assert!(is_swapped("", "o", ".o"));
    assert!(is_swapped("a.tar.gz", "xz", "a.tar.xz"));
    assert!(is_swapped("h\u{e9}.c", "o", "h\u{e9}.o"));
    assert!(!is_swapped("src/a.cpp", "o", ".o"));
    assert!(!is_swapped("src/a.cpp", "o", "src/.o"));
    assert!(!is_swapped("src/a.cpp", "o", "src/a.cp.o"));
    assert!(!is_swapped("src/a.cpp", "o", "src/a.cpp"));
    assert!(!is_swapped("src/a.cpp", "o", "src/b.o"));
    assert!(!is_swapped("src/a.cpp", "o", "src/ao"));
    assert!(!is_swapped("src/a.cpp", "o", "src/a.x"));
    assert!(!is_swapped("src/a.cpp", "o", "src/a.cpp.o.o"));
    assert!(!is_swapped("src/..c", "o", "src/.."));
    assert!(!is_swapped("src/a.c/", "o", "src/a.o"));
    assert!(!is_swapped("a.b\\c", "o", "a.o"));
    assert!(!is_swapped("a.tar.gz", "o", "a.o"));
    assert!(!is_swapped("..", "o", ".."));
    assert!(!is_swapped("", "o", ""));
    assert!(!is_swapped("a.c", "o", "o"));
}
