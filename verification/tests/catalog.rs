use embargo::catalog::{find_code, find_file, find_objects, find_srcs, DiscoveryError, Walked};
use embargo::text::has_suffix;

fn file(path: &str) -> Walked {
    let file_name = path.rsplit('/').next().unwrap().to_string();
    Walked::Entry { path: path.to_string(), file_name, is_file: true }
}

fn dir(path: &str) -> Walked {
    let file_name = path.rsplit('/').next().unwrap().to_string();
    Walked::Entry { path: path.to_string(), file_name, is_file: false }
}

fn unreadable(reason: &str) -> Walked {
    Walked::Unreadable { reason: reason.to_string() }
}

fn strings(list: &[&str]) -> Vec<String> {
    list.iter().map(|s| s.to_string()).collect()
}

fn tree() -> Vec<Walked> {
    vec![
        dir("src"),
        file("src/a.cpp"),
        file("src/b.c"),
        file("src/c.txt"),
        dir("src/sub"),
        file("src/sub/d.hpp"),
    ]
}

#[test]
fn sources_profile_finds_the_compilable_files() {
    assert_eq!(find_srcs(&tree()), Ok(strings(&["src/a.cpp", "src/b.c"])));
}

#[test]
fn all_code_profile_adds_the_headers() {
    assert_eq!(find_code(&tree()), Ok(strings(&["src/a.cpp", "src/b.c", "src/sub/d.hpp"])));
}

#[test]
fn objects_profile_finds_only_objects() {
    let walk = vec![
        dir("build/debug"),
        file("build/debug/app"),
        dir("build/debug/src"),
        file("build/debug/src/a.o"),
        file("build/debug/src/a.obj"),
        file("build/debug/src/sub/d.o"),
    ];
    assert_eq!(
        find_objects(&walk),
        Ok(strings(&["build/debug/src/a.o", "build/debug/src/sub/d.o"]))
    );
}

#[test]
fn empty_walk_gives_an_empty_catalogue() {
    assert_eq!(find_srcs(&Vec::new()), Ok(Vec::new()));
    assert_eq!(find_code(&vec![dir("src")]), Ok(Vec::new()));
}

#[test]
fn directories_are_never_selected() {
    let walk = vec![dir("src/odd.cpp"), file("src/odd.cpp/in.c")];
    assert_eq!(find_srcs(&walk), Ok(strings(&["src/odd.cpp/in.c"])));
}

#[test]
fn the_name_decides_and_not_the_path() {
    let walk = vec![Walked::Entry {
        path: "src/x.cpp".to_string(),
        file_name: "x.txt".to_string(),
        is_file: true,
    }];
    assert_eq!(find_srcs(&walk), Ok(Vec::new()));
}

#[test]
fn suffix_must_stand_at_the_end() {
    let walk = vec![
        file("src/a.cpp.bak"),
        file("src/b.c"),
        file("src/.c"),
        file("src/c"),
        file("src/d.cc"),
        file("src/e.h"),
    ];
    assert_eq!(find_srcs(&walk), Ok(strings(&["src/b.c", "src/.c"])));
}

#[test]
fn a_file_with_two_suffixes_is_listed_once() {
    let walk = vec![file("src/a.cpp")];
    assert_eq!(find_file(&walk, &[".cpp", "cpp", "p"]), Ok(strings(&["src/a.cpp"])));
}

#[test]
fn no_suffix_selects_nothing() {
    assert_eq!(find_file(&tree(), &[]), Ok(Vec::new()));
}

#[test]
fn unreadable_entry_abandons_the_discovery() {
    let mut walk = tree();
    walk.insert(3, unreadable("permission denied"));
    assert_eq!(
        find_srcs(&walk),
        Err(DiscoveryError::UnreadableEntry("permission denied".to_string()))
    );
    assert_eq!(
        find_code(&walk),
        Err(DiscoveryError::UnreadableEntry("permission denied".to_string()))
    );
}

#[test]
fn first_unreadable_entry_is_reported() {
    let walk = vec![file("src/a.c"), unreadable("first"), file("src/b.c"), unreadable("second")];
    assert_eq!(find_srcs(&walk), Err(DiscoveryError::UnreadableEntry("first".to_string())));
    let last = vec![file("src/a.c"), unreadable("late")];
    assert_eq!(find_objects(&last), Err(DiscoveryError::UnreadableEntry("late".to_string())));
}

#[test]
fn discovery_error_message() {
    assert_eq!(
        DiscoveryError::UnreadableEntry("gone".to_string()).message(),
        "Error can't read entry : gone"
    );
}

#[test]
fn suffix_test_matches_only_at_the_end() {
    assert!(has_suffix("a.cpp", ".cpp"));
    assert!(has_suffix("a.cpp", "a.cpp"));
    assert!(has_suffix("a.cpp", ""));
    assert!(has_suffix("", ""));
    assert!(!has_suffix("a.cpp", ".c"));
    assert!(!has_suffix("a.cpp", "xa.cpp"));
    assert!(!has_suffix("", ".c"));
    assert!(!has_suffix(".cpp.bak", ".cpp"));
    assert!(has_suffix("h\u{e9}t\u{e9}.c", "\u{e9}.c"));
    assert!(!has_suffix("h\u{e9}te.c", "\u{e9}.c"));
    assert!(has_suffix("\u{65e5}\u{672c}.cpp", ".cpp"));
}
