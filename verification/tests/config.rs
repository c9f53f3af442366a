use embargo::config::{
    default_configuration, read_configuration, read_string_key, read_string_list_key,
    resolve_table, resolve_with, Config, ConfigError,
};
use embargo::text::to_owned_string_vec;

fn strings(list: &[&str]) -> Vec<String> {
    list.iter().map(|s| s.to_string()).collect()
}

fn defaults() -> Config {
    Config {
        compiler: "clang++".to_string(),
        debugger: "lldb".to_string(),
        linter: "clang-tidy".to_string(),
        flags: strings(&["-Wall", "-Wextra", "-pedantic"]),
        debug_flags: strings(&["-g"]),
        release_flags: strings(&["-O2"]),
        linker_flags: Vec::new(),
        linter_checks: "clang-analyzer-*".to_string(),
    }
}

const FULL: &str = r#"
compiler = "g++"
debugger = "gdb"
linter = "cppcheck"
flags = ["-Wall", "-std=c++20"]
debug-flags = ["-g3", "-O0"]
release-flags = ["-O3"]
linker-flags = ["-lm", "-lpthread"]
linter-checks = "modernize-*"
"#;

fn full() -> Config {
    Config {
        compiler: "g++".to_string(),
        debugger: "gdb".to_string(),
        linter: "cppcheck".to_string(),
        flags: strings(&["-Wall", "-std=c++20"]),
        debug_flags: strings(&["-g3", "-O0"]),
        release_flags: strings(&["-O3"]),
        linker_flags: strings(&["-lm", "-lpthread"]),
        linter_checks: "modernize-*".to_string(),
    }
}

#[test]
fn owned_strings_keep_order_and_content() {
    assert_eq!(to_owned_string_vec(&["b", "a", "", "b"]), strings(&["b", "a", "", "b"]));
    assert_eq!(to_owned_string_vec(&[]), Vec::<String>::new());
}

#[test]
fn default_configuration_has_documented_defaults() {
    assert_eq!(default_configuration(), defaults());
}

#[test]
fn empty_file_resolves_to_defaults() {
    assert_eq!(read_configuration(Ok("")), Ok(defaults()));
}

#[test]
fn every_key_overrides_its_default() {
    assert_eq!(read_configuration(Ok(FULL)), Ok(full()));
}

#[test]
fn flag_order_is_preserved() {
    let config = read_configuration(Ok("flags = [\"-c\", \"-a\", \"-b\", \"-a\"]")).unwrap();
    assert_eq!(config.flags, strings(&["-c", "-a", "-b", "-a"]));
}

#[test]
fn empty_flag_list_is_not_the_default() {
    let config = read_configuration(Ok("flags = []\ndebug-flags = []")).unwrap();
    assert_eq!(config.flags, Vec::<String>::new());
    assert_eq!(config.debug_flags, Vec::<String>::new());
    assert_eq!(config.release_flags, strings(&["-O2"]));
}

#[test]
fn missing_file_is_not_found() {
    assert_eq!(
        read_configuration(Err("No such file or directory (os error 2)".to_string())),
        Err(ConfigError::NotFound("No such file or directory (os error 2)".to_string()))
    );
}

#[test]
fn malformed_file_is_a_parse_error() {
    for text in ["compiler = ", "[unclosed", "a = 1\na = 2", "= 3"] {
        let expected = text.parse::<toml::Table>().unwrap_err().to_string();
        assert!(expected.starts_with("TOML parse error at line "));
        assert_eq!(read_configuration(Ok(text)), Err(ConfigError::ParseError(expected)));
    }
}

#[test]
fn parse_error_shows_place_line_and_cause() {
    match read_configuration(Ok("compiler = \"cc\"\nflags = [\"a\"")) {
        Err(ConfigError::ParseError(reason)) => {
            assert!(reason.starts_with("TOML parse error at line 2, column "));
            assert!(reason.contains("2 | flags = [\"a\"\n"));
            assert!(reason.contains('^'));
            assert!(reason.contains("expected"));
        }
        other => panic!("no parse error: {other:?}"),
    }
}

#[test]
fn resolving_twice_gives_the_same_result() {
    let first = read_configuration(Ok(FULL));
    let second = read_configuration(Ok(FULL));
    assert_eq!(first, second);
    let bad = "flags = 3";
    assert_eq!(read_configuration(Ok(bad)), read_configuration(Ok(bad)));
}

#[test]
fn omitting_one_key_leaves_the_others_alone() {
    let keys = [
        "compiler",
        "debugger",
        "linter",
        "flags",
        "debug-flags",
        "release-flags",
        "linker-flags",
        "linter-checks",
    ];
    for omitted in keys {
        let text: String = FULL
            .lines()
            .filter(|line| !line.starts_with(&format!("{omitted} =")))
            .collect::<Vec<_>>()
            .join("\n");
        let config = read_configuration(Ok(&text)).unwrap();
        let mut expected = full();
        let fallback = defaults();
        match omitted {
            "compiler" => expected.compiler = fallback.compiler,
            "debugger" => expected.debugger = fallback.debugger,
            "linter" => expected.linter = fallback.linter,
            "flags" => expected.flags = fallback.flags,
            "debug-flags" => expected.debug_flags = fallback.debug_flags,
            "release-flags" => expected.release_flags = fallback.release_flags,
            "linker-flags" => expected.linker_flags = fallback.linker_flags,
            _ => expected.linter_checks = fallback.linter_checks,
        }
        assert_eq!(config, expected);
    }
}

#[test]
fn flag_list_given_as_bare_string_is_a_type_error() {
    assert_eq!(
        read_configuration(Ok("flags = \"-Wall\"")),
        Err(ConfigError::TypeError("flags".to_string()))
    );
}

#[test]
fn wrong_shape_of_each_key_names_that_key() {
    let strings_keys = ["compiler", "debugger", "linter", "linter-checks"];
    for key in strings_keys {
        for value in ["1", "true", "[\"a\"]", "1.5", "{ a = 1 }"] {
            let text = format!("{key} = {value}");
            assert_eq!(
                read_configuration(Ok(&text)),
                Err(ConfigError::TypeError(key.to_string()))
            );
        }
    }
    let list_keys = ["flags", "debug-flags", "release-flags", "linker-flags"];
    for key in list_keys {
        for value in ["1", "true", "\"a\"", "[1, 2]", "[\"a\", 2]", "[[\"a\"]]"] {
            let text = format!("{key} = {value}");
            assert_eq!(
                read_configuration(Ok(&text)),
                Err(ConfigError::TypeError(key.to_string()))
            );
        }
    }
}

#[test]
fn wrong_shape_fails_even_beside_well_formed_keys() {
    let text = "compiler = \"g++\"\nlinker-flags = [\"-lm\", 7]\nlinter = \"x\"";
    assert_eq!(
        read_configuration(Ok(text)),
        Err(ConfigError::TypeError("linker-flags".to_string()))
    );
}

#[test]
fn first_key_in_reading_order_is_named() {
    let text = "linter-checks = 1\nflags = 2\ndebugger = 3";
    assert_eq!(
        read_configuration(Ok(text)),
        Err(ConfigError::TypeError("debugger".to_string()))
    );
}

#[test]
fn unrecognised_keys_are_ignored() {
    let text = "colour = 7\n[package]\nname = \"x\"\n";
    assert_eq!(read_configuration(Ok(text)), Ok(defaults()));
}

#[test]
fn string_key_reads_absent_present_and_misshapen() {
    let table: toml::Table = "a = \"x\"\nb = 2".parse().unwrap();
    assert_eq!(read_string_key(&table, "a"), Ok(Some("x".to_string())));
    assert_eq!(read_string_key(&table, "c"), Ok(None));
    assert_eq!(read_string_key(&table, "b"), Err(ConfigError::TypeError("b".to_string())));
}

#[test]
fn list_key_reads_absent_present_and_misshapen() {
    let table: toml::Table = "a = [\"x\", \"y\"]\nb = [\"x\", 1]\nc = \"x\"\ne = []".parse().unwrap();
    assert_eq!(read_string_list_key(&table, "a"), Ok(Some(strings(&["x", "y"]))));
    assert_eq!(read_string_list_key(&table, "e"), Ok(Some(Vec::new())));
    assert_eq!(read_string_list_key(&table, "d"), Ok(None));
    assert_eq!(read_string_list_key(&table, "b"), Err(ConfigError::TypeError("b".to_string())));
    assert_eq!(read_string_list_key(&table, "c"), Err(ConfigError::TypeError("c".to_string())));
}

#[test]
fn parsed_table_resolves_like_its_text() {
    let table: toml::Table = FULL.parse().unwrap();
    assert_eq!(resolve_table(&table), Ok(full()));
    assert_eq!(resolve_table(&toml::Table::new()), Ok(defaults()));
}

#[test]
fn error_messages_name_the_cause() {
    assert_eq!(
        ConfigError::NotFound("denied".to_string()).message(),
        "Can't read Embargo.toml file ! Are you in a project folder ? : denied"
    );
    assert_eq!(
        ConfigError::ParseError("invalid key".to_string()).message(),
        "Can't parse Embargo.toml file ! Does it contain valid toml ? : invalid key"
    );
    assert_eq!(
        ConfigError::TypeError("compiler".to_string()).message(),
        "compiler value must be a string"
    );
    assert_eq!(
        ConfigError::TypeError("linter-checks".to_string()).message(),
        "linter-checks value must be a string"
    );
    for key in ["flags", "debug-flags", "release-flags", "linker-flags"] {
        assert_eq!(
            ConfigError::TypeError(key.to_string()).message(),
            format!("{key} value must be an array of string")
        );
    }
}

#[test]
fn given_defaults_fill_the_absent_keys() {
    let table: toml::Table = "debugger = \"gdb\"\nrelease-flags = [\"-Os\"]".parse().unwrap();
    let mut expected = full();
    expected.debugger = "gdb".to_string();
    expected.release_flags = strings(&["-Os"]);
    assert_eq!(resolve_with(&table, full()), Ok(expected));
    assert_eq!(resolve_with(&toml::Table::new(), full()), Ok(full()));
    let bad: toml::Table = "linter = []".parse().unwrap();
    assert_eq!(resolve_with(&bad, full()), Err(ConfigError::TypeError("linter".to_string())));
}
