//! Project configuration: the recognised keys, their built-in defaults, and
//! the resolution of a configuration document into a `Config`.

use crate::text::{joined, texts, to_owned_string_vec};
use crate::toml_doc::{
    document, error_message, parse_table, parsed_document, table_get, value_as_array,
    value_as_str, value_text, Document,
};
use vstd::prelude::*;

verus! {

/// The resolved configuration of a project.
#[derive(Debug, Clone, PartialEq, Eq)]
pub struct Config {
    pub compiler: String,
    pub debugger: String,
    pub linter: String,
    pub flags: Vec<String>,
    pub debug_flags: Vec<String>,
    pub release_flags: Vec<String>,
    pub linker_flags: Vec<String>,
    pub linter_checks: String,
}

/// What a `Config` holds, as character sequences.
pub struct ConfigView {
    pub compiler: Seq<char>,
    pub debugger: Seq<char>,
    pub linter: Seq<char>,
    pub flags: Seq<Seq<char>>,
    pub debug_flags: Seq<Seq<char>>,
    pub release_flags: Seq<Seq<char>>,
    pub linker_flags: Seq<Seq<char>>,
    pub linter_checks: Seq<char>,
}

impl View for Config {
    type V = ConfigView;

    open spec fn view(&self) -> ConfigView {
        ConfigView {
            compiler: self.compiler@,
            debugger: self.debugger@,
            linter: self.linter@,
            flags: texts(self.flags@),
            debug_flags: texts(self.debug_flags@),
            release_flags: texts(self.release_flags@),
            linker_flags: texts(self.linker_flags@),
            linter_checks: self.linter_checks@,
        }
    }
}

/// The configuration in which every key has its built-in default.
pub open spec fn default_view() -> ConfigView {
    ConfigView {
        compiler: "clang++"@,
        debugger: "lldb"@,
        linter: "clang-tidy"@,
        flags: seq!["-Wall"@, "-Wextra"@, "-pedantic"@],
        debug_flags: seq!["-g"@],
        release_flags: seq!["-O2"@],
        linker_flags: seq![],
        linter_checks: "clang-analyzer-*"@,
    }
}

/// The configuration used where the document names no key at all.
pub fn default_configuration() -> (config: Config)
    ensures
        config@ == default_view(),
{
    let flags = to_owned_string_vec(&["-Wall", "-Wextra", "-pedantic"]);
    let debug_flags = to_owned_string_vec(&["-g"]);
    let release_flags = to_owned_string_vec(&["-O2"]);
    let linker_flags = to_owned_string_vec(&[]);
    assert(texts(flags@) =~= default_view().flags);
    assert(texts(debug_flags@) =~= default_view().debug_flags);
    assert(texts(release_flags@) =~= default_view().release_flags);
    assert(texts(linker_flags@) =~= default_view().linker_flags);
    Config {
        compiler: "clang++".to_owned(),
        debugger: "lldb".to_owned(),
        linter: "clang-tidy".to_owned(),
        flags,
        debug_flags,
        release_flags,
        linker_flags,
        linter_checks: "clang-analyzer-*".to_owned(),
    }
}

/// Why a configuration could not be resolved.
#[derive(Debug, Clone, PartialEq, Eq)]
pub enum ConfigError {
    /// The configuration file could not be read: the directory is not a
    /// project folder. The reason given for it.
    NotFound(String),
    /// The file is not a well-formed document. The parser's error in full:
    /// the place, the line and what is wrong there.
    ParseError(String),
    /// The named key is present with a value of the wrong shape.
    TypeError(String),
}

/// A `ConfigError`, with the key as a character sequence.
pub enum ConfigFault {
    NotFound(Seq<char>),
    ParseError(Seq<char>),
    TypeError(Seq<char>),
}

impl View for ConfigError {
    type V = ConfigFault;

    open spec fn view(&self) -> ConfigFault {
        match self {
            ConfigError::NotFound(reason) => ConfigFault::NotFound(reason@),
            ConfigError::ParseError(reason) => ConfigFault::ParseError(reason@),
            ConfigError::TypeError(key) => ConfigFault::TypeError(key@),
        }
    }
}

/// Whether every element of an array is a string.
pub open spec fn all_text(items: Seq<Option<Seq<char>>>) -> bool {
    forall|i: int| 0 <= i < items.len() ==> (#[trigger] items[i]) is Some
}

/// The strings of an array whose elements are all strings.
pub open spec fn list_texts(items: Seq<Option<Seq<char>>>) -> Seq<Seq<char>> {
    Seq::new(items.len(), |i: int| items[i].unwrap())
}

/// What a string key resolves to, before the default is applied: `Ok(None)`
/// where the key is absent, its string where it holds one, and the key as
/// the error otherwise.
pub open spec fn string_key(doc: Document, key: Seq<char>) -> Result<Option<Seq<char>>, Seq<char>> {
    if !doc.contains_key(key) {
        Ok(None)
    } else {
        match doc[key].text {
            Some(s) => Ok(Some(s)),
            None => Err(key),
        }
    }
}

/// What a list key resolves to, before the default is applied: `Ok(None)`
/// where the key is absent, its strings where it holds an array of strings,
/// and the key as the error otherwise.
pub open spec fn string_list_key(doc: Document, key: Seq<char>) -> Result<
    Option<Seq<Seq<char>>>,
    Seq<char>,
> {
    if !doc.contains_key(key) {
        Ok(None)
    } else {
        match doc[key].items {
            Some(items) => if all_text(items) {
                Ok(Some(list_texts(items)))
            } else {
                Err(key)
            },
            None => Err(key),
        }
    }
}

/// Reads a key that must hold a string.
pub fn read_string_key(table: &toml::Table, key_name: &str) -> (read: Result<
    Option<String>,
    ConfigError,
>)
    ensures
        match read {
            Ok(Some(s)) => string_key(document(*table), key_name@) matches Ok(Some(t)) && t == s@,
            Ok(None) => string_key(document(*table), key_name@) matches Ok(None),
            Err(e) => e@ == ConfigFault::TypeError(key_name@) && string_key(
                document(*table),
                key_name@,
            ) is Err,
        },
{
    match table_get(table, key_name) {
        None => Ok(None),
        Some(value) => match value_as_str(value) {
            Some(slice) => Ok(Some(slice.to_owned())),
            None => Err(ConfigError::TypeError(key_name.to_owned())),
        },
    }
}

/// Reads a key that must hold an array of strings.
pub fn read_string_list_key(table: &toml::Table, key_name: &str) -> (read: Result<
    Option<Vec<String>>,
    ConfigError,
>)
    ensures
        match read {
            Ok(Some(v)) => string_list_key(document(*table), key_name@) matches Ok(Some(t)) && t
                == texts(v@),
            Ok(None) => string_list_key(document(*table), key_name@) matches Ok(None),
            Err(e) => e@ == ConfigFault::TypeError(key_name@) && string_list_key(
                document(*table),
                key_name@,
            ) is Err,
        },
{
    match table_get(table, key_name) {
        None => Ok(None),
        Some(value) => match value_as_array(value) {
            None => Err(ConfigError::TypeError(key_name.to_owned())),
            Some(array) => {
                let ghost items = Seq::new(array@.len(), |i: int| value_text(array@[i]));
                let mut values: Vec<String> = Vec::new();
                let mut i: usize = 0;
                while i < array.len()
                    invariant
                        i <= array.len(),
                        values.len() == i,
                        items == Seq::new(array@.len(), |i: int| value_text(array@[i])),
                        document(*table).contains_key(key_name@),
                        document(*table)[key_name@].items == Some(items),
                        forall|j: int| 0 <= j < i ==> (#[trigger] items[j]) == Some(values@[j]@),
                    decreases array.len() - i,
                {
                    match value_as_str(&array[i]) {
                        Some(slice) => {
                            values.push(slice.to_owned());
                        },
                        None => {
                            assert(items[i as int] is None);
                            return Err(ConfigError::TypeError(key_name.to_owned()));
                        },
                    }
                    i += 1;
                }
                assert(all_text(items));
                assert(texts(values@) =~= list_texts(items));
                Ok(Some(values))
            },
        },
    }
}

/// The value of a string key, or `default` where the key is absent.
pub open spec fn string_or(doc: Document, key: Seq<char>, default: Seq<char>) -> Seq<char> {
    match string_key(doc, key) {
        Ok(Some(s)) => s,
        _ => default,
    }
}

/// The value of a list key, or `default` where the key is absent.
pub open spec fn list_or(doc: Document, key: Seq<char>, default: Seq<Seq<char>>) -> Seq<
    Seq<char>,
> {
    match string_list_key(doc, key) {
        Ok(Some(v)) => v,
        _ => default,
    }
}

/// Every field of the configuration, each read from its own key alone and
/// taken from `defaults` where its key is absent.
pub open spec fn fields(doc: Document, defaults: ConfigView) -> ConfigView {
    ConfigView {
        compiler: string_or(doc, "compiler"@, defaults.compiler),
        debugger: string_or(doc, "debugger"@, defaults.debugger),
        linter: string_or(doc, "linter"@, defaults.linter),
        flags: list_or(doc, "flags"@, defaults.flags),
        debug_flags: list_or(doc, "debug-flags"@, defaults.debug_flags),
        release_flags: list_or(doc, "release-flags"@, defaults.release_flags),
        linker_flags: list_or(doc, "linker-flags"@, defaults.linker_flags),
        linter_checks: string_or(doc, "linter-checks"@, defaults.linter_checks),
    }
}

/// The first recognised key, in the order in which the keys are read, whose
/// value has the wrong shape.
pub open spec fn first_fault(doc: Document) -> Option<Seq<char>> {
    if string_key(doc, "compiler"@) is Err {
        Some("compiler"@)
    } else if string_key(doc, "debugger"@) is Err {
        Some("debugger"@)
    } else if string_key(doc, "linter"@) is Err {
        Some("linter"@)
    } else if string_list_key(doc, "flags"@) is Err {
        Some("flags"@)
    } else if string_list_key(doc, "debug-flags"@) is Err {
        Some("debug-flags"@)
    } else if string_list_key(doc, "release-flags"@) is Err {
        Some("release-flags"@)
    } else if string_list_key(doc, "linker-flags"@) is Err {
        Some("linker-flags"@)
    } else if string_key(doc, "linter-checks"@) is Err {
        Some("linter-checks"@)
    } else {
        None
    }
}

/// The configuration that a document resolves to over given defaults:
/// every field from its key or its default, unless some recognised key has
/// the wrong shape, which fails the whole resolution with that key.
pub open spec fn resolve(doc: Document, defaults: ConfigView) -> Result<ConfigView, ConfigFault> {
    match first_fault(doc) {
        Some(key) => Err(ConfigFault::TypeError(key)),
        None => Ok(fields(doc, defaults)),
    }
}

/// What resolution returns for what reading the configuration file gave:
/// its contents, or the reason why it could not be read.
pub open spec fn configuration_of(contents: Result<Seq<char>, Seq<char>>) -> Result<
    ConfigView,
    ConfigFault,
> {
    match contents {
        Err(reason) => Err(ConfigFault::NotFound(reason)),
        Ok(text) => match parsed_document(text) {
            Err(reason) => Err(ConfigFault::ParseError(reason)),
            Ok(doc) => resolve(doc, default_view()),
        },
    }
}

/// A resolution outcome, as character sequences.
pub open spec fn outcome_view(outcome: Result<Config, ConfigError>) -> Result<
    ConfigView,
    ConfigFault,
> {
    match outcome {
        Ok(config) => Ok(config@),
        Err(error) => Err(error@),
    }
}

/// The characters of what is handed to `read_configuration`.
pub open spec fn contents_view(contents: Result<&str, String>) -> Result<Seq<char>, Seq<char>> {
    match contents {
        Ok(text) => Ok(text@),
        Err(reason) => Err(reason@),
    }
}

/// Resolves a parsed document over the given defaults: each key that is
/// present replaces its default.
pub fn resolve_with(table: &toml::Table, defaults: Config) -> (resolved: Result<
    Config,
    ConfigError,
>)
    ensures
        outcome_view(resolved) == resolve(document(*table), defaults@),
{
    let compiler = match read_string_key(table, "compiler") {
        Ok(Some(s)) => s,
        Ok(None) => defaults.compiler,
        Err(e) => { return Err(e); },
    };
    let debugger = match read_string_key(table, "debugger") {
        Ok(Some(s)) => s,
        Ok(None) => defaults.debugger,
        Err(e) => { return Err(e); },
    };
    let linter = match read_string_key(table, "linter") {
        Ok(Some(s)) => s,
        Ok(None) => defaults.linter,
        Err(e) => { return Err(e); },
    };
    let flags = match read_string_list_key(table, "flags") {
        Ok(Some(v)) => v,
        Ok(None) => defaults.flags,
        Err(e) => { return Err(e); },
    };
    let debug_flags = match read_string_list_key(table, "debug-flags") {
        Ok(Some(v)) => v,
        Ok(None) => defaults.debug_flags,
        Err(e) => { return Err(e); },
    };
    let release_flags = match read_string_list_key(table, "release-flags") {
        Ok(Some(v)) => v,
        Ok(None) => defaults.release_flags,
        Err(e) => { return Err(e); },
    };
    let linker_flags = match read_string_list_key(table, "linker-flags") {
        Ok(Some(v)) => v,
        Ok(None) => defaults.linker_flags,
        Err(e) => { return Err(e); },
    };
    let linter_checks = match read_string_key(table, "linter-checks") {
        Ok(Some(s)) => s,
        Ok(None) => defaults.linter_checks,
        Err(e) => { return Err(e); },
    };
    Ok(
        Config {
            compiler,
            debugger,
            linter,
            flags,
            debug_flags,
            release_flags,
            linker_flags,
            linter_checks,
        },
    )
}

/// Resolves a parsed document over the built-in defaults.
pub fn resolve_table(table: &toml::Table) -> (resolved: Result<Config, ConfigError>)
    ensures
        outcome_view(resolved) == resolve(document(*table), default_view()),
{
    resolve_with(table, default_configuration())
}

/// Resolves the configuration from what reading the project's
/// configuration file gave: its contents, or the reason why it could not
/// be read.
pub fn read_configuration(contents: Result<&str, String>) -> (resolved: Result<
    Config,
    ConfigError,
>)
    ensures
        outcome_view(resolved) == configuration_of(contents_view(contents)),
{
    match contents {
        Err(reason) => Err(ConfigError::NotFound(reason)),
        Ok(text) => match parse_table(text) {
            Err(error) => Err(ConfigError::ParseError(error_message(&error))),
            Ok(table) => resolve_table(&table),
        },
    }
}

/// Whether `key` is one of the keys that hold a string.
pub open spec fn is_string_key(key: Seq<char>) -> bool {
    key == "compiler"@ || key == "debugger"@ || key == "linter"@ || key == "linter-checks"@
}

/// Whether `key` is one of the keys that hold a list of strings.
pub open spec fn is_list_key(key: Seq<char>) -> bool {
    key == "flags"@ || key == "debug-flags"@ || key == "release-flags"@ || key
        == "linker-flags"@
}

/// Whether `key` is a recognised key that is present with the wrong shape.
pub open spec fn misshapen(doc: Document, key: Seq<char>) -> bool {
    (is_string_key(key) && string_key(doc, key) is Err) || (is_list_key(key) && string_list_key(
        doc,
        key,
    ) is Err)
}

/// `view` with the field that `key` names put back to its default; `view`
/// itself where `key` names no field.
pub open spec fn with_default(view: ConfigView, key: Seq<char>, defaults: ConfigView) -> ConfigView {
    ConfigView {
        compiler: if key == "compiler"@ {
            defaults.compiler
        } else {
            view.compiler
        },
        debugger: if key == "debugger"@ {
            defaults.debugger
        } else {
            view.debugger
        },
        linter: if key == "linter"@ {
            defaults.linter
        } else {
            view.linter
        },
        flags: if key == "flags"@ {
            defaults.flags
        } else {
            view.flags
        },
        debug_flags: if key == "debug-flags"@ {
            defaults.debug_flags
        } else {
            view.debug_flags
        },
        release_flags: if key == "release-flags"@ {
            defaults.release_flags
        } else {
            view.release_flags
        },
        linker_flags: if key == "linker-flags"@ {
            defaults.linker_flags
        } else {
            view.linker_flags
        },
        linter_checks: if key == "linter-checks"@ {
            defaults.linter_checks
        } else {
            view.linter_checks
        },
    }
}

/// The eight recognised keys are pairwise different, and no key is both a
/// string key and a list key.
pub proof fn lemma_keys_distinct()
    ensures
        "compiler"@ != "debugger"@,
        "compiler"@ != "linter"@,
        "compiler"@ != "linter-checks"@,
        "debugger"@ != "linter"@,
        "debugger"@ != "linter-checks"@,
        "linter"@ != "linter-checks"@,
        "flags"@ != "debug-flags"@,
        "flags"@ != "release-flags"@,
        "flags"@ != "linker-flags"@,
        "debug-flags"@ != "release-flags"@,
        "debug-flags"@ != "linker-flags"@,
        "release-flags"@ != "linker-flags"@,
        forall|key: Seq<char>| !(is_string_key(key) && is_list_key(key)),
{
    reveal_strlit("compiler");
    reveal_strlit("debugger");
    reveal_strlit("linter");
    reveal_strlit("linter-checks");
    reveal_strlit("flags");
    reveal_strlit("debug-flags");
    reveal_strlit("release-flags");
    reveal_strlit("linker-flags");
    assert("compiler"@[0] != "debugger"@[0]);
    assert("release-flags"@[0] != "linter-checks"@[0]);
    assert("compiler"@.len() == 8 && "debugger"@.len() == 8 && "linter"@.len() == 6);
    assert("linter-checks"@.len() == 13 && "flags"@.len() == 5 && "debug-flags"@.len() == 11);
    assert("release-flags"@.len() == 13 && "linker-flags"@.len() == 12);
}

/// Resolving the same contents twice gives the same outcome, field for
/// field: whatever two calls of `read_configuration` on one file return,
/// the two results are equal.
pub proof fn lemma_resolution_repeats(
    contents: Result<&str, String>,
    first: Result<Config, ConfigError>,
    second: Result<Config, ConfigError>,
)
    requires
        outcome_view(first) == configuration_of(contents_view(contents)),
        outcome_view(second) == configuration_of(contents_view(contents)),
    ensures
        outcome_view(first) == outcome_view(second),
{
}

/// A document without any recognised key resolves to the defaults.
pub proof fn lemma_empty_document_resolves_to_defaults(defaults: ConfigView)
    ensures
        resolve(Map::empty(), defaults) == Ok::<ConfigView, ConfigFault>(defaults),
{
}

/// Omitting a key does not disturb any other key: in the document without
/// `key`, the field that `key` names has its default and every other field
/// is what it was; no other key changes its shape; and where the document
/// resolved before, it still does.
pub proof fn lemma_omitted_key_falls_back(doc: Document, key: Seq<char>, defaults: ConfigView)
    ensures
        fields(doc.remove(key), defaults) == with_default(fields(doc, defaults), key, defaults),
        forall|other: Seq<char>|
            other != key ==> misshapen(doc.remove(key), other) == misshapen(doc, other),
        !misshapen(doc.remove(key), key),
        resolve(doc, defaults) is Ok ==> resolve(doc.remove(key), defaults) == Ok::<
            ConfigView,
            ConfigFault,
        >(with_default(fields(doc, defaults), key, defaults)),
{
    lemma_keys_distinct();
    let less = doc.remove(key);
    assert forall|other: Seq<char>| other != key implies string_key(less, other) == string_key(
        doc,
        other,
    ) && string_list_key(less, other) == string_list_key(doc, other) by {}
    assert(string_key(less, key) is Ok);
    assert(string_list_key(less, key) is Ok);
}

/// A recognised key that is present with the wrong shape fails the whole
/// resolution with a `TypeError`: no configuration is returned. The error
/// names a key of the wrong shape, and it names `key` where `key` is the
/// only one.
pub proof fn lemma_misshapen_key_fails(doc: Document, key: Seq<char>, defaults: ConfigView)
    requires
        misshapen(doc, key),
    ensures
        resolve(doc, defaults) matches Err(ConfigFault::TypeError(named)) && misshapen(doc, named),
        (forall|other: Seq<char>| misshapen(doc, other) ==> other == key) ==> resolve(
            doc,
            defaults,
        ) == Err::<ConfigView, ConfigFault>(ConfigFault::TypeError(key)),
{
}

/// Resolution succeeds exactly on the documents in which no recognised key
/// has the wrong shape.
pub proof fn lemma_resolves_unless_misshapen(doc: Document, defaults: ConfigView)
    ensures
        resolve(doc, defaults) is Ok <==> forall|key: Seq<char>| !misshapen(doc, key),
{
    if resolve(doc, defaults) is Err {
        let named = first_fault(doc).unwrap();
        assert(misshapen(doc, named));
    }
}

/// The message that tells a user of a configuration fault.
pub open spec fn fault_message(fault: ConfigFault) -> Seq<char> {
    match fault {
        ConfigFault::NotFound(reason) => {
            "Can't read Embargo.toml file ! Are you in a project folder ? : "@ + reason
        },
        ConfigFault::ParseError(reason) => {
            "Can't parse Embargo.toml file ! Does it contain valid toml ? : "@ + reason
        },
        ConfigFault::TypeError(key) => if is_list_key(key) {
            key + " value must be an array of string"@
        } else {
            key + " value must be a string"@
        },
    }
}

fn names_list_key(key: &String) -> (list: bool)
    ensures
        list == is_list_key(key@),
{
    *key == "flags".to_owned() || *key == "debug-flags".to_owned() || *key
        == "release-flags".to_owned() || *key == "linker-flags".to_owned()
}

impl ConfigError {
    /// The message that tells a user of the error: the missing project
    /// folder, the malformed file, or the offending key.
    pub fn message(&self) -> (message: String)
        ensures
            message@ == fault_message(self@),
    {
        match self {
            ConfigError::NotFound(reason) => joined(
                "Can't read Embargo.toml file ! Are you in a project folder ? : ",
                reason.as_str(),
            ),
            ConfigError::ParseError(reason) => joined(
                "Can't parse Embargo.toml file ! Does it contain valid toml ? : ",
                reason.as_str(),
            ),
            ConfigError::TypeError(key) => if names_list_key(key) {
                joined(key.as_str(), " value must be an array of string")
            } else {
                joined(key.as_str(), " value must be a string")
            },
        }
    }
}

} // verus!
