use vstd::prelude::*;
use crate::document::{
    list_model, list_value, no_entries, parse_table, parsed_document, table_get, table_insert, table_model,
    table_new, table_value, text_value, value_as_array, value_as_str, value_as_table,
    value_model, Toml,
};
use crate::error::ChpError;
use crate::text::texts;

verus! {

/// The two flag lists of a project, one per build profile.
#[derive(Debug, Clone, PartialEq, Eq)]
pub struct Profiles {
    pub debug: Vec<String>,
    pub release: Vec<String>,
}

/// A project as `chp.toml` describes it.
#[derive(Debug, Clone, PartialEq, Eq)]
pub struct Config {
    /// The project's name, which also names the built program.
    pub name: String,
    /// The compiler to start.
    pub command: String,
    /// Directories, relative to the root, searched for sources. `None`
    /// means no search: the flag lists then name the sources themselves.
    pub source_dirs: Option<Vec<String>>,
    pub profiles: Profiles,
}

/// The flag lists of `Profiles` as sequences of texts.
pub struct ProfilesView {
    pub debug: Seq<Seq<char>>,
    pub release: Seq<Seq<char>>,
}

/// A `Config` as plain texts.
pub struct ConfigView {
    pub name: Seq<char>,
    pub command: Seq<char>,
    pub source_dirs: Option<Seq<Seq<char>>>,
    pub profiles: ProfilesView,
}

impl View for Profiles {
    type V = ProfilesView;

    open spec fn view(&self) -> ProfilesView {
        ProfilesView { debug: texts(self.debug@), release: texts(self.release@) }
    }
}

impl View for Config {
    type V = ConfigView;

    open spec fn view(&self) -> ConfigView {
        ConfigView {
            name: self.name@,
            command: self.command@,
            source_dirs: match self.source_dirs {
                Some(dirs) => Some(texts(dirs@)),
                None => None,
            },
            profiles: self.profiles@,
        }
    }
}

/// The key of the optional list of source directories.
pub open spec fn dirs_key() -> Seq<char> {
    "compile_cpp_in_dirs"@
}

/// The string stored under `key`, if the key is there and holds a string.
pub open spec fn text_at(doc: Map<Seq<char>, Toml>, key: Seq<char>) -> Option<Seq<char>> {
    if doc.contains_key(key) {
        match doc[key] {
            Toml::Text(s) => Some(s),
            _ => None,
        }
    } else {
        None
    }
}

/// The strings of `value`, if it is an array that holds nothing but strings.
pub open spec fn strings_of(value: Toml) -> Option<Seq<Seq<char>>> {
    match value {
        Toml::List(items) => if forall|i: int| 0 <= i < items.len() ==> items[i] is Text {
            Some(Seq::new(items.len(), |i: int| items[i]->Text_0))
        } else {
            None
        },
        _ => None,
    }
}

/// The array of strings stored under `key`, if there is one.
pub open spec fn strings_at(doc: Map<Seq<char>, Toml>, key: Seq<char>) -> Option<Seq<Seq<char>>> {
    if doc.contains_key(key) {
        strings_of(doc[key])
    } else {
        None
    }
}

/// The two flag lists of a `[profiles]` table; both are required.
pub open spec fn profiles_in(table: Map<Seq<char>, Toml>) -> Option<ProfilesView> {
    match (strings_at(table, "debug"@), strings_at(table, "release"@)) {
        (Some(debug), Some(release)) => Some(ProfilesView { debug, release }),
        _ => None,
    }
}

/// The `[profiles]` table of a document, read in full.
pub open spec fn profiles_at(doc: Map<Seq<char>, Toml>) -> Option<ProfilesView> {
    if doc.contains_key("profiles"@) {
        match doc["profiles"@] {
            Toml::Table(inner) => profiles_in(inner),
            _ => None,
        }
    } else {
        None
    }
}

/// The list of source directories of a document: absent, well formed, or
/// present but not an array of strings (the outer `None`).
pub open spec fn dirs_at(doc: Map<Seq<char>, Toml>) -> Option<Option<Seq<Seq<char>>>> {
    if doc.contains_key(dirs_key()) {
        match strings_of(doc[dirs_key()]) {
            Some(dirs) => Some(Some(dirs)),
            None => None,
        }
    } else {
        Some(None)
    }
}

/// The project that a document describes. `name`, `command` and both
/// profiles must be there with the right kind of value; the source
/// directories may be missing but not malformed; other keys are ignored.
/// `None` where the document describes no project.
pub open spec fn described(doc: Map<Seq<char>, Toml>) -> Option<ConfigView> {
    match (text_at(doc, "name"@), text_at(doc, "command"@), dirs_at(doc), profiles_at(doc)) {
        (Some(name), Some(command), Some(source_dirs), Some(profiles)) => Some(
            ConfigView { name, command, source_dirs, profiles },
        ),
        _ => None,
    }
}

/// An array value that holds `items` as strings.
pub open spec fn list_of(items: Seq<Seq<char>>) -> Toml {
    Toml::List(Seq::new(items.len(), |i: int| Toml::Text(items[i])))
}

/// The `[profiles]` table that states `profiles`.
pub open spec fn profiles_document(profiles: ProfilesView) -> Map<Seq<char>, Toml> {
    no_entries().insert("debug"@, list_of(profiles.debug)).insert(
        "release"@,
        list_of(profiles.release),
    )
}

/// The document that states `config` and nothing else.
pub open spec fn document_of(config: ConfigView) -> Map<Seq<char>, Toml> {
    let required = no_entries().insert("name"@, Toml::Text(config.name)).insert(
        "command"@,
        Toml::Text(config.command),
    ).insert("profiles"@, Toml::Table(profiles_document(config.profiles)));
    match config.source_dirs {
        Some(dirs) => required.insert(dirs_key(), list_of(dirs)),
        None => required,
    }
}

/// The characters of a file's content, where there is any.
pub open spec fn content_text(content: Option<&str>) -> Option<Seq<char>> {
    match content {
        Some(text) => Some(text@),
        None => None,
    }
}

/// What reading a project description gives: a read error where there is
/// no text, a parse error where the text is no TOML document or describes
/// no project, and the project otherwise.
pub open spec fn config_read(content: Option<Seq<char>>) -> Result<ConfigView, ChpError> {
    match content {
        None => Err(ChpError::ConfigReadError),
        Some(text) => match parsed_document(text) {
            None => Err(ChpError::ConfigParseError),
            Some(doc) => match described(doc) {
                None => Err(ChpError::ConfigParseError),
                Some(config) => Ok(config),
            },
        },
    }
}

fn text_in(table: &toml::Table, key: &str) -> (text: Option<String>)
    ensures
        match text {
            Some(s) => text_at(table_model(*table), key@) == Some(s@),
            None => text_at(table_model(*table), key@) is None,
        },
{
    match table_get(table, key) {
        None => None,
        Some(value) => match value_as_str(value) {
            None => None,
            Some(s) => Some(String::from_str(s)),
        },
    }
}

fn strings_in(value: &toml::Value) -> (list: Option<Vec<String>>)
    ensures
        match list {
            Some(items) => strings_of(value_model(*value)) == Some(texts(items@)),
            None => strings_of(value_model(*value)) is None,
        },
{
    match value_as_array(value) {
        None => None,
        Some(items) => {
            let ghost models = list_model(items@);
            let mut list: Vec<String> = Vec::new();
            let mut i: usize = 0;
            while i < items.len()
                invariant
                    i <= items.len(),
                    models == list_model(items@),
                    value_model(*value) == Toml::List(models),
                    list@.len() == i,
                    forall|k: int| 0 <= k < i ==> #[trigger] models[k] == Toml::Text(list@[k]@),
                decreases items.len() - i,
            {
                match value_as_str(&items[i]) {
                    None => {
                        assert(!(models[i as int] is Text));
                        return None;
                    },
                    Some(s) => {
                        list.push(String::from_str(s));
                    },
                }
                i += 1;
            }
            assert(texts(list@) =~= Seq::new(models.len(), |i: int| models[i]->Text_0));
            Some(list)
        },
    }
}

fn strings_under(table: &toml::Table, key: &str) -> (list: Option<Vec<String>>)
    ensures
        match list {
            Some(items) => strings_at(table_model(*table), key@) == Some(texts(items@)),
            None => strings_at(table_model(*table), key@) is None,
        },
{
    match table_get(table, key) {
        None => None,
        Some(value) => strings_in(value),
    }
}

fn strings_value(items: &Vec<String>) -> (value: toml::Value)
    ensures
        value_model(value) == list_of(texts(items@)),
{
    let mut values: Vec<toml::Value> = Vec::new();
    let mut i: usize = 0;
    while i < items.len()
        invariant
            i <= items.len(),
            values@.len() == i,
            forall|k: int| 0 <= k < i ==> value_model(#[trigger] values@[k]) == Toml::Text(items@[k]@),
        decreases items.len() - i,
    {
        values.push(text_value(items[i].clone()));
        i += 1;
    }
    assert(list_model(values@) =~= Seq::new(
        texts(items@).len(),
        |i: int| Toml::Text(texts(items@)[i]),
    ));
    list_value(values)
}

impl Profiles {
    /// The `[profiles]` table that states these flag lists.
    pub fn to_table(&self) -> (table: toml::Table)
        ensures
            table_model(table) == profiles_document(self@),
    {
        let mut table = table_new();
        table_insert(&mut table, String::from_str("debug"), strings_value(&self.debug));
        table_insert(&mut table, String::from_str("release"), strings_value(&self.release));
        table
    }

    /// Reads both flag lists out of a `[profiles]` table, or gives `None`
    /// where one is missing or is not an array of strings.
    pub fn from_table(table: &toml::Table) -> (profiles: Option<Profiles>)
        ensures
            match profiles {
                Some(p) => profiles_in(table_model(*table)) == Some(p@),
                None => profiles_in(table_model(*table)) is None,
            },
    {
        let debug = match strings_under(table, "debug") {
            Some(list) => list,
            None => {
                return None;
            },
        };
        let release = match strings_under(table, "release") {
            Some(list) => list,
            None => {
                return None;
            },
        };
        Some(Profiles { debug, release })
    }
}

impl Config {
    /// The document that states this project and nothing else.
    pub fn to_table(&self) -> (table: toml::Table)
        ensures
            table_model(table) == document_of(self@),
    {
        let mut table = table_new();
        table_insert(&mut table, String::from_str("name"), text_value(self.name.clone()));
        table_insert(&mut table, String::from_str("command"), text_value(self.command.clone()));
        table_insert(
            &mut table,
            String::from_str("profiles"),
            table_value(self.profiles.to_table()),
        );
        match &self.source_dirs {
            Some(dirs) => {
                table_insert(
                    &mut table,
                    String::from_str("compile_cpp_in_dirs"),
                    strings_value(dirs),
                );
            },
            None => {},
        }
        table
    }

    /// Reads a project out of a parsed document: the project that the
    /// document describes, or `ConfigParseError` where it describes none.
    pub fn from_table(table: &toml::Table) -> (config: Result<Config, ChpError>)
        ensures
            match config {
                Ok(c) => described(table_model(*table)) == Some(c@),
                Err(error) => error == ChpError::ConfigParseError && described(
                    table_model(*table),
                ) is None,
            },
    {
        let name = match text_in(table, "name") {
            Some(s) => s,
            None => {
                return Err(ChpError::ConfigParseError);
            },
        };
        let command = match text_in(table, "command") {
            Some(s) => s,
            None => {
                return Err(ChpError::ConfigParseError);
            },
        };
        let source_dirs = match table_get(table, "compile_cpp_in_dirs") {
            None => None,
            Some(value) => match strings_in(value) {
                Some(dirs) => Some(dirs),
                None => {
                    return Err(ChpError::ConfigParseError);
                },
            },
        };
        let profiles = match table_get(table, "profiles") {
            None => {
                return Err(ChpError::ConfigParseError);
            },
            Some(value) => match value_as_table(value) {
                None => {
                    return Err(ChpError::ConfigParseError);
                },
                Some(inner) => match Profiles::from_table(inner) {
                    Some(p) => p,
                    None => {
                        return Err(ChpError::ConfigParseError);
                    },
                },
            },
        };
        Ok(Config { name, command, source_dirs, profiles })
    }

    /// The flag list of the chosen profile, exactly as the project states
    /// it: the release list where `release` is set, the debug list
    /// otherwise.
    pub fn select_profile(&self, release: bool) -> (flags: &Vec<String>)
        ensures
            *flags == if release {
                self.profiles.release
            } else {
                self.profiles.debug
            },
            texts(flags@) == if release {
                self@.profiles.release
            } else {
                self@.profiles.debug
            },
    {
        if release {
            &self.profiles.release
        } else {
            &self.profiles.debug
        }
    }
}

/// A list of strings written as an array value reads back unchanged.
pub proof fn lemma_strings_round_trip(items: Seq<Seq<char>>)
    ensures
        strings_of(list_of(items)) == Some(items),
{
    let written = list_of(items)->List_0;
    assert(forall|i: int| 0 <= i < written.len() ==> written[i] is Text);
    assert(Seq::new(written.len(), |i: int| written[i]->Text_0) =~= items);
}

/// The keys of a project description are pairwise different.
proof fn lemma_keys_differ()
    ensures
        "name"@ != "command"@,
        "name"@ != "profiles"@,
        "name"@ != dirs_key(),
        "command"@ != "profiles"@,
        "command"@ != dirs_key(),
        "profiles"@ != dirs_key(),
        "debug"@ != "release"@,
{
    reveal_strlit("name");
    reveal_strlit("command");
    reveal_strlit("profiles");
    reveal_strlit("compile_cpp_in_dirs");
    reveal_strlit("debug");
    reveal_strlit("release");
    assert("name"@.len() == 4);
    assert("command"@.len() == 7);
    assert("profiles"@.len() == 8);
    assert("compile_cpp_in_dirs"@.len() == 19);
    assert("debug"@.len() == 5);
    assert("release"@.len() == 7);
}

/// A project written out as a document and read back is the same project,
/// field by field.
pub proof fn lemma_config_round_trip(config: ConfigView)
    ensures
        described(document_of(config)) == Some(config),
{
    lemma_keys_differ();
    lemma_strings_round_trip(config.profiles.debug);
    lemma_strings_round_trip(config.profiles.release);
    let doc = document_of(config);
    assert(profiles_in(profiles_document(config.profiles)) == Some(config.profiles));
    assert(profiles_at(doc) == Some(config.profiles));
    match config.source_dirs {
        Some(dirs) => {
            lemma_strings_round_trip(dirs);
        },
        None => {},
    }
    assert(dirs_at(doc) == Some(config.source_dirs));
    assert(text_at(doc, "name"@) == Some(config.name));
    assert(text_at(doc, "command"@) == Some(config.command));
}

/// Turns the content of the marker file into a project. `None` stands for
/// a file that could not be read as text.
pub fn read_config(content: Option<&str>) -> (config: Result<Config, ChpError>)
    ensures
        match config {
            Ok(c) => config_read(content_text(content)) matches Ok(read) && read == c@,
            Err(error) => config_read(content_text(content)) matches Err(e) && e == error,
        },
{
    match content {
        None => Err(ChpError::ConfigReadError),
        Some(text) => match parse_table(text) {
            Err(_) => Err(ChpError::ConfigParseError),
            Ok(table) => Config::from_table(&table),
        },
    }
}

} // verus!
