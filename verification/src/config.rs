//! The account settings that name the databases to choose from and hold
//! their tokens.

use crate::text::opt_view;
use vstd::prelude::*;
use vstd::string::StringExecFns;

verus! {

/// The directory, below the user's configuration directory, that holds the
/// settings.
pub const APP_IDENTIFIER: &'static str = "turso";

/// The file, in that directory, that holds the settings.
pub const SETTINGS_FILE: &'static str = "settings.json";

/// The token of one database.
#[derive(Debug, Clone)]
pub struct DatabaseToken {
    pub expiration: u64,
    pub data: String,
}

/// A `DatabaseToken` with its text as characters.
pub struct DatabaseTokenView {
    pub expiration: u64,
    pub data: Seq<char>,
}

impl View for DatabaseToken {
    type V = DatabaseTokenView;

    open spec fn view(&self) -> DatabaseTokenView {
        DatabaseTokenView { expiration: self.expiration, data: self.data@ }
    }
}

/// One database of the account.
#[derive(Debug, Clone)]
pub struct DatabaseName {
    pub db_id: String,
    pub name: String,
    pub hostname: String,
}

/// A `DatabaseName` with its texts as characters.
pub struct DatabaseNameView {
    pub db_id: Seq<char>,
    pub name: Seq<char>,
    pub hostname: Seq<char>,
}

impl View for DatabaseName {
    type V = DatabaseNameView;

    open spec fn view(&self) -> DatabaseNameView {
        DatabaseNameView { db_id: self.db_id@, name: self.name@, hostname: self.hostname@ }
    }
}

/// The databases of the account.
#[derive(Debug, Clone)]
pub struct DatabaseNames {
    pub data: Vec<DatabaseName>,
}

impl View for DatabaseNames {
    type V = Seq<DatabaseNameView>;

    open spec fn view(&self) -> Seq<DatabaseNameView> {
        self.data@.map_values(|d: DatabaseName| d@)
    }
}

/// What the settings remember: the databases, and their tokens by database id.
#[derive(Debug, Clone)]
pub struct Cache {
    pub database_names: Option<DatabaseNames>,
    pub database_token: Option<Vec<(String, DatabaseToken)>>,
}

/// A `Cache` with its lists as sequences.
pub struct CacheView {
    pub database_names: Option<Seq<DatabaseNameView>>,
    pub database_token: Option<Seq<(Seq<char>, DatabaseTokenView)>>,
}

/// The tokens with the ids they are filed under, by their views.
pub open spec fn token_views(tokens: Seq<(String, DatabaseToken)>) -> Seq<
    (Seq<char>, DatabaseTokenView),
> {
    tokens.map_values(|t: (String, DatabaseToken)| (t.0@, t.1@))
}

impl View for Cache {
    type V = CacheView;

    open spec fn view(&self) -> CacheView {
        CacheView {
            database_names: opt_view(self.database_names),
            database_token: match self.database_token {
                Some(tokens) => Some(token_views(tokens@)),
                None => None,
            },
        }
    }
}

/// The settings.
#[derive(Debug, Clone)]
pub struct Config {
    pub username: String,
    pub cache: Cache,
}

/// A `Config` with its texts as characters and its lists as sequences.
pub struct ConfigView {
    pub username: Seq<char>,
    pub cache: CacheView,
}

impl View for Config {
    type V = ConfigView;

    open spec fn view(&self) -> ConfigView {
        ConfigView { username: self.username@, cache: self.cache@ }
    }
}

/// Why the settings do not lead to a database.
#[derive(Debug, Clone)]
pub enum ConfigError {
    /// The settings list no databases.
    NoDatabaseNames,
    /// The choice is not a position in the list of databases.
    NoSuchDatabase { selected: usize },
    /// The settings hold no tokens.
    NoDatabaseTokens,
    /// The settings hold no token for the database of this name.
    NoDatabaseToken { name: String },
}

/// A `ConfigError` with its name as characters.
pub enum ConfigErrorView {
    NoDatabaseNames,
    NoSuchDatabase { selected: usize },
    NoDatabaseTokens,
    NoDatabaseToken { name: Seq<char> },
}

impl View for ConfigError {
    type V = ConfigErrorView;

    open spec fn view(&self) -> ConfigErrorView {
        match self {
            ConfigError::NoDatabaseNames => ConfigErrorView::NoDatabaseNames,
            ConfigError::NoSuchDatabase { selected } => ConfigErrorView::NoSuchDatabase {
                selected: *selected,
            },
            ConfigError::NoDatabaseTokens => ConfigErrorView::NoDatabaseTokens,
            ConfigError::NoDatabaseToken { name } => ConfigErrorView::NoDatabaseToken {
                name: name@,
            },
        }
    }
}

impl ConfigErrorView {
    /// The message that tells the user what to do about the error.
    pub open spec fn message(self) -> Seq<char> {
        match self {
            ConfigErrorView::NoDatabaseNames => "No database names, please run `turso db list`"@,
            ConfigErrorView::NoSuchDatabase { .. } => "No database at the selected position"@,
            ConfigErrorView::NoDatabaseTokens => "No database tokens found in config, "@
                + "use `turso db shell DB_NAME` to populate the config"@,
            ConfigErrorView::NoDatabaseToken { name } => "No database token found for "@ + name
                + ", use `turso db shell "@ + name + "` to populate the config"@,
        }
    }
}

impl ConfigError {
    /// The message that tells the user what to do about the error.
    pub fn to_text(&self) -> (text: String)
        ensures
            text@ == self@.message(),
    {
        match self {
            ConfigError::NoDatabaseNames => {
                "No database names, please run `turso db list`".to_owned()
            },
            ConfigError::NoSuchDatabase { .. } => "No database at the selected position".to_owned(),
            ConfigError::NoDatabaseTokens => {
                let mut text = "No database tokens found in config, ".to_owned();
                text.append("use `turso db shell DB_NAME` to populate the config");
                text
            },
            ConfigError::NoDatabaseToken { name } => {
                let mut text = "No database token found for ".to_owned();
                text.append(name.as_str());
                text.append(", use `turso db shell ");
                text.append(name.as_str());
                text.append("` to populate the config");
                text
            },
        }
    }
}

/// Whether position `i` holds the first of `tokens` that is filed under `db_id`.
pub open spec fn filed_first_at(
    tokens: Seq<(Seq<char>, DatabaseTokenView)>,
    db_id: Seq<char>,
    i: int,
) -> bool {
    &&& 0 <= i < tokens.len()
    &&& tokens[i].0 == db_id
    &&& forall|j: int| 0 <= j < i ==> (#[trigger] tokens[j]).0 != db_id
}

/// Whether one of `tokens` is filed under `db_id`.
pub open spec fn filed(tokens: Seq<(Seq<char>, DatabaseTokenView)>, db_id: Seq<char>) -> bool {
    exists|i: int| 0 <= i < tokens.len() && (#[trigger] tokens[i]).0 == db_id
}

/// The names of the databases, in the order of the list.
pub open spec fn names_of(databases: Seq<DatabaseNameView>) -> Seq<Seq<char>> {
    databases.map_values(|d: DatabaseNameView| d.name)
}

/// The characters of each text.
pub open spec fn texts(names: Seq<String>) -> Seq<Seq<char>> {
    names.map_values(|n: String| n@)
}

impl Config {
    /// The names to choose a database from, in the order of the settings.
    /// Fails where the settings list no databases.
    pub fn database_choices(&self) -> (choices: Result<Vec<String>, ConfigError>)
        ensures
            match self@.cache.database_names {
                Some(names) => choices is Ok && texts(choices->Ok_0@) == names_of(names),
                None => choices is Err && choices->Err_0@ == ConfigErrorView::NoDatabaseNames,
            },
    {
        match &self.cache.database_names {
            None => Err(ConfigError::NoDatabaseNames),
            Some(names) => {
                let mut choices: Vec<String> = Vec::new();
                let mut i: usize = 0;
                while i < names.data.len()
                    invariant
                        i <= names.data@.len(),
                        choices@.len() == i,
                        forall|k: int| 0 <= k < i ==> (#[trigger] choices@[k])@ == names.data@[k].name@,
                    decreases names.data@.len() - i,
                {
                    choices.push(names.data[i].name.clone());
                    i += 1;
                }
                assert(texts(choices@) =~= names_of(names@));
                Ok(choices)
            },
        }
    }

    /// The token filed under the id of `database`: the first such, should
    /// there be several. Fails where the settings hold no tokens, and where
    /// none is filed under that id.
    pub fn database_token(&self, database: &DatabaseName) -> (token: Result<
        &DatabaseToken,
        ConfigError,
    >)
        ensures
            match self@.cache.database_token {
                None => token is Err && token->Err_0@ == ConfigErrorView::NoDatabaseTokens,
                Some(tokens) => if filed(tokens, database@.db_id) {
                    token is Ok && exists|i: int| #[trigger]
                        filed_first_at(tokens, database@.db_id, i) && token->Ok_0@ == tokens[i].1
                } else {
                    token is Err && token->Err_0@ == (ConfigErrorView::NoDatabaseToken {
                        name: database@.name,
                    })
                },
            },
    {
        match &self.cache.database_token {
            None => Err(ConfigError::NoDatabaseTokens),
            Some(tokens) => {
                let mut i: usize = 0;
                while i < tokens.len()
                    invariant
                        i <= tokens@.len(),
                        self.cache.database_token == Some(*tokens),
                        forall|j: int|
                            0 <= j < i ==> (#[trigger] token_views(tokens@)[j]).0 != database@.db_id,
                    decreases tokens@.len() - i,
                {
                    if tokens[i].0 == database.db_id {
                        assert(token_views(tokens@)[i as int].0 == database@.db_id);
                        assert(filed(token_views(tokens@), database@.db_id));
                        assert(filed_first_at(token_views(tokens@), database@.db_id, i as int));
                        return Ok(&tokens[i].1);
                    }
                    i += 1;
                }
                Err(ConfigError::NoDatabaseToken { name: database.name.clone() })
            },
        }
    }
}

/// The database at position `selected` of the list. Fails where the
/// settings list no databases, and where the list has no such position.
pub fn select_database(config: &Config, selected: usize) -> (chosen: Result<
    &DatabaseName,
    ConfigError,
>)
    ensures
        match config@.cache.database_names {
            None => chosen is Err && chosen->Err_0@ == ConfigErrorView::NoDatabaseNames,
            Some(names) => if selected < names.len() {
                chosen is Ok && chosen->Ok_0@ == names[selected as int]
            } else {
                chosen is Err && chosen->Err_0@ == (ConfigErrorView::NoSuchDatabase { selected })
            },
        },
{
    match &config.cache.database_names {
        None => Err(ConfigError::NoDatabaseNames),
        Some(names) => if selected < names.data.len() {
            Ok(&names.data[selected])
        } else {
            Err(ConfigError::NoSuchDatabase { selected })
        },
    }
}

impl DatabaseNameView {
    /// The address of the database: its host under the `libsql` scheme.
    pub open spec fn url(self) -> Seq<char> {
        "libsql://"@ + self.hostname
    }
}

impl DatabaseName {
    /// The address to reach the database at.
    pub fn to_url(&self) -> (url: String)
        ensures
            url@ == self@.url(),
    {
        let mut url = "libsql://".to_owned();
        url.append(self.hostname.as_str());
        url
    }
}

} // verus!
