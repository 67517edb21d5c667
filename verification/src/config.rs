//! The settings of the service: where it listens, how much it logs, and
//! which database it talks to.

use crate::text::{decimal, decimal_text, same_text};
use log::Level;
use vstd::prelude::*;

verus! {

/// `log::Level`, the five levels of verbosity, with its variants in view.
#[verifier::external_type_specification]
pub struct ExLevel(Level);

/// The lower-case form of a text, as `str::to_lowercase` gives it.
pub uninterp spec fn lowercase(text: Seq<char>) -> Seq<char>;

/// Calls `str::to_lowercase`. Trusted: the result is the lower-case form
/// that `lowercase` names, the same for the same text.
#[verifier::external_body]
fn to_lowercase(text: &str) -> (lower: String)
    ensures
        lower@ == lowercase(text@),
{
    text.to_lowercase()
}

/// Calls `std::path::Path::is_absolute`. What counts as absolute is the
/// platform's affair: nothing is claimed of the answer.
#[verifier::external_body]
fn is_absolute(path: &String) -> (absolute: bool) {
    std::path::Path::new(path).is_absolute()
}

/// Calls `std::path::Path::join` and writes the path out. How two paths are
/// joined is the platform's affair: nothing is claimed of the result.
#[verifier::external_body]
fn join(directory: &str, path: &String) -> (joined: String) {
    std::path::Path::new(directory).join(std::path::Path::new(path)).display().to_string()
}

pub struct Settings {
    pub application: ApplicationSettings,
    pub database: DatabaseSettings,
}

pub struct ApplicationSettings {
    pub host: String,
    pub port: u16,
    pub loglevel: Level,
}

pub struct DatabaseSettings {
    pub driver: String,
    pub host: Option<String>,
    pub port: Option<u16>,
    pub username: Option<String>,
    pub password: Option<String>,
    pub name: Option<String>,
    pub require_ssl: bool,
    pub path: Option<String>,
}

/// Where the service runs.
#[derive(Debug, Copy, Clone, PartialEq, Eq, Structural)]
pub enum Environment {
    Local,
    Test,
    Production,
}

impl Default for ApplicationSettings {
    /// The service listens on the loopback address, port 8000, and logs at
    /// the "info" level.
    fn default() -> (r: ApplicationSettings)
        ensures
            r.host@ == "127.0.0.1"@,
            r.port == 8000,
            r.loglevel == Level::Info,
    {
        ApplicationSettings { host: "127.0.0.1".to_owned(), port: 8000, loglevel: Level::Info }
    }
}

impl DatabaseSettings {
    /// The settings of an application that never configured its database: a
    /// file named after the application, opened with SQLite.
    pub fn named(app_name: &str) -> (r: DatabaseSettings)
        ensures
            r.driver@ == "sqlite"@,
            r.host is None,
            r.port is None,
            r.username is None,
            r.password is None,
            r.name is None,
            !r.require_ssl,
            r.path matches Some(path) && path@ == app_name@ + ".db"@,
    {
        let mut path = app_name.to_owned();
        path.append(".db");
        DatabaseSettings {
            driver: "sqlite".to_owned(),
            host: None,
            port: None,
            username: None,
            password: None,
            name: None,
            require_ssl: false,
            path: Some(path),
        }
    }
}

/// The text of an optional setting: nothing where it is not set.
pub open spec fn text_or_empty(setting: Option<String>) -> Seq<char> {
    match setting {
        Some(text) => text@,
        None => Seq::<char>::empty(),
    }
}

impl DatabaseSettings {
    /// Whether the database is a file that SQLite opens.
    pub open spec fn is_sqlite(&self) -> bool {
        self.driver@ == "sqlite"@
    }

    /// Whether the settings hold what the URL of the database is made of:
    /// the path of the file for SQLite, and for a server its host, its port
    /// and the name of the database.
    pub open spec fn complete(&self) -> bool {
        if self.is_sqlite() {
            self.path is Some
        } else {
            self.host is Some && self.port is Some && self.name is Some
        }
    }

    /// The URL of the database. A server's URL names the user, and the
    /// password after a colon, where the settings hold a user name.
    pub open spec fn url(&self) -> Seq<char>
        recommends
            self.complete(),
    {
        if self.is_sqlite() {
            self.driver@ + "://"@ + self.path->0@
        } else if text_or_empty(self.username).len() > 0 {
            self.driver@ + "://"@ + self.username->0@ + ":"@ + text_or_empty(self.password) + "@"@
                + self.host->0@ + ":"@ + decimal_text(self.port->0 as nat) + "/"@ + self.name->0@
        } else {
            self.driver@ + "://"@ + self.host->0@ + ":"@ + decimal_text(self.port->0 as nat) + "/"@
                + self.name->0@
        }
    }

    /// Computes `complete`.
    pub fn is_complete(&self) -> (complete: bool)
        ensures
            complete == self.complete(),
    {
        if same_text(self.driver.as_str(), "sqlite") {
            self.path.is_some()
        } else {
            self.host.is_some() && self.port.is_some() && self.name.is_some()
        }
    }

    pub fn get_url(&self) -> (url: String)
        requires
            self.complete(),
        ensures
            url@ == self.url(),
    {
        let mut url = self.driver.clone();
        url.append("://");
        if same_text(self.driver.as_str(), "sqlite") {
            match &self.path {
                Some(path) => url.append(path.as_str()),
                None => {},
            }
            return url;
        }
        match &self.username {
            Some(username) => {
                if !username.as_str().is_empty() {
                    url.append(username.as_str());
                    url.append(":");
                    match &self.password {
                        Some(password) => url.append(password.as_str()),
                        None => {
                            assert(url@ + Seq::<char>::empty() =~= url@);
                        },
                    }
                    url.append("@");
                }
            },
            None => {},
        }
        match &self.host {
            Some(host) => url.append(host.as_str()),
            None => {},
        }
        url.append(":");
        match self.port {
            Some(port) => {
                let digits = decimal(port);
                url.append(digits.as_str());
            },
            None => {},
        }
        url.append("/");
        match &self.name {
            Some(name) => url.append(name.as_str()),
            None => {},
        }
        url
    }

    /// The path of the database file to use for a file configured as
    /// `path`: `path` itself where it is absolute, else what it becomes
    /// under the data directory.
    pub fn placed(path: String, absolute: bool, under_data_directory: String) -> (placed: String)
        ensures
            placed == if absolute {
                path
            } else {
                under_data_directory
            },
    {
        if absolute {
            path
        } else {
            under_data_directory
        }
    }

    /// Whether `placed` is where `anchor` puts a database file configured
    /// as `path`, given `data_directory`: `path` itself where the platform
    /// answers that it is absolute, else what the platform answers when
    /// `path` is joined to `data_directory`.
    pub closed spec fn anchored(path: String, data_directory: &str, placed: String) -> bool {
        exists|absolute: bool|
            {
                &&& #[trigger] call_ensures(is_absolute, (&path,), absolute)
                &&& if absolute {
                    placed == path
                } else {
                    call_ensures(join, (data_directory, &path), placed)
                }
            }
    }

    /// Puts a database file that is configured by a relative path under
    /// `data_directory`, and leaves one that is configured by an absolute
    /// path where it is. Settings that name no file keep naming none, and
    /// nothing but the path changes.
    pub fn anchor(&mut self, data_directory: &str)
        ensures
            match old(self).path {
                Some(path) => final(self).path matches Some(placed) && Self::anchored(
                    path,
                    data_directory,
                    placed,
                ),
                None => final(self).path is None,
            },
            final(self).driver == old(self).driver,
            final(self).host == old(self).host,
            final(self).port == old(self).port,
            final(self).username == old(self).username,
            final(self).password == old(self).password,
            final(self).name == old(self).name,
            final(self).require_ssl == old(self).require_ssl,
    {
        match self.path.take() {
            Some(path) => {
                let absolute = is_absolute(&path);
                assert(call_ensures(is_absolute, (&path,), absolute));
                let under = if absolute {
                    String::new()
                } else {
                    let joined = join(data_directory, &path);
                    assert(call_ensures(join, (data_directory, &path), joined));
                    joined
                };
                self.path = Some(Self::placed(path, absolute, under));
            },
            None => {},
        }
    }

    /// The file that holds the database, where the driver is SQLite,
    /// whatever the case of its letters, and the settings name a file.
    pub fn database_file(&self) -> (file: Option<&String>)
        ensures
            file is Some <==> lowercase(self.driver@) == lowercase("sqlite"@) && self.path is Some,
            file matches Some(path) ==> self.path == Some(*path),
    {
        let driver = to_lowercase(self.driver.as_str());
        let sqlite = to_lowercase("sqlite");
        if driver == sqlite {
            self.path.as_ref()
        } else {
            None
        }
    }
}

impl Environment {
    /// The name of the environment.
    pub open spec fn name(&self) -> Seq<char> {
        match self {
            Environment::Local => "local"@,
            Environment::Test => "test"@,
            Environment::Production => "production"@,
        }
    }

    pub fn as_str(&self) -> (name: &'static str)
        ensures
            name@ == self.name(),
    {
        match self {
            Environment::Local => "local",
            Environment::Test => "test",
            Environment::Production => "production",
        }
    }

    /// The name of the file that configures the environment, with the given
    /// extension.
    pub fn file_name(&self, extension: &str) -> (name: String)
        ensures
            name@ == self.name() + "."@ + extension@,
    {
        let mut name = self.as_str().to_owned();
        name.append(".");
        name.append(extension);
        name
    }

    /// The file to load for the environment: the one that ends in `yaml`
    /// where it exists, else the one that ends in `yml` where that exists,
    /// else none, which is the empty name.
    pub fn configuration_file(&self, yaml_exists: bool, yml_exists: bool) -> (name: String)
        ensures
            name@ == if yaml_exists {
                self.name() + "."@ + "yaml"@
            } else if yml_exists {
                self.name() + "."@ + "yml"@
            } else {
                Seq::<char>::empty()
            },
    {
        if yaml_exists {
            self.file_name("yaml")
        } else if yml_exists {
            self.file_name("yml")
        } else {
            String::new()
        }
    }

    /// The environment that the variable of that name selects: the local
    /// one where the variable is not set.
    pub fn of_variable(value: Option<String>) -> (r: Result<Environment, String>)
        ensures
            match value {
                None => r == Ok::<Environment, String>(Environment::Local),
                Some(s) => match Environment::named(lowercase(s@)) {
                    Some(environment) => r == Ok::<Environment, String>(environment),
                    None => r matches Err(message) && message@ == Environment::unsupported(
                        lowercase(s@),
                    ),
                },
            },
    {
        match value {
            None => Ok(Environment::Local),
            Some(s) => Environment::try_from(s),
        }
    }

    /// What is said of a name that is no environment's.
    pub open spec fn unsupported(name: Seq<char>) -> Seq<char> {
        name + " is not a supported environment. Use either `local` or `test` or `production`."@
    }

    /// The environment that `name` names, where it names one.
    pub open spec fn named(name: Seq<char>) -> Option<Environment> {
        if name == "local"@ {
            Some(Environment::Local)
        } else if name == "test"@ {
            Some(Environment::Test)
        } else if name == "production"@ {
            Some(Environment::Production)
        } else {
            None
        }
    }

    /// The environment that `name` names, letter for letter. Any other name
    /// is refused, with a message that repeats it.
    pub fn from_name(name: &str) -> (r: Result<Environment, String>)
        ensures
            match Environment::named(name@) {
                Some(environment) => r == Ok::<Environment, String>(environment),
                None => r matches Err(message) && message@ == Environment::unsupported(name@),
            },
    {
        if same_text(name, "local") {
            Ok(Environment::Local)
        } else if same_text(name, "test") {
            Ok(Environment::Test)
        } else if same_text(name, "production") {
            Ok(Environment::Production)
        } else {
            let mut message = name.to_owned();
            message.append(
                " is not a supported environment. Use either `local` or `test` or `production`.",
            );
            Err(message)
        }
    }
}

impl TryFrom<String> for Environment {
    type Error = String;

    /// The environment that `s` names, whatever the case of its letters.
    fn try_from(s: String) -> (r: Result<Environment, String>)
        ensures
            match Environment::named(lowercase(s@)) {
                Some(environment) => r == Ok::<Environment, String>(environment),
                None => r matches Err(message) && message@ == Environment::unsupported(
                    lowercase(s@),
                ),
            },
    {
        let lower = to_lowercase(s.as_str());
        Environment::from_name(lower.as_str())
    }
}

impl vstd::std_specs::convert::TryFromSpecImpl<String> for Environment {
    open spec fn obeys_try_from_spec() -> bool {
        false
    }

    open spec fn try_from_spec(s: String) -> Result<Environment, String> {
        arbitrary()
    }
}

} // verus!
