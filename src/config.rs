use vstd::prelude::*;

verus! {

/// File name of the wallet application's own configuration file.
pub const DEFAULT_FILE_NAME: &'static str = "gui.toml";

/// `name` placed inside the directory `dir`.
pub open spec fn joined(dir: Seq<char>, name: Seq<char>) -> Seq<char> {
    dir + "/"@ + name
}

/// The path of the entry `name` inside the directory `dir`.
pub fn join_path(dir: &str, name: &str) -> (r: String)
    ensures
        r@ == joined(dir@, name@),
{
    let mut r = String::from_str(dir);
    r.append("/");
    r.append(name);
    proof {
        reveal_strlit("/");
    }
    r
}

/// Configuration of the wallet application.
#[derive(Clone, Debug, PartialEq, Eq)]
pub struct Config {
    /// Path to the daemon configuration file.
    pub minisafed_config_path: String,
    /// Log level: "info", "debug" or "trace".
    pub log_level: Option<String>,
    /// Whether the interface shows its debug overlay.
    pub debug: Option<bool>,
}

/// Why the application configuration could not be had.
#[derive(Clone, Debug, PartialEq, Eq)]
pub enum ConfigError {
    NotFound,
    ReadingFile(String),
    Unexpected(String),
}

impl ConfigError {
    /// A sentence describing the error.
    pub fn message(&self) -> (r: String)
        ensures
            r@ == config_error_message(*self),
    {
        match self {
            ConfigError::NotFound => String::from_str("Config file not found"),
            ConfigError::ReadingFile(e) => String::from_str("Error while reading file: ").concat(
                e.as_str(),
            ),
            ConfigError::Unexpected(e) => String::from_str("Unexpected error: ").concat(e.as_str()),
        }
    }
}

/// The sentence that describes a configuration error.
pub open spec fn config_error_message(e: ConfigError) -> Seq<char> {
    match e {
        ConfigError::NotFound => "Config file not found"@,
        ConfigError::ReadingFile(s) => "Error while reading file: "@ + s@,
        ConfigError::Unexpected(s) => "Unexpected error: "@ + s@,
    }
}

/// Name of the data directory inside the home directory (Linux) or inside the
/// platform's configuration directory (other systems).
pub open spec fn datadir_name(linux: bool) -> Seq<char> {
    if linux {
        ".minisafe"@
    } else {
        "Minisafe"@
    }
}

/// The default data directory: a directory named after the daemon inside `base`,
/// which is the home directory on Linux and the configuration directory
/// elsewhere. `None` when `base` could not be located.
pub fn default_datadir(base: Option<String>, linux: bool) -> (r: Option<String>)
    ensures
        r is Some <==> base is Some,
        r is Some ==> r->Some_0@ == joined(base->Some_0@, datadir_name(linux)),
{
    match base {
        Some(b) => {
            let name = if linux {
                ".minisafe"
            } else {
                "Minisafe"
            };
            Some(join_path(b.as_str(), name))
        },
        None => None,
    }
}

impl Config {
    pub fn new(minisafed_config_path: String) -> (r: Self)
        ensures
            r.minisafed_config_path == minisafed_config_path,
            r.log_level is None,
            r.debug is None,
    {
        Config { minisafed_config_path, log_level: None, debug: None }
    }

    /// The default location of the configuration file inside the data
    /// directory `datadir` (as given by `default_datadir`).
    pub fn default_path(datadir: Option<String>) -> (r: Result<String, ConfigError>)
        ensures
            datadir is Some ==> r is Ok && r->Ok_0@ == joined(
                datadir->Some_0@,
                DEFAULT_FILE_NAME@,
            ),
            datadir is None ==> r is Err && r->Err_0 is Unexpected
                && r->Err_0->Unexpected_0@ == "Could not locate the default datadir directory."@,
    {
        match datadir {
            Some(d) => Ok(join_path(d.as_str(), DEFAULT_FILE_NAME)),
            None => Err(
                ConfigError::Unexpected(
                    String::from_str("Could not locate the default datadir directory."),
                ),
            ),
        }
    }
}

} // verus!
