//! Server settings: where to listen and which backend to use, resolved from
//! command-line flags, a configuration file and built-in defaults.
use vstd::prelude::*;

verus! {

/// The address used when neither the flags nor the file give one.
pub open spec fn default_addr() -> Seq<char> {
    "127.0.0.1:4000"@
}

/// The backend used when neither the flags nor the file name one.
pub open spec fn default_storage() -> Seq<char> {
    "inmemory"@
}

/// A backend the server can run on.
#[derive(PartialEq, Eq, Structural, Clone, Copy, Debug)]
pub enum StorageKind {
    InMemory,
}

/// The flags given on the command line.
#[derive(Debug)]
pub struct CliArgs {
    pub addr: Option<String>,
    pub storage: Option<String>,
    /// Path of a configuration file.
    pub config: Option<String>,
}

/// The settings read from a configuration file.
#[derive(Debug)]
pub struct FileConfig {
    pub addr: Option<String>,
    pub storage: Option<String>,
}

/// The resolved settings.
#[derive(Debug)]
pub struct Config {
    pub addr: String,
    pub storage: StorageKind,
}

/// Why settings could not be resolved.
#[derive(Debug)]
pub enum ConfigError {
    /// The named backend does not exist.
    UnsupportedStorage(String),
}

/// The first of a flag, a file value and a default that is given.
pub open spec fn pick(flag: Option<String>, file: Option<String>, default: Seq<char>) -> Seq<char> {
    match flag {
        Some(v) => v@,
        None => match file {
            Some(v) => v@,
            None => default,
        },
    }
}

/// The first of `flag`, `file` and `default` that is given.
fn choose_setting(flag: Option<String>, file: Option<String>, default: &str) -> (r: String)
    ensures
        r@ == pick(flag, file, default@),
{
    match flag {
        Some(v) => v,
        None => match file {
            Some(v) => v,
            None => default.to_owned(),
        },
    }
}

impl StorageKind {
    /// The backend named `name`, if there is one.
    pub fn from_name(name: &String) -> (r: Option<StorageKind>)
        ensures
            r is Some <==> name@ == default_storage(),
            r is Some ==> r == Some(StorageKind::InMemory),
    {
        let inmemory = "inmemory".to_owned();
        if *name == inmemory {
            Some(StorageKind::InMemory)
        } else {
            None
        }
    }
}

impl FileConfig {
    /// A file that sets nothing.
    pub fn empty() -> (r: Self)
        ensures
            r.addr is None,
            r.storage is None,
    {
        FileConfig { addr: None, storage: None }
    }
}

impl Config {
    /// Resolves the settings: a flag wins over the file, the file over the
    /// default. Fails when the chosen backend does not exist.
    pub fn resolve(args: CliArgs, file: FileConfig) -> (r: Result<Config, ConfigError>)
        ensures
            ({
                let storage = pick(args.storage, file.storage, default_storage());
                &&& r is Ok <==> storage == default_storage()
                &&& r matches Ok(c) ==> c.addr@ == pick(args.addr, file.addr, default_addr())
                    && c.storage == StorageKind::InMemory
                &&& r matches Err(ConfigError::UnsupportedStorage(name)) ==> name@ == storage
            }),
    {
        let addr = choose_setting(args.addr, file.addr, "127.0.0.1:4000");
        let storage = choose_setting(args.storage, file.storage, "inmemory");
        match StorageKind::from_name(&storage) {
            Some(kind) => Ok(Config { addr, storage: kind }),
            None => Err(ConfigError::UnsupportedStorage(storage)),
        }
    }
}

} // verus!
