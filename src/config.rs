use vstd::prelude::*;
use crate::value::ConfigValue;

verus! {

/// Where the configuration file lives, under the home directory.
pub const CONFIG_LOCATION: &'static str = "/.config/tem/config.toml";

/// What a fresh configuration file holds.
pub const CONFIG_SAMPLE: &'static str = "[git]
react-vite = [\"git@github.com:axbg/react-vite-starter\"] # template example
";

/// Why the configuration cannot be used.
#[derive(Debug, PartialEq, Eq, Structural)]
pub enum ConfigError {
    /// The home directory cannot be found.
    HomeDirUnavailable,
    /// The configuration holds no section.
    Empty,
}

/// The configuration: sections by processor name, in declared order, each
/// mapping template names to their entries.
pub struct ConfigStore {
    pub sections: Vec<(String, ConfigValue)>,
}

impl ConfigStore {
    /// A configuration of the given sections; one with none is refused.
    pub fn from_sections(sections: Vec<(String, ConfigValue)>) -> (r: Result<ConfigStore, ConfigError>)
        ensures
            sections@.len() == 0 <==> r == Err::<ConfigStore, ConfigError>(ConfigError::Empty),
            r matches Ok(c) ==> c.sections == sections,
    {
        if sections.len() == 0 {
            Err(ConfigError::Empty)
        } else {
            Ok(ConfigStore { sections })
        }
    }
}

/// Relies on home::home_dir: the current user's home directory, if it can be
/// found; it depends on the environment, so nothing is promised of it.
#[verifier::external_body]
fn home_directory() -> (r: Option<String>) {
    match home::home_dir() {
        Some(p) => Some(p.display().to_string()),
        None => None,
    }
}

/// The path `partial` under the directory `home`.
pub fn home_config_path(home: &str, partial: &str) -> (r: String)
    ensures
        r@ == home@ + partial@,
{
    String::from_str(home).concat(partial)
}

/// The path `partial` under the current user's home directory.
pub fn build_home_config_path(partial: &str) -> (r: Result<String, ConfigError>)
    ensures
        r matches Ok(p) ==> p@.len() >= partial@.len() && p@.subrange(
            p@.len() - partial@.len(),
            p@.len() as int,
        ) == partial@,
        r matches Err(e) ==> e == ConfigError::HomeDirUnavailable,
{
    match home_directory() {
        Some(home) => {
            let p = home_config_path(home.as_str(), partial);
            assert(p@.subrange(home@.len() as int, p@.len() as int) =~= partial@);
            Ok(p)
        },
        None => Err(ConfigError::HomeDirUnavailable),
    }
}

/// The path of the configuration file under the current user's home directory.
pub fn build_default_home_config_path() -> (r: Result<String, ConfigError>)
    ensures
        r matches Ok(p) ==> p@.len() >= CONFIG_LOCATION@.len() && p@.subrange(
            p@.len() - CONFIG_LOCATION@.len(),
            p@.len() as int,
        ) == CONFIG_LOCATION@,
        r matches Err(e) ==> e == ConfigError::HomeDirUnavailable,
{
    build_home_config_path(CONFIG_LOCATION)
}

/// Whether the configuration file is to be written: when it does not exist
/// yet, or when rewriting is forced.
pub fn should_create_config(file_exists: bool, force: bool) -> (r: bool)
    ensures
        r == (!file_exists || force),
{
    !file_exists || force
}

} // verus!
