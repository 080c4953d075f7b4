//! The parsed command surface and the configuration-file locations.
//!
//! Argument parsing itself and the merge of command-line options with the
//! configuration files happen outside the crate; what arrives here is the
//! already-parsed [`Cli`] value.

use vstd::prelude::*;
use vstd::string::*;

verus! {

/// A parsed invocation: the global options and the chosen command.
#[derive(Debug, Clone, PartialEq)]
pub struct Cli {
    /// Whether debugging is turned on.
    pub debug: bool,
    /// The base package name, if one was given or configured.
    pub base_package: Option<String>,
    /// The application name, if one was given or configured.
    pub app_name: Option<String>,
    /// The chosen command.
    pub command: Command,
}

/// The commands the tool accepts.
#[derive(Debug, Clone, PartialEq)]
pub enum Command {
    /// Generate a new feature module.
    GenFeat { feature: String },
    /// Generate a new sub-feature inside an existing feature module.
    GenSubfeat { feature: String, screen: String },
    /// Generate a new library module.
    GenLib { lib: String },
    /// Write local or global configuration.
    Config { global: bool, base_package: Option<String>, app_name: Option<String> },
}

/// The per-user configuration file, resolved against the home directory.
pub fn get_global_config_path(home: &str) -> (r: String)
    ensures
        r@ == home@ + "/.config/.feature_generator/config.toml"@,
{
    let mut p = String::new();
    p.append(home);
    p.append("/.config/.feature_generator/config.toml");
    proof {
        assert(p@ =~= home@ + "/.config/.feature_generator/config.toml"@);
    }
    p
}

/// The repository-local configuration file, relative to the working
/// directory.
pub fn get_local_config_path() -> (r: String)
    ensures
        r@ == ".feature_generator_config.toml"@,
{
    String::from_str(".feature_generator_config.toml")
}

} // verus!
