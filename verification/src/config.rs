//! The decision rules of configuration loading.
//!
//! Finding candidate files, reading them and turning their text into a
//! structured configuration are input/output and deserialization work that
//! stays outside the library; the two functions here fix what the outcome of
//! loading is once those probes have answered. Both are generic in the path
//! and configuration types, since the rules do not look inside either.

use vstd::prelude::*;

verus! {

/// Picks the configuration file to use: an explicitly given path wins, then a
/// `yml` file found in the standard locations, then a `toml` one.
pub fn config_path<P>(
    explicit: Option<P>,
    installed_yml: Option<P>,
    installed_toml: Option<P>,
) -> (r: Option<P>)
    ensures
        explicit is Some ==> r == explicit,
        explicit is None && installed_yml is Some ==> r == installed_yml,
        explicit is None && installed_yml is None ==> r == installed_toml,
{
    match explicit {
        Some(path) => Some(path),
        None => match installed_yml {
            Some(path) => Some(path),
            None => installed_toml,
        },
    }
}

/// The fallback rule of loading: the configuration read from the chosen file
/// when there is one, else the one carried on the command line, else the
/// default. When no file configuration was read, the chosen path is handed
/// back so the caller can still record it on the configuration it falls back
/// to.
pub fn load<P, C>(
    config_path: Option<P>,
    file_config: Option<C>,
    cli_config: Option<C>,
    default_config: C,
) -> (r: (C, Option<P>))
    ensures
        config_path is Some && file_config is Some ==> r.0 == file_config->Some_0
            && r.1 is None,
        config_path is None ==> r.0 == spec_fallback(cli_config, default_config)
            && r.1 is None,
        config_path is Some && file_config is None ==> r.0 == spec_fallback(
            cli_config,
            default_config,
        ) && r.1 == config_path,
{
    match config_path {
        Some(path) => match file_config {
            Some(config) => (config, None),
            None => (fallback(cli_config, default_config), Some(path)),
        },
        None => (fallback(cli_config, default_config), None),
    }
}

/// The configuration used when no file was read: the command line's when one
/// was given, else the default.
pub open spec fn spec_fallback<C>(cli_config: Option<C>, default_config: C) -> C {
    match cli_config {
        Some(config) => config,
        None => default_config,
    }
}

fn fallback<C>(cli_config: Option<C>, default_config: C) -> (r: C)
    ensures
        r == spec_fallback(cli_config, default_config),
{
    match cli_config {
        Some(config) => config,
        None => default_config,
    }
}

} // verus!
