//! The configuration that the greeter runs with: the defaults, overlaid by
//! the system file, the user file, the environment and the command line, in
//! that order of priority.
use vstd::prelude::*;

use crate::cli::{CliMatches, OptMatchView};
use crate::config::args::{cli_config, extract_cli_config};
use crate::config::env::{env_config, env_view, load_env_variables};
use crate::config::layer::{apply_config_layer, layer, pick};
use crate::config::schema::{Config, ConfigView, default_config};

verus! {

/// The configuration from the system file (when it could be read and
/// parsed), the user file (likewise), the environment `env` and the command
/// line `cli` (when there is one), each overriding what comes before it.
pub open spec fn spec_load_config(
    system: Option<ConfigView>,
    user: Option<ConfigView>,
    env: Seq<(Seq<char>, Seq<char>)>,
    cli: Option<Seq<OptMatchView>>,
) -> ConfigView {
    let c0 = default_config();
    let c1 = match system {
        Some(s) => layer(c0, s),
        None => c0,
    };
    let c2 = match user {
        Some(u) => layer(c1, u),
        None => c1,
    };
    let c3 = layer(c2, env_config(env));
    match cli {
        Some(m) => layer(c3, cli_config(m)),
        None => c3,
    }
}

/// The view of an optional configuration.
pub open spec fn opt_config_view(c: Option<Config>) -> Option<ConfigView> {
    match c {
        Some(x) => Some(x@),
        None => None,
    }
}

/// The view of an optional command line.
pub open spec fn opt_matches_view(m: Option<&CliMatches>) -> Option<Seq<OptMatchView>> {
    match m {
        Some(x) => Some(x@),
        None => None,
    }
}

/// Merge the configuration sources: the defaults, then the system file's
/// configuration, the user file's, the `TUIGREET_*` variables of `env` and
/// the command line, each layered over what comes before it. A file that
/// could not be read or parsed is passed as `None` and skipped.
pub fn load_config(
    system: Option<Config>,
    user: Option<Config>,
    env: &Vec<(String, String)>,
    cli: Option<&CliMatches>,
) -> (r: Config)
    ensures
        r@ == spec_load_config(opt_config_view(system), opt_config_view(user), env_view(env@), opt_matches_view(cli)),
{
    let mut config = Config::default();
    if let Some(s) = system {
        apply_config_layer(&mut config, s);
    }
    if let Some(u) = user {
        apply_config_layer(&mut config, u);
    }
    apply_config_layer(&mut config, load_env_variables(env));
    if let Some(m) = cli {
        apply_config_layer(&mut config, extract_cli_config(m));
    }
    config
}

/// Merge the configuration sources when the command line names a
/// configuration file: the defaults, then that file's configuration, the
/// `TUIGREET_*` variables of `env` and the command line, each layered over
/// what comes before it; the system and user files are not read.
pub fn load_config_file(file: Config, env: &Vec<(String, String)>, cli: Option<&CliMatches>) -> (r: Config)
    ensures
        r@ == spec_load_config(None, Some(file@), env_view(env@), opt_matches_view(cli)),
{
    load_config(None, Some(file), env, cli)
}

/// Every setting of the merged configuration comes from the source of
/// highest priority that sets it (gives it a value other than the default
/// `def`): the command line, then the environment, then the user file,
/// then the system file; with none setting it, the default stays.
pub proof fn lemma_priority_chain<T>(def: T, system: T, user: T, env: T, cli: T)
    ensures
        pick(pick(pick(pick(def, system, def), user, def), env, def), cli, def) == if cli != def {
            cli
        } else if env != def {
            env
        } else if user != def {
            user
        } else {
            system
        },
{
}

} // verus!
