//! The binary resolver: which executable to launch and with which arguments.
//!
//! Resolution order, first match wins: an explicitly configured path (used
//! as-is, no existence check), then a binary of the expected name found on
//! the search path, then the managed installer. Arguments come from
//! configuration when supplied, whatever the binary's origin; otherwise the
//! single `server` subcommand. Resolution never fails by itself: the managed
//! installer guarantees a path or reports why it cannot.

use vstd::prelude::*;
use vstd::string::StringExecFns;

verus! {

/// The binary-related part of the host's configuration: an optional explicit
/// executable path and an optional explicit argument list.
pub struct BinarySettings {
    pub path: Option<String>,
    pub arguments: Option<Vec<String>>,
}

/// Where the executable comes from.
pub enum BinarySource {
    /// Configuration names the path; it is used as-is.
    Explicit(String),
    /// A binary of the expected name sits on the search path.
    Discovered(String),
    /// Neither: the managed installer must supply the path.
    Managed,
}

/// What the host is told to launch: executable path, ordered arguments, and
/// environment overrides.
pub struct ResolvedCommand {
    pub command: String,
    pub args: Vec<String>,
    pub env: Vec<(String, String)>,
}

/// The executable name looked up on the search path when configuration
/// names no explicit binary.
pub fn searched_binary_name() -> (r: &'static str)
    ensures
        r@ == "ty"@,
{
    "ty"
}

/// The name of an optional path.
pub open spec fn opt_view(o: Option<String>) -> Option<Seq<char>> {
    match o {
        Some(s) => Some(s@),
        None => None,
    }
}

/// The explicitly configured binary path, if configuration supplies one.
pub open spec fn configured_path_spec(settings: Option<BinarySettings>) -> Option<Seq<char>> {
    match settings {
        Some(b) => opt_view(b.path),
        None => None,
    }
}

/// The explicitly configured argument list, if configuration supplies one.
pub open spec fn configured_arguments_spec(settings: Option<BinarySettings>) -> Option<
    Vec<String>,
> {
    match settings {
        Some(b) => b.arguments,
        None => None,
    }
}

/// The executable resolution prefers, before any installation: the
/// configured path when one is set, else whatever the search path offered.
pub open spec fn preferred_path(config: Option<Seq<char>>, found: Option<Seq<char>>) -> Option<
    Seq<char>,
> {
    if config is Some {
        config
    } else {
        found
    }
}

/// An explicitly configured path always wins: whatever the search path
/// offers, the preferred executable is exactly the configured one.
pub proof fn lemma_explicit_path_wins(config: Seq<char>, found: Option<Seq<char>>)
    ensures
        preferred_path(Some(config), found) == Some(config),
{
}

/// Picks the binary's origin. `search_path_hit` is the host's answer to
/// "is a binary of the expected name on the search path?"; it is consulted
/// only when configuration names no path.
pub fn choose_binary_source(
    settings: &Option<BinarySettings>,
    search_path_hit: &Option<String>,
) -> (r: BinarySource)
    ensures
        ({
            let config = configured_path_spec(*settings);
            let found = opt_view(*search_path_hit);
            match r {
                BinarySource::Explicit(p) => config == Some(p@) && preferred_path(config, found)
                    == Some(p@),
                BinarySource::Discovered(p) => config is None && found == Some(p@),
                BinarySource::Managed => config is None && found is None,
            }
        }),
{
    if let Some(b) = settings {
        if let Some(p) = &b.path {
            return BinarySource::Explicit(p.clone());
        }
    }
    match search_path_hit {
        Some(w) => BinarySource::Discovered(w.clone()),
        None => BinarySource::Managed,
    }
}

/// Assembles the launch command: the resolved path, the configured argument
/// list when one is supplied — whatever the binary's origin — and otherwise
/// the single `server` subcommand; no environment overrides.
pub fn command_for(path: String, settings: Option<BinarySettings>) -> (r: ResolvedCommand)
    ensures
        r.command@ == path@,
        match configured_arguments_spec(settings) {
            Some(a) => r.args == a,
            None => r.args@.len() == 1 && r.args@[0]@ == "server"@,
        },
        r.env@.len() == 0,
{
    let args = match settings {
        Some(b) => match b.arguments {
            Some(a) => a,
            None => default_arguments(),
        },
        None => default_arguments(),
    };
    ResolvedCommand { command: path, args, env: Vec::new() }
}

/// The argument list used when configuration supplies none: the `server`
/// subcommand alone.
pub fn default_arguments() -> (r: Vec<String>)
    ensures
        r@.len() == 1,
        r@[0]@ == "server"@,
{
    let mut v: Vec<String> = Vec::new();
    v.push(String::from_str("server"));
    v
}

} // verus!
