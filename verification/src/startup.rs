//! Settings taken from the environment.

use vstd::prelude::*;

use crate::text::views;

verus! {

/// Log filter used without any other.
pub open spec fn default_directives() -> Seq<char> {
    "info,catacomb=info,smithay::xwayland::xwm=error,smithay::backend::drm=error,calloop::loop_logic=error"@
}

/// Log filter, given the configured one.
pub open spec fn directives_for(configured: Option<String>) -> Seq<char> {
    match configured {
        Some(directives) => directives@,
        None => default_directives(),
    }
}

/// Get the log filter.
pub fn log_directives(configured: Option<String>) -> (r: String)
    ensures
        r@ == directives_for(configured),
        r@ == (match configured {
            Some(directives) => directives@,
            None => default_directives(),
        }),
{
    match configured {
        Some(directives) => directives,
        None => "info,catacomb=info,smithay::xwayland::xwm=error,smithay::backend::drm=error,calloop::loop_logic=error".to_string(),
    }
}

/// Components of the path to the log directory.
pub open spec fn log_components(state_home: Option<String>, home: Option<String>) -> Seq<Seq<char>> {
    (match state_home {
        Some(state_home) => seq![state_home@],
        None => match home {
            Some(home) => seq![home@, ".local"@, "state"@],
            None => seq!["/tmp"@],
        },
    }) + seq!["jollypad"@, "logs"@]
}

/// Get the components of the path to the log directory.
///
/// Logs are kept with the user's state, wherever that is configured to be.
/// Without home directory they are temporary.
pub fn log_directory(state_home: Option<String>, home: Option<String>) -> (r: Vec<String>)
    ensures
        views(r@) == log_components(state_home, home),
{
    let mut r: Vec<String> = Vec::new();
    match state_home {
        Some(state_home) => r.push(state_home),
        None => match home {
            Some(home) => {
                r.push(home);
                r.push(".local".to_string());
                r.push("state".to_string());
            },
            None => r.push("/tmp".to_string()),
        },
    }
    r.push("jollypad".to_string());
    r.push("logs".to_string());
    assert(views(r@) =~= log_components(state_home, home));
    r
}

/// Get the name of the log file.
pub fn log_file() -> (r: String)
    ensures
        r@ == "jollypad-catacomb.log"@,
{
    "jollypad-catacomb.log".to_string()
}

/// Logs are kept in a directory of their own, with the user's state if that is known.
///
/// A configured directory goes before the one in the user's home.
pub proof fn law_logs_are_kept_with_the_state(state_home: Option<String>, home: Option<String>)
    ensures
        state_home matches Some(path) ==> log_components(state_home, home) == seq![
            path@,
            "jollypad"@,
            "logs"@,
        ],
        state_home is None ==> (home matches Some(path) ==> log_components(state_home, home)
            == seq![path@, ".local"@, "state"@, "jollypad"@, "logs"@]),
        state_home is None && home is None ==> log_components(state_home, home) == seq![
            "/tmp"@,
            "jollypad"@,
            "logs"@,
        ],
{
}

/// A configured log filter replaces the default one.
pub proof fn law_configured_filters_come_first(configured: String)
    ensures
        directives_for(Some(configured)) == configured@,
        directives_for(None)
            == "info,catacomb=info,smithay::xwayland::xwm=error,smithay::backend::drm=error,calloop::loop_logic=error"@,
{
}

} // verus!
