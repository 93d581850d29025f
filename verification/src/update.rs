//! The update cycle's decision logic: configuration, and how the outcome of
//! one query is applied to the shared state. The process boundary runs the
//! periodic loop, performs the query with its timeout, and hands the outcome
//! here; on any error the previous snapshot stays untouched, because stale
//! but valid data is preferred over no data.

use vstd::prelude::*;

use crate::errors::{CliError, CliErrorV, UpdateError, UpdateErrorV};
use crate::parser::{monitor_views, spec_parse_response, GlazewmParser};
use crate::records::ResponseEnvelope;
use crate::state::{AppState, AppStateV};

verus! {

/// Configuration for the update loop: how often to refresh, how long one
/// query may take, and where the window-manager executable is.
#[derive(Debug, Clone, PartialEq)]
pub struct UpdateConfig {
    /// How often to poll the window manager, in milliseconds.
    pub refresh_interval_millis: u64,
    /// Timeout for one query command, in milliseconds.
    pub command_timeout_millis: u64,
    /// Path of the window-manager executable.
    pub glazewm_path: String,
}

impl UpdateConfig {
    pub fn new(
        refresh_interval_millis: u64,
        command_timeout_millis: u64,
        glazewm_path: String,
    ) -> (r: Self)
        ensures
            r.refresh_interval_millis == refresh_interval_millis,
            r.command_timeout_millis == command_timeout_millis,
            r.glazewm_path@ == glazewm_path@,
    {
        Self { refresh_interval_millis, command_timeout_millis, glazewm_path }
    }
}

impl Default for UpdateConfig {
    /// One-second refresh, five-second command timeout, executable found on
    /// the search path under its plain name.
    fn default() -> (r: Self)
        ensures
            r.refresh_interval_millis == 1000,
            r.command_timeout_millis == 5000,
            r.glazewm_path@ == "glazewm"@,
    {
        UpdateConfig {
            refresh_interval_millis: 1000,
            command_timeout_millis: 5000,
            glazewm_path: String::from_str("glazewm"),
        }
    }
}

/// The view of a query outcome.
pub open spec fn query_view(q: Result<ResponseEnvelope, CliError>) -> Result<
    ResponseEnvelope,
    CliErrorV,
> {
    match q {
        Ok(env) => Ok(env),
        Err(e) => Err(e@),
    }
}

/// What one update cycle does to the state: nothing when stopped or on any
/// error; a complete snapshot swap with a fresh timestamp on success.
pub open spec fn spec_apply_update(
    pre: AppStateV,
    query: Result<ResponseEnvelope, CliErrorV>,
    now_millis: u64,
) -> (AppStateV, Result<(), UpdateErrorV>) {
    if !pre.running {
        (pre, Err(UpdateErrorV::Stopped))
    } else {
        match query {
            Err(e) => (pre, Err(UpdateErrorV::CliError(e))),
            Ok(env) => match spec_parse_response(env) {
                Err(e) => (pre, Err(UpdateErrorV::CliError(e))),
                Ok(ms) => (
                    AppStateV { monitors: ms, last_update_millis: Some(now_millis), ..pre },
                    Ok(()),
                ),
            },
        }
    }
}

/// Applies the outcome of one query to the state, as one update cycle does:
/// when the state is stopped, nothing happens; on a transport, envelope, or
/// validation error, the state is left exactly as it was; on success the
/// monitor snapshot is replaced wholesale and the timestamp stamped.
pub fn apply_update(
    state: &mut AppState,
    query: Result<ResponseEnvelope, CliError>,
    now_millis: u64,
) -> (r: Result<(), UpdateError>)
    ensures
        final(state)@ == spec_apply_update(old(state)@, query_view(query), now_millis).0,
        match r {
            Ok(()) => spec_apply_update(old(state)@, query_view(query), now_millis).1 == Ok::<
                (),
                UpdateErrorV,
            >(()),
            Err(e) => spec_apply_update(old(state)@, query_view(query), now_millis).1 == Err::<
                (),
                UpdateErrorV,
            >(e@),
        },
{
    if !state.is_running() {
        return Err(UpdateError::Stopped);
    }
    let env = match query {
        Err(e) => {
            return Err(UpdateError::CliError(e));
        },
        Ok(env) => env,
    };
    match GlazewmParser::parse_monitors(&env) {
        Err(e) => Err(UpdateError::CliError(e)),
        Ok(monitors) => {
            proof {
                assert(spec_parse_response(env) == Ok::<_, CliErrorV>(monitor_views(monitors@)));
            }
            state.update_monitors(monitors, now_millis);
            Ok(())
        },
    }
}

} // verus!
