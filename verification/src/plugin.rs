//! The adapter instance and its host-driven lifecycle: construction, setup,
//! per-frame update, shutdown.
//!
//! The host owns the handles that do outside work — the logger, the scripting
//! interpreter, the presence client. Each lifecycle step here takes what the
//! outside work reported as a plain value and returns what the host must do
//! next: which lines to log, what to register, what to send.

use crate::activity::{current_unix_timestamp, initial_activity, ActivityInfo};
use crate::logging::{error_line_with_detail, error_view, info_line, info_line_with_detail,
    info_view, LogLine, LogLineView};
use crate::script::{module_plan_wf, script_module_plan, ScriptModulePlan};
use vstd::prelude::*;
use vstd::string::StringExecFns;

verus! {

/// The one adapter instance the host holds for the module's lifetime.
pub struct Plugin {
    /// Tag put on every log line: the plugin's name.
    pub tag: String,
    /// Whether a failed initial presence update is reported with a log line;
    /// false keeps the adapter quiet about it.
    pub log_initial_failure: bool,
}

/// The info line `setup_game` emits.
pub open spec fn setup_log_view(tag: Seq<char>) -> LogLineView {
    info_view(tag, "[setup_game] Initialising"@)
}

/// The info line `shutdown_game` emits.
pub open spec fn shutdown_log_view(tag: Seq<char>) -> LogLineView {
    info_view(tag, "[shutdown_game] Shutting down"@)
}

/// The error line `update_game` emits when draining callbacks failed.
pub open spec fn update_failure_log_view(tag: Seq<char>, detail: Seq<char>) -> LogLineView {
    error_view(tag, "[update_game] "@ + detail)
}

/// Abstract image of one tick's callback outcome: `None` when the drain
/// succeeded, `Some(detail)` when it failed with that description.
pub open spec fn tick_failure(t: Result<(), String>) -> Option<Seq<char>> {
    match t {
        Ok(u) => None,
        Err(e) => Some(e@),
    }
}

/// The line one tick asks the host to log: nothing on success, exactly one
/// error line on failure.
pub open spec fn tick_log_view(tag: Seq<char>, failure: Option<Seq<char>>) -> Option<
    LogLineView,
> {
    match failure {
        None => None,
        Some(d) => Some(update_failure_log_view(tag, d)),
    }
}

/// Everything `setup_game` asks the host to do: log one line, install the
/// scripting module.
pub struct SetupActions {
    pub log: LogLine,
    pub plan: ScriptModulePlan,
}

impl Plugin {
    /// Builds the adapter once the host accessor and the presence client have
    /// been dealt with outside. `client` reports whether the presence client
    /// was constructed; construction is the one fatal point, so the adapter
    /// exists exactly when it succeeded, and a failure is handed back as the
    /// client's own description for the host to abort on. On success the
    /// initial presence update is prepared: the fixed image key, started at
    /// the current time.
    pub fn new(tag: String, log_initial_failure: bool, client: Result<(), String>) -> (r: Result<
        (Plugin, ActivityInfo),
        String,
    >)
        ensures
            r is Ok <==> client is Ok,
            (r matches Ok(pa) ==> pa.0.tag@ == tag@ && pa.0.log_initial_failure
                == log_initial_failure && pa.1.large_image_key@ == "darktide"@),
            (client matches Err(e) ==> r matches Err(e2) && e2@ == e@),
    {
        match client {
            Ok(u) => {
                let start = current_unix_timestamp();
                let activity = initial_activity(start);
                Ok((Plugin { tag, log_initial_failure }, activity))
            },
            Err(e) => Err(e),
        }
    }

    /// Reaction to the completion callback of the initial presence update:
    /// quiet by default, one info line per failure when configured to report.
    pub fn activity_update_reaction(&self, outcome: &Result<(), String>) -> (r: Option<LogLine>)
        ensures
            r is Some <==> (outcome is Err && self.log_initial_failure),
            (r matches Some(l) ==> outcome matches Err(e) && l@ == info_view(
                self.tag@,
                "failed to update activity: "@ + e@,
            )),
    {
        match outcome {
            Ok(u) => None,
            Err(e) => {
                if self.log_initial_failure {
                    Some(
                        info_line_with_detail(
                            self.tag.as_str(),
                            "failed to update activity: ",
                            e.as_str(),
                        ),
                    )
                } else {
                    None
                }
            },
        }
    }

    /// One info line, then the scripting registrations: exactly the six
    /// operations and the one version constant.
    pub fn setup_game(&self) -> (r: SetupActions)
        ensures
            r.log@ == setup_log_view(self.tag@),
            module_plan_wf(r.plan),
    {
        SetupActions {
            log: info_line(self.tag.as_str(), "[setup_game] Initialising"),
            plan: script_module_plan(),
        }
    }

    /// One per-frame tick. `callbacks` reports what draining the presence
    /// client's pending callbacks came to. Nothing is ever raised back to the
    /// host: a success asks for nothing, a failure asks for exactly one error
    /// line carrying the failure's description — the next tick is the retry.
    pub fn update_game(&self, callbacks: &Result<(), String>) -> (r: Option<LogLine>)
        ensures
            r.deep_view() == tick_log_view(self.tag@, tick_failure(*callbacks)),
            callbacks is Ok <==> r is None,
    {
        match callbacks {
            Ok(u) => None,
            Err(e) => Some(
                error_line_with_detail(self.tag.as_str(), "[update_game] ", e.as_str()),
            ),
        }
    }

    /// One info line and nothing else: no state is read or changed, so the
    /// observation is the same whatever came before.
    pub fn shutdown_game(&self) -> (r: LogLine)
        ensures
            r@ == shutdown_log_view(self.tag@),
    {
        info_line(self.tag.as_str(), "[shutdown_game] Shutting down")
    }

    /// Short name shown where the host prints the plugin value.
    pub fn describe(&self) -> (r: String)
        ensures
            r@ == "PluginApi"@,
    {
        String::from_str("PluginApi")
    }
}

} // verus!
