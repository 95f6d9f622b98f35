//! The presence client's construction parameters and the activity value the
//! adapter reports, modelled as plain values.

use vstd::prelude::*;
use vstd::string::StringExecFns;

verus! {

/// Fixed application identifier under which the presence client signs on.
pub const APPLICATION_ID: i64 = 1111429477055090698;

/// Construction parameters for the presence client.
pub struct ClientConfig {
    pub application_id: i64,
    /// Whether the vendor's companion process must be running; the adapter
    /// sets this false, asking for the flag that permits operation without it.
    pub require_companion: bool,
}

/// Builds the fixed client configuration.
pub fn client_config() -> (c: ClientConfig)
    ensures
        c.application_id == APPLICATION_ID,
        !c.require_companion,
{
    ClientConfig { application_id: APPLICATION_ID, require_companion: false }
}

/// What the adapter shows as the user's current status: a large-image key
/// and the activity's start time in whole seconds since the Unix epoch.
pub struct ActivityInfo {
    pub large_image_key: String,
    pub start_time: i64,
}

/// Builds the activity sent right after the client is constructed: the fixed
/// image key, started at the given time.
pub fn initial_activity(start_time: i64) -> (a: ActivityInfo)
    ensures
        a.large_image_key@ == "darktide"@,
        a.start_time == start_time,
{
    ActivityInfo { large_image_key: String::from_str("darktide"), start_time }
}

/// Relies on chrono's `From<SystemTime>` conversion paired with
/// `DateTime::timestamp`: the machine's current wall-clock time as whole
/// seconds since the Unix epoch. The conversion turns a clock set before the
/// epoch into negative seconds rather than failing, and `timestamp` is plain
/// arithmetic. The value depends on the clock, so nothing is promised of it.
#[verifier::external_body]
pub(crate) fn current_unix_timestamp() -> i64 {
    chrono::DateTime::<chrono::Utc>::from(std::time::SystemTime::now()).timestamp()
}

} // verus!
