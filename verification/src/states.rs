//! The three state axes the manager reports per unit, as enumerations with a
//! lossless string mapping.
//!
//! Every axis is a closed set of known state strings plus an `Other` escape
//! hatch that carries an unrecognized string verbatim, so that a manager with
//! a newer vocabulary never makes parsing fail.  Rendering is the exact
//! inverse of parsing: `spec_render` of a parsed value gives the input back,
//! for known and unknown strings alike.

use vstd::prelude::*;
use vstd::string::StringExecFns;

use crate::strutil::str_eq;

verus! {

/// Whether a unit's definition has been loaded by the manager.
#[derive(Clone, Debug)]
pub enum UnitLoadStateType {
    Stub,
    Loaded,
    NotFound,
    Error,
    Merged,
    Masked,
    /// A state string this client does not know, kept verbatim.
    Other(String),
}

/// The strings this client recognizes as load states.
pub open spec fn load_state_known(s: Seq<char>) -> bool {
    ||| s == "stub"@
    ||| s == "loaded"@
    ||| s == "not-found"@
    ||| s == "error"@
    ||| s == "merged"@
    ||| s == "masked"@
}

/// What parsing a load-state string returns: the matching variant, or
/// `Other` carrying the string itself.
pub open spec fn spec_parse_load_state(s: String) -> UnitLoadStateType {
    if s@ == "stub"@ {
        UnitLoadStateType::Stub
    } else if s@ == "loaded"@ {
        UnitLoadStateType::Loaded
    } else if s@ == "not-found"@ {
        UnitLoadStateType::NotFound
    } else if s@ == "error"@ {
        UnitLoadStateType::Error
    } else if s@ == "merged"@ {
        UnitLoadStateType::Merged
    } else if s@ == "masked"@ {
        UnitLoadStateType::Masked
    } else {
        UnitLoadStateType::Other(s)
    }
}

impl UnitLoadStateType {
    /// The string a value renders to.
    pub open spec fn spec_render(self) -> Seq<char> {
        match self {
            UnitLoadStateType::Stub => "stub"@,
            UnitLoadStateType::Loaded => "loaded"@,
            UnitLoadStateType::NotFound => "not-found"@,
            UnitLoadStateType::Error => "error"@,
            UnitLoadStateType::Merged => "merged"@,
            UnitLoadStateType::Masked => "masked"@,
            UnitLoadStateType::Other(o) => o@,
        }
    }

    /// Parse a manager-reported load-state string; never fails.
    pub fn from_string(s: String) -> (v: Self)
        ensures
            v == spec_parse_load_state(s),
    {
        if str_eq(s.as_str(), "stub") {
            UnitLoadStateType::Stub
        } else if str_eq(s.as_str(), "loaded") {
            UnitLoadStateType::Loaded
        } else if str_eq(s.as_str(), "not-found") {
            UnitLoadStateType::NotFound
        } else if str_eq(s.as_str(), "error") {
            UnitLoadStateType::Error
        } else if str_eq(s.as_str(), "merged") {
            UnitLoadStateType::Merged
        } else if str_eq(s.as_str(), "masked") {
            UnitLoadStateType::Masked
        } else {
            UnitLoadStateType::Other(s)
        }
    }

    /// Render the value back to the manager's string form.
    pub fn to_string(&self) -> (r: String)
        ensures
            r@ == self.spec_render(),
    {
        match self {
            UnitLoadStateType::Stub => String::from_str("stub"),
            UnitLoadStateType::Loaded => String::from_str("loaded"),
            UnitLoadStateType::NotFound => String::from_str("not-found"),
            UnitLoadStateType::Error => String::from_str("error"),
            UnitLoadStateType::Merged => String::from_str("merged"),
            UnitLoadStateType::Masked => String::from_str("masked"),
            UnitLoadStateType::Other(o) => o.clone(),
        }
    }
}

/// Rendering a parsed load-state string gives the input back, for every
/// input string, known or not.
pub proof fn lemma_load_state_round_trip(s: String)
    ensures
        spec_parse_load_state(s).spec_render() == s@,
{
}

/// A string outside the known load-state set parses to the fallback variant
/// carrying it verbatim.
pub proof fn lemma_load_state_unknown_fallback(s: String)
    requires
        !load_state_known(s@),
    ensures
        spec_parse_load_state(s) == UnitLoadStateType::Other(s),
{
}

/// A unit's high-level activation status.
#[derive(Clone, Debug)]
pub enum UnitActiveStateType {
    Active,
    Reloading,
    Inactive,
    Failed,
    Activating,
    Deactivating,
    /// A state string this client does not know, kept verbatim.
    Other(String),
}

/// The strings this client recognizes on this axis.
pub open spec fn active_state_known(s: Seq<char>) -> bool {
    ||| s == "active"@
    ||| s == "reloading"@
    ||| s == "inactive"@
    ||| s == "failed"@
    ||| s == "activating"@
    ||| s == "deactivating"@
}

/// What parsing a string on this axis returns: the matching variant,
/// or `Other` carrying the string itself.
pub open spec fn spec_parse_active_state(s: String) -> UnitActiveStateType {
    if s@ == "active"@ {
        UnitActiveStateType::Active
    } else if s@ == "activating"@ {
        UnitActiveStateType::Activating
    } else if s@ == "deactivating"@ {
        UnitActiveStateType::Deactivating
    } else if s@ == "failed"@ {
        UnitActiveStateType::Failed
    } else if s@ == "inactive"@ {
        UnitActiveStateType::Inactive
    } else if s@ == "reloading"@ {
        UnitActiveStateType::Reloading
    } else {
        UnitActiveStateType::Other(s)
    }
}

impl UnitActiveStateType {
    /// The string a value renders to.
    pub open spec fn spec_render(self) -> Seq<char> {
        match self {
            UnitActiveStateType::Active => "active"@,
            UnitActiveStateType::Reloading => "reloading"@,
            UnitActiveStateType::Inactive => "inactive"@,
            UnitActiveStateType::Failed => "failed"@,
            UnitActiveStateType::Activating => "activating"@,
            UnitActiveStateType::Deactivating => "deactivating"@,
            UnitActiveStateType::Other(o) => o@,
        }
    }

    /// Parse a manager-reported state string; never fails.
    pub fn from_string(s: String) -> (v: Self)
        ensures
            v == spec_parse_active_state(s),
    {
        if str_eq(s.as_str(), "active") {
            UnitActiveStateType::Active
        } else if str_eq(s.as_str(), "activating") {
            UnitActiveStateType::Activating
        } else if str_eq(s.as_str(), "deactivating") {
            UnitActiveStateType::Deactivating
        } else if str_eq(s.as_str(), "failed") {
            UnitActiveStateType::Failed
        } else if str_eq(s.as_str(), "inactive") {
            UnitActiveStateType::Inactive
        } else if str_eq(s.as_str(), "reloading") {
            UnitActiveStateType::Reloading
        } else {
            UnitActiveStateType::Other(s)
        }
    }

    /// Render the value back to the manager's string form.
    pub fn to_string(&self) -> (r: String)
        ensures
            r@ == self.spec_render(),
    {
        match self {
            UnitActiveStateType::Active => String::from_str("active"),
            UnitActiveStateType::Reloading => String::from_str("reloading"),
            UnitActiveStateType::Inactive => String::from_str("inactive"),
            UnitActiveStateType::Failed => String::from_str("failed"),
            UnitActiveStateType::Activating => String::from_str("activating"),
            UnitActiveStateType::Deactivating => String::from_str("deactivating"),
            UnitActiveStateType::Other(o) => o.clone(),
        }
    }
}

/// Rendering a parsed string on this axis gives the input back, for
/// every input string, known or not.
pub proof fn lemma_active_state_round_trip(s: String)
    ensures
        spec_parse_active_state(s).spec_render() == s@,
{
}

/// A string outside the known set parses to the fallback variant
/// carrying it verbatim.
pub proof fn lemma_active_state_unknown_fallback(s: String)
    requires
        !active_state_known(s@),
    ensures
        spec_parse_active_state(s) == UnitActiveStateType::Other(s),
{
}

/// A unit's fine-grained runtime status; the vocabulary differs by unit kind.
#[derive(Clone, Debug)]
pub enum UnitSubStateType {
    Abandon,
    Activating,
    ActivatingDone,
    Active,
    AutoRestart,
    Dead,
    Deactivating,
    DeactivatingSigterm,
    DeactivatingSigkill,
    Elapsed,
    Exited,
    Failed,
    FinalSigterm,
    FinalSigkill,
    Mounting,
    MountingDone,
    Mounted,
    Plugged,
    Listening,
    Reload,
    Remounting,
    RemountingSigterm,
    RemountingSigkill,
    Running,
    Start,
    StartChown,
    StartPre,
    StartPost,
    Stop,
    StopPost,
    StopSigabrt,
    StopSigterm,
    StopSigkill,
    Tentative,
    Unmounting,
    UnmountingSigterm,
    UnmountingSigkill,
    Waiting,
    /// A state string this client does not know, kept verbatim.
    Other(String),
}

/// The strings this client recognizes on this axis.
pub open spec fn sub_state_known(s: Seq<char>) -> bool {
    ||| s == "abandon"@
    ||| s == "activating"@
    ||| s == "activating-done"@
    ||| s == "active"@
    ||| s == "auto-restart"@
    ||| s == "dead"@
    ||| s == "deactivating"@
    ||| s == "deactivating-sigterm"@
    ||| s == "deactivating-sigkill"@
    ||| s == "elapsed"@
    ||| s == "exited"@
    ||| s == "failed"@
    ||| s == "final-sigterm"@
    ||| s == "final-sigkill"@
    ||| s == "mounting"@
    ||| s == "mounting-done"@
    ||| s == "mounted"@
    ||| s == "plugged"@
    ||| s == "listening"@
    ||| s == "reload"@
    ||| s == "remounting"@
    ||| s == "remounting-sigterm"@
    ||| s == "remounting-sigkill"@
    ||| s == "running"@
    ||| s == "start"@
    ||| s == "start-chown"@
    ||| s == "start-pre"@
    ||| s == "start-post"@
    ||| s == "stop"@
    ||| s == "stop-post"@
    ||| s == "stop-sigabrt"@
    ||| s == "stop-sigterm"@
    ||| s == "stop-sigkill"@
    ||| s == "tentative"@
    ||| s == "unmounting"@
    ||| s == "unmounting-sigterm"@
    ||| s == "unmounting-sigkill"@
    ||| s == "waiting"@
}

/// What parsing a string on this axis returns: the matching variant,
/// or `Other` carrying the string itself.
pub open spec fn spec_parse_sub_state(s: String) -> UnitSubStateType {
    if s@ == "abandon"@ {
        UnitSubStateType::Abandon
    } else if s@ == "activating"@ {
        UnitSubStateType::Activating
    } else if s@ == "activating-done"@ {
        UnitSubStateType::ActivatingDone
    } else if s@ == "active"@ {
        UnitSubStateType::Active
    } else if s@ == "auto-restart"@ {
        UnitSubStateType::AutoRestart
    } else if s@ == "dead"@ {
        UnitSubStateType::Dead
    } else if s@ == "deactivating"@ {
        UnitSubStateType::Deactivating
    } else if s@ == "deactivating-sigterm"@ {
        UnitSubStateType::DeactivatingSigterm
    } else if s@ == "deactivating-sigkill"@ {
        UnitSubStateType::DeactivatingSigkill
    } else if s@ == "elapsed"@ {
        UnitSubStateType::Elapsed
    } else if s@ == "exited"@ {
        UnitSubStateType::Exited
    } else if s@ == "failed"@ {
        UnitSubStateType::Failed
    } else if s@ == "final-sigterm"@ {
        UnitSubStateType::FinalSigterm
    } else if s@ == "final-sigkill"@ {
        UnitSubStateType::FinalSigkill
    } else if s@ == "mounting"@ {
        UnitSubStateType::Mounting
    } else if s@ == "mounting-done"@ {
        UnitSubStateType::MountingDone
    } else if s@ == "mounted"@ {
        UnitSubStateType::Mounted
    } else if s@ == "plugged"@ {
        UnitSubStateType::Plugged
    } else if s@ == "listening"@ {
        UnitSubStateType::Listening
    } else if s@ == "reload"@ {
        UnitSubStateType::Reload
    } else if s@ == "remounting"@ {
        UnitSubStateType::Remounting
    } else if s@ == "remounting-sigterm"@ {
        UnitSubStateType::RemountingSigterm
    } else if s@ == "remounting-sigkill"@ {
        UnitSubStateType::RemountingSigkill
    } else if s@ == "running"@ {
        UnitSubStateType::Running
    } else if s@ == "start"@ {
        UnitSubStateType::Start
    } else if s@ == "start-chown"@ {
        UnitSubStateType::StartChown
    } else if s@ == "start-pre"@ {
        UnitSubStateType::StartPre
    } else if s@ == "start-post"@ {
        UnitSubStateType::StartPost
    } else if s@ == "stop"@ {
        UnitSubStateType::Stop
    } else if s@ == "stop-post"@ {
        UnitSubStateType::StopPost
    } else if s@ == "stop-sigabrt"@ {
        UnitSubStateType::StopSigabrt
    } else if s@ == "stop-sigterm"@ {
        UnitSubStateType::StopSigterm
    } else if s@ == "stop-sigkill"@ {
        UnitSubStateType::StopSigkill
    } else if s@ == "tentative"@ {
        UnitSubStateType::Tentative
    } else if s@ == "unmounting"@ {
        UnitSubStateType::Unmounting
    } else if s@ == "unmounting-sigterm"@ {
        UnitSubStateType::UnmountingSigterm
    } else if s@ == "unmounting-sigkill"@ {
        UnitSubStateType::UnmountingSigkill
    } else if s@ == "waiting"@ {
        UnitSubStateType::Waiting
    } else {
        UnitSubStateType::Other(s)
    }
}

impl UnitSubStateType {
    /// The string a value renders to.
    pub open spec fn spec_render(self) -> Seq<char> {
        match self {
            UnitSubStateType::Abandon => "abandon"@,
            UnitSubStateType::Activating => "activating"@,
            UnitSubStateType::ActivatingDone => "activating-done"@,
            UnitSubStateType::Active => "active"@,
            UnitSubStateType::AutoRestart => "auto-restart"@,
            UnitSubStateType::Dead => "dead"@,
            UnitSubStateType::Deactivating => "deactivating"@,
            UnitSubStateType::DeactivatingSigterm => "deactivating-sigterm"@,
            UnitSubStateType::DeactivatingSigkill => "deactivating-sigkill"@,
            UnitSubStateType::Elapsed => "elapsed"@,
            UnitSubStateType::Exited => "exited"@,
            UnitSubStateType::Failed => "failed"@,
            UnitSubStateType::FinalSigterm => "final-sigterm"@,
            UnitSubStateType::FinalSigkill => "final-sigkill"@,
            UnitSubStateType::Mounting => "mounting"@,
            UnitSubStateType::MountingDone => "mounting-done"@,
            UnitSubStateType::Mounted => "mounted"@,
            UnitSubStateType::Plugged => "plugged"@,
            UnitSubStateType::Listening => "listening"@,
            UnitSubStateType::Reload => "reload"@,
            UnitSubStateType::Remounting => "remounting"@,
            UnitSubStateType::RemountingSigterm => "remounting-sigterm"@,
            UnitSubStateType::RemountingSigkill => "remounting-sigkill"@,
            UnitSubStateType::Running => "running"@,
            UnitSubStateType::Start => "start"@,
            UnitSubStateType::StartChown => "start-chown"@,
            UnitSubStateType::StartPre => "start-pre"@,
            UnitSubStateType::StartPost => "start-post"@,
            UnitSubStateType::Stop => "stop"@,
            UnitSubStateType::StopPost => "stop-post"@,
            UnitSubStateType::StopSigabrt => "stop-sigabrt"@,
            UnitSubStateType::StopSigterm => "stop-sigterm"@,
            UnitSubStateType::StopSigkill => "stop-sigkill"@,
            UnitSubStateType::Tentative => "tentative"@,
            UnitSubStateType::Unmounting => "unmounting"@,
            UnitSubStateType::UnmountingSigterm => "unmounting-sigterm"@,
            UnitSubStateType::UnmountingSigkill => "unmounting-sigkill"@,
            UnitSubStateType::Waiting => "waiting"@,
            UnitSubStateType::Other(o) => o@,
        }
    }

    /// Parse a manager-reported state string; never fails.
    pub fn from_string(s: String) -> (v: Self)
        ensures
            v == spec_parse_sub_state(s),
    {
        if str_eq(s.as_str(), "abandon") {
            UnitSubStateType::Abandon
        } else if str_eq(s.as_str(), "activating") {
            UnitSubStateType::Activating
        } else if str_eq(s.as_str(), "activating-done") {
            UnitSubStateType::ActivatingDone
        } else if str_eq(s.as_str(), "active") {
            UnitSubStateType::Active
        } else if str_eq(s.as_str(), "auto-restart") {
            UnitSubStateType::AutoRestart
        } else if str_eq(s.as_str(), "dead") {
            UnitSubStateType::Dead
        } else if str_eq(s.as_str(), "deactivating") {
            UnitSubStateType::Deactivating
        } else if str_eq(s.as_str(), "deactivating-sigterm") {
            UnitSubStateType::DeactivatingSigterm
        } else if str_eq(s.as_str(), "deactivating-sigkill") {
            UnitSubStateType::DeactivatingSigkill
        } else if str_eq(s.as_str(), "elapsed") {
            UnitSubStateType::Elapsed
        } else if str_eq(s.as_str(), "exited") {
            UnitSubStateType::Exited
        } else if str_eq(s.as_str(), "failed") {
            UnitSubStateType::Failed
        } else if str_eq(s.as_str(), "final-sigterm") {
            UnitSubStateType::FinalSigterm
        } else if str_eq(s.as_str(), "final-sigkill") {
            UnitSubStateType::FinalSigkill
        } else if str_eq(s.as_str(), "mounting") {
            UnitSubStateType::Mounting
        } else if str_eq(s.as_str(), "mounting-done") {
            UnitSubStateType::MountingDone
        } else if str_eq(s.as_str(), "mounted") {
            UnitSubStateType::Mounted
        } else if str_eq(s.as_str(), "plugged") {
            UnitSubStateType::Plugged
        } else if str_eq(s.as_str(), "listening") {
            UnitSubStateType::Listening
        } else if str_eq(s.as_str(), "reload") {
            UnitSubStateType::Reload
        } else if str_eq(s.as_str(), "remounting") {
            UnitSubStateType::Remounting
        } else if str_eq(s.as_str(), "remounting-sigterm") {
            UnitSubStateType::RemountingSigterm
        } else if str_eq(s.as_str(), "remounting-sigkill") {
            UnitSubStateType::RemountingSigkill
        } else if str_eq(s.as_str(), "running") {
            UnitSubStateType::Running
        } else if str_eq(s.as_str(), "start") {
            UnitSubStateType::Start
        } else if str_eq(s.as_str(), "start-chown") {
            UnitSubStateType::StartChown
        } else if str_eq(s.as_str(), "start-pre") {
            UnitSubStateType::StartPre
        } else if str_eq(s.as_str(), "start-post") {
            UnitSubStateType::StartPost
        } else if str_eq(s.as_str(), "stop") {
            UnitSubStateType::Stop
        } else if str_eq(s.as_str(), "stop-post") {
            UnitSubStateType::StopPost
        } else if str_eq(s.as_str(), "stop-sigabrt") {
            UnitSubStateType::StopSigabrt
        } else if str_eq(s.as_str(), "stop-sigterm") {
            UnitSubStateType::StopSigterm
        } else if str_eq(s.as_str(), "stop-sigkill") {
            UnitSubStateType::StopSigkill
        } else if str_eq(s.as_str(), "tentative") {
            UnitSubStateType::Tentative
        } else if str_eq(s.as_str(), "unmounting") {
            UnitSubStateType::Unmounting
        } else if str_eq(s.as_str(), "unmounting-sigterm") {
            UnitSubStateType::UnmountingSigterm
        } else if str_eq(s.as_str(), "unmounting-sigkill") {
            UnitSubStateType::UnmountingSigkill
        } else if str_eq(s.as_str(), "waiting") {
            UnitSubStateType::Waiting
        } else {
            UnitSubStateType::Other(s)
        }
    }

    /// Render the value back to the manager's string form.
    pub fn to_string(&self) -> (r: String)
        ensures
            r@ == self.spec_render(),
    {
        match self {
            UnitSubStateType::Abandon => String::from_str("abandon"),
            UnitSubStateType::Activating => String::from_str("activating"),
            UnitSubStateType::ActivatingDone => String::from_str("activating-done"),
            UnitSubStateType::Active => String::from_str("active"),
            UnitSubStateType::AutoRestart => String::from_str("auto-restart"),
            UnitSubStateType::Dead => String::from_str("dead"),
            UnitSubStateType::Deactivating => String::from_str("deactivating"),
            UnitSubStateType::DeactivatingSigterm => String::from_str("deactivating-sigterm"),
            UnitSubStateType::DeactivatingSigkill => String::from_str("deactivating-sigkill"),
            UnitSubStateType::Elapsed => String::from_str("elapsed"),
            UnitSubStateType::Exited => String::from_str("exited"),
            UnitSubStateType::Failed => String::from_str("failed"),
            UnitSubStateType::FinalSigterm => String::from_str("final-sigterm"),
            UnitSubStateType::FinalSigkill => String::from_str("final-sigkill"),
            UnitSubStateType::Mounting => String::from_str("mounting"),
            UnitSubStateType::MountingDone => String::from_str("mounting-done"),
            UnitSubStateType::Mounted => String::from_str("mounted"),
            UnitSubStateType::Plugged => String::from_str("plugged"),
            UnitSubStateType::Listening => String::from_str("listening"),
            UnitSubStateType::Reload => String::from_str("reload"),
            UnitSubStateType::Remounting => String::from_str("remounting"),
            UnitSubStateType::RemountingSigterm => String::from_str("remounting-sigterm"),
            UnitSubStateType::RemountingSigkill => String::from_str("remounting-sigkill"),
            UnitSubStateType::Running => String::from_str("running"),
            UnitSubStateType::Start => String::from_str("start"),
            UnitSubStateType::StartChown => String::from_str("start-chown"),
            UnitSubStateType::StartPre => String::from_str("start-pre"),
            UnitSubStateType::StartPost => String::from_str("start-post"),
            UnitSubStateType::Stop => String::from_str("stop"),
            UnitSubStateType::StopPost => String::from_str("stop-post"),
            UnitSubStateType::StopSigabrt => String::from_str("stop-sigabrt"),
            UnitSubStateType::StopSigterm => String::from_str("stop-sigterm"),
            UnitSubStateType::StopSigkill => String::from_str("stop-sigkill"),
            UnitSubStateType::Tentative => String::from_str("tentative"),
            UnitSubStateType::Unmounting => String::from_str("unmounting"),
            UnitSubStateType::UnmountingSigterm => String::from_str("unmounting-sigterm"),
            UnitSubStateType::UnmountingSigkill => String::from_str("unmounting-sigkill"),
            UnitSubStateType::Waiting => String::from_str("waiting"),
            UnitSubStateType::Other(o) => o.clone(),
        }
    }
}

/// Rendering a parsed string on this axis gives the input back, for
/// every input string, known or not.
pub proof fn lemma_sub_state_round_trip(s: String)
    ensures
        spec_parse_sub_state(s).spec_render() == s@,
{
}

/// A string outside the known set parses to the fallback variant
/// carrying it verbatim.
pub proof fn lemma_sub_state_unknown_fallback(s: String)
    requires
        !sub_state_known(s@),
    ensures
        spec_parse_sub_state(s) == UnitSubStateType::Other(s),
{
}

impl From<String> for UnitLoadStateType {
    /// Same as [`Self::from_string`].
    fn from(origin: String) -> (v: Self) {
        Self::from_string(origin)
    }
}

impl vstd::std_specs::convert::FromSpecImpl<String> for UnitLoadStateType {
    open spec fn obeys_from_spec() -> bool {
        true
    }

    open spec fn from_spec(origin: String) -> Self {
        spec_parse_load_state(origin)
    }
}

impl PartialEq for UnitLoadStateType {
    /// Structural equality: two unknown states are equal exactly when
    /// the strings they carry are.
    fn eq(&self, other: &Self) -> (r: bool) {
        match (self, other) {
            (UnitLoadStateType::Stub, UnitLoadStateType::Stub) => true,
            (UnitLoadStateType::Loaded, UnitLoadStateType::Loaded) => true,
            (UnitLoadStateType::NotFound, UnitLoadStateType::NotFound) => true,
            (UnitLoadStateType::Error, UnitLoadStateType::Error) => true,
            (UnitLoadStateType::Merged, UnitLoadStateType::Merged) => true,
            (UnitLoadStateType::Masked, UnitLoadStateType::Masked) => true,
            (UnitLoadStateType::Other(a), UnitLoadStateType::Other(b)) => str_eq(a.as_str(), b.as_str()),
            _ => false,
        }
    }
}

impl vstd::std_specs::cmp::PartialEqSpecImpl for UnitLoadStateType {
    open spec fn obeys_eq_spec() -> bool {
        true
    }

    open spec fn eq_spec(&self, other: &Self) -> bool {
        match (self, other) {
            (UnitLoadStateType::Stub, UnitLoadStateType::Stub) => true,
            (UnitLoadStateType::Loaded, UnitLoadStateType::Loaded) => true,
            (UnitLoadStateType::NotFound, UnitLoadStateType::NotFound) => true,
            (UnitLoadStateType::Error, UnitLoadStateType::Error) => true,
            (UnitLoadStateType::Merged, UnitLoadStateType::Merged) => true,
            (UnitLoadStateType::Masked, UnitLoadStateType::Masked) => true,
            (UnitLoadStateType::Other(a), UnitLoadStateType::Other(b)) => a@ == b@,
            _ => false,
        }
    }
}

impl From<String> for UnitActiveStateType {
    /// Same as [`Self::from_string`].
    fn from(origin: String) -> (v: Self) {
        Self::from_string(origin)
    }
}

impl vstd::std_specs::convert::FromSpecImpl<String> for UnitActiveStateType {
    open spec fn obeys_from_spec() -> bool {
        true
    }

    open spec fn from_spec(origin: String) -> Self {
        spec_parse_active_state(origin)
    }
}

impl PartialEq for UnitActiveStateType {
    /// Structural equality: two unknown states are equal exactly when
    /// the strings they carry are.
    fn eq(&self, other: &Self) -> (r: bool) {
        match (self, other) {
            (UnitActiveStateType::Active, UnitActiveStateType::Active) => true,
            (UnitActiveStateType::Reloading, UnitActiveStateType::Reloading) => true,
            (UnitActiveStateType::Inactive, UnitActiveStateType::Inactive) => true,
            (UnitActiveStateType::Failed, UnitActiveStateType::Failed) => true,
            (UnitActiveStateType::Activating, UnitActiveStateType::Activating) => true,
            (UnitActiveStateType::Deactivating, UnitActiveStateType::Deactivating) => true,
            (UnitActiveStateType::Other(a), UnitActiveStateType::Other(b)) => str_eq(a.as_str(), b.as_str()),
            _ => false,
        }
    }
}

impl vstd::std_specs::cmp::PartialEqSpecImpl for UnitActiveStateType {
    open spec fn obeys_eq_spec() -> bool {
        true
    }

    open spec fn eq_spec(&self, other: &Self) -> bool {
        match (self, other) {
            (UnitActiveStateType::Active, UnitActiveStateType::Active) => true,
            (UnitActiveStateType::Reloading, UnitActiveStateType::Reloading) => true,
            (UnitActiveStateType::Inactive, UnitActiveStateType::Inactive) => true,
            (UnitActiveStateType::Failed, UnitActiveStateType::Failed) => true,
            (UnitActiveStateType::Activating, UnitActiveStateType::Activating) => true,
            (UnitActiveStateType::Deactivating, UnitActiveStateType::Deactivating) => true,
            (UnitActiveStateType::Other(a), UnitActiveStateType::Other(b)) => a@ == b@,
            _ => false,
        }
    }
}

impl From<String> for UnitSubStateType {
    /// Same as [`Self::from_string`].
    fn from(origin: String) -> (v: Self) {
        Self::from_string(origin)
    }
}

impl vstd::std_specs::convert::FromSpecImpl<String> for UnitSubStateType {
    open spec fn obeys_from_spec() -> bool {
        true
    }

    open spec fn from_spec(origin: String) -> Self {
        spec_parse_sub_state(origin)
    }
}

impl PartialEq for UnitSubStateType {
    /// Structural equality: two unknown states are equal exactly when
    /// the strings they carry are.
    fn eq(&self, other: &Self) -> (r: bool) {
        match (self, other) {
            (UnitSubStateType::Abandon, UnitSubStateType::Abandon) => true,
            (UnitSubStateType::Activating, UnitSubStateType::Activating) => true,
            (UnitSubStateType::ActivatingDone, UnitSubStateType::ActivatingDone) => true,
            (UnitSubStateType::Active, UnitSubStateType::Active) => true,
            (UnitSubStateType::AutoRestart, UnitSubStateType::AutoRestart) => true,
            (UnitSubStateType::Dead, UnitSubStateType::Dead) => true,
            (UnitSubStateType::Deactivating, UnitSubStateType::Deactivating) => true,
            (UnitSubStateType::DeactivatingSigterm, UnitSubStateType::DeactivatingSigterm) => true,
            (UnitSubStateType::DeactivatingSigkill, UnitSubStateType::DeactivatingSigkill) => true,
            (UnitSubStateType::Elapsed, UnitSubStateType::Elapsed) => true,
            (UnitSubStateType::Exited, UnitSubStateType::Exited) => true,
            (UnitSubStateType::Failed, UnitSubStateType::Failed) => true,
            (UnitSubStateType::FinalSigterm, UnitSubStateType::FinalSigterm) => true,
            (UnitSubStateType::FinalSigkill, UnitSubStateType::FinalSigkill) => true,
            (UnitSubStateType::Mounting, UnitSubStateType::Mounting) => true,
            (UnitSubStateType::MountingDone, UnitSubStateType::MountingDone) => true,
            (UnitSubStateType::Mounted, UnitSubStateType::Mounted) => true,
            (UnitSubStateType::Plugged, UnitSubStateType::Plugged) => true,
            (UnitSubStateType::Listening, UnitSubStateType::Listening) => true,
            (UnitSubStateType::Reload, UnitSubStateType::Reload) => true,
            (UnitSubStateType::Remounting, UnitSubStateType::Remounting) => true,
            (UnitSubStateType::RemountingSigterm, UnitSubStateType::RemountingSigterm) => true,
            (UnitSubStateType::RemountingSigkill, UnitSubStateType::RemountingSigkill) => true,
            (UnitSubStateType::Running, UnitSubStateType::Running) => true,
            (UnitSubStateType::Start, UnitSubStateType::Start) => true,
            (UnitSubStateType::StartChown, UnitSubStateType::StartChown) => true,
            (UnitSubStateType::StartPre, UnitSubStateType::StartPre) => true,
            (UnitSubStateType::StartPost, UnitSubStateType::StartPost) => true,
            (UnitSubStateType::Stop, UnitSubStateType::Stop) => true,
            (UnitSubStateType::StopPost, UnitSubStateType::StopPost) => true,
            (UnitSubStateType::StopSigabrt, UnitSubStateType::StopSigabrt) => true,
            (UnitSubStateType::StopSigterm, UnitSubStateType::StopSigterm) => true,
            (UnitSubStateType::StopSigkill, UnitSubStateType::StopSigkill) => true,
            (UnitSubStateType::Tentative, UnitSubStateType::Tentative) => true,
            (UnitSubStateType::Unmounting, UnitSubStateType::Unmounting) => true,
            (UnitSubStateType::UnmountingSigterm, UnitSubStateType::UnmountingSigterm) => true,
            (UnitSubStateType::UnmountingSigkill, UnitSubStateType::UnmountingSigkill) => true,
            (UnitSubStateType::Waiting, UnitSubStateType::Waiting) => true,
            (UnitSubStateType::Other(a), UnitSubStateType::Other(b)) => str_eq(a.as_str(), b.as_str()),
            _ => false,
        }
    }
}

impl vstd::std_specs::cmp::PartialEqSpecImpl for UnitSubStateType {
    open spec fn obeys_eq_spec() -> bool {
        true
    }

    open spec fn eq_spec(&self, other: &Self) -> bool {
        match (self, other) {
            (UnitSubStateType::Abandon, UnitSubStateType::Abandon) => true,
            (UnitSubStateType::Activating, UnitSubStateType::Activating) => true,
            (UnitSubStateType::ActivatingDone, UnitSubStateType::ActivatingDone) => true,
            (UnitSubStateType::Active, UnitSubStateType::Active) => true,
            (UnitSubStateType::AutoRestart, UnitSubStateType::AutoRestart) => true,
            (UnitSubStateType::Dead, UnitSubStateType::Dead) => true,
            (UnitSubStateType::Deactivating, UnitSubStateType::Deactivating) => true,
            (UnitSubStateType::DeactivatingSigterm, UnitSubStateType::DeactivatingSigterm) => true,
            (UnitSubStateType::DeactivatingSigkill, UnitSubStateType::DeactivatingSigkill) => true,
            (UnitSubStateType::Elapsed, UnitSubStateType::Elapsed) => true,
            (UnitSubStateType::Exited, UnitSubStateType::Exited) => true,
            (UnitSubStateType::Failed, UnitSubStateType::Failed) => true,
            (UnitSubStateType::FinalSigterm, UnitSubStateType::FinalSigterm) => true,
            (UnitSubStateType::FinalSigkill, UnitSubStateType::FinalSigkill) => true,
            (UnitSubStateType::Mounting, UnitSubStateType::Mounting) => true,
            (UnitSubStateType::MountingDone, UnitSubStateType::MountingDone) => true,
            (UnitSubStateType::Mounted, UnitSubStateType::Mounted) => true,
            (UnitSubStateType::Plugged, UnitSubStateType::Plugged) => true,
            (UnitSubStateType::Listening, UnitSubStateType::Listening) => true,
            (UnitSubStateType::Reload, UnitSubStateType::Reload) => true,
            (UnitSubStateType::Remounting, UnitSubStateType::Remounting) => true,
            (UnitSubStateType::RemountingSigterm, UnitSubStateType::RemountingSigterm) => true,
            (UnitSubStateType::RemountingSigkill, UnitSubStateType::RemountingSigkill) => true,
            (UnitSubStateType::Running, UnitSubStateType::Running) => true,
            (UnitSubStateType::Start, UnitSubStateType::Start) => true,
            (UnitSubStateType::StartChown, UnitSubStateType::StartChown) => true,
            (UnitSubStateType::StartPre, UnitSubStateType::StartPre) => true,
            (UnitSubStateType::StartPost, UnitSubStateType::StartPost) => true,
            (UnitSubStateType::Stop, UnitSubStateType::Stop) => true,
            (UnitSubStateType::StopPost, UnitSubStateType::StopPost) => true,
            (UnitSubStateType::StopSigabrt, UnitSubStateType::StopSigabrt) => true,
            (UnitSubStateType::StopSigterm, UnitSubStateType::StopSigterm) => true,
            (UnitSubStateType::StopSigkill, UnitSubStateType::StopSigkill) => true,
            (UnitSubStateType::Tentative, UnitSubStateType::Tentative) => true,
            (UnitSubStateType::Unmounting, UnitSubStateType::Unmounting) => true,
            (UnitSubStateType::UnmountingSigterm, UnitSubStateType::UnmountingSigterm) => true,
            (UnitSubStateType::UnmountingSigkill, UnitSubStateType::UnmountingSigkill) => true,
            (UnitSubStateType::Waiting, UnitSubStateType::Waiting) => true,
            (UnitSubStateType::Other(a), UnitSubStateType::Other(b)) => a@ == b@,
            _ => false,
        }
    }
}

/// On the recognized variants, parsing is the exact inverse of
/// rendering: the string a known variant renders to parses back to
/// that variant.
pub proof fn lemma_load_state_parse_of_render(s: String, v: UnitLoadStateType)
    requires
        !(v is Other),
        s@ == v.spec_render(),
    ensures
        spec_parse_load_state(s) == v,
{
    broadcast use vstd::string::group_string_axioms;

    reveal_strlit("stub");
    reveal_strlit("loaded");
    reveal_strlit("not-found");
    reveal_strlit("error");
    reveal_strlit("merged");
    reveal_strlit("masked");
    assert("stub"@.len() == 4);
    assert("loaded"@.len() == 6);
    assert("not-found"@.len() == 9);
    assert("error"@.len() == 5);
    assert("merged"@.len() == 6);
    assert("masked"@.len() == 6);
    match v {
        UnitLoadStateType::Stub => {
            assert(spec_parse_load_state(s) == v);
        },
        UnitLoadStateType::Loaded => {
            assert("loaded"@[0] != "merged"@[0]);
            assert(spec_parse_load_state(s) == v);
        },
        UnitLoadStateType::NotFound => {
            assert(spec_parse_load_state(s) == v);
        },
        UnitLoadStateType::Error => {
            assert(spec_parse_load_state(s) == v);
        },
        UnitLoadStateType::Merged => {
            assert("merged"@[0] != "loaded"@[0]);
            assert(spec_parse_load_state(s) == v);
        },
        UnitLoadStateType::Masked => {
            assert("masked"@[0] != "loaded"@[0]);
            assert("masked"@[1] != "merged"@[1]);
            assert(spec_parse_load_state(s) == v);
        },
        UnitLoadStateType::Other(_) => {
        },
    }
}

/// On the recognized variants, parsing is the exact inverse of
/// rendering: the string a known variant renders to parses back to
/// that variant.
pub proof fn lemma_active_state_parse_of_render(s: String, v: UnitActiveStateType)
    requires
        !(v is Other),
        s@ == v.spec_render(),
    ensures
        spec_parse_active_state(s) == v,
{
    broadcast use vstd::string::group_string_axioms;

    reveal_strlit("active");
    reveal_strlit("activating");
    reveal_strlit("deactivating");
    reveal_strlit("failed");
    reveal_strlit("inactive");
    reveal_strlit("reloading");
    assert("active"@.len() == 6);
    assert("activating"@.len() == 10);
    assert("deactivating"@.len() == 12);
    assert("failed"@.len() == 6);
    assert("inactive"@.len() == 8);
    assert("reloading"@.len() == 9);
    match v {
        UnitActiveStateType::Active => {
            assert(spec_parse_active_state(s) == v);
        },
        UnitActiveStateType::Activating => {
            assert(spec_parse_active_state(s) == v);
        },
        UnitActiveStateType::Deactivating => {
            assert(spec_parse_active_state(s) == v);
        },
        UnitActiveStateType::Failed => {
            assert("failed"@[0] != "active"@[0]);
            assert(spec_parse_active_state(s) == v);
        },
        UnitActiveStateType::Inactive => {
            assert(spec_parse_active_state(s) == v);
        },
        UnitActiveStateType::Reloading => {
            assert(spec_parse_active_state(s) == v);
        },
        UnitActiveStateType::Other(_) => {
        },
    }
}

/// On the recognized variants, parsing is the exact inverse of
/// rendering: the string a known variant renders to parses back to
/// that variant.
#[verifier::rlimit(100)]
pub proof fn lemma_sub_state_parse_of_render(s: String, v: UnitSubStateType)
    requires
        !(v is Other),
        s@ == v.spec_render(),
    ensures
        spec_parse_sub_state(s) == v,
{
    broadcast use vstd::string::group_string_axioms;

    reveal_strlit("abandon");
    reveal_strlit("activating");
    reveal_strlit("activating-done");
    reveal_strlit("active");
    reveal_strlit("auto-restart");
    reveal_strlit("dead");
    reveal_strlit("deactivating");
    reveal_strlit("deactivating-sigterm");
    reveal_strlit("deactivating-sigkill");
    reveal_strlit("elapsed");
    reveal_strlit("exited");
    reveal_strlit("failed");
    reveal_strlit("final-sigterm");
    reveal_strlit("final-sigkill");
    reveal_strlit("mounting");
    reveal_strlit("mounting-done");
    reveal_strlit("mounted");
    reveal_strlit("plugged");
    reveal_strlit("listening");
    reveal_strlit("reload");
    reveal_strlit("remounting");
    reveal_strlit("remounting-sigterm");
    reveal_strlit("remounting-sigkill");
    reveal_strlit("running");
    reveal_strlit("start");
    reveal_strlit("start-chown");
    reveal_strlit("start-pre");
    reveal_strlit("start-post");
    reveal_strlit("stop");
    reveal_strlit("stop-post");
    reveal_strlit("stop-sigabrt");
    reveal_strlit("stop-sigterm");
    reveal_strlit("stop-sigkill");
    reveal_strlit("tentative");
    reveal_strlit("unmounting");
    reveal_strlit("unmounting-sigterm");
    reveal_strlit("unmounting-sigkill");
    reveal_strlit("waiting");
    assert("abandon"@.len() == 7);
    assert("activating"@.len() == 10);
    assert("activating-done"@.len() == 15);
    assert("active"@.len() == 6);
    assert("auto-restart"@.len() == 12);
    assert("dead"@.len() == 4);
    assert("deactivating"@.len() == 12);
    assert("deactivating-sigterm"@.len() == 20);
    assert("deactivating-sigkill"@.len() == 20);
    assert("elapsed"@.len() == 7);
    assert("exited"@.len() == 6);
    assert("failed"@.len() == 6);
    assert("final-sigterm"@.len() == 13);
    assert("final-sigkill"@.len() == 13);
    assert("mounting"@.len() == 8);
    assert("mounting-done"@.len() == 13);
    assert("mounted"@.len() == 7);
    assert("plugged"@.len() == 7);
    assert("listening"@.len() == 9);
    assert("reload"@.len() == 6);
    assert("remounting"@.len() == 10);
    assert("remounting-sigterm"@.len() == 18);
    assert("remounting-sigkill"@.len() == 18);
    assert("running"@.len() == 7);
    assert("start"@.len() == 5);
    assert("start-chown"@.len() == 11);
    assert("start-pre"@.len() == 9);
    assert("start-post"@.len() == 10);
    assert("stop"@.len() == 4);
    assert("stop-post"@.len() == 9);
    assert("stop-sigabrt"@.len() == 12);
    assert("stop-sigterm"@.len() == 12);
    assert("stop-sigkill"@.len() == 12);
    assert("tentative"@.len() == 9);
    assert("unmounting"@.len() == 10);
    assert("unmounting-sigterm"@.len() == 18);
    assert("unmounting-sigkill"@.len() == 18);
    assert("waiting"@.len() == 7);
    match v {
        UnitSubStateType::Abandon => {
            assert(spec_parse_sub_state(s) == v);
        },
        UnitSubStateType::Activating => {
            assert(spec_parse_sub_state(s) == v);
        },
        UnitSubStateType::ActivatingDone => {
            assert(spec_parse_sub_state(s) == v);
        },
        UnitSubStateType::Active => {
            assert(spec_parse_sub_state(s) == v);
        },
        UnitSubStateType::AutoRestart => {
            assert(spec_parse_sub_state(s) == v);
        },
        UnitSubStateType::Dead => {
            assert(spec_parse_sub_state(s) == v);
        },
        UnitSubStateType::Deactivating => {
            assert("deactivating"@[0] != "auto-restart"@[0]);
            assert(spec_parse_sub_state(s) == v);
        },
        UnitSubStateType::DeactivatingSigterm => {
            assert(spec_parse_sub_state(s) == v);
        },
        UnitSubStateType::DeactivatingSigkill => {
            assert("deactivating-sigkill"@[16] != "deactivating-sigterm"@[16]);
            assert(spec_parse_sub_state(s) == v);
        },
        UnitSubStateType::Elapsed => {
            assert("elapsed"@[0] != "abandon"@[0]);
            assert(spec_parse_sub_state(s) == v);
        },
        UnitSubStateType::Exited => {
            assert("exited"@[0] != "active"@[0]);
            assert(spec_parse_sub_state(s) == v);
        },
        UnitSubStateType::Failed => {
            assert("failed"@[0] != "active"@[0]);
            assert("failed"@[0] != "exited"@[0]);
            assert(spec_parse_sub_state(s) == v);
        },
        UnitSubStateType::FinalSigterm => {
            assert(spec_parse_sub_state(s) == v);
        },
        UnitSubStateType::FinalSigkill => {
            assert("final-sigkill"@[9] != "final-sigterm"@[9]);
            assert(spec_parse_sub_state(s) == v);
        },
        UnitSubStateType::Mounting => {
            assert(spec_parse_sub_state(s) == v);
        },
        UnitSubStateType::MountingDone => {
            assert("mounting-done"@[0] != "final-sigterm"@[0]);
            assert("mounting-done"@[0] != "final-sigkill"@[0]);
            assert(spec_parse_sub_state(s) == v);
        },
        UnitSubStateType::Mounted => {
            assert("mounted"@[0] != "abandon"@[0]);
            assert("mounted"@[0] != "elapsed"@[0]);
            assert(spec_parse_sub_state(s) == v);
        },
        UnitSubStateType::Plugged => {
            assert("plugged"@[0] != "abandon"@[0]);
            assert("plugged"@[0] != "elapsed"@[0]);
            assert("plugged"@[0] != "mounted"@[0]);
            assert(spec_parse_sub_state(s) == v);
        },
        UnitSubStateType::Listening => {
            assert(spec_parse_sub_state(s) == v);
        },
        UnitSubStateType::Reload => {
            assert("reload"@[0] != "active"@[0]);
            assert("reload"@[0] != "exited"@[0]);
            assert("reload"@[0] != "failed"@[0]);
            assert(spec_parse_sub_state(s) == v);
        },
        UnitSubStateType::Remounting => {
            assert("remounting"@[0] != "activating"@[0]);
            assert(spec_parse_sub_state(s) == v);
        },
        UnitSubStateType::RemountingSigterm => {
            assert(spec_parse_sub_state(s) == v);
        },
        UnitSubStateType::RemountingSigkill => {
            assert("remounting-sigkill"@[14] != "remounting-sigterm"@[14]);
            assert(spec_parse_sub_state(s) == v);
        },
        UnitSubStateType::Running => {
            assert("running"@[0] != "abandon"@[0]);
            assert("running"@[0] != "elapsed"@[0]);
            assert("running"@[0] != "mounted"@[0]);
            assert("running"@[0] != "plugged"@[0]);
            assert(spec_parse_sub_state(s) == v);
        },
        UnitSubStateType::Start => {
            assert(spec_parse_sub_state(s) == v);
        },
        UnitSubStateType::StartChown => {
            assert(spec_parse_sub_state(s) == v);
        },
        UnitSubStateType::StartPre => {
            assert("start-pre"@[0] != "listening"@[0]);
            assert(spec_parse_sub_state(s) == v);
        },
        UnitSubStateType::StartPost => {
            assert("start-post"@[0] != "activating"@[0]);
            assert("start-post"@[0] != "remounting"@[0]);
            assert(spec_parse_sub_state(s) == v);
        },
        UnitSubStateType::Stop => {
            assert("stop"@[0] != "dead"@[0]);
            assert(spec_parse_sub_state(s) == v);
        },
        UnitSubStateType::StopPost => {
            assert("stop-post"@[0] != "listening"@[0]);
            assert("stop-post"@[2] != "start-pre"@[2]);
            assert(spec_parse_sub_state(s) == v);
        },
        UnitSubStateType::StopSigabrt => {
            assert("stop-sigabrt"@[0] != "auto-restart"@[0]);
            assert("stop-sigabrt"@[0] != "deactivating"@[0]);
            assert(spec_parse_sub_state(s) == v);
        },
        UnitSubStateType::StopSigterm => {
            assert("stop-sigterm"@[0] != "auto-restart"@[0]);
            assert("stop-sigterm"@[0] != "deactivating"@[0]);
            assert("stop-sigterm"@[8] != "stop-sigabrt"@[8]);
            assert(spec_parse_sub_state(s) == v);
        },
        UnitSubStateType::StopSigkill => {
            assert("stop-sigkill"@[0] != "auto-restart"@[0]);
            assert("stop-sigkill"@[0] != "deactivating"@[0]);
            assert("stop-sigkill"@[8] != "stop-sigabrt"@[8]);
            assert("stop-sigkill"@[8] != "stop-sigterm"@[8]);
            assert(spec_parse_sub_state(s) == v);
        },
        UnitSubStateType::Tentative => {
            assert("tentative"@[0] != "listening"@[0]);
            assert("tentative"@[0] != "start-pre"@[0]);
            assert("tentative"@[0] != "stop-post"@[0]);
            assert(spec_parse_sub_state(s) == v);
        },
        UnitSubStateType::Unmounting => {
            assert("unmounting"@[0] != "activating"@[0]);
            assert("unmounting"@[0] != "remounting"@[0]);
            assert("unmounting"@[0] != "start-post"@[0]);
            assert(spec_parse_sub_state(s) == v);
        },
        UnitSubStateType::UnmountingSigterm => {
            assert("unmounting-sigterm"@[0] != "remounting-sigterm"@[0]);
            assert("unmounting-sigterm"@[0] != "remounting-sigkill"@[0]);
            assert(spec_parse_sub_state(s) == v);
        },
        UnitSubStateType::UnmountingSigkill => {
            assert("unmounting-sigkill"@[0] != "remounting-sigterm"@[0]);
            assert("unmounting-sigkill"@[0] != "remounting-sigkill"@[0]);
            assert("unmounting-sigkill"@[14] != "unmounting-sigterm"@[14]);
            assert(spec_parse_sub_state(s) == v);
        },
        UnitSubStateType::Waiting => {
            assert("waiting"@[0] != "abandon"@[0]);
            assert("waiting"@[0] != "elapsed"@[0]);
            assert("waiting"@[0] != "mounted"@[0]);
            assert("waiting"@[0] != "plugged"@[0]);
            assert("waiting"@[0] != "running"@[0]);
            assert(spec_parse_sub_state(s) == v);
        },
        UnitSubStateType::Other(_) => {
        },
    }
}

} // verus!
