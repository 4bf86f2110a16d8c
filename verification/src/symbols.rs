//! The exported names that a runtime module is asked for.
//!
//! The core entry points and the flat interface calls are exported under one
//! stable name each. The interface accessor is exported under a name that
//! carries its revision; its candidates are listed newest first, and that
//! order is part of the contract: it decides which revision is taken and
//! which failure is reported.

use vstd::prelude::*;

use crate::resolver::names_of;

verus! {

/// How many core entry points a module must export.
pub const CORE_COUNT: usize = 4;

/// How many flat interface calls a module must export.
pub const FLAT_COUNT: usize = 8;

/// The core entry points: init, shutdown, is-running, run-callbacks.
pub open spec fn core_names() -> Seq<Seq<char>> {
    seq![
        "SteamAPI_Init"@,
        "SteamAPI_Shutdown"@,
        "SteamAPI_IsSteamRunning"@,
        "SteamAPI_RunCallbacks"@,
    ]
}

/// The names under which the apps interface accessor may be exported, newest
/// revision first.
pub open spec fn accessor_names() -> Seq<Seq<char>> {
    seq!["SteamAPI_SteamApps_v010"@, "SteamAPI_SteamApps_v009"@, "SteamAPI_SteamApps_v008"@]
}

/// The flat calls of the apps interface, in the order in which they are
/// resolved.
pub open spec fn flat_names() -> Seq<Seq<char>> {
    seq![
        "SteamAPI_ISteamApps_BIsDlcInstalled"@,
        "SteamAPI_ISteamApps_BIsLowViolence"@,
        "SteamAPI_ISteamApps_BIsSubscribed"@,
        "SteamAPI_ISteamApps_BIsSubscribedApp"@,
        "SteamAPI_ISteamApps_BIsSubscribedFromFamilySharing"@,
        "SteamAPI_ISteamApps_BIsSubscribedFromFreeWeekend"@,
        "SteamAPI_ISteamApps_BIsVACBanned"@,
        "SteamAPI_ISteamApps_GetDLCCount"@,
    ]
}

/// The name of core entry point `index`, or `None` past the last.
pub fn core_symbol(index: usize) -> (name: Option<&'static str>)
    ensures
        index < CORE_COUNT ==> (name matches Some(n) && n@ == core_names()[index as int]),
        index >= CORE_COUNT ==> name is None,
{
    if index == 0 {
        Some("SteamAPI_Init")
    } else if index == 1 {
        Some("SteamAPI_Shutdown")
    } else if index == 2 {
        Some("SteamAPI_IsSteamRunning")
    } else if index == 3 {
        Some("SteamAPI_RunCallbacks")
    } else {
        None
    }
}

/// The candidate names of the apps interface accessor, in trial order.
pub fn steamapps_candidates() -> (candidates: Vec<&'static str>)
    ensures
        names_of(candidates@) == accessor_names(),
{
    let mut candidates: Vec<&'static str> = Vec::new();
    candidates.push("SteamAPI_SteamApps_v010");
    candidates.push("SteamAPI_SteamApps_v009");
    candidates.push("SteamAPI_SteamApps_v008");
    assert(names_of(candidates@) =~= accessor_names());
    candidates
}

/// The name of flat call `index`, or `None` past the last.
pub fn flat_symbol(index: usize) -> (name: Option<&'static str>)
    ensures
        index < FLAT_COUNT ==> (name matches Some(n) && n@ == flat_names()[index as int]),
        index >= FLAT_COUNT ==> name is None,
{
    if index == 0 {
        Some("SteamAPI_ISteamApps_BIsDlcInstalled")
    } else if index == 1 {
        Some("SteamAPI_ISteamApps_BIsLowViolence")
    } else if index == 2 {
        Some("SteamAPI_ISteamApps_BIsSubscribed")
    } else if index == 3 {
        Some("SteamAPI_ISteamApps_BIsSubscribedApp")
    } else if index == 4 {
        Some("SteamAPI_ISteamApps_BIsSubscribedFromFamilySharing")
    } else if index == 5 {
        Some("SteamAPI_ISteamApps_BIsSubscribedFromFreeWeekend")
    } else if index == 6 {
        Some("SteamAPI_ISteamApps_BIsVACBanned")
    } else if index == 7 {
        Some("SteamAPI_ISteamApps_GetDLCCount")
    } else {
        None
    }
}

} // verus!
