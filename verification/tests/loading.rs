//! Loading against stub modules: which names are asked for, in which order,
//! and how the load ends.

use aperture::error::ClientError;
use aperture::loader::{Progress, SteamApi};
use aperture::symbols::{core_symbol, flat_symbol, steamapps_candidates};

const CORE: [&str; 4] = [
    "SteamAPI_Init",
    "SteamAPI_Shutdown",
    "SteamAPI_IsSteamRunning",
    "SteamAPI_RunCallbacks",
];

const FLAT: [&str; 8] = [
    "SteamAPI_ISteamApps_BIsDlcInstalled",
    "SteamAPI_ISteamApps_BIsLowViolence",
    "SteamAPI_ISteamApps_BIsSubscribed",
    "SteamAPI_ISteamApps_BIsSubscribedApp",
    "SteamAPI_ISteamApps_BIsSubscribedFromFamilySharing",
    "SteamAPI_ISteamApps_BIsSubscribedFromFreeWeekend",
    "SteamAPI_ISteamApps_BIsVACBanned",
    "SteamAPI_ISteamApps_GetDLCCount",
];

const V010: &str = "SteamAPI_SteamApps_v010";
const V009: &str = "SteamAPI_SteamApps_v009";
const V008: &str = "SteamAPI_SteamApps_v008";

/// A handle of the running program itself stands in for an open module.
fn module() -> libloading::Library {
    libloading::os::unix::Library::this().into()
}

/// A stub module with every core and flat symbol, plus the given accessor
/// names. The address of a symbol is its position in the list, from 1000.
fn stub(accessors: &[&'static str]) -> Vec<(&'static str, usize)> {
    let mut names: Vec<&'static str> = Vec::new();
    names.extend_from_slice(&CORE);
    names.extend_from_slice(accessors);
    names.extend_from_slice(&FLAT);
    names.into_iter().enumerate().map(|(i, name)| (name, 1000 + i)).collect()
}

fn without(exports: Vec<(&'static str, usize)>, name: &str) -> Vec<(&'static str, usize)> {
    exports.into_iter().filter(|(n, _)| *n != name).collect()
}

/// The failure a stub reports for a name it lacks: one of its own for each
/// accessor candidate, so that they can be told apart.
fn failure_for(name: &str) -> libloading::Error {
    if name == V010 {
        libloading::Error::DlSymUnknown
    } else if name == V009 {
        libloading::Error::GetProcAddressUnknown
    } else if name == V008 {
        libloading::Error::IncompatibleSize
    } else {
        libloading::Error::DlOpenUnknown
    }
}

fn answer(exports: &[(&'static str, usize)], name: &str) -> Result<usize, libloading::Error> {
    match exports.iter().find(|(n, _)| *n == name) {
        Some((_, address)) => Ok(*address),
        None => Err(failure_for(name)),
    }
}

/// Runs a load to its end against a stub and records the names asked for.
fn drive(exports: &[(&'static str, usize)]) -> (Result<SteamApi, ClientError>, Vec<&'static str>) {
    let mut loader = SteamApi::load(module());
    let mut asked: Vec<&'static str> = Vec::new();
    loop {
        let name = loader.pending();
        asked.push(name);
        match loader.advance(answer(exports, name)) {
            Progress::Need(next) => loader = next,
            Progress::Done(end) => return (end, asked),
        }
    }
}

fn address_of(exports: &[(&'static str, usize)], name: &str) -> usize {
    exports.iter().find(|(n, _)| *n == name).unwrap().1
}

#[test]
fn symbol_tables_hold_the_exported_names() {
    for (i, name) in CORE.iter().enumerate() {
        assert_eq!(core_symbol(i), Some(*name));
    }
    assert_eq!(core_symbol(4), None);
    for (i, name) in FLAT.iter().enumerate() {
        assert_eq!(flat_symbol(i), Some(*name));
    }
    assert_eq!(flat_symbol(8), None);
    assert_eq!(steamapps_candidates(), vec![V010, V009, V008]);
}

#[test]
fn complete_module_loads_every_address() {
    let exports = stub(&[V010, V009, V008]);
    let (end, asked) = drive(&exports);
    let api = match end {
        Ok(api) => api,
        Err(failure) => panic!("load failed: {}", failure.message()),
    };
    assert_eq!(api.init, address_of(&exports, "SteamAPI_Init"));
    assert_eq!(api.shutdown, address_of(&exports, "SteamAPI_Shutdown"));
    assert_eq!(api.is_running, address_of(&exports, "SteamAPI_IsSteamRunning"));
    assert_eq!(api.run_callbacks, address_of(&exports, "SteamAPI_RunCallbacks"));
    assert_eq!(api.steamapps_getter_name, V010);
    assert_eq!(api.steamapps_getter, address_of(&exports, V010));
    assert_eq!(api.apps.bis_dlc_installed, address_of(&exports, FLAT[0]));
    assert_eq!(api.apps.bis_low_violence, address_of(&exports, FLAT[1]));
    assert_eq!(api.apps.bis_subscribed, address_of(&exports, FLAT[2]));
    assert_eq!(api.apps.bis_subscribed_app, address_of(&exports, FLAT[3]));
    assert_eq!(api.apps.bis_subscribed_from_family_sharing, address_of(&exports, FLAT[4]));
    assert_eq!(api.apps.bis_subscribed_from_free_weekend, address_of(&exports, FLAT[5]));
    assert_eq!(api.apps.bis_vac_banned, address_of(&exports, FLAT[6]));
    assert_eq!(api.apps.get_dlc_count, address_of(&exports, FLAT[7]));

    let mut plan: Vec<&str> = Vec::new();
    plan.extend_from_slice(&CORE);
    plan.push(V010);
    plan.extend_from_slice(&FLAT);
    assert_eq!(asked, plan);
}

#[test]
fn first_symbol_asked_is_init() {
    let loader = SteamApi::load(module());
    assert_eq!(loader.pending(), "SteamAPI_Init");
}

#[test]
fn module_with_three_of_four_core_symbols_fails_to_load() {
    for (i, missing) in CORE.iter().enumerate() {
        let exports = without(stub(&[V010, V009, V008]), missing);
        let (end, asked) = drive(&exports);
        match end {
            Err(ClientError::Load(cause)) => {
                assert!(matches!(cause, libloading::Error::DlOpenUnknown))
            },
            _ => panic!("load must fail with a load failure when {} is missing", missing),
        }
        assert_eq!(asked, CORE[..=i].to_vec());
    }
}

#[test]
fn accessor_falls_back_to_first_exported_candidate() {
    let exports = stub(&[V009, V008]);
    let (end, asked) = drive(&exports);
    let api = match end {
        Ok(api) => api,
        Err(failure) => panic!("load failed: {}", failure.message()),
    };
    assert_eq!(api.steamapps_getter_name, "SteamAPI_SteamApps_v009");
    assert_eq!(api.steamapps_getter, address_of(&exports, V009));
    assert!(asked.contains(&V010));
    assert!(asked.contains(&V009));
    assert!(!asked.contains(&V008));
}

#[test]
fn accessor_falls_back_to_oldest_candidate() {
    let exports = stub(&[V008]);
    let (end, asked) = drive(&exports);
    let api = match end {
        Ok(api) => api,
        Err(failure) => panic!("load failed: {}", failure.message()),
    };
    assert_eq!(api.steamapps_getter_name, "SteamAPI_SteamApps_v008");
    assert_eq!(api.steamapps_getter, address_of(&exports, V008));
    assert_eq!(asked[4..7].to_vec(), vec![V010, V009, V008]);
}

#[test]
fn module_without_any_candidate_reports_the_last_failure() {
    let exports = stub(&[]);
    let (end, asked) = drive(&exports);
    match end {
        Err(ClientError::VersionResolution(cause)) => {
            assert!(matches!(cause, libloading::Error::IncompatibleSize));
        },
        _ => panic!("load must fail with a version resolution failure"),
    }
    let mut plan: Vec<&str> = Vec::new();
    plan.extend_from_slice(&CORE);
    plan.extend_from_slice(&[V010, V009, V008]);
    assert_eq!(asked, plan);
}

#[test]
fn missing_flat_symbol_fails_to_load() {
    for (i, missing) in FLAT.iter().enumerate() {
        let exports = without(stub(&[V010, V009, V008]), missing);
        let (end, asked) = drive(&exports);
        assert!(matches!(end, Err(ClientError::Load(libloading::Error::DlOpenUnknown))));
        assert_eq!(asked.len(), 4 + 1 + i + 1);
        assert_eq!(asked[asked.len() - 1], *missing);
    }
}

#[test]
fn loader_keeps_the_module_it_was_given() {
    let loader = SteamApi::load(module());
    let shown = format!("{:?}", loader.library());
    assert!(shown.starts_with("Library@"));
}
