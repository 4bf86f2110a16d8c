//! The client's life cycle, the interface wrappers, the platform names and
//! the failure messages.

use aperture::client::Client;
use aperture::error::ClientError;
use aperture::loader::{Progress, SteamApi};
use aperture::platform::{library_name, Platform};
use aperture::steamapps::{CountCall, FlagCall, ISteamApps, SteamApps, SteamAppsFns};

/// A runtime loaded from a stub that exports everything; symbol number `n`
/// of the plan gets the address `100 + n`.
fn loaded() -> SteamApi {
    let module: libloading::Library = libloading::os::unix::Library::this().into();
    let mut loader = SteamApi::load(module);
    let mut n: usize = 0;
    loop {
        match loader.advance(Ok(100 + n)) {
            Progress::Need(next) => loader = next,
            Progress::Done(Ok(api)) => return api,
            Progress::Done(Err(failure)) => panic!("load failed: {}", failure.message()),
        }
        n += 1;
    }
}

fn started() -> Client {
    match Client::init(loaded(), true) {
        Ok(client) => client,
        Err(failure) => panic!("init failed: {}", failure.message()),
    }
}

fn table() -> SteamAppsFns {
    SteamAppsFns {
        bis_dlc_installed: 11,
        bis_low_violence: 12,
        bis_subscribed: 13,
        bis_subscribed_app: 14,
        bis_subscribed_from_family_sharing: 15,
        bis_subscribed_from_free_weekend: 16,
        bis_vac_banned: 17,
        get_dlc_count: 18,
    }
}

#[test]
fn each_platform_has_its_own_library_name() {
    assert_eq!(library_name(Platform::Windows), "steam_api64.dll");
    assert_eq!(library_name(Platform::Linux), "libsteam_api.so");
    assert_eq!(library_name(Platform::MacOs), "libsteam_api.dylib");
    assert_ne!(library_name(Platform::Windows), library_name(Platform::Linux));
    assert_ne!(library_name(Platform::Windows), library_name(Platform::MacOs));
    assert_ne!(library_name(Platform::Linux), library_name(Platform::MacOs));
}

#[test]
fn null_token_yields_no_wrapper() {
    let fns = table();
    assert!(ISteamApps::from_address(0).is_null());
    assert!(SteamApps::from_raw(ISteamApps::from_address(0), &fns).is_none());
}

#[test]
fn wrapper_forwards_token_and_arguments_unchanged() {
    let fns = table();
    let token = ISteamApps::from_address(0xdead_beef);
    assert!(!token.is_null());
    assert_eq!(token.address(), 0xdead_beef);
    let apps = match SteamApps::from_raw(token, &fns) {
        Some(apps) => apps,
        None => panic!("a token that is not null must yield a wrapper"),
    };
    assert_eq!(apps.is_subscribed_app(440), FlagCall::ForApp { entry: 14, token, app_id: 440 });
    assert_eq!(apps.is_dlc_installed(u32::MAX), FlagCall::ForApp { entry: 11, token, app_id: u32::MAX });
    assert_eq!(apps.is_dlc_installed(0), FlagCall::ForApp { entry: 11, token, app_id: 0 });
    assert_eq!(apps.is_subscribed(), FlagCall::Plain { entry: 13, token });
    assert_eq!(apps.is_low_violence(), FlagCall::Plain { entry: 12, token });
    assert_eq!(apps.is_subscribed_from_family_sharing(), FlagCall::Plain { entry: 15, token });
    assert_eq!(apps.is_subscribed_from_free_weekend(), FlagCall::Plain { entry: 16, token });
    assert_eq!(apps.is_vac_banned(), FlagCall::Plain { entry: 17, token });
    assert_eq!(apps.get_dlc_count(), CountCall { entry: 18, token });
}

#[test]
fn runtime_wraps_tokens_over_its_own_table() {
    let api = loaded();
    assert!(api.steamapps(ISteamApps::from_address(0)).is_none());
    let token = ISteamApps::from_address(7);
    let apps = match api.steamapps(token) {
        Some(apps) => apps,
        None => panic!("a token that is not null must yield a wrapper"),
    };
    assert_eq!(apps.is_subscribed(), FlagCall::Plain { entry: api.apps.bis_subscribed, token });
    assert_eq!(api.apps.bis_subscribed, 100 + 4 + 1 + 2);
}

#[test]
fn init_returning_false_is_an_init_failure() {
    match Client::init(loaded(), false) {
        Err(ClientError::SteamInitFailed) => {},
        _ => panic!("init must fail"),
    }
}

#[test]
fn initialized_client_hands_out_entry_points_and_wrappers() {
    let client = started();
    assert_eq!(client.run_callbacks(), Some(103));
    assert_eq!(client.is_steam_running(), Some(102));
    assert_eq!(client.apps_accessor(), Some(104));
    let token = ISteamApps::from_address(9);
    let apps = match client.apps(token) {
        Ok(apps) => apps,
        Err(failure) => panic!("no wrapper: {}", failure.message()),
    };
    assert_eq!(apps.is_subscribed(), FlagCall::Plain { entry: 107, token });
    assert_eq!(apps.is_low_violence(), FlagCall::Plain { entry: 106, token });
    assert_eq!(apps.is_subscribed_app(440), FlagCall::ForApp { entry: 108, token, app_id: 440 });
    assert_eq!(apps.is_subscribed_from_family_sharing(), FlagCall::Plain { entry: 109, token });
    assert_eq!(apps.is_subscribed_from_free_weekend(), FlagCall::Plain { entry: 110, token });
    assert_eq!(apps.is_vac_banned(), FlagCall::Plain { entry: 111, token });
    assert_eq!(apps.dlc_count(), CountCall { entry: 112, token });
    assert_eq!(apps.is_dlc_installed(570), FlagCall::ForApp { entry: 105, token, app_id: 570 });
}

#[test]
fn null_token_is_reported_as_interface_unavailable() {
    let client = started();
    match client.apps(ISteamApps::from_address(0)) {
        Err(ClientError::InterfaceUnavailable(name)) => assert_eq!(name, "ISteamApps"),
        _ => panic!("a null token must not yield a wrapper"),
    };
}

#[test]
fn shutdown_twice_hands_out_the_native_shutdown_once() {
    let mut client = started();
    assert_eq!(client.shutdown(), Some(101));
    assert_eq!(client.shutdown(), None);
    assert_eq!(client.shutdown(), None);
}

#[test]
fn nothing_is_handed_out_after_shutdown() {
    let mut client = started();
    assert_eq!(client.shutdown(), Some(101));
    match client.apps(ISteamApps::from_address(9)) {
        Err(ClientError::InterfaceUnavailable(name)) => assert_eq!(name, "ISteamApps"),
        _ => panic!("no wrapper may be handed out after shutdown"),
    };
    assert_eq!(client.apps_accessor(), None);
    assert_eq!(client.run_callbacks(), None);
    assert_eq!(client.is_steam_running(), None);
}

#[test]
fn messages_name_the_failure_and_carry_the_loader_text() {
    assert_eq!(
        ClientError::Load(libloading::Error::DlSymUnknown).message(),
        "failed to load steamworks runtime: dlsym failed, but system did not report the error"
    );
    assert_eq!(
        ClientError::VersionResolution(libloading::Error::IncompatibleSize).message(),
        "failed to resolve steamworks interface: requested type cannot possibly work"
    );
    assert_eq!(ClientError::SteamInitFailed.message(), "SteamAPI_Init failed");
    assert_eq!(
        ClientError::InterfaceUnavailable("ISteamApps").message(),
        "Steam interface unavailable: ISteamApps"
    );
}

#[test]
fn loader_failure_converts_to_load_failure() {
    let failure = ClientError::from(libloading::Error::DlOpenUnknown);
    assert!(matches!(failure, ClientError::Load(libloading::Error::DlOpenUnknown)));
    assert_eq!(
        failure.message(),
        "failed to load steamworks runtime: dlopen failed, but system did not report the error"
    );
}
