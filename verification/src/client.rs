//! Client facade: the life of a runtime handle after it is loaded.
//!
//! A client exists only for a runtime whose native init has succeeded. While
//! it is initialized it hands out the entry points to invoke and wrappers
//! for the interfaces; once it is shut down it hands out nothing, so that
//! no call can follow the native shutdown into the module.

use vstd::prelude::*;

use crate::error::ClientError;
use crate::loader::SteamApi;
use crate::steamapps::{CountCall, FlagCall, ISteamApps, SteamApps};

verus! {

/// Owns a loaded runtime and remembers whether it is initialized.
pub struct Client {
    api: SteamApi,
    initialized: bool,
}

/// The state of a client.
pub struct ClientView {
    /// The loaded runtime that the client owns.
    pub api: SteamApi,
    /// Whether native init has succeeded and native shutdown has not been
    /// handed out since.
    pub initialized: bool,
}

impl ClientView {
    /// The entry point to invoke for a shutdown, and the state afterwards:
    /// the native shutdown is due only from the initialized state, and the
    /// state is never initialized afterwards.
    pub open spec fn shutdown(self) -> (ClientView, Option<usize>) {
        (
            ClientView { api: self.api, initialized: false },
            if self.initialized {
                Some(self.api.shutdown)
            } else {
                None
            },
        )
    }

    /// The entry point `entry` if the client may call into the module, else
    /// nothing.
    pub open spec fn permit(self, entry: usize) -> Option<usize> {
        if self.initialized {
            Some(entry)
        } else {
            None
        }
    }

    /// Whether a wrapper is handed out for `token`: only while initialized,
    /// and never for the null token.
    pub open spec fn grants(self, token: ISteamApps) -> bool {
        self.initialized && !token.is_null()
    }
}

impl View for Client {
    type V = ClientView;

    closed spec fn view(&self) -> ClientView {
        ClientView { api: self.api, initialized: self.initialized }
    }
}

/// The name under which the apps interface is reported as unavailable.
pub open spec fn apps_interface_name() -> Seq<char> {
    "ISteamApps"@
}

impl Client {
    /// Makes the client for a loaded runtime from what its native init
    /// returned. `started` is that return value: on `true` the client is
    /// initialized and owns `api`; on `false` there is no client, the
    /// runtime is released, and the failure is `SteamInitFailed`.
    pub fn init(api: SteamApi, started: bool) -> (client: Result<Client, ClientError>)
        ensures
            started ==> (client matches Ok(c) && c@ == ClientView { api, initialized: true }),
            !started ==> client matches Err(ClientError::SteamInitFailed),
    {
        if !started {
            return Err(ClientError::SteamInitFailed);
        }
        Ok(Client { api, initialized: true })
    }

    /// The accessor to invoke for an apps interface token, by the name under
    /// which it was found; nothing once the client is shut down.
    pub fn apps_accessor(&self) -> (entry: Option<usize>)
        ensures
            entry == self@.permit(self@.api.steamapps_getter),
    {
        if self.initialized {
            Some(self.api.steamapps_getter)
        } else {
            None
        }
    }

    /// Wraps the token that the apps accessor returned. A null token, or a
    /// client that is shut down, yields `InterfaceUnavailable` with the
    /// interface's name; otherwise the wrapper holds this token and borrows
    /// this client's call table.
    pub fn apps(&self, token: ISteamApps) -> (apps: Result<Apps<'_>, ClientError>)
        ensures
            apps is Ok <==> self@.grants(token),
            apps matches Ok(a) ==> (a.inner().token() == token && a.inner().table()
                == self@.api.apps),
            apps matches Err(failure) ==> (failure matches ClientError::InterfaceUnavailable(name)
                && name@ == apps_interface_name()),
    {
        if !self.initialized {
            return Err(ClientError::InterfaceUnavailable("ISteamApps"));
        }
        match self.api.steamapps(token) {
            Some(inner) => Ok(Apps { inner }),
            None => Err(ClientError::InterfaceUnavailable("ISteamApps")),
        }
    }

    /// The callback pump to invoke; nothing once the client is shut down.
    /// No cadence is kept here: the caller pumps as often as it needs.
    pub fn run_callbacks(&self) -> (entry: Option<usize>)
        ensures
            entry == self@.permit(self@.api.run_callbacks),
    {
        if self.initialized {
            Some(self.api.run_callbacks)
        } else {
            None
        }
    }

    /// The query to invoke to learn whether the native runtime is active;
    /// nothing once the client is shut down.
    pub fn is_steam_running(&self) -> (entry: Option<usize>)
        ensures
            entry == self@.permit(self@.api.is_running),
    {
        if self.initialized {
            Some(self.api.is_running)
        } else {
            None
        }
    }

    /// Shuts the client down. From the initialized state the native shutdown
    /// entry point comes back, to be invoked once; from any other state
    /// nothing comes back and nothing changes.
    pub fn shutdown(&mut self) -> (entry: Option<usize>)
        ensures
            (final(self)@, entry) == old(self)@.shutdown(),
    {
        if self.initialized {
            self.initialized = false;
            Some(self.api.shutdown)
        } else {
            None
        }
    }
}

/// Shutdown is idempotent: after one shutdown a second hands out no native
/// call and leaves the state as it is.
pub proof fn lemma_shutdown_is_idempotent(client: ClientView)
    ensures
        client.shutdown().0.shutdown() == (client.shutdown().0, None::<usize>),
{
}

/// After a shutdown no interface wrapper is handed out, whatever the token,
/// and no entry point is permitted.
pub proof fn lemma_nothing_after_shutdown(client: ClientView, token: ISteamApps, entry: usize)
    ensures
        !client.shutdown().0.grants(token),
        client.shutdown().0.permit(entry) is None,
{
}

/// The apps interface of an initialized client.
pub struct Apps<'a> {
    inner: SteamApps<'a>,
}

impl<'a> Apps<'a> {
    /// The wrapper that every query goes through.
    pub closed spec fn inner(&self) -> SteamApps<'a> {
        self.inner
    }

    /// The call that tells whether the user owns the running application.
    pub fn is_subscribed(&self) -> (call: FlagCall)
        ensures
            call == (FlagCall::Plain {
                entry: self.inner().table().bis_subscribed,
                token: self.inner().token(),
            }),
    {
        self.inner.is_subscribed()
    }

    /// The call that tells whether the low-violence depot is in use.
    pub fn is_low_violence(&self) -> (call: FlagCall)
        ensures
            call == (FlagCall::Plain {
                entry: self.inner().table().bis_low_violence,
                token: self.inner().token(),
            }),
    {
        self.inner.is_low_violence()
    }

    /// The call that tells whether the user owns application `app_id`.
    pub fn is_subscribed_app(&self, app_id: u32) -> (call: FlagCall)
        ensures
            call == (FlagCall::ForApp {
                entry: self.inner().table().bis_subscribed_app,
                token: self.inner().token(),
                app_id,
            }),
    {
        self.inner.is_subscribed_app(app_id)
    }

    /// The call that tells whether the licence comes from family sharing.
    pub fn is_subscribed_from_family_sharing(&self) -> (call: FlagCall)
        ensures
            call == (FlagCall::Plain {
                entry: self.inner().table().bis_subscribed_from_family_sharing,
                token: self.inner().token(),
            }),
    {
        self.inner.is_subscribed_from_family_sharing()
    }

    /// The call that tells whether the licence comes from a free weekend.
    pub fn is_subscribed_from_free_weekend(&self) -> (call: FlagCall)
        ensures
            call == (FlagCall::Plain {
                entry: self.inner().table().bis_subscribed_from_free_weekend,
                token: self.inner().token(),
            }),
    {
        self.inner.is_subscribed_from_free_weekend()
    }

    /// The call that tells whether the user is banned by anti-cheat.
    pub fn is_vac_banned(&self) -> (call: FlagCall)
        ensures
            call == (FlagCall::Plain {
                entry: self.inner().table().bis_vac_banned,
                token: self.inner().token(),
            }),
    {
        self.inner.is_vac_banned()
    }

    /// The call that counts the add-ons of the running application.
    pub fn dlc_count(&self) -> (call: CountCall)
        ensures
            call == (CountCall {
                entry: self.inner().table().get_dlc_count,
                token: self.inner().token(),
            }),
    {
        self.inner.get_dlc_count()
    }

    /// The call that tells whether add-on `app_id` is installed.
    pub fn is_dlc_installed(&self, app_id: u32) -> (call: FlagCall)
        ensures
            call == (FlagCall::ForApp {
                entry: self.inner().table().bis_dlc_installed,
                token: self.inner().token(),
                app_id,
            }),
    {
        self.inner.is_dlc_installed(app_id)
    }
}

} // verus!
