//! The apps interface: its opaque token, its table of flat calls, and the
//! scoped wrapper that pairs the two.
//!
//! Every query of the wrapper is answered with the one native call that it
//! stands for: the address to invoke, the token as the first argument, and
//! the caller's argument unchanged. Whoever makes the call hands its result
//! back as it came.

use vstd::prelude::*;

verus! {

/// Opaque token for the native apps interface: the address that the accessor
/// returned. It is never dereferenced, only compared with null and passed
/// back as the first argument of a flat call.
#[derive(Clone, Copy, Debug, PartialEq, Eq, Structural)]
pub struct ISteamApps {
    address: usize,
}

impl ISteamApps {
    /// The address that this token stands for.
    pub closed spec fn spec_address(&self) -> usize {
        self.address
    }

    /// Whether this is the null token, which means "interface unavailable".
    pub open spec fn spec_is_null(&self) -> bool {
        self.spec_address() == 0
    }

    /// The token for the address that an accessor returned.
    pub fn from_address(address: usize) -> (token: ISteamApps)
        ensures
            token.spec_address() == address,
    {
        ISteamApps { address }
    }

    /// The address to pass back to the runtime.
    #[verifier::when_used_as_spec(spec_address)]
    pub fn address(&self) -> (address: usize)
        ensures
            address == self.spec_address(),
    {
        self.address
    }

    /// Whether this is the null token.
    #[verifier::when_used_as_spec(spec_is_null)]
    pub fn is_null(&self) -> (null: bool)
        ensures
            null == self.spec_is_null(),
    {
        self.address == 0
    }
}

/// The addresses of the flat calls of the apps interface, as resolved from
/// the module. Plain addresses: copied freely, never changed.
#[derive(Clone, Copy, Debug, PartialEq, Eq, Structural)]
pub struct SteamAppsFns {
    pub bis_dlc_installed: usize,
    pub bis_low_violence: usize,
    pub bis_subscribed: usize,
    pub bis_subscribed_app: usize,
    pub bis_subscribed_from_family_sharing: usize,
    pub bis_subscribed_from_free_weekend: usize,
    pub bis_vac_banned: usize,
    pub get_dlc_count: usize,
}

/// A flat call that answers with a boolean: the address to invoke and the
/// arguments to pass.
#[derive(Clone, Copy, Debug, PartialEq, Eq, Structural)]
pub enum FlagCall {
    /// Invoke `entry(token)`.
    Plain { entry: usize, token: ISteamApps },
    /// Invoke `entry(token, app_id)`.
    ForApp { entry: usize, token: ISteamApps, app_id: u32 },
}

/// A flat call that answers with an unsigned count: invoke `entry(token)`.
#[derive(Clone, Copy, Debug, PartialEq, Eq, Structural)]
pub struct CountCall {
    pub entry: usize,
    pub token: ISteamApps,
}

/// An apps interface token together with the table of calls that take it.
/// It borrows the table, so it cannot outlive the runtime handle that owns
/// the table; and it never holds the null token.
pub struct SteamApps<'a> {
    ptr: ISteamApps,
    fns: &'a SteamAppsFns,
}

impl<'a> SteamApps<'a> {
    #[verifier::type_invariant]
    closed spec fn inv(&self) -> bool {
        !self.ptr.is_null()
    }

    /// The token that every call of this wrapper passes.
    pub closed spec fn token(&self) -> ISteamApps {
        self.ptr
    }

    /// The call table that this wrapper borrows.
    pub closed spec fn table(&self) -> SteamAppsFns {
        *self.fns
    }

    /// Pairs a token with the call table. A null token yields `None`, any
    /// other a wrapper for exactly that token and table.
    pub fn from_raw(ptr: ISteamApps, fns: &'a SteamAppsFns) -> (wrapper: Option<SteamApps<'a>>)
        ensures
            wrapper is None <==> ptr.is_null(),
            wrapper matches Some(w) ==> (w.token() == ptr && w.table() == *fns),
    {
        if ptr.is_null() {
            None
        } else {
            Some(SteamApps { ptr, fns })
        }
    }

    /// The call that tells whether the user owns the running application.
    pub fn is_subscribed(&self) -> (call: FlagCall)
        ensures
            !self.token().is_null(),
            call == (FlagCall::Plain { entry: self.table().bis_subscribed, token: self.token() }),
    {
        proof {
            use_type_invariant(self);
        }
        FlagCall::Plain { entry: self.fns.bis_subscribed, token: self.ptr }
    }

    /// The call that tells whether the low-violence depot is in use.
    pub fn is_low_violence(&self) -> (call: FlagCall)
        ensures
            !self.token().is_null(),
            call == (FlagCall::Plain { entry: self.table().bis_low_violence, token: self.token() }),
    {
        proof {
            use_type_invariant(self);
        }
        FlagCall::Plain { entry: self.fns.bis_low_violence, token: self.ptr }
    }

    /// The call that tells whether the user owns application `app_id`.
    pub fn is_subscribed_app(&self, app_id: u32) -> (call: FlagCall)
        ensures
            !self.token().is_null(),
            call == (FlagCall::ForApp {
                entry: self.table().bis_subscribed_app,
                token: self.token(),
                app_id,
            }),
    {
        proof {
            use_type_invariant(self);
        }
        FlagCall::ForApp { entry: self.fns.bis_subscribed_app, token: self.ptr, app_id }
    }

    /// The call that tells whether the licence comes from family sharing.
    pub fn is_subscribed_from_family_sharing(&self) -> (call: FlagCall)
        ensures
            !self.token().is_null(),
            call == (FlagCall::Plain {
                entry: self.table().bis_subscribed_from_family_sharing,
                token: self.token(),
            }),
    {
        proof {
            use_type_invariant(self);
        }
        FlagCall::Plain { entry: self.fns.bis_subscribed_from_family_sharing, token: self.ptr }
    }

    /// The call that tells whether the licence comes from a free weekend.
    pub fn is_subscribed_from_free_weekend(&self) -> (call: FlagCall)
        ensures
            !self.token().is_null(),
            call == (FlagCall::Plain {
                entry: self.table().bis_subscribed_from_free_weekend,
                token: self.token(),
            }),
    {
        proof {
            use_type_invariant(self);
        }
        FlagCall::Plain { entry: self.fns.bis_subscribed_from_free_weekend, token: self.ptr }
    }

    /// The call that tells whether the user is banned by anti-cheat.
    pub fn is_vac_banned(&self) -> (call: FlagCall)
        ensures
            !self.token().is_null(),
            call == (FlagCall::Plain { entry: self.table().bis_vac_banned, token: self.token() }),
    {
        proof {
            use_type_invariant(self);
        }
        FlagCall::Plain { entry: self.fns.bis_vac_banned, token: self.ptr }
    }

    /// The call that counts the add-ons of the running application.
    pub fn get_dlc_count(&self) -> (call: CountCall)
        ensures
            !self.token().is_null(),
            call == (CountCall { entry: self.table().get_dlc_count, token: self.token() }),
    {
        proof {
            use_type_invariant(self);
        }
        CountCall { entry: self.fns.get_dlc_count, token: self.ptr }
    }

    /// The call that tells whether add-on `app_id` is installed.
    pub fn is_dlc_installed(&self, app_id: u32) -> (call: FlagCall)
        ensures
            !self.token().is_null(),
            call == (FlagCall::ForApp {
                entry: self.table().bis_dlc_installed,
                token: self.token(),
                app_id,
            }),
    {
        proof {
            use_type_invariant(self);
        }
        FlagCall::ForApp { entry: self.fns.bis_dlc_installed, token: self.ptr, app_id }
    }
}

} // verus!
