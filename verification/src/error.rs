//! The failures that loading and starting the runtime can end in.

use vstd::prelude::*;
use vstd::std_specs::convert::FromSpecImpl;
use vstd::string::StringExecFns;

use crate::module::{describe, loader_text};

verus! {

/// Why no usable runtime handle or interface could be produced.
#[derive(Debug)]
pub enum ClientError {
    /// The module could not be opened, or a required symbol is missing.
    Load(libloading::Error),
    /// None of the candidate names of a versioned accessor resolved; the
    /// cause is the failure of the last candidate tried.
    VersionResolution(libloading::Error),
    /// The native init entry point reported failure.
    SteamInitFailed,
    /// The accessor of the named interface returned a null token.
    InterfaceUnavailable(&'static str),
}

impl ClientError {
    /// The human-readable account of this failure.
    pub open spec fn text(&self) -> Seq<char> {
        match self {
            ClientError::Load(cause) => "failed to load steamworks runtime: "@ + loader_text(*cause),
            ClientError::VersionResolution(cause) => "failed to resolve steamworks interface: "@
                + loader_text(*cause),
            ClientError::SteamInitFailed => "SteamAPI_Init failed"@,
            ClientError::InterfaceUnavailable(name) => "Steam interface unavailable: "@ + name@,
        }
    }

    /// Renders the failure for a user. Load and version failures carry the
    /// platform loader's own text after a fixed prefix.
    pub fn message(&self) -> (rendered: String)
        ensures
            rendered@ == self.text(),
    {
        match self {
            ClientError::Load(cause) => {
                let detail = describe(cause);
                String::from_str("failed to load steamworks runtime: ").concat(detail.as_str())
            },
            ClientError::VersionResolution(cause) => {
                let detail = describe(cause);
                String::from_str("failed to resolve steamworks interface: ").concat(
                    detail.as_str(),
                )
            },
            ClientError::SteamInitFailed => String::from_str("SteamAPI_Init failed"),
            ClientError::InterfaceUnavailable(name) => String::from_str(
                "Steam interface unavailable: ",
            ).concat(name),
        }
    }
}

impl From<libloading::Error> for ClientError {
    /// A bare loader failure is a load failure.
    fn from(value: libloading::Error) -> (converted: ClientError) {
        ClientError::Load(value)
    }
}

impl FromSpecImpl<libloading::Error> for ClientError {
    open spec fn obeys_from_spec() -> bool {
        true
    }

    open spec fn from_spec(value: libloading::Error) -> ClientError {
        ClientError::Load(value)
    }
}

} // verus!
