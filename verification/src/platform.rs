//! Platform library resolver: the conventional file name of the runtime
//! library on each supported platform.

use vstd::prelude::*;

verus! {

/// The platforms on which the runtime library is distributed.
#[derive(Clone, Copy, Debug, PartialEq, Eq, Structural)]
pub enum Platform {
    Windows,
    Linux,
    MacOs,
}

/// The file name under which the runtime library is installed on `platform`.
pub open spec fn library_file_name(platform: Platform) -> Seq<char> {
    match platform {
        Platform::Windows => "steam_api64.dll"@,
        Platform::Linux => "libsteam_api.so"@,
        Platform::MacOs => "libsteam_api.dylib"@,
    }
}

/// Selects the one library file name that belongs to `platform`. The name is
/// handed to the system loader as it is; no directory is searched here.
pub fn library_name(platform: Platform) -> (name: &'static str)
    ensures
        name@ == library_file_name(platform),
{
    match platform {
        Platform::Windows => "steam_api64.dll",
        Platform::Linux => "libsteam_api.so",
        Platform::MacOs => "libsteam_api.dylib",
    }
}

/// Two platforms never share a library file name: the name determines the
/// platform.
pub proof fn lemma_library_names_distinct(a: Platform, b: Platform)
    requires
        a != b,
    ensures
        library_file_name(a) != library_file_name(b),
{
    reveal_strlit("steam_api64.dll");
    reveal_strlit("libsteam_api.so");
    reveal_strlit("libsteam_api.dylib");
    assert("steam_api64.dll"@[0] == 's');
    assert("libsteam_api.so"@[0] == 'l');
    assert("steam_api64.dll"@.len() == 15);
    assert("libsteam_api.so"@.len() == 15);
    assert("libsteam_api.dylib"@.len() == 18);
}

} // verus!
