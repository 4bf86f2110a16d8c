//! The platform loader's types, as far as this crate touches them.

use vstd::prelude::*;

verus! {

/// `libloading::Library`, the owned handle of an open module. It is carried
/// through to keep the module mapped; nothing here looks inside.
#[verifier::external_type_specification]
#[verifier::external_body]
pub struct ExLibrary(libloading::Library);

/// `libloading::Error`, the platform loader's own account of a failure. Its
/// content is never inspected here; it is kept and handed on.
#[verifier::external_type_specification]
#[verifier::external_body]
pub struct ExLoaderError(libloading::Error);

/// The text that `libloading::Error` displays for `cause`.
pub uninterp spec fn loader_text(cause: libloading::Error) -> Seq<char>;

/// Calls the `Display` impl of `libloading::Error` through `to_string`. The
/// text is a function of the error value alone: each variant prints either a
/// fixed sentence or the description that the system loader left in it.
#[verifier::external_body]
pub(crate) fn describe(cause: &libloading::Error) -> (text: String)
    ensures
        text@ == loader_text(*cause),
{
    cause.to_string()
}

} // verus!
