//! The file names and the extension that make a file relevant to the shadow
//! tree.
//!
//! The values come from the `sway_utils` crate, which is the authority on
//! them; each wrapper states the constant's value exactly as that crate's
//! source defines it.

use vstd::prelude::*;

verus! {

/// Relies on `sway_utils::constants::MANIFEST_FILE_NAME`, whose value is
/// `"Forc.toml"`.
#[verifier::external_body]
pub fn manifest_file_name() -> (r: &'static str)
    ensures
        r@ == "Forc.toml"@,
{
    sway_utils::constants::MANIFEST_FILE_NAME
}

/// Relies on `sway_utils::constants::LOCK_FILE_NAME`, whose value is
/// `"Forc.lock"`.
#[verifier::external_body]
pub fn lock_file_name() -> (r: &'static str)
    ensures
        r@ == "Forc.lock"@,
{
    sway_utils::constants::LOCK_FILE_NAME
}

/// Relies on `sway_utils::SWAY_EXTENSION`, whose value is `"sw"`.
#[verifier::external_body]
pub fn sway_extension() -> (r: &'static str)
    ensures
        r@ == "sw"@,
{
    sway_utils::SWAY_EXTENSION
}

} // verus!
