//! The per-session directory registry.
//!
//! A session maps each directory role — the real manifest directory and the
//! shadow (temporary) directory — to an absolute path.  The map is a
//! `dashmap::DashMap`, safe under concurrent readers and writers; the
//! verifier sees it through [`registry_view`] and the trusted operations
//! below.

use vstd::prelude::*;
use dashmap::DashMap;

verus! {

/// The role a registered directory plays.
#[derive(Debug, Eq, PartialEq, Hash, Clone, Copy)]
pub enum Directory {
    /// The real project directory holding the manifest file.
    Manifest,
    /// The generated shadow directory.
    Temp,
}

/// The numeric key of a role in the registry's mathematical model.
pub open spec fn role_key(d: Directory) -> int {
    match d {
        Directory::Manifest => 0,
        Directory::Temp => 1,
    }
}

/// The map behind the registry.  Its `DashMap` is opaque to the verifier;
/// the operations below describe it through [`registry_view`].
#[verifier::external_body]
pub struct DirectoryMap {
    inner: DashMap<Directory, String>,
}

/// What the registry holds: the path registered under each role's key.
pub uninterp spec fn registry_view(m: DirectoryMap) -> Map<int, Seq<char>>;

/// Relies on `dashmap::DashMap::new`: a fresh map holds nothing.
#[verifier::external_body]
pub fn registry_new() -> (r: DirectoryMap)
    ensures
        forall|k: int| !registry_view(r).contains_key(k),
{
    DirectoryMap { inner: DashMap::new() }
}

/// Relies on `dashmap::DashMap::insert`: the value replaces whatever the key
/// held before.  `Directory`'s derived `Eq` and `Hash` are structural, so
/// the map's keys coincide with [`role_key`].
#[verifier::external_body]
pub fn registry_insert(m: &mut DirectoryMap, role: Directory, path: String)
    ensures
        registry_view(*final(m)) == registry_view(*old(m)).insert(role_key(role), path@),
{
    m.inner.insert(role, path);
}

/// Relies on `dashmap::DashMap::get`: returns a copy of the value under the
/// key exactly when one is stored.
#[verifier::external_body]
pub fn registry_get(m: &DirectoryMap, role: Directory) -> (r: Option<String>)
    ensures
        match r {
            Some(p) => registry_view(*m).contains_key(role_key(role)) && p@ == registry_view(
                *m,
            )[role_key(role)],
            None => !registry_view(*m).contains_key(role_key(role)),
        },
{
    m.inner.get(&role).map(|item| item.value().clone())
}

} // verus!
