//! Shadow-workspace synchronization for a language service.
//!
//! The library keeps a private, disposable mirror (the *shadow tree*) of a
//! user's project so that analysis can run on the mirror without touching the
//! real files.  It verifies the logic of that synchronization: translating
//! locations between the real tree and the shadow tree, deciding which files a
//! selective copy takes, rewriting relative dependency paths in the project
//! manifest, and the life cycle of the watcher that keeps the shadow manifest
//! fresh.
//!
//! Paths follow the Unix model throughout: segments are separated by `/` and
//! an absolute path is one that starts with `/`.

pub mod error;
pub mod strutil;
pub mod paths;
pub mod names;
pub mod copier;
pub mod manifest;
pub mod registry;
pub mod span;
pub mod item;
pub mod watcher;
pub mod sync;
