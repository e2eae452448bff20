//! The session orchestrator.
//!
//! A [`SyncWorkspace`] owns one directory registry per session.  It
//! establishes the pair of roots (real manifest directory, shadow
//! directory), computes what each resynchronization pass must copy and
//! write, and translates locations and spans between the two trees.  All
//! file reading, copying and writing — and the background watch task — run
//! outside the library on the plans and results computed here.

use vstd::prelude::*;
use crate::copier::{copy_dir_contents, forest_view, shadow_forest, FsEntry};
use crate::error::{DirectoryError, DocumentError, LanguageServerError};
use crate::manifest::{
    canonicalize_path, edit_manifest_dependency_paths, expected_rewrites, is_rewritten_output,
    is_valid_package_manifest, text_is_package, text_parses,
};
use crate::names::manifest_file_name;
use crate::paths::{
    after_last_slash, is_absolute, is_path_in_temp_workspace, joined, join_path, last_segment,
    lsp_temp_prefix, temp_prefix_spec, to_other_root, translated, under_root, up_to_last_slash,
    parent_dir,
};
use crate::registry::{registry_get, registry_insert, registry_new, registry_view, Directory,
    DirectoryMap, role_key};
use crate::span::Span;
use crate::strutil::contains_seq;

verus! {

/// One session's shadow-workspace state: the registry of its two roots.
pub struct SyncWorkspace {
    pub directories: DirectoryMap,
}

/// Everything one resynchronization pass must materialize in the shadow
/// tree: the pruned forest to copy and the rewritten manifest text to write.
pub struct ResyncPlan {
    /// The shadow root the forest is mirrored under.
    pub temp_dir: String,
    /// The entries to copy, pruned to the relevant files.
    pub entries: Vec<FsEntry>,
    /// The text to write as the shadow manifest.
    pub shadow_manifest_text: String,
    /// Where the shadow manifest lives.
    pub temp_manifest_path: String,
}

impl SyncWorkspace {
    /// The registry's contents, keyed by [`role_key`].
    pub open spec fn dirs(self) -> Map<int, Seq<char>> {
        registry_view(self.directories)
    }

    /// A fresh session holds no directories.
    pub fn new() -> (r: Self)
        ensures
            forall|k: int| !r.dirs().contains_key(k),
    {
        SyncWorkspace { directories: registry_new() }
    }

    /// The real project directory, when the session has one.
    pub fn manifest_dir(&self) -> (r: Result<String, DirectoryError>)
        ensures
            r matches Ok(p) ==> self.dirs().contains_key(role_key(Directory::Manifest)) && p@
                == self.dirs()[role_key(Directory::Manifest)],
            r matches Err(e) ==> !self.dirs().contains_key(role_key(Directory::Manifest)) && e
                == DirectoryError::ManifestDirNotFound,
    {
        match registry_get(&self.directories, Directory::Manifest) {
            Some(p) => Ok(p),
            None => Err(DirectoryError::ManifestDirNotFound),
        }
    }

    /// The shadow directory, when the session has one.
    pub fn temp_dir(&self) -> (r: Result<String, DirectoryError>)
        ensures
            r matches Ok(p) ==> self.dirs().contains_key(role_key(Directory::Temp)) && p@
                == self.dirs()[role_key(Directory::Temp)],
            r matches Err(e) ==> !self.dirs().contains_key(role_key(Directory::Temp)) && e
                == DirectoryError::TempDirNotFound,
    {
        match registry_get(&self.directories, Directory::Temp) {
            Some(p) => Ok(p),
            None => Err(DirectoryError::TempDirNotFound),
        }
    }

    /// The real manifest file's path, when the session has a manifest
    /// directory.
    pub fn manifest_path(&self) -> (r: Option<String>)
        ensures
            r matches Some(p) ==> self.dirs().contains_key(role_key(Directory::Manifest)) && p@
                == joined(self.dirs()[role_key(Directory::Manifest)], "Forc.toml"@),
            r is None ==> !self.dirs().contains_key(role_key(Directory::Manifest)),
    {
        match self.manifest_dir() {
            Ok(dir) => Some(join_path(dir.as_str(), manifest_file_name())),
            Err(_) => None,
        }
    }

    /// The shadow manifest file's path, when the session has a shadow
    /// directory.
    pub fn temp_manifest_path(&self) -> (r: Option<String>)
        ensures
            r matches Some(p) ==> self.dirs().contains_key(role_key(Directory::Temp)) && p@
                == joined(self.dirs()[role_key(Directory::Temp)], "Forc.toml"@),
            r is None ==> !self.dirs().contains_key(role_key(Directory::Temp)),
    {
        match self.temp_dir() {
            Ok(dir) => Some(join_path(dir.as_str(), manifest_file_name())),
            Err(_) => None,
        }
    }

    /// Rewrite a location of the real tree so that it points at the same
    /// file in the shadow tree.
    pub fn workspace_to_temp_url(&self, uri: &str) -> (r: Result<String, DirectoryError>)
        ensures
            !self.dirs().contains_key(role_key(Directory::Temp)) ==> r == Err::<String, _>(
                DirectoryError::TempDirNotFound,
            ),
            self.dirs().contains_key(role_key(Directory::Temp)) && !self.dirs().contains_key(
                role_key(Directory::Manifest),
            ) ==> r == Err::<String, _>(DirectoryError::ManifestDirNotFound),
            self.dirs().contains_key(role_key(Directory::Temp)) && self.dirs().contains_key(
                role_key(Directory::Manifest),
            ) ==> {
                &&& r is Ok <==> under_root(uri@, self.dirs()[role_key(Directory::Manifest)])
                &&& r matches Ok(t) ==> t@ == translated(
                    uri@,
                    self.dirs()[role_key(Directory::Manifest)],
                    self.dirs()[role_key(Directory::Temp)],
                )
                &&& r matches Err(e) ==> e matches DirectoryError::StripPrefixFailed { path }
                    && path@ == uri@
            },
    {
        let temp = match self.temp_dir() {
            Ok(t) => t,
            Err(e) => {
                return Err(e);
            },
        };
        let manifest = match self.manifest_dir() {
            Ok(m) => m,
            Err(e) => {
                return Err(e);
            },
        };
        to_other_root(uri, manifest.as_str(), temp.as_str())
    }

    /// Rewrite a location of the shadow tree so that it points at the same
    /// file in the real tree.
    pub fn temp_to_workspace_url(&self, uri: &str) -> (r: Result<String, DirectoryError>)
        ensures
            !self.dirs().contains_key(role_key(Directory::Manifest)) ==> r == Err::<String, _>(
                DirectoryError::ManifestDirNotFound,
            ),
            self.dirs().contains_key(role_key(Directory::Manifest)) && !self.dirs().contains_key(
                role_key(Directory::Temp),
            ) ==> r == Err::<String, _>(DirectoryError::TempDirNotFound),
            self.dirs().contains_key(role_key(Directory::Manifest)) && self.dirs().contains_key(
                role_key(Directory::Temp),
            ) ==> {
                &&& r is Ok <==> under_root(uri@, self.dirs()[role_key(Directory::Temp)])
                &&& r matches Ok(t) ==> t@ == translated(
                    uri@,
                    self.dirs()[role_key(Directory::Temp)],
                    self.dirs()[role_key(Directory::Manifest)],
                )
                &&& r matches Err(e) ==> e matches DirectoryError::StripPrefixFailed { path }
                    && path@ == uri@
            },
    {
        let manifest = match self.manifest_dir() {
            Ok(m) => m,
            Err(e) => {
                return Err(e);
            },
        };
        let temp = match self.temp_dir() {
            Ok(t) => t,
            Err(e) => {
                return Err(e);
            },
        };
        to_other_root(uri, temp.as_str(), manifest.as_str())
    }

    /// Map a location back to the real tree when it lies in the shadow tree,
    /// and pass it through untouched otherwise (it then points at an
    /// external dependency outside the managed project).
    pub fn to_workspace_url(&self, url: String) -> (r: Option<String>)
        ensures
            !contains_seq(url@, temp_prefix_spec()) ==> (r matches Some(t) && t@ == url@),
            contains_seq(url@, temp_prefix_spec()) ==> {
                &&& r matches Some(t) ==> self.dirs().contains_key(role_key(Directory::Manifest))
                    && self.dirs().contains_key(role_key(Directory::Temp)) && under_root(
                    url@,
                    self.dirs()[role_key(Directory::Temp)],
                ) && t@ == translated(
                    url@,
                    self.dirs()[role_key(Directory::Temp)],
                    self.dirs()[role_key(Directory::Manifest)],
                )
                &&& r is None ==> !(self.dirs().contains_key(role_key(Directory::Manifest))
                    && self.dirs().contains_key(role_key(Directory::Temp)) && under_root(
                    url@,
                    self.dirs()[role_key(Directory::Temp)],
                ))
            },
    {
        if is_path_in_temp_workspace(url.as_str()) {
            match self.temp_to_workspace_url(url.as_str()) {
                Ok(t) => Some(t),
                Err(_) => None,
            }
        } else {
            Some(url)
        }
    }

    /// Rewrite a span of the shadow tree so that it references the same
    /// range of the same file in the real tree; a span outside the shadow
    /// tree is returned as it is.
    pub fn temp_to_workspace_span(&self, span: &Span) -> (r: Result<Span, DirectoryError>)
        ensures
            !contains_seq(span.path@, temp_prefix_spec()) ==> (r matches Ok(s) && s.path@
                == span.path@ && s.start == span.start && s.end == span.end),
            contains_seq(span.path@, temp_prefix_spec()) ==> {
                &&& !self.dirs().contains_key(role_key(Directory::Manifest)) ==> r == Err::<
                    Span,
                    _,
                >(DirectoryError::ManifestDirNotFound)
                &&& self.dirs().contains_key(role_key(Directory::Manifest))
                    && !self.dirs().contains_key(role_key(Directory::Temp)) ==> r == Err::<
                    Span,
                    _,
                >(DirectoryError::TempDirNotFound)
                &&& self.dirs().contains_key(role_key(Directory::Manifest))
                    && self.dirs().contains_key(role_key(Directory::Temp)) ==> {
                    &&& r is Ok <==> under_root(
                        span.path@,
                        self.dirs()[role_key(Directory::Temp)],
                    )
                    &&& r matches Ok(s) ==> s.path@ == translated(
                        span.path@,
                        self.dirs()[role_key(Directory::Temp)],
                        self.dirs()[role_key(Directory::Manifest)],
                    ) && s.start == span.start && s.end == span.end
                    &&& r matches Err(e) ==> e matches DirectoryError::StripPrefixFailed { path }
                        && path@ == span.path@
                }
            },
    {
        if is_path_in_temp_workspace(span.path.as_str()) {
            let converted = match self.temp_to_workspace_url(span.path.as_str()) {
                Ok(t) => t,
                Err(e) => {
                    return Err(e);
                },
            };
            Ok(Span { path: converted, start: span.start, end: span.end })
        } else {
            Ok(Span { path: span.path.clone(), start: span.start, end: span.end })
        }
    }

    /// Relies on `tempfile::Builder::prefix` and `Builder::tempdir`: on
    /// success a fresh temporary directory exists and its final name starts
    /// with the prefix, so the returned path contains it.  The directory is
    /// kept until the session tears it down.
    #[verifier::external_body]
    fn create_prefixed_temp_dir(prefix: &str) -> (r: Option<String>)
        ensures
            r matches Some(p) ==> contains_seq(p@, prefix@),
    {
        match tempfile::Builder::new().prefix(prefix).tempdir() {
            Ok(d) => Some(d.keep().to_string_lossy().to_string()),
            Err(_) => None,
        }
    }

    /// The manifest text handed in by the caller parses as a package
    /// manifest.  `None` stands for a manifest file that could not be read.
    pub open spec fn manifest_text_valid(manifest_text: Option<&str>) -> bool {
        match manifest_text {
            Some(t) => text_parses(t@) && text_is_package(t@),
            None => false,
        }
    }

    /// Establish the session's roots from the real project directory:
    /// validate that its manifest text parses as a package manifest, derive
    /// the project name from the directory's final path segment, allocate a
    /// shadow directory under a fresh temporary directory that carries the
    /// recognizable token, and register both roots.  `manifest_text` is the
    /// content of the directory's manifest file, or `None` when there is no
    /// readable one.  Any failure leaves the registry exactly as it was.
    pub fn create_temp_dir_from_workspace(
        &mut self,
        manifest_dir: &str,
        manifest_text: Option<&str>,
    ) -> (r: Result<(), LanguageServerError>)
        ensures
            r is Ok ==> Self::manifest_text_valid(manifest_text) && after_last_slash(
                manifest_dir@,
            ).len() > 0 && exists|c: Seq<char>|
                is_absolute(c) && contains_seq(c, temp_prefix_spec()) && final(self).dirs() == old(
                    self,
                ).dirs().insert(role_key(Directory::Manifest), manifest_dir@).insert(
                    role_key(Directory::Temp),
                    joined(c, after_last_slash(manifest_dir@)),
                ),
            r is Err ==> final(self).dirs() == old(self).dirs(),
            !Self::manifest_text_valid(manifest_text) ==> r is Err,
            r matches Err(e) ==> {
                ||| (e matches LanguageServerError::DocumentError(
                    DocumentError::ManifestFileNotFound { dir },
                ) && dir@ == manifest_dir@ && !Self::manifest_text_valid(manifest_text))
                ||| (e matches LanguageServerError::DirectoryError(
                    DirectoryError::CantExtractProjectName { dir },
                ) && dir@ == manifest_dir@ && after_last_slash(manifest_dir@).len() == 0)
                ||| e == LanguageServerError::DirectoryError(DirectoryError::TempDirFailed)
                ||| e == LanguageServerError::DirectoryError(DirectoryError::CanonicalizeFailed)
            },
    {
        let valid = match manifest_text {
            Some(t) => is_valid_package_manifest(t),
            None => false,
        };
        if !valid {
            return Err(LanguageServerError::DocumentError(DocumentError::ManifestFileNotFound {
                dir: manifest_dir.to_owned(),
            }));
        }
        let project_name = last_segment(manifest_dir);
        if project_name.as_str().unicode_len() == 0 {
            return Err(LanguageServerError::DirectoryError(
                DirectoryError::CantExtractProjectName { dir: manifest_dir.to_owned() },
            ));
        }
        let temp = match Self::create_prefixed_temp_dir(lsp_temp_prefix()) {
            Some(t) => t,
            None => {
                return Err(LanguageServerError::DirectoryError(DirectoryError::TempDirFailed));
            },
        };
        let canon = match canonicalize_path(temp.as_str()) {
            Some(c) => c,
            None => {
                return Err(LanguageServerError::DirectoryError(
                    DirectoryError::CanonicalizeFailed,
                ));
            },
        };
        // Canonicalization must not lose the token: it is the one mark by
        // which shadow locations are later recognized.
        if !is_path_in_temp_workspace(canon.as_str()) {
            return Err(LanguageServerError::DirectoryError(DirectoryError::TempDirFailed));
        }
        let temp_path = join_path(canon.as_str(), project_name.as_str());
        registry_insert(&mut self.directories, Directory::Manifest, manifest_dir.to_owned());
        registry_insert(&mut self.directories, Directory::Temp, temp_path);
        proof {
            let c = canon@;
            assert(is_absolute(c) && contains_seq(c, temp_prefix_spec()));
        }
        Ok(())
    }

    /// Compute one full resynchronization pass: which files and directories
    /// the shadow tree must hold for the real forest `entries`, and the
    /// manifest text to store, with its relative dependency paths rewritten.
    /// `manifest_text` is the real manifest's current text.  The pass is a
    /// full re-derivation, safe to compute any number of times.
    pub fn resync(&self, entries: &Vec<FsEntry>, manifest_text: &str) -> (r: Result<
        ResyncPlan,
        LanguageServerError,
    >)
        ensures
            !self.dirs().contains_key(role_key(Directory::Manifest)) ==> r == Err::<ResyncPlan, _>(
                LanguageServerError::DirectoryError(DirectoryError::ManifestDirNotFound),
            ),
            self.dirs().contains_key(role_key(Directory::Manifest)) && !self.dirs().contains_key(
                role_key(Directory::Temp),
            ) ==> r == Err::<ResyncPlan, _>(
                LanguageServerError::DirectoryError(DirectoryError::TempDirNotFound),
            ),
            r matches Ok(p) ==> {
                &&& self.dirs().contains_key(role_key(Directory::Manifest)) && self.dirs(
                ).contains_key(role_key(Directory::Temp))
                &&& p.temp_dir@ == self.dirs()[role_key(Directory::Temp)]
                &&& forest_view(p.entries@) == shadow_forest(forest_view(entries@))
                &&& p.temp_manifest_path@ == joined(
                    self.dirs()[role_key(Directory::Temp)],
                    "Forc.toml"@,
                )
                &&& text_parses(manifest_text@)
                &&& is_rewritten_output(manifest_text@, p.shadow_manifest_text@)
            },
            self.dirs().contains_key(role_key(Directory::Manifest)) && self.dirs().contains_key(
                role_key(Directory::Temp),
            ) && !text_parses(manifest_text@) ==> r is Err,
            self.dirs().contains_key(role_key(Directory::Manifest)) && self.dirs().contains_key(
                role_key(Directory::Temp),
            ) && text_parses(manifest_text@) && expected_rewrites(manifest_text@).len() == 0 ==> r
                is Ok,
            r matches Err(e) ==> {
                ||| e == LanguageServerError::DirectoryError(DirectoryError::ManifestDirNotFound)
                ||| e == LanguageServerError::DirectoryError(DirectoryError::TempDirNotFound)
                ||| (e matches LanguageServerError::DocumentError(DocumentError::IOError {
                    path,
                    error,
                }) && path@ == joined(self.dirs()[role_key(Directory::Manifest)], "Forc.toml"@)
                    && !text_parses(manifest_text@))
                ||| (e == LanguageServerError::DirectoryError(DirectoryError::CanonicalizeFailed)
                    && text_parses(manifest_text@) && expected_rewrites(manifest_text@).len() > 0)
            },
    {
        let manifest = match self.manifest_dir() {
            Ok(m) => m,
            Err(e) => {
                return Err(LanguageServerError::DirectoryError(e));
            },
        };
        let temp = match self.temp_dir() {
            Ok(t) => t,
            Err(e) => {
                return Err(LanguageServerError::DirectoryError(e));
            },
        };
        let shadow_entries = copy_dir_contents(entries);
        let manifest_path = join_path(manifest.as_str(), manifest_file_name());
        let new_text = match edit_manifest_dependency_paths(
            manifest.as_str(),
            manifest_path.as_str(),
            manifest_text,
        ) {
            Ok(t) => t,
            Err(e) => {
                return Err(e);
            },
        };
        let temp_manifest = join_path(temp.as_str(), manifest_file_name());
        Ok(
            ResyncPlan {
                temp_dir: temp,
                entries: shadow_entries,
                shadow_manifest_text: new_text,
                temp_manifest_path: temp_manifest,
            },
        )
    }

    /// The directory to remove at teardown: the parent temporary directory
    /// that the shadow root was allocated under.  Removal itself is
    /// best-effort and happens outside the library.
    pub fn temp_dir_parent(&self) -> (r: Option<String>)
        ensures
            r matches Some(p) ==> self.dirs().contains_key(role_key(Directory::Temp)) && p@
                == up_to_last_slash(self.dirs()[role_key(Directory::Temp)]),
            r is None ==> !self.dirs().contains_key(role_key(Directory::Temp)),
    {
        match self.temp_dir() {
            Ok(t) => Some(parent_dir(t.as_str())),
            Err(_) => None,
        }
    }
}

} // verus!
