//! Manifest rewriting and whole-session behaviour, run against the real
//! file system and the real TOML editor.

use sway_lsp_sync::copier::FsEntry;
use sway_lsp_sync::error::{DirectoryError, DocumentError, LanguageServerError};
use sway_lsp_sync::manifest::{edit_manifest_dependency_paths, is_valid_package_manifest};
use sway_lsp_sync::paths::is_path_in_temp_workspace;
use sway_lsp_sync::registry::{registry_insert, Directory};
use sway_lsp_sync::sync::SyncWorkspace;

fn file(name: &str) -> FsEntry {
    FsEntry::File { name: name.to_string() }
}

fn dir(name: &str, entries: Vec<FsEntry>) -> FsEntry {
    FsEntry::Dir { name: name.to_string(), entries }
}

/// A sibling pair of directories and a manifest text whose `foo` dependency
/// points from one to the other by a relative path.
fn sibling_project() -> (tempfile::TempDir, tempfile::TempDir, tempfile::TempDir, String) {
    let parent = tempfile::tempdir().unwrap();
    let foo = tempfile::Builder::new().prefix("foo").tempdir_in(parent.path()).unwrap();
    let proj = tempfile::Builder::new().prefix("proj").tempdir_in(parent.path()).unwrap();
    let foo_name = foo.path().file_name().unwrap().to_str().unwrap().to_string();
    let text = format!(
        "[project]\nname = \"demo\"\n\n[dependencies]\nfoo = {{ path = \"../{}\" }}\nbar = {{ path = \"/abs/anywhere\" }}\nbaz = \"1.0.0\"\n",
        foo_name
    );
    (parent, foo, proj, text)
}

#[test]
fn rewrite_replaces_only_the_relative_path() {
    let (_parent, foo, proj, text) = sibling_project();
    let manifest_dir = proj.path().to_str().unwrap().to_string();
    let manifest_path = format!("{}/Forc.toml", manifest_dir);
    let out = edit_manifest_dependency_paths(&manifest_dir, &manifest_path, &text).unwrap();

    let canon = foo.path().canonicalize().unwrap();
    let canon = canon.to_str().unwrap();
    assert!(out.contains(canon), "rewritten path missing: {}", out);
    assert_ne!(out, text);
    // Absent, non-path and absolute-path entries stay byte-identical.
    assert!(out.contains("[project]\nname = \"demo\"\n"));
    assert!(out.contains("bar = { path = \"/abs/anywhere\" }"));
    assert!(out.contains("baz = \"1.0.0\""));
    assert!(!out.contains("../"));
}

#[test]
fn rewrite_twice_is_byte_identical() {
    let (_parent, _foo, proj, text) = sibling_project();
    let manifest_dir = proj.path().to_str().unwrap().to_string();
    let manifest_path = format!("{}/Forc.toml", manifest_dir);
    let once = edit_manifest_dependency_paths(&manifest_dir, &manifest_path, &text).unwrap();
    let again = edit_manifest_dependency_paths(&manifest_dir, &manifest_path, &text).unwrap();
    assert_eq!(once, again);
    // Rewriting the already-rewritten manifest changes nothing: every path
    // in it is absolute by then.
    let third = edit_manifest_dependency_paths(&manifest_dir, &manifest_path, &once).unwrap();
    assert_eq!(third, once);
}

#[test]
fn rewrite_without_dependencies_is_identity() {
    let text = "[project]\nname = \"demo\"\n";
    let out = edit_manifest_dependency_paths("/nowhere", "/nowhere/Forc.toml", text).unwrap();
    assert_eq!(out, text);
}

#[test]
fn invalid_manifest_text_reports_the_path() {
    let r = edit_manifest_dependency_paths("/x", "/x/Forc.toml", "not = = toml");
    match r {
        Err(LanguageServerError::DocumentError(DocumentError::IOError { path, error })) => {
            assert_eq!(path, "/x/Forc.toml");
            assert!(error.contains("Failed to parse TOML"));
        },
        other => panic!("expected a parse error, got {:?}", other.map(|_| ())),
    }
}

#[test]
fn unresolvable_relative_path_fails_canonicalization() {
    let proj = tempfile::tempdir().unwrap();
    let manifest_dir = proj.path().to_str().unwrap().to_string();
    let text =
        "[project]\nname = \"demo\"\n\n[dependencies]\nfoo = { path = \"../does_not_exist_here\" }\n";
    let r = edit_manifest_dependency_paths(&manifest_dir, "/m/Forc.toml", text);
    assert!(matches!(
        r,
        Err(LanguageServerError::DirectoryError(DirectoryError::CanonicalizeFailed))
    ));
}

#[test]
fn workspace_manifest_passes_through_byte_identical() {
    // A workspace manifest is never rewritten, even when it carries a
    // dependencies table with a relative path that resolves nowhere.
    let text =
        "[workspace]\nmembers = [\"a\"]\n\n[dependencies]\nfoo = { path = \"../nowhere_at_all\" }\n";
    let out = edit_manifest_dependency_paths("/nowhere", "/nowhere/Forc.toml", text).unwrap();
    assert_eq!(out, text);
}

#[test]
fn package_manifest_validation() {
    assert!(is_valid_package_manifest("[project]\nname = \"demo\"\n"));
    assert!(!is_valid_package_manifest("[workspace]\nmembers = []\n"));
    assert!(!is_valid_package_manifest("not = = toml"));
}

#[test]
fn resync_without_any_roots_reports_manifest_dir() {
    let ws = SyncWorkspace::new();
    let r = ws.resync(&vec![], "[project]\nname = \"x\"\n");
    assert!(matches!(
        r,
        Err(LanguageServerError::DirectoryError(DirectoryError::ManifestDirNotFound))
    ));
}

#[test]
fn resync_without_shadow_root_reports_temp_dir() {
    let mut ws = SyncWorkspace::new();
    registry_insert(&mut ws.directories, Directory::Manifest, "/home/user/project".to_string());
    let r = ws.resync(&vec![file("Forc.toml")], "[project]\nname = \"x\"\n");
    assert!(matches!(
        r,
        Err(LanguageServerError::DirectoryError(DirectoryError::TempDirNotFound))
    ));
}

#[test]
fn url_translation_requires_both_roots() {
    let ws = SyncWorkspace::new();
    assert_eq!(
        ws.workspace_to_temp_url("/home/u/proj/src/main.sw"),
        Err(DirectoryError::TempDirNotFound)
    );
    assert_eq!(
        ws.temp_to_workspace_url("/tmp/SWAY_LSP_TEMP_DIRx/proj/src/main.sw"),
        Err(DirectoryError::ManifestDirNotFound)
    );
    let mut ws = ws;
    registry_insert(
        &mut ws.directories,
        Directory::Temp,
        "/tmp/SWAY_LSP_TEMP_DIRx/proj".to_string(),
    );
    assert_eq!(
        ws.workspace_to_temp_url("/home/u/proj/src/main.sw"),
        Err(DirectoryError::ManifestDirNotFound)
    );
}

#[test]
fn create_from_workspace_without_valid_manifest_is_refused() {
    let manifest_dir = "/home/u/proj".to_string();
    let mut ws = SyncWorkspace::new();
    // No readable manifest, an unparseable one, and a workspace manifest are
    // all refused, and none registers a root.
    for text in [None, Some("not = = toml"), Some("[workspace]\nmembers = []\n")] {
        let r = ws.create_temp_dir_from_workspace(&manifest_dir, text);
        match r {
            Err(LanguageServerError::DocumentError(DocumentError::ManifestFileNotFound {
                dir,
            })) => {
                assert_eq!(dir, manifest_dir);
            },
            other => panic!("expected ManifestFileNotFound, got {:?}", other),
        }
        assert!(ws.manifest_dir().is_err());
        assert!(ws.temp_dir().is_err());
    }
}

/// The end-to-end session: establish the roots, then compute a full
/// resynchronization pass over a tree holding the manifest, a source file
/// and an irrelevant file.
#[test]
fn create_and_resync_full_scenario() {
    let (_parent, foo, proj, text) = sibling_project();
    let manifest_dir = proj.path().to_str().unwrap().to_string();
    let mut ws = SyncWorkspace::new();
    ws.create_temp_dir_from_workspace(&manifest_dir, Some(&text)).unwrap();

    let registered = ws.manifest_dir().unwrap();
    assert_eq!(registered, manifest_dir);
    let temp = ws.temp_dir().unwrap();
    assert!(is_path_in_temp_workspace(&temp));
    let project_name = proj.path().file_name().unwrap().to_str().unwrap();
    assert!(temp.ends_with(&format!("/{}", project_name)));
    assert_eq!(ws.manifest_path().unwrap(), format!("{}/Forc.toml", manifest_dir));
    assert_eq!(ws.temp_manifest_path().unwrap(), format!("{}/Forc.toml", temp));

    let tree = vec![
        file("Forc.toml"),
        file("README.md"),
        dir("src", vec![file("main.sw")]),
    ];
    let plan = ws.resync(&tree, &text).unwrap();
    assert_eq!(plan.temp_dir, temp);
    assert_eq!(plan.temp_manifest_path, format!("{}/Forc.toml", temp));
    assert_eq!(
        plan.entries,
        vec![file("Forc.toml"), dir("src", vec![file("main.sw")])]
    );
    let canon = foo.path().canonicalize().unwrap();
    assert!(plan.shadow_manifest_text.contains(canon.to_str().unwrap()));
    assert!(!plan.shadow_manifest_text.contains("../"));

    // A second pass over the unchanged tree plans the same bytes.
    let plan2 = ws.resync(&tree, &text).unwrap();
    assert_eq!(plan2.shadow_manifest_text, plan.shadow_manifest_text);

    // Translation between the two roots round-trips for a file of the tree.
    let real = format!("{}/src/main.sw", manifest_dir);
    let shadow = ws.workspace_to_temp_url(&real).unwrap();
    assert_eq!(shadow, format!("{}/src/main.sw", temp));
    assert!(is_path_in_temp_workspace(&shadow));
    assert_eq!(ws.temp_to_workspace_url(&shadow).unwrap(), real);
    assert_eq!(ws.to_workspace_url(shadow.clone()).unwrap(), real);

    // A location outside the shadow tree passes through untouched.
    let outside = "/registry/dep/src/lib.sw".to_string();
    assert_eq!(ws.to_workspace_url(outside.clone()).unwrap(), outside);

    // The directory to remove at teardown is the shadow root's parent.
    let parent_dir = ws.temp_dir_parent().unwrap();
    assert_eq!(format!("{}/{}", parent_dir, project_name), temp);
}
