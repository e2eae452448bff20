//! Path translation and selective-copy behaviour.

use sway_lsp_sync::copier::{copy_dir_contents, is_relevant_file, FsEntry};
use sway_lsp_sync::error::DirectoryError;
use sway_lsp_sync::paths::{
    is_absolute_path, is_path_in_temp_workspace, join_path, last_segment, parent_dir,
    to_other_root,
};

fn file(name: &str) -> FsEntry {
    FsEntry::File { name: name.to_string() }
}

fn dir(name: &str, entries: Vec<FsEntry>) -> FsEntry {
    FsEntry::Dir { name: name.to_string(), entries }
}

#[test]
fn round_trip_translation_is_identity() {
    let loc = "/home/user/project/src/main.sw";
    let a = "/home/user/project";
    let b = "/tmp/SWAY_LSP_TEMP_DIR_x/project";
    let there = to_other_root(loc, a, b).unwrap();
    assert_eq!(there, "/tmp/SWAY_LSP_TEMP_DIR_x/project/src/main.sw");
    let back = to_other_root(&there, b, a).unwrap();
    assert_eq!(back, loc);
}

#[test]
fn translation_of_root_itself_round_trips() {
    let there = to_other_root("/a/p", "/a/p", "/b/q").unwrap();
    assert_eq!(there, "/b/q");
    let back = to_other_root(&there, "/b/q", "/a/p").unwrap();
    assert_eq!(back, "/a/p");
}

#[test]
fn location_not_under_root_is_refused() {
    let r = to_other_root("/elsewhere/file.sw", "/home/user/project", "/tmp/t");
    assert_eq!(
        r,
        Err(DirectoryError::StripPrefixFailed { path: "/elsewhere/file.sw".to_string() })
    );
    // A segment that merely starts with the root's text is not under it.
    let r = to_other_root("/home/user/project2/file.sw", "/home/user/project", "/tmp/t");
    assert!(r.is_err());
}

#[test]
fn shadow_membership_is_the_prefix_token() {
    assert!(is_path_in_temp_workspace("/tmp/SWAY_LSP_TEMP_DIRabc123/project/src/main.sw"));
    assert!(!is_path_in_temp_workspace("/home/user/project/src/main.sw"));
    assert!(!is_path_in_temp_workspace("/tmp/SWAY_LSP_TEMP/main.sw"));
    assert!(is_path_in_temp_workspace("SWAY_LSP_TEMP_DIR"));
}

#[test]
fn path_helpers() {
    assert_eq!(join_path("/a/b", "Forc.toml"), "/a/b/Forc.toml");
    assert_eq!(last_segment("/a/b/project"), "project");
    assert_eq!(last_segment("/a/b/"), "");
    assert_eq!(last_segment("name"), "name");
    assert_eq!(parent_dir("/a/b/project"), "/a/b");
    assert_eq!(parent_dir("name"), "");
    assert!(is_absolute_path("/a"));
    assert!(!is_absolute_path("a/b"));
    assert!(!is_absolute_path(""));
}

#[test]
fn relevance_allow_list() {
    assert!(is_relevant_file("main.sw"));
    assert!(is_relevant_file("a.b.sw"));
    assert!(is_relevant_file(".sw"));
    assert!(is_relevant_file("Forc.toml"));
    assert!(is_relevant_file("Forc.lock"));
    assert!(!is_relevant_file("README.md"));
    assert!(!is_relevant_file("main.sword"));
    assert!(!is_relevant_file("main.rs"));
    assert!(!is_relevant_file("Forc.toml.bak"));
    assert!(!is_relevant_file("sw"));
}

#[test]
fn copy_takes_exactly_the_relevant_files() {
    let tree = vec![
        file("Forc.toml"),
        file("README.md"),
        dir(
            "src",
            vec![file("main.sw"), file("notes.txt"), dir("nested", vec![file("lib.sw")])],
        ),
        dir("target", vec![file("artifact.bin")]),
    ];
    let shadow = copy_dir_contents(&tree);
    assert_eq!(
        shadow,
        vec![
            file("Forc.toml"),
            dir("src", vec![file("main.sw"), dir("nested", vec![file("lib.sw")])]),
        ]
    );
}

#[test]
fn copy_prunes_directories_with_nothing_relevant() {
    let tree = vec![
        dir("docs", vec![file("index.md"), dir("img", vec![file("a.png")])]),
        dir("empty", vec![]),
    ];
    let shadow = copy_dir_contents(&tree);
    assert!(shadow.is_empty());
}

#[test]
fn copy_keeps_a_deep_chain_to_one_file() {
    let tree = vec![dir("a", vec![dir("b", vec![dir("c", vec![file("Forc.lock")])])])];
    let shadow = copy_dir_contents(&tree);
    assert_eq!(shadow, vec![dir("a", vec![dir("b", vec![dir("c", vec![file("Forc.lock")])])])]);
}

#[test]
fn copy_of_empty_tree_is_empty() {
    let tree: Vec<FsEntry> = vec![];
    assert!(copy_dir_contents(&tree).is_empty());
}
