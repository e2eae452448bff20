//! Selective mirroring of a directory tree.
//!
//! The copier decides, for a whole directory tree, which files belong in the
//! shadow tree: files whose name ends with the source extension, the manifest
//! file, and the lockfile.  Directories are kept only when something beneath
//! them is kept, so the mirrored tree never holds an empty directory.
//!
//! The decision is pure: it maps an in-memory picture of the real tree (an
//! [`FsEntry`] forest) to the forest that must exist in the shadow tree.
//! Reading the real directory and performing the copies is I/O and happens
//! outside the library.

use vstd::prelude::*;
use crate::strutil::{ends_with_seq, ends_with_str, str_eq, concat_str};
use crate::names::{manifest_file_name, lock_file_name, sway_extension};

verus! {

/// One entry of a directory tree: a file or a subdirectory with its entries.
#[derive(Debug, PartialEq, Eq)]
pub enum FsEntry {
    File { name: String },
    Dir { name: String, entries: Vec<FsEntry> },
}

/// The mathematical picture of a tree entry.
pub enum TreeView {
    File { name: Seq<char> },
    Dir { name: Seq<char>, entries: Seq<TreeView> },
}

/// The picture of one exec entry.
pub open spec fn tree_view(e: FsEntry) -> TreeView
    decreases e,
{
    match e {
        FsEntry::File { name } => TreeView::File { name: name@ },
        FsEntry::Dir { name, entries } => TreeView::Dir {
            name: name@,
            entries: forest_view(entries@),
        },
    }
}

/// The picture of a sequence of exec entries.
pub open spec fn forest_view(es: Seq<FsEntry>) -> Seq<TreeView>
    decreases es,
{
    if es.len() == 0 {
        Seq::empty()
    } else {
        seq![tree_view(es[0])] + forest_view(es.drop_first())
    }
}

/// A file of this name belongs in the shadow tree: a source file, the
/// manifest, or the lockfile.
pub open spec fn is_relevant(name: Seq<char>) -> bool {
    ||| ends_with_seq(name, ".sw"@)
    ||| name == "Forc.toml"@
    ||| name == "Forc.lock"@
}

/// Does this file name qualify for the shadow tree?
pub fn is_relevant_file(name: &str) -> (r: bool)
    ensures
        r == is_relevant(name@),
{
    let dotted = concat_str(".", sway_extension());
    proof {
        reveal_strlit(".");
        reveal_strlit("sw");
        reveal_strlit(".sw");
        assert("."@ + "sw"@ =~= ".sw"@);
    }
    if ends_with_str(name, dotted.as_str()) {
        return true;
    }
    if str_eq(name, manifest_file_name()) {
        return true;
    }
    str_eq(name, lock_file_name())
}

/// The shadow counterpart of one entry: the entry itself for a relevant
/// file, the pruned directory when anything under it is kept, and nothing
/// otherwise.
pub open spec fn shadow_tree(t: TreeView) -> Option<TreeView>
    decreases t,
{
    match t {
        TreeView::File { name } => if is_relevant(name) {
            Some(t)
        } else {
            None
        },
        TreeView::Dir { name, entries } => {
            let sub = shadow_forest(entries);
            if sub.len() == 0 {
                None
            } else {
                Some(TreeView::Dir { name, entries: sub })
            }
        },
    }
}

/// The shadow counterpart of a forest.
pub open spec fn shadow_forest(es: Seq<TreeView>) -> Seq<TreeView>
    decreases es,
{
    if es.len() == 0 {
        Seq::empty()
    } else {
        let rest = shadow_forest(es.drop_first());
        match shadow_tree(es[0]) {
            Some(h) => seq![h] + rest,
            None => rest,
        }
    }
}

/// Compute the forest that the shadow tree must hold for the real forest
/// `entries`: exactly the relevant files, under exactly the directories that
/// lead to one.  The real tree is only read; anything was selected iff the
/// result is nonempty.
pub fn copy_dir_contents(entries: &Vec<FsEntry>) -> (r: Vec<FsEntry>)
    ensures
        forest_view(r@) == shadow_forest(forest_view(entries@)),
    decreases entries@,
{
    let mut r: Vec<FsEntry> = Vec::new();
    let mut i: usize = 0;
    proof {
        lemma_forest_view_len(entries@);
        assert(forest_view(entries@.subrange(0, 0)) =~= Seq::<TreeView>::empty()) by {
            assert(entries@.subrange(0, 0) =~= Seq::<FsEntry>::empty());
        }
        assert(shadow_forest(Seq::<TreeView>::empty()) =~= Seq::<TreeView>::empty());
    }
    while i < entries.len()
        invariant
            0 <= i <= entries@.len(),
            forest_view(r@) == shadow_forest(forest_view(entries@.subrange(0, i as int))),
        decreases entries@.len() - i,
    {
        proof {
            lemma_forest_view_index(entries@, i as int);
        }
        match &entries[i] {
            FsEntry::File { name } => {
                if is_relevant_file(name.as_str()) {
                    let ghost old_r = r@;
                    r.push(FsEntry::File { name: name.clone() });
                    proof {
                        lemma_forest_view_push(old_r, FsEntry::File { name: *name });
                    }
                }
            },
            FsEntry::Dir { name, entries: sub } => {
                proof {
                    assert(decreases_to!(entries@ => entries@[i as int]));
                    assert(decreases_to!(entries@[i as int] => *sub));
                    assert(decreases_to!(*sub => sub@));
                }
                let sub_r = copy_dir_contents(sub);
                if sub_r.len() > 0 {
                    proof {
                        lemma_forest_view_len(sub_r@);
                    }
                    let ghost old_r = r@;
                    let pushed = FsEntry::Dir { name: name.clone(), entries: sub_r };
                    let ghost pushed_g = pushed;
                    r.push(pushed);
                    proof {
                        lemma_forest_view_push(old_r, pushed_g);
                    }
                } else {
                    proof {
                        lemma_forest_view_len(sub_r@);
                    }
                }
            },
        }
        proof {
            lemma_shadow_forest_snoc(forest_view(entries@.subrange(0, i as int)), tree_view(entries@[i as int]));
            assert(forest_view(entries@.subrange(0, i + 1)) =~= forest_view(
                entries@.subrange(0, i as int),
            ).push(tree_view(entries@[i as int]))) by {
                lemma_forest_view_snoc(entries@.subrange(0, i as int), entries@[i as int]);
                assert(entries@.subrange(0, i + 1) =~= entries@.subrange(0, i as int).push(
                    entries@[i as int],
                ));
            }
        }
        i += 1;
    }
    proof {
        assert(entries@.subrange(0, i as int) =~= entries@);
    }
    r
}

/// `forest_view` maps a forest entry by entry.
pub proof fn lemma_forest_view_len(es: Seq<FsEntry>)
    ensures
        forest_view(es).len() == es.len(),
        forall|i: int| 0 <= i < es.len() ==> forest_view(es)[i] == tree_view(es[i]),
    decreases es,
{
    if es.len() != 0 {
        lemma_forest_view_len(es.drop_first());
        assert forall|i: int| 0 <= i < es.len() implies forest_view(es)[i] == tree_view(
            es[i],
        ) by {
            if i > 0 {
                assert(es.drop_first()[i - 1] == es[i]);
            }
        }
    }
}

/// A view of one more entry at an index.
proof fn lemma_forest_view_index(es: Seq<FsEntry>, i: int)
    requires
        0 <= i < es.len(),
    ensures
        forest_view(es)[i] == tree_view(es[i]),
        forest_view(es).len() == es.len(),
{
    lemma_forest_view_len(es);
}

/// Pushing an exec entry extends the forest view by its picture.
proof fn lemma_forest_view_push(es: Seq<FsEntry>, e: FsEntry)
    ensures
        forest_view(es.push(e)) == forest_view(es).push(tree_view(e)),
{
    lemma_forest_view_snoc(es, e);
}

proof fn lemma_forest_view_snoc(es: Seq<FsEntry>, e: FsEntry)
    ensures
        forest_view(es.push(e)) == forest_view(es).push(tree_view(e)),
    decreases es,
{
    if es.len() == 0 {
        assert(es.push(e)[0] == e);
        assert(es.push(e).drop_first() =~= Seq::<FsEntry>::empty());
        assert(forest_view(Seq::<FsEntry>::empty()) =~= Seq::<TreeView>::empty());
        assert(forest_view(es.push(e)) =~= forest_view(es).push(tree_view(e)));
    } else {
        assert(es.push(e).drop_first() =~= es.drop_first().push(e));
        lemma_forest_view_snoc(es.drop_first(), e);
        assert(es.push(e)[0] == es[0]);
        assert(forest_view(es.push(e)) =~= forest_view(es).push(tree_view(e)));
    }
}

/// A file named `name` lies in the tree `t` under the directory path `dirs`
/// (a sequence of directory names, outermost first).
pub open spec fn tree_has_file(t: TreeView, dirs: Seq<Seq<char>>, name: Seq<char>) -> bool
    decreases t,
{
    match t {
        TreeView::File { name: n } => dirs.len() == 0 && n == name,
        TreeView::Dir { name: d, entries } => dirs.len() > 0 && d == dirs[0] && has_file(
            entries,
            dirs.drop_first(),
            name,
        ),
    }
}

/// A file named `name` lies in the forest `es` under the directory path
/// `dirs`.
pub open spec fn has_file(es: Seq<TreeView>, dirs: Seq<Seq<char>>, name: Seq<char>) -> bool
    decreases es,
{
    if es.len() == 0 {
        false
    } else {
        tree_has_file(es[0], dirs, name) || has_file(es.drop_first(), dirs, name)
    }
}

/// Splitting a file search over a forest with an explicit head.
proof fn lemma_has_file_cons(h: TreeView, rest: Seq<TreeView>, dirs: Seq<Seq<char>>, name: Seq<char>)
    ensures
        has_file(seq![h] + rest, dirs, name) <==> (tree_has_file(h, dirs, name) || has_file(
            rest,
            dirs,
            name,
        )),
{
    let es = seq![h] + rest;
    assert(es.len() == 1 + rest.len());
    assert(es[0] == h);
    assert(es.drop_first() =~= rest);
}

/// The selective copy takes exactly the relevant files: a file stands in the
/// shadow forest, under any directory path, if and only if it stands in the
/// real forest at the same path and its name qualifies.
pub proof fn lemma_copy_exact(es: Seq<TreeView>, dirs: Seq<Seq<char>>, name: Seq<char>)
    ensures
        has_file(shadow_forest(es), dirs, name) <==> (has_file(es, dirs, name) && is_relevant(
            name,
        )),
    decreases es,
{
    if es.len() == 0 {
    } else {
        let rest = es.drop_first();
        lemma_copy_exact(rest, dirs, name);
        lemma_copy_exact_tree(es[0], dirs, name);
        assert(es =~= seq![es[0]] + rest);
        lemma_has_file_cons(es[0], rest, dirs, name);
        match shadow_tree(es[0]) {
            Some(h) => {
                lemma_has_file_cons(h, shadow_forest(rest), dirs, name);
            },
            None => {},
        }
    }
}

/// The tree-level form of [`lemma_copy_exact`].
proof fn lemma_copy_exact_tree(t: TreeView, dirs: Seq<Seq<char>>, name: Seq<char>)
    ensures
        match shadow_tree(t) {
            Some(h) => tree_has_file(h, dirs, name) <==> (tree_has_file(t, dirs, name)
                && is_relevant(name)),
            None => !(tree_has_file(t, dirs, name) && is_relevant(name)),
        },
    decreases t,
{
    match t {
        TreeView::File { name: n } => {
        },
        TreeView::Dir { name: d, entries } => {
            lemma_copy_exact(entries, dirs.drop_first(), name);
        },
    }
}

/// Somewhere in the tree `t` there is a file.
pub open spec fn tree_has_some_file(t: TreeView) -> bool
    decreases t,
{
    match t {
        TreeView::File { .. } => true,
        TreeView::Dir { entries, .. } => has_some_file(entries),
    }
}

/// Somewhere in the forest there is a file.
pub open spec fn has_some_file(es: Seq<TreeView>) -> bool
    decreases es,
{
    if es.len() == 0 {
        false
    } else {
        tree_has_some_file(es[0]) || has_some_file(es.drop_first())
    }
}

/// Every directory of the tree `t`, at any depth, holds a file somewhere
/// beneath it.
pub open spec fn tree_dirs_populated(t: TreeView) -> bool
    decreases t,
{
    match t {
        TreeView::File { .. } => true,
        TreeView::Dir { entries, .. } => has_some_file(entries) && dirs_populated(entries),
    }
}

/// Every directory of the forest, at any depth, holds a file somewhere
/// beneath it.
pub open spec fn dirs_populated(es: Seq<TreeView>) -> bool
    decreases es,
{
    if es.len() == 0 {
        true
    } else {
        tree_dirs_populated(es[0]) && dirs_populated(es.drop_first())
    }
}

/// The selective copy never keeps a directory that holds no file: every
/// directory of the shadow forest has a copied file somewhere beneath it,
/// and a nonempty shadow forest holds a file.
pub proof fn lemma_copy_populated(es: Seq<TreeView>)
    ensures
        dirs_populated(shadow_forest(es)),
        shadow_forest(es).len() > 0 ==> has_some_file(shadow_forest(es)),
    decreases es,
{
    if es.len() == 0 {
    } else {
        let rest = shadow_forest(es.drop_first());
        lemma_copy_populated(es.drop_first());
        lemma_copy_populated_tree(es[0]);
        match shadow_tree(es[0]) {
            Some(h) => {
                let sf = seq![h] + rest;
                assert(sf.len() == 1 + rest.len());
                assert(sf[0] == h);
                assert(sf.drop_first() =~= rest);
            },
            None => {},
        }
    }
}

/// The tree-level form of [`lemma_copy_populated`].
proof fn lemma_copy_populated_tree(t: TreeView)
    ensures
        shadow_tree(t) matches Some(h) ==> tree_dirs_populated(h) && tree_has_some_file(h),
    decreases t,
{
    match t {
        TreeView::File { .. } => {
        },
        TreeView::Dir { name: d, entries } => {
            lemma_copy_populated(entries);
        },
    }
}

/// Appending one tree to a forest appends its shadow (if any) to the shadow
/// forest.
proof fn lemma_shadow_forest_snoc(es: Seq<TreeView>, t: TreeView)
    ensures
        shadow_forest(es.push(t)) == match shadow_tree(t) {
            Some(h) => shadow_forest(es).push(h),
            None => shadow_forest(es),
        },
    decreases es,
{
    if es.len() == 0 {
        assert(es.push(t)[0] == t);
        assert(es.push(t).drop_first() =~= Seq::<TreeView>::empty());
        assert(shadow_forest(Seq::<TreeView>::empty()) =~= Seq::<TreeView>::empty());
        match shadow_tree(t) {
            Some(h) => {
                assert(shadow_forest(es.push(t)) =~= shadow_forest(es).push(h));
            },
            None => {},
        }
    } else {
        assert(es.push(t).drop_first() =~= es.drop_first().push(t));
        lemma_shadow_forest_snoc(es.drop_first(), t);
        assert(es.push(t)[0] == es[0]);
        match (shadow_tree(es[0]), shadow_tree(t)) {
            (Some(h0), Some(h)) => {
                assert(shadow_forest(es.push(t)) =~= shadow_forest(es).push(h));
            },
            (None, Some(h)) => {
                assert(shadow_forest(es.push(t)) =~= shadow_forest(es).push(h));
            },
            (Some(h0), None) => {
                assert(shadow_forest(es.push(t)) =~= shadow_forest(es));
            },
            (None, None) => {
                assert(shadow_forest(es.push(t)) =~= shadow_forest(es));
            },
        }
    }
}

} // verus!
