//! Rewriting of relative dependency paths in the project manifest.
//!
//! The shadow tree holds a copy of the manifest whose relative `path`
//! dependencies have been replaced by absolute, canonical paths resolved
//! against the real manifest directory, so that dependency resolution run
//! inside the shadow tree still finds the user's real packages.  Only a
//! package manifest (one with a `project` table) is rewritten; a workspace
//! manifest passes through byte-identical.  The document is edited through
//! `toml_edit`, which preserves the formatting of everything it does not
//! touch; the decisions — which entries to rewrite and with what — are
//! verified here.

use vstd::prelude::*;
use crate::error::{DirectoryError, DocumentError, LanguageServerError};
use crate::paths::{is_absolute, is_absolute_path, join_path};

verus! {

/// The `toml_edit` document type, opaque to the verifier: a parsed manifest
/// that can be edited in place and serialized without disturbing formatting.
#[verifier::external_type_specification]
#[verifier::external_body]
pub struct ExDocumentMut(toml_edit::DocumentMut);

/// The text that the document serializes to.
pub uninterp spec fn doc_text(d: toml_edit::DocumentMut) -> Seq<char>;

/// Whether the text parses as a TOML document.  Parsing depends on the text
/// alone.
pub uninterp spec fn text_parses(text: Seq<char>) -> bool;

/// The dependency entries of the parsed text, in table order: each name of
/// its `dependencies` table with its `path` field's string value, when it
/// has one.
pub uninterp spec fn text_deps(text: Seq<char>) -> Seq<(Seq<char>, Option<Seq<char>>)>;

/// Whether the parsed text is a package manifest — one carrying a `project`
/// table — as opposed to a multi-package workspace manifest.
pub uninterp spec fn text_is_package(text: Seq<char>) -> bool;

/// The text that the document with text `text` serializes to after an
/// attempt to set the `path` field of the dependency `name` to `path`: the
/// field is replaced when the entry exists as an inline table, and the text
/// stays as it was otherwise.
pub uninterp spec fn set_path_text(text: Seq<char>, name: Seq<char>, path: Seq<char>) -> Seq<char>;

/// One dependency entry of the manifest: its name and its `path` field, when
/// it has one.
#[derive(Debug)]
pub struct DepEntry {
    pub name: String,
    pub path: Option<String>,
}

/// The view of an optional string.
pub open spec fn opt_view(o: Option<String>) -> Option<Seq<char>> {
    match o {
        Some(s) => Some(s@),
        None => None,
    }
}

/// The views of a list of dependency entries.
pub open spec fn dep_views(deps: Seq<DepEntry>) -> Seq<(Seq<char>, Option<Seq<char>>)> {
    deps.map_values(|d: DepEntry| (d.name@, opt_view(d.path)))
}

/// Relies on `str::parse::<toml_edit::DocumentMut>`: parsing is a function
/// of the text, and on success the document round-trips, serializing back to
/// exactly the parsed text (`toml_edit` is lossless).  On failure the parse
/// error's message is returned.
#[verifier::external_body]
fn parse_document(text: &str) -> (r: Result<toml_edit::DocumentMut, String>)
    ensures
        r is Ok <==> text_parses(text@),
        r matches Ok(d) ==> doc_text(d) == text@,
{
    match text.parse::<toml_edit::DocumentMut>() {
        Ok(d) => Ok(d),
        Err(e) => Err(format!("Failed to parse TOML: {}", e)),
    }
}

/// Relies on `toml_edit`'s `Display` for `DocumentMut`: the serialization of
/// the document.
#[verifier::external_body]
fn serialize_document(doc: &toml_edit::DocumentMut) -> (r: String)
    ensures
        r@ == doc_text(*doc),
{
    doc.to_string()
}

/// Relies on `toml_edit::Table::get`: whether the document carries a
/// `project` table, the form of a package manifest (a workspace manifest
/// carries a `workspace` table instead).
#[verifier::external_body]
fn is_package_manifest(doc: &toml_edit::DocumentMut) -> (r: bool)
    ensures
        r == text_is_package(doc_text(*doc)),
{
    doc.get("project").is_some()
}

/// Relies on `toml_edit::Table::get_mut`, `Item::as_inline_table_mut` and
/// `InlineTable::insert`: replaces the `path` value of the named entry of the
/// `dependencies` table when that entry is an inline table, and leaves the
/// document untouched otherwise — exactly what [`set_path_text`] names.
#[verifier::external_body]
fn set_dependency_path(doc: &mut toml_edit::DocumentMut, name: &str, path: &str)
    ensures
        doc_text(*final(doc)) == set_path_text(doc_text(*old(doc)), name@, path@),
{
    if let Some(table) = doc.get_mut("dependencies").and_then(|v| v.as_table_mut()) {
        if let Some(dep_item) = table.get_mut(name) {
            if let Some(t) = dep_item.as_inline_table_mut() {
                t.insert("path", toml_edit::Value::from(path.to_string()));
            }
        }
    }
}

/// Relies on `toml_edit::Table::iter`, `Item::get` and `Item::as_str`: lists
/// each entry of the `dependencies` table once, in table order, with its
/// `path` string when it carries one — the entries that [`text_deps`] names
/// for the document's text.
#[verifier::external_body]
fn dependency_entries(doc: &toml_edit::DocumentMut) -> (r: Vec<DepEntry>)
    ensures
        dep_views(r@) == text_deps(doc_text(*doc)),
{
    let mut out = Vec::new();
    if let Some(table) = doc.get("dependencies").and_then(|v| v.as_table()) {
        for (k, v) in table.iter() {
            let path = v.get("path").and_then(|p| p.as_str()).map(|s| s.to_string());
            out.push(DepEntry { name: k.to_string(), path });
        }
    }
    out
}

/// Relies on `std::path::Path::canonicalize`: on success the result is the
/// canonical, absolute form of the path.  The outcome depends on what is on
/// disk, so nothing more is stated of it.
#[verifier::external_body]
pub(crate) fn canonicalize_path(p: &str) -> (r: Option<String>)
    ensures
        r matches Some(c) ==> is_absolute(c@),
{
    match std::path::Path::new(p).canonicalize() {
        Ok(pb) => Some(pb.to_string_lossy().to_string()),
        Err(_) => None,
    }
}

/// Does the text parse as a package manifest?  Only such a manifest has its
/// dependency paths rewritten.
pub fn is_valid_package_manifest(text: &str) -> (r: bool)
    ensures
        r == (text_parses(text@) && text_is_package(text@)),
{
    match parse_document(text) {
        Ok(doc) => is_package_manifest(&doc),
        Err(_) => false,
    }
}

/// The entry carries a relative `path` field.
pub open spec fn pair_is_relative(d: (Seq<char>, Option<Seq<char>>)) -> bool {
    match d.1 {
        Some(p) => !is_absolute(p),
        None => false,
    }
}

/// The subsequence of entries that carry a relative `path` field, in order.
pub open spec fn relative_pairs(ps: Seq<(Seq<char>, Option<Seq<char>>)>) -> Seq<
    (Seq<char>, Option<Seq<char>>),
>
    decreases ps,
{
    if ps.len() == 0 {
        Seq::empty()
    } else {
        let rest = relative_pairs(ps.drop_first());
        if pair_is_relative(ps[0]) {
            seq![ps[0]] + rest
        } else {
            rest
        }
    }
}

/// Appending one entry to the dependency list.
proof fn lemma_relative_pairs_snoc(ps: Seq<(Seq<char>, Option<Seq<char>>)>, d: (Seq<char>, Option<Seq<char>>))
    ensures
        relative_pairs(ps.push(d)) == if pair_is_relative(d) {
            relative_pairs(ps).push(d)
        } else {
            relative_pairs(ps)
        },
    decreases ps,
{
    if ps.len() == 0 {
        assert(ps.push(d)[0] == d);
        assert(ps.push(d).drop_first() =~= Seq::<(Seq<char>, Option<Seq<char>>)>::empty());
        assert(relative_pairs(Seq::<(Seq<char>, Option<Seq<char>>)>::empty()) =~= Seq::<(
            Seq<char>,
            Option<Seq<char>>,
        )>::empty());
        if pair_is_relative(d) {
            assert(relative_pairs(ps.push(d)) =~= relative_pairs(ps).push(d));
        }
    } else {
        assert(ps.push(d).drop_first() =~= ps.drop_first().push(d));
        lemma_relative_pairs_snoc(ps.drop_first(), d);
        assert(ps.push(d)[0] == ps[0]);
        if pair_is_relative(d) {
            assert(relative_pairs(ps.push(d)) =~= relative_pairs(ps).push(d));
        } else {
            assert(relative_pairs(ps.push(d)) =~= relative_pairs(ps));
        }
    }
}

/// A relative entry anywhere in the list makes the filtered list nonempty.
proof fn lemma_relative_pairs_present(ps: Seq<(Seq<char>, Option<Seq<char>>)>, i: int)
    requires
        0 <= i < ps.len(),
        pair_is_relative(ps[i]),
    ensures
        relative_pairs(ps).len() > 0,
    decreases ps,
{
    if i > 0 {
        assert(ps.drop_first()[i - 1] == ps[i]);
        lemma_relative_pairs_present(ps.drop_first(), i - 1);
    }
}

/// For every dependency entry with a relative `path`, resolve that path
/// against the real manifest directory and canonicalize it.  The result
/// pairs each such entry's name, in order, with the absolute path to write;
/// entries without a `path`, or with an absolute one, yield no pair and no
/// outside call.  A list without a relative path always succeeds; failure
/// means some relative path could not be canonicalized.
pub fn collect_rewrites(manifest_dir: &str, deps: &Vec<DepEntry>) -> (r: Result<
    Vec<(String, String)>,
    LanguageServerError,
>)
    ensures
        r matches Ok(rws) ==> {
            &&& rws@.len() == relative_pairs(dep_views(deps@)).len()
            &&& forall|i: int|
                0 <= i < rws@.len() ==> #[trigger] rws@[i].0@ == relative_pairs(
                    dep_views(deps@),
                )[i].0 && is_absolute(rws@[i].1@)
        },
        r matches Err(e) ==> e == LanguageServerError::DirectoryError(
            DirectoryError::CanonicalizeFailed,
        ) && relative_pairs(dep_views(deps@)).len() > 0,
{
    let ghost pv = dep_views(deps@);
    let mut rws: Vec<(String, String)> = Vec::new();
    let mut i: usize = 0;
    proof {
        assert(pv.subrange(0, 0) =~= Seq::<(Seq<char>, Option<Seq<char>>)>::empty());
        assert(relative_pairs(Seq::<(Seq<char>, Option<Seq<char>>)>::empty()) =~= Seq::<(
            Seq<char>,
            Option<Seq<char>>,
        )>::empty());
    }
    while i < deps.len()
        invariant
            pv == dep_views(deps@),
            pv.len() == deps@.len(),
            0 <= i <= deps@.len(),
            rws@.len() == relative_pairs(pv.subrange(0, i as int)).len(),
            forall|j: int|
                0 <= j < rws@.len() ==> #[trigger] rws@[j].0@ == relative_pairs(
                    pv.subrange(0, i as int),
                )[j].0 && is_absolute(rws@[j].1@),
        decreases deps@.len() - i,
    {
        let ghost prefix = pv.subrange(0, i as int);
        let d = &deps[i];
        proof {
            assert(pv[i as int] == (deps@[i as int].name@, opt_view(deps@[i as int].path)));
        }
        let mut relative = false;
        match &d.path {
            Some(p) => {
                if !is_absolute_path(p.as_str()) {
                    relative = true;
                    let joined_path = join_path(manifest_dir, p.as_str());
                    match canonicalize_path(joined_path.as_str()) {
                        Some(abs) => {
                            let name = clone_string(&d.name);
                            rws.push((name, abs));
                        },
                        None => {
                            proof {
                                lemma_relative_pairs_present(pv, i as int);
                            }
                            return Err(LanguageServerError::DirectoryError(
                                DirectoryError::CanonicalizeFailed,
                            ));
                        },
                    }
                }
            },
            None => {},
        }
        proof {
            assert(relative == pair_is_relative(pv[i as int]));
            lemma_relative_pairs_snoc(prefix, pv[i as int]);
            assert(pv.subrange(0, i + 1) =~= prefix.push(pv[i as int]));
        }
        i += 1;
    }
    proof {
        assert(pv.subrange(0, i as int) =~= pv);
    }
    Ok(rws)
}

/// An owned copy of a string.
fn clone_string(s: &String) -> (r: String)
    ensures
        r@ == s@,
{
    s.clone()
}

/// The views of a list of rewrite pairs.
pub open spec fn pairs_view(rws: Seq<(String, String)>) -> Seq<(Seq<char>, Seq<char>)> {
    rws.map_values(|p: (String, String)| (p.0@, p.1@))
}

/// The text of the document with text `text` after attempting each rewrite
/// in order.
pub open spec fn rewritten_text(text: Seq<char>, rws: Seq<(Seq<char>, Seq<char>)>) -> Seq<char>
    decreases rws,
{
    if rws.len() == 0 {
        text
    } else {
        rewritten_text(set_path_text(text, rws[0].0, rws[0].1), rws.drop_first())
    }
}

/// The entries that one refresh pass rewrites in a manifest with text
/// `text`: the relative-path dependencies of a package manifest, in order; a
/// workspace manifest, or one that does not parse, gets none.
pub open spec fn expected_rewrites(text: Seq<char>) -> Seq<(Seq<char>, Option<Seq<char>>)> {
    if text_is_package(text) {
        relative_pairs(text_deps(text))
    } else {
        Seq::empty()
    }
}

/// `rws` is a rewrite list for the manifest text `text`: one pair per entry
/// of [`expected_rewrites`], in order, with that entry's name and some
/// absolute path.
pub open spec fn pairs_match_rewrites(text: Seq<char>, rws: Seq<(Seq<char>, Seq<char>)>) -> bool {
    &&& rws.len() == expected_rewrites(text).len()
    &&& forall|i: int|
        0 <= i < rws.len() ==> (#[trigger] rws[i]).0 == expected_rewrites(text)[i].0
            && is_absolute(rws[i].1)
}

/// `out` is the output of a refresh pass over the manifest text `text`: the
/// text with exactly its expected entries rewritten, each to some absolute
/// path.  When `text` has nothing to rewrite, `out` is `text` itself.
pub open spec fn is_rewritten_output(text: Seq<char>, out: Seq<char>) -> bool {
    exists|rws: Seq<(Seq<char>, Seq<char>)>|
        #[trigger] pairs_match_rewrites(text, rws) && out == rewritten_text(text, rws)
}

/// Apply the rewrites to the document and serialize it.  The result is a
/// function of the document's text and the rewrite list alone.
pub fn apply_rewrites(doc: toml_edit::DocumentMut, rws: &Vec<(String, String)>) -> (r: String)
    ensures
        r@ == rewritten_text(doc_text(doc), pairs_view(rws@)),
{
    let ghost all = pairs_view(rws@);
    let ghost t0 = doc_text(doc);
    let mut doc = doc;
    let mut i: usize = 0;
    proof {
        assert(all.subrange(0, all.len() as int) =~= all);
    }
    while i < rws.len()
        invariant
            0 <= i <= rws@.len(),
            all == pairs_view(rws@),
            all.len() == rws@.len(),
            rewritten_text(t0, all) == rewritten_text(
                doc_text(doc),
                all.subrange(i as int, all.len() as int),
            ),
        decreases rws@.len() - i,
    {
        let ghost s = all.subrange(i as int, all.len() as int);
        let pair = &rws[i];
        proof {
            assert(all[i as int] == (rws@[i as int].0@, rws@[i as int].1@));
            assert(s[0] == all[i as int]);
            assert(s.drop_first() =~= all.subrange(i + 1, all.len() as int));
        }
        set_dependency_path(&mut doc, pair.0.as_str(), pair.1.as_str());
        i += 1;
    }
    proof {
        assert(all.subrange(all.len() as int, all.len() as int) =~= Seq::<(
            Seq<char>,
            Seq<char>,
        )>::empty());
    }
    serialize_document(&doc)
}

/// Two refresh passes over one manifest text produce the same bytes whenever
/// the relative dependency paths canonicalize to the same absolute values —
/// as they do while the real tree is unchanged.  The entries rewritten and
/// their order are pinned by the text alone, so the output is a function of
/// the text and those values.
pub proof fn lemma_rewrite_idempotent(
    text: Seq<char>,
    rws1: Seq<(Seq<char>, Seq<char>)>,
    rws2: Seq<(Seq<char>, Seq<char>)>,
    t1: Seq<char>,
    t2: Seq<char>,
)
    requires
        pairs_match_rewrites(text, rws1),
        pairs_match_rewrites(text, rws2),
        forall|i: int| 0 <= i < rws1.len() ==> (#[trigger] rws1[i]).1 == rws2[i].1,
        t1 == rewritten_text(text, rws1),
        t2 == rewritten_text(text, rws2),
    ensures
        t1 == t2,
{
    assert forall|i: int| 0 <= i < rws1.len() implies rws1[i] == rws2[i] by {
        assert(rws1[i].0 == expected_rewrites(text)[i].0);
        assert(rws2[i].0 == expected_rewrites(text)[i].0);
    }
    assert(rws1 =~= rws2);
}

/// Rewrite the relative dependency paths of the manifest text `text`, whose
/// real directory is `manifest_dir`, into absolute canonical paths, and
/// return the text to store as the shadow manifest.  `manifest_path` names
/// the real manifest file in the errors.  Only a package manifest is
/// rewritten, and in it only the dependency entries whose `path` field is
/// relative; everything else — a workspace manifest whole, entries without a
/// `path` field, entries whose `path` is absolute — is left as it stands.
pub fn edit_manifest_dependency_paths(manifest_dir: &str, manifest_path: &str, text: &str) -> (r:
    Result<String, LanguageServerError>)
    ensures
        r matches Ok(t) ==> text_parses(text@) && is_rewritten_output(text@, t@),
        !text_parses(text@) ==> r is Err,
        text_parses(text@) && expected_rewrites(text@).len() == 0 ==> r is Ok,
        r matches Err(e) ==> {
            ||| (e matches LanguageServerError::DocumentError(DocumentError::IOError {
                path,
                error,
            }) && path@ == manifest_path@ && !text_parses(text@))
            ||| (e == LanguageServerError::DirectoryError(DirectoryError::CanonicalizeFailed)
                && text_parses(text@) && expected_rewrites(text@).len() > 0)
        },
{
    let doc = match parse_document(text) {
        Ok(d) => d,
        Err(msg) => {
            return Err(LanguageServerError::DocumentError(DocumentError::IOError {
                path: manifest_path.to_owned(),
                error: msg,
            }));
        },
    };
    let rws: Vec<(String, String)> = if is_package_manifest(&doc) {
        let deps = dependency_entries(&doc);
        match collect_rewrites(manifest_dir, &deps) {
            Ok(rws) => rws,
            Err(e) => {
                return Err(e);
            },
        }
    } else {
        Vec::new()
    };
    proof {
        assert(pairs_match_rewrites(text@, pairs_view(rws@))) by {
            let pv = pairs_view(rws@);
            assert(pv.len() == rws@.len());
            assert forall|i: int| 0 <= i < pv.len() implies (#[trigger] pv[i]).0
                == expected_rewrites(text@)[i].0 && is_absolute(pv[i].1) by {
                assert(pv[i] == (rws@[i].0@, rws@[i].1@));
            }
        }
    }
    let out = apply_rewrites(doc, &rws);
    Ok(out)
}

} // verus!
