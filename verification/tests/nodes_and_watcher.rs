//! Span arithmetic, the constant-declaration node, the watcher's state
//! machine, and span translation at the session level.

use sway_lsp_sync::item::{ConstToken, EqToken, Expr, Ident, ItemConst, PubToken, SemicolonToken, Ty};
use sway_lsp_sync::registry::{registry_insert, Directory};
use sway_lsp_sync::span::Span;
use sway_lsp_sync::sync::SyncWorkspace;
use sway_lsp_sync::watcher::{on_watch_event, WatchAction, WatchEvent, WatchState};

fn sp(start: usize, end: usize) -> Span {
    Span { path: "main.sw".to_string(), start, end }
}

#[test]
fn span_join_covers_both() {
    let j = Span::join(&sp(4, 7), &sp(10, 22));
    assert_eq!(j, sp(4, 22));
    let j = Span::join(&sp(10, 22), &sp(4, 7));
    assert_eq!(j, sp(4, 22));
}

fn item_const(visibility: Option<PubToken>, expr_opt: Option<Expr>) -> ItemConst {
    ItemConst {
        visibility,
        const_token: ConstToken { span: sp(4, 9) },
        name: Ident { name: "LIMIT".to_string(), span: sp(10, 15) },
        ty: Ty { span: sp(17, 20) },
        eq_token_opt: Some(EqToken { span: sp(21, 22) }),
        expr_opt,
        semicolon_token: SemicolonToken { span: sp(26, 27) },
    }
}

#[test]
fn item_const_span_with_visibility_and_expr() {
    let item = item_const(Some(PubToken { span: sp(0, 3) }), Some(Expr { span: sp(23, 25) }));
    assert_eq!(item.span(), sp(0, 25));
}

#[test]
fn item_const_span_without_visibility_ends_at_type() {
    let item = item_const(None, None);
    assert_eq!(item.span(), sp(4, 20));
}

#[test]
fn watcher_starts_with_one_refresh_and_survives_failures() {
    let (s, a) = on_watch_event(WatchState::Idle, WatchEvent::Start);
    assert_eq!((s, a), (WatchState::Watching, WatchAction::RunRefresh));
    let (s, a) = on_watch_event(s, WatchEvent::FileChanges);
    assert_eq!((s, a), (WatchState::Watching, WatchAction::RunRefresh));
    let (s, a) = on_watch_event(s, WatchEvent::RefreshFailed);
    assert_eq!((s, a), (WatchState::Watching, WatchAction::NoAction));
    let (s, a) = on_watch_event(s, WatchEvent::FileChanges);
    assert_eq!((s, a), (WatchState::Watching, WatchAction::RunRefresh));
}

#[test]
fn watcher_stop_is_final_and_idempotent() {
    let (s, a) = on_watch_event(WatchState::Watching, WatchEvent::StopRequested);
    assert_eq!((s, a), (WatchState::Stopped, WatchAction::CancelTask));
    let (s, a) = on_watch_event(s, WatchEvent::StopRequested);
    assert_eq!((s, a), (WatchState::Stopped, WatchAction::NoAction));
    let (s, a) = on_watch_event(s, WatchEvent::FileChanges);
    assert_eq!((s, a), (WatchState::Stopped, WatchAction::NoAction));
}

#[test]
fn span_translation_maps_shadow_spans_back() {
    let mut ws = SyncWorkspace::new();
    registry_insert(&mut ws.directories, Directory::Manifest, "/home/u/proj".to_string());
    registry_insert(
        &mut ws.directories,
        Directory::Temp,
        "/tmp/SWAY_LSP_TEMP_DIRx/proj".to_string(),
    );
    let shadow_span = Span {
        path: "/tmp/SWAY_LSP_TEMP_DIRx/proj/src/main.sw".to_string(),
        start: 5,
        end: 9,
    };
    let real = ws.temp_to_workspace_span(&shadow_span).unwrap();
    assert_eq!(real, Span { path: "/home/u/proj/src/main.sw".to_string(), start: 5, end: 9 });

    // A span outside the shadow tree is returned as it is.
    let outside = Span { path: "/registry/dep/lib.sw".to_string(), start: 1, end: 2 };
    assert_eq!(ws.temp_to_workspace_span(&outside).unwrap(), outside);
}
