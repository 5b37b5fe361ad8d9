use maps::app::{
    handle_grid_click, AdvancedOptions, next_measurement, tool_status_after_view_change, ActiveMovable, ActiveTool, QuitStatus,
    TitleBar, ViewMode,
};

#[test]
fn tools_usable_by_view_mode() {
    assert!(ActiveTool::HoverLens.usable_in(ViewMode::Tiles));
    assert!(ActiveTool::Measure.usable_in(ViewMode::Aligned));
    assert!(!ActiveTool::Measure.usable_in(ViewMode::Stacked));
    assert!(!ActiveTool::PlaceLens.usable_in(ViewMode::Tiles));
    assert!(!ActiveTool::NoTool.usable_in(ViewMode::Aligned));
}

#[test]
fn defaults() {
    assert_eq!(ViewMode::default(), ViewMode::Aligned);
    assert_eq!(ActiveMovable::default(), ActiveMovable::Grid);
    assert_eq!(ActiveTool::default(), ActiveTool::NoTool);
    assert_eq!(TitleBar::default(), TitleBar::Default);
}

#[test]
fn titlebar() {
    assert!(TitleBar::Default.with_custom_titlebar(true).custom_titlebar());
    assert!(!TitleBar::Default.with_custom_titlebar(false).custom_titlebar());
    assert!(TitleBar::Custom.with_custom_titlebar(false).custom_titlebar());
}

#[test]
fn law_measurement_cycle() {
    let (s, e) = next_measurement(None, None, (1, 1));
    assert_eq!((s, e), (Some((1, 1)), None));
    let (s, e) = next_measurement(s, e, (2, 2));
    assert_eq!((s, e), (Some((1, 1)), Some((2, 2))));
    let (s, e) = next_measurement(s, e, (3, 3));
    assert_eq!((s, e), (Some((3, 3)), None));
}

#[test]
fn measurement_start_keeps_end() {
    assert_eq!(next_measurement(None, Some(5), 1), (Some(1), Some(5)));
}

#[test]
fn law_no_silent_loss() {
    let mut q = QuitStatus { quit_modal_active: false, unsaved_changes: true, quit_after_save: false };
    assert!(!q.on_close_requested(true));
    assert!(q.quit_modal_active);
    assert!(q.quit_modal_visible(true));
    q.cancel_quit();
    assert!(!q.quit_modal_active);
    assert!(!q.on_close_requested(true));
    q.confirm_quit();
    assert!(!q.unsaved_changes);
    assert!(q.on_close_requested(true));

    let mut empty = QuitStatus { quit_modal_active: false, unsaved_changes: true, quit_after_save: false };
    assert!(empty.on_close_requested(false));
    assert!(!empty.quit_modal_visible(false));
}

#[test]
fn save_then_quit() {
    let mut q = QuitStatus { quit_modal_active: true, unsaved_changes: true, quit_after_save: false };
    q.request_save(true);
    assert_eq!(q, QuitStatus { quit_modal_active: false, unsaved_changes: true, quit_after_save: true });
    assert!(q.on_session_saved());
    assert!(!q.unsaved_changes);
    let mut keep = QuitStatus::default();
    keep.request_save(false);
    assert!(!keep.on_session_saved());
}

#[test]
fn view_change_clears_tool_status() {
    let status = Some("lens".to_string());
    assert_eq!(tool_status_after_view_change(ViewMode::Tiles, ViewMode::Aligned, status.clone()), None);
    assert_eq!(tool_status_after_view_change(ViewMode::Tiles, ViewMode::Tiles, status.clone()), status);
}

#[test]
fn grid_clicks() {
    let mut tool = ActiveTool::Measure;
    let (mut s, mut e) = (None, None);
    assert_eq!(handle_grid_click(&mut tool, true, Some(1), &mut s, &mut e), None);
    assert_eq!((s, e), (Some(1), None));
    assert_eq!(handle_grid_click(&mut tool, false, Some(2), &mut s, &mut e), None);
    assert_eq!((s, e), (Some(1), None));
    handle_grid_click(&mut tool, true, Some(2), &mut s, &mut e);
    assert_eq!((s, e), (Some(1), Some(2)));
    handle_grid_click(&mut tool, true, None, &mut s, &mut e);
    assert_eq!((s, e), (Some(1), Some(2)));

    let mut place = ActiveTool::PlaceLens;
    assert_eq!(handle_grid_click(&mut place, true, None, &mut s, &mut e), None);
    assert_eq!(place, ActiveTool::PlaceLens);
    assert_eq!(handle_grid_click(&mut place, true, Some(7), &mut s, &mut e), Some(7));
    assert_eq!(place, ActiveTool::NoTool);
    assert_eq!((s, e), (Some(1), Some(2)));

    let mut hover = ActiveTool::HoverLens;
    assert_eq!(handle_grid_click(&mut hover, true, Some(3), &mut s, &mut e), None);
    assert_eq!(hover, ActiveTool::HoverLens);

    assert_eq!(AdvancedOptions::default().grid_crop_threshold, 6000);
}
