use maps::app::ActiveTool;
use maps::keys::{apply_key_shortcuts, input_blocked, update_move_action, KeyEvents, MoveAction, ShortcutState, Sign};
use maps::screenshot::Viewport;

fn state() -> ShortcutState {
    ShortcutState {
        menu_visible: true,
        settings_visible: true,
        help_visible: true,
        grid_lines_visible: true,
        active_tool: ActiveTool::Measure,
        move_action: None,
    }
}

#[test]
fn escape_hides_panels() {
    let mut s = state();
    let r = apply_key_shortcuts(&mut s, &KeyEvents { escape_released: true, ..Default::default() }, false);
    assert_eq!(r, None);
    assert!(!s.menu_visible && !s.settings_visible && !s.help_visible);
    assert_eq!(s.active_tool, ActiveTool::NoTool);
    assert!(s.grid_lines_visible);
}

#[test]
fn law_toggles() {
    let mut s = state();
    let m = KeyEvents { m_released: true, ..Default::default() };
    apply_key_shortcuts(&mut s, &m, false);
    assert!(!s.menu_visible);
    apply_key_shortcuts(&mut s, &m, false);
    assert_eq!(s, state());

    let l = KeyEvents { l_released: true, ..Default::default() };
    apply_key_shortcuts(&mut s, &l, false);
    assert_eq!(s.active_tool, ActiveTool::HoverLens);
    apply_key_shortcuts(&mut s, &KeyEvents { primary_click_released: true, ..Default::default() }, false);
    assert_eq!(s.active_tool, ActiveTool::NoTool);

    let g = KeyEvents { g_released: true, o_released: true, ..Default::default() };
    apply_key_shortcuts(&mut s, &g, false);
    assert!(!s.grid_lines_visible && !s.settings_visible);
}

#[test]
fn screenshots() {
    let mut s = state();
    let p = KeyEvents { p_released: true, ..Default::default() };
    assert_eq!(apply_key_shortcuts(&mut s, &p, false), Some(Viewport::Full));
    let sp = KeyEvents { p_released: true, shift_held: true, ..Default::default() };
    assert_eq!(apply_key_shortcuts(&mut s, &sp, false), Some(Viewport::Clipped));
    assert_eq!(Viewport::Clipped.name(), "Clipped");
}

#[test]
fn blocked_input_changes_nothing() {
    let mut s = state();
    let all = KeyEvents {
        escape_released: true,
        l_released: true,
        primary_click_released: true,
        m_released: true,
        o_released: true,
        g_released: true,
        p_released: true,
        shift_held: true,
    };
    s.move_action = Some(MoveAction::ZoomIn);
    assert_eq!(apply_key_shortcuts(&mut s, &all, true), None);
    assert_eq!(s, state());
    assert!(input_blocked(false, false, "some error", false));
    assert!(input_blocked(true, false, "", false));
    assert!(!input_blocked(false, false, "", false));
    assert!(input_blocked(false, false, "", true));
}

#[test]
fn escape_then_menu_in_same_frame() {
    let mut s = state();
    let k = KeyEvents { escape_released: true, m_released: true, ..Default::default() };
    apply_key_shortcuts(&mut s, &k, false);
    assert!(s.menu_visible);
    assert!(!s.settings_visible);
}

#[test]
fn left_click_toggles_hover_lens() {
    let mut s = state();
    apply_key_shortcuts(&mut s, &KeyEvents { primary_click_released: true, ..Default::default() }, false);
    assert_eq!(s.active_tool, ActiveTool::HoverLens);
}

#[test]
fn move_actions() {
    let mut s = state();
    update_move_action(&mut s, Some((Sign::Positive, Sign::Zero)), false, false, false, false, false);
    assert_eq!(s.move_action, Some(MoveAction::Horizontal));
    update_move_action(&mut s, Some((Sign::Negative, Sign::Positive)), false, false, false, false, false);
    assert_eq!(s.move_action, Some(MoveAction::UpLeft));
    update_move_action(&mut s, None, true, true, true, false, false);
    assert_eq!(s.move_action, Some(MoveAction::RotateLeft));
    update_move_action(&mut s, None, false, true, false, false, false);
    assert_eq!(s.move_action, Some(MoveAction::RotateLeft));
    update_move_action(&mut s, Some((Sign::Zero, Sign::Zero)), false, false, false, false, false);
    assert_eq!(s.move_action, None);
    update_move_action(&mut s, None, false, false, false, true, true);
    assert_eq!(s.move_action, Some(MoveAction::ZoomIn));
    assert_eq!(MoveAction::ZoomIn.symbol(), "+");
    assert_eq!(MoveAction::Vertical.symbol(), "⬍");
    let menu_unchanged = s.menu_visible;
    update_move_action(&mut s, None, false, false, false, true, false);
    assert_eq!(s.move_action, Some(MoveAction::ZoomOut));
    assert_eq!(s.menu_visible, menu_unchanged);
}
