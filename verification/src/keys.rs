//! Keyboard shortcuts of the application.
use vstd::prelude::*;

use crate::app::ActiveTool;
use crate::screenshot::Viewport;

verus! {

/// The key and mouse events of one frame that shortcuts react to.
#[derive(Debug, Clone, Copy, PartialEq, Eq, Structural, Default)]
pub struct KeyEvents {
    pub escape_released: bool,
    pub l_released: bool,
    pub primary_click_released: bool,
    pub m_released: bool,
    pub o_released: bool,
    pub g_released: bool,
    pub p_released: bool,
    pub shift_held: bool,
}

/// The part of the application state that shortcuts toggle.
#[derive(Debug, Clone, Copy, PartialEq, Eq, Structural)]
pub struct ShortcutState {
    pub menu_visible: bool,
    pub settings_visible: bool,
    pub help_visible: bool,
    pub grid_lines_visible: bool,
    pub active_tool: ActiveTool,
    /// What the movement keys did in the last frame, shown in the status bar.
    pub move_action: Option<MoveAction>,
}

/// The sign of a change of a coordinate.
#[derive(Debug, Clone, Copy, PartialEq, Eq, Structural)]
pub enum Sign {
    Negative,
    Zero,
    Positive,
}

/// What the movement keys did, as shown in the status bar.
#[derive(Debug, Clone, Copy, PartialEq, Eq, Structural)]
pub enum MoveAction {
    /// Moved along x only.
    Horizontal,
    /// Moved along y only.
    Vertical,
    UpRight,
    UpLeft,
    DownLeft,
    DownRight,
    RotateLeft,
    RotateRight,
    ZoomOut,
    ZoomIn,
}

impl MoveAction {
    /// The status bar symbol of the action.
    pub fn symbol(&self) -> (s: String)
        ensures
            s@ == match *self {
                MoveAction::Horizontal => "⬌"@,
                MoveAction::Vertical => "⬍"@,
                MoveAction::UpRight => "⬈"@,
                MoveAction::UpLeft => "⬉"@,
                MoveAction::DownLeft => "⬋"@,
                MoveAction::DownRight => "⬊"@,
                MoveAction::RotateLeft => "⟲"@,
                MoveAction::RotateRight => "⟳"@,
                MoveAction::ZoomOut => "-"@,
                MoveAction::ZoomIn => "+"@,
            },
    {
        match self {
            MoveAction::Horizontal => String::from_str("⬌"),
            MoveAction::Vertical => String::from_str("⬍"),
            MoveAction::UpRight => String::from_str("⬈"),
            MoveAction::UpLeft => String::from_str("⬉"),
            MoveAction::DownLeft => String::from_str("⬋"),
            MoveAction::DownRight => String::from_str("⬊"),
            MoveAction::RotateLeft => String::from_str("⟲"),
            MoveAction::RotateRight => String::from_str("⟳"),
            MoveAction::ZoomOut => String::from_str("-"),
            MoveAction::ZoomIn => String::from_str("+"),
        }
    }
}

/// The action of a drag whose offset changed by (`dx`, `dy`): a move along one axis, a
/// diagonal move, or none when the offset did not change.
pub open spec fn drag_action(dx: Sign, dy: Sign) -> Option<MoveAction> {
    if dx != Sign::Zero && dy == Sign::Zero {
        Some(MoveAction::Horizontal)
    } else if dx == Sign::Zero && dy != Sign::Zero {
        Some(MoveAction::Vertical)
    } else if dx == Sign::Positive && dy == Sign::Positive {
        Some(MoveAction::UpRight)
    } else if dx == Sign::Negative && dy == Sign::Positive {
        Some(MoveAction::UpLeft)
    } else if dx == Sign::Negative && dy == Sign::Negative {
        Some(MoveAction::DownLeft)
    } else if dx == Sign::Positive && dy == Sign::Negative {
        Some(MoveAction::DownRight)
    } else {
        None
    }
}

/// The move action after the movement keys of one frame, starting from `previous`:
/// the drag of the movable object (`drag` holds the signs of its offset change, `None` when
/// nothing can be dragged) sets it; Q, else E, on a rotatable object set a rotation;
/// the minus and plus keys then set a zoom, plus last.
pub open spec fn move_action_after(
    previous: Option<MoveAction>,
    drag: Option<(Sign, Sign)>,
    rotatable: bool,
    q_down: bool,
    e_down: bool,
    minus_down: bool,
    plus_down: bool,
) -> Option<MoveAction> {
    let dragged = match drag {
        Some((dx, dy)) => drag_action(dx, dy),
        None => previous,
    };
    let rotated = if rotatable && q_down {
        Some(MoveAction::RotateLeft)
    } else if rotatable && e_down {
        Some(MoveAction::RotateRight)
    } else {
        dragged
    };
    let zoomed_out = if minus_down {
        Some(MoveAction::ZoomOut)
    } else {
        rotated
    };
    if plus_down {
        Some(MoveAction::ZoomIn)
    } else {
        zoomed_out
    }
}

/// Updates the move action for the movement keys of one frame.
pub fn update_move_action(
    state: &mut ShortcutState,
    drag: Option<(Sign, Sign)>,
    rotatable: bool,
    q_down: bool,
    e_down: bool,
    minus_down: bool,
    plus_down: bool,
)
    ensures
        *final(state) == (ShortcutState {
            move_action: move_action_after(
                old(state).move_action,
                drag,
                rotatable,
                q_down,
                e_down,
                minus_down,
                plus_down,
            ),
            ..*old(state)
        }),
{
    if let Some((dx, dy)) = drag {
        state.move_action = if dx != Sign::Zero && dy == Sign::Zero {
            Some(MoveAction::Horizontal)
        } else if dx == Sign::Zero && dy != Sign::Zero {
            Some(MoveAction::Vertical)
        } else if dx == Sign::Positive && dy == Sign::Positive {
            Some(MoveAction::UpRight)
        } else if dx == Sign::Negative && dy == Sign::Positive {
            Some(MoveAction::UpLeft)
        } else if dx == Sign::Negative && dy == Sign::Negative {
            Some(MoveAction::DownLeft)
        } else if dx == Sign::Positive && dy == Sign::Negative {
            Some(MoveAction::DownRight)
        } else {
            None
        };
    }
    if rotatable {
        if q_down {
            state.move_action = Some(MoveAction::RotateLeft);
        } else if e_down {
            state.move_action = Some(MoveAction::RotateRight);
        }
    }
    if minus_down {
        state.move_action = Some(MoveAction::ZoomOut);
    }
    if plus_down {
        state.move_action = Some(MoveAction::ZoomIn);
    }
}

/// Whether shortcuts are ignored: while a dialog or an error message is open, or while
/// frame IDs are edited in text fields.
pub open spec fn shortcuts_blocked(
    file_dialog_open: bool,
    quit_modal_active: bool,
    error_shown: bool,
    editing_frame_id: bool,
) -> bool {
    file_dialog_open || quit_modal_active || error_shown || editing_frame_id
}

/// The tool after the hover lens key: it switches the hover lens on, or off if it is on.
pub open spec fn toggled_hover_lens(tool: ActiveTool) -> ActiveTool {
    if tool == ActiveTool::HoverLens {
        ActiveTool::NoTool
    } else {
        ActiveTool::HoverLens
    }
}

/// The state after the shortcuts of one frame, and the screenshot that they request.
/// Escape hides the panels and disables the tool; otherwise L or a (left) click toggles
/// the hover lens. M, O and G then toggle the menu, the settings and the grid lines.
/// P requests a screenshot of the full window, Shift+P one of the canvas.
pub open spec fn shortcut_step(s: ShortcutState, k: KeyEvents) -> (ShortcutState, Option<Viewport>) {
    let after_escape = if k.escape_released {
        ShortcutState {
            menu_visible: false,
            settings_visible: false,
            help_visible: false,
            active_tool: ActiveTool::NoTool,
            ..s
        }
    } else if k.l_released || k.primary_click_released {
        ShortcutState { active_tool: toggled_hover_lens(s.active_tool), ..s }
    } else {
        s
    };
    let toggled = ShortcutState {
        menu_visible: if k.m_released {
            !after_escape.menu_visible
        } else {
            after_escape.menu_visible
        },
        settings_visible: if k.o_released {
            !after_escape.settings_visible
        } else {
            after_escape.settings_visible
        },
        grid_lines_visible: if k.g_released {
            !after_escape.grid_lines_visible
        } else {
            after_escape.grid_lines_visible
        },
        ..after_escape
    };
    let screenshot = if k.p_released {
        if k.shift_held {
            Some(Viewport::Clipped)
        } else {
            Some(Viewport::Full)
        }
    } else {
        None
    };
    (toggled, screenshot)
}

/// Whether shortcuts are ignored in the current state of the user interface.
pub fn input_blocked(
    file_dialog_open: bool,
    quit_modal_active: bool,
    error_message: &str,
    editing_frame_id: bool,
) -> (b: bool)
    ensures
        b == shortcuts_blocked(
            file_dialog_open,
            quit_modal_active,
            error_message@.len() > 0,
            editing_frame_id,
        ),
{
    file_dialog_open || quit_modal_active || !error_message.is_empty() || editing_frame_id
}

/// Applies the shortcuts of one frame to `state`, unless input is `blocked`: then only the
/// move action is cleared. Returns the requested screenshot, if any.
pub fn apply_key_shortcuts(state: &mut ShortcutState, keys: &KeyEvents, blocked: bool) -> (r: Option<
    Viewport,
>)
    ensures
        blocked ==> *final(state) == (ShortcutState { move_action: None, ..*old(state) })
            && r is None,
        !blocked ==> (*final(state), r) == shortcut_step(*old(state), *keys),
{
    if blocked {
        state.move_action = None;
        return None;
    }
    if keys.escape_released {
        state.menu_visible = false;
        state.settings_visible = false;
        state.help_visible = false;
        state.active_tool = ActiveTool::NoTool;
    } else if keys.l_released || keys.primary_click_released {
        if state.active_tool == ActiveTool::HoverLens {
            state.active_tool = ActiveTool::NoTool;
        } else {
            state.active_tool = ActiveTool::HoverLens;
        }
    }
    if keys.m_released {
        state.menu_visible = !state.menu_visible;
    }
    if keys.o_released {
        state.settings_visible = !state.settings_visible;
    }
    if keys.g_released {
        state.grid_lines_visible = !state.grid_lines_visible;
    }
    if keys.shift_held && keys.p_released {
        Some(Viewport::Clipped)
    } else if keys.p_released {
        Some(Viewport::Full)
    } else {
        None
    }
}

/// Only the menu key pressed.
pub open spec fn only_m() -> KeyEvents {
    KeyEvents {
        escape_released: false,
        l_released: false,
        primary_click_released: false,
        m_released: true,
        o_released: false,
        g_released: false,
        p_released: false,
        shift_held: false,
    }
}

/// Only the hover lens key pressed.
pub open spec fn only_l() -> KeyEvents {
    KeyEvents { m_released: false, l_released: true, ..only_m() }
}

/// Toggling the menu twice restores the state; Escape always ends with hidden panels
/// (unless M or O are released in the same frame) and no active tool; the hover lens key
/// switches the hover lens on exactly when it was off.
pub proof fn lemma_shortcut_toggles(s: ShortcutState, k: KeyEvents)
    ensures
        shortcut_step(shortcut_step(s, only_m()).0, only_m()).0 == s,
        k.escape_released && !k.m_released && !k.o_released ==> {
            let t = shortcut_step(s, k).0;
            !t.menu_visible && !t.settings_visible && !t.help_visible && t.active_tool
                == ActiveTool::NoTool
        },
        (shortcut_step(s, only_l()).0.active_tool == ActiveTool::HoverLens) <==> (s.active_tool
            != ActiveTool::HoverLens),
        shortcut_step(s, k).1 is Some <==> k.p_released,
{
}

} // verus!
