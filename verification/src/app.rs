//! Application options and the decisions of the application state.
use vstd::prelude::*;

use crate::render_options::default_crop_threshold;

verus! {

/// How the loaded maps are laid out on the canvas.
#[derive(Debug, Clone, Copy, PartialEq, Eq, Structural)]
pub enum ViewMode {
    /// Separate tab tiles that can be rearranged.
    Tiles,
    /// Stacked on top of each other.
    Stacked,
    /// In a shared coordinate system.
    Aligned,
}

impl Default for ViewMode {
    /// `Aligned` is the default.
    fn default() -> (v: ViewMode)
        ensures
            v == ViewMode::Aligned,
    {
        ViewMode::Aligned
    }
}

/// What the WASD/QE keys move.
#[derive(Debug, Clone, Copy, PartialEq, Eq, Structural)]
pub enum ActiveMovable {
    /// Nothing is moved.
    Nothing,
    MapPose,
    Grid,
}

impl Default for ActiveMovable {
    /// The grid is moved by default.
    fn default() -> (m: ActiveMovable)
        ensures
            m == ActiveMovable::Grid,
    {
        ActiveMovable::Grid
    }
}

/// The interaction tool that is active.
#[derive(Debug, Clone, Copy, PartialEq, Eq, Structural)]
pub enum ActiveTool {
    /// No tool is active.
    NoTool,
    HoverLens,
    PlaceLens,
    Measure,
}

impl Default for ActiveTool {
    /// No tool is active by default.
    fn default() -> (t: ActiveTool)
        ensures
            t == ActiveTool::NoTool,
    {
        ActiveTool::NoTool
    }
}

/// Whether a tool can be used in a view mode: the hover lens works in all view modes,
/// placed lenses and the measurement only in the aligned view.
pub open spec fn tool_usable(tool: ActiveTool, view_mode: ViewMode) -> bool {
    match tool {
        ActiveTool::HoverLens => true,
        ActiveTool::PlaceLens | ActiveTool::Measure => view_mode == ViewMode::Aligned,
        ActiveTool::NoTool => false,
    }
}

impl ActiveTool {
    /// Whether this tool can be used in `view_mode` (and can thus be switched off).
    pub fn usable_in(self, view_mode: ViewMode) -> (b: bool)
        ensures
            b == tool_usable(self, view_mode),
    {
        match self {
            ActiveTool::HoverLens => true,
            ActiveTool::PlaceLens | ActiveTool::Measure => view_mode == ViewMode::Aligned,
            ActiveTool::NoTool => false,
        }
    }
}

/// The status text of the active tool after the view mode buttons: switching to another
/// view mode clears it.
pub fn tool_status_after_view_change(
    previous: ViewMode,
    current: ViewMode,
    status: Option<String>,
) -> (r: Option<String>)
    ensures
        r == (if previous != current {
            None
        } else {
            status
        }),
{
    if previous != current {
        None
    } else {
        status
    }
}

/// Style of the main window's title bar.
#[derive(Debug, Clone, Copy, PartialEq, Eq, Structural)]
pub enum TitleBar {
    Default,
    Custom,
}

impl Default for TitleBar {
    /// The platform's title bar is the default.
    fn default() -> (t: TitleBar)
        ensures
            t == TitleBar::Default,
    {
        TitleBar::Default
    }
}

impl TitleBar {
    /// Switches to the compact custom title bar if the platform supports it,
    /// otherwise keeps the title bar as it is.
    pub fn with_custom_titlebar(self, supported: bool) -> (t: TitleBar)
        ensures
            t == (if supported {
                TitleBar::Custom
            } else {
                self
            }),
    {
        if supported {
            TitleBar::Custom
        } else {
            self
        }
    }

    /// Shall the main window use a custom titlebar?
    pub fn custom_titlebar(self) -> (b: bool)
        ensures
            b == (self == TitleBar::Custom),
    {
        self == TitleBar::Custom
    }
}

/// Which settings sections are collapsed.
#[derive(Debug, Clone, Copy, PartialEq, Eq, Structural, Default)]
pub struct CollapsedState {
    pub app_settings: bool,
    pub canvas_settings: bool,
    pub tint_settings: bool,
    pub lens_settings: bool,
    pub grid_settings: bool,
    pub tool_settings: bool,
}

/// The two points of a distance measurement after a click at `click`: a missing start is
/// placed first (keeping the end), then a missing end, and with both placed the click
/// starts a new measurement.
pub open spec fn measurement_after_click<P>(start: Option<P>, end: Option<P>, click: P) -> (
    Option<P>,
    Option<P>,
) {
    if start is None {
        (Some(click), end)
    } else if end is None {
        (start, Some(click))
    } else {
        (Some(click), None)
    }
}

/// Updates a measurement for a click at `click`: without a start point the click places
/// the start (an end point stays as it is), then the end, and a click when both are placed
/// starts a new measurement.
pub fn next_measurement<P: Copy>(start: Option<P>, end: Option<P>, click: P) -> (r: (
    Option<P>,
    Option<P>,
))
    ensures
        r == measurement_after_click(start, end, click),
{
    if start.is_none() {
        (Some(click), end)
    } else if end.is_none() {
        (start, Some(click))
    } else {
        (Some(click), None)
    }
}

/// What a click on the main grid does with the active tool, where `hover` is the metric
/// position under the pointer: the measurement tool places measurement points; the lens
/// placement tool places a lens there (returned) and switches itself off.
pub open spec fn grid_click_outcome<P>(
    tool: ActiveTool,
    clicked: bool,
    hover: Option<P>,
    measure: (Option<P>, Option<P>),
) -> (ActiveTool, (Option<P>, Option<P>), Option<P>) {
    if tool == ActiveTool::Measure {
        if clicked && hover is Some {
            (tool, measurement_after_click(measure.0, measure.1, hover->0), None)
        } else {
            (tool, measure, None)
        }
    } else if clicked && tool == ActiveTool::PlaceLens && hover is Some {
        (ActiveTool::NoTool, measure, hover)
    } else {
        (tool, measure, None)
    }
}

/// Handles a click on the main grid (see [`grid_click_outcome`]).
/// Returns the position of a lens to place, if any.
pub fn handle_grid_click<P: Copy>(
    tool: &mut ActiveTool,
    clicked: bool,
    hover: Option<P>,
    measure_start: &mut Option<P>,
    measure_end: &mut Option<P>,
) -> (lens: Option<P>)
    ensures
        (*final(tool), (*final(measure_start), *final(measure_end)), lens) == grid_click_outcome(
            *old(tool),
            clicked,
            hover,
            (*old(measure_start), *old(measure_end)),
        ),
{
    if *tool == ActiveTool::Measure {
        if clicked {
            if let Some(pos) = hover {
                let (s, e) = next_measurement(*measure_start, *measure_end, pos);
                *measure_start = s;
                *measure_end = e;
            }
        }
        return None;
    }
    if clicked && *tool == ActiveTool::PlaceLens {
        if let Some(pos) = hover {
            *tool = ActiveTool::NoTool;
            return Some(pos);
        }
    }
    None
}

/// Options that should not need to be changed by the (average) user.
#[derive(Debug, Clone, Copy, PartialEq, Eq, Structural)]
pub struct AdvancedOptions {
    /// Threshold for cropping large textures in the main grid.
    /// Too low values cause unnecessary cropping (CPU overhead),
    /// too high values lead to too high texture memory usage.
    pub grid_crop_threshold: u32,
}

impl Default for AdvancedOptions {
    /// Textures are cropped above the default threshold.
    fn default() -> (o: Self)
        ensures
            o.grid_crop_threshold == 6000,
    {
        AdvancedOptions { grid_crop_threshold: default_crop_threshold() }
    }
}

/// The flags of the application status that decide over quitting.
#[derive(Debug, Clone, Copy, PartialEq, Eq, Structural, Default)]
pub struct QuitStatus {
    /// The dialog that asks to confirm quitting is open.
    pub quit_modal_active: bool,
    /// There are changes that are not saved in a session file.
    pub unsaved_changes: bool,
    /// Quit once the session is saved.
    pub quit_after_save: bool,
}

/// Answer to a request of the window system to close the main window.
pub open spec fn close_request_answer(status: QuitStatus, maps_loaded: bool) -> (bool, QuitStatus) {
    if status.unsaved_changes && maps_loaded {
        (false, QuitStatus { quit_modal_active: true, ..status })
    } else {
        (true, status)
    }
}

impl QuitStatus {
    /// Decides over a request to close the main window. Returns whether the window may close:
    /// with unsaved changes and loaded maps it stays open and the quit dialog opens.
    pub fn on_close_requested(&mut self, maps_loaded: bool) -> (close: bool)
        ensures
            (close, *final(self)) == close_request_answer(*old(self), maps_loaded),
    {
        if self.unsaved_changes && maps_loaded {
            self.quit_modal_active = true;
            false
        } else {
            true
        }
    }

    /// Whether the quit dialog is shown.
    pub fn quit_modal_visible(&self, maps_loaded: bool) -> (b: bool)
        ensures
            b == (self.quit_modal_active && maps_loaded),
    {
        self.quit_modal_active && maps_loaded
    }

    /// The user cancels quitting in the quit dialog.
    pub fn cancel_quit(&mut self)
        ensures
            *final(self) == (QuitStatus { quit_modal_active: false, ..*old(self) }),
    {
        self.quit_modal_active = false;
    }

    /// The user confirms quitting in the quit dialog: the changes are dropped and the window
    /// is closed.
    pub fn confirm_quit(&mut self)
        ensures
            *final(self) == (QuitStatus {
                quit_modal_active: false,
                unsaved_changes: false,
                ..*old(self)
            }),
    {
        self.quit_modal_active = false;
        self.unsaved_changes = false;
    }

    /// The user asks to save the session, to quit afterwards if `quit_after_save`.
    pub fn request_save(&mut self, quit_after_save: bool)
        ensures
            *final(self) == (QuitStatus {
                quit_modal_active: false,
                unsaved_changes: old(self).unsaved_changes,
                quit_after_save,
            }),
    {
        self.quit_after_save = quit_after_save;
        self.quit_modal_active = false;
    }

    /// The session was saved. Returns whether the window shall close now.
    pub fn on_session_saved(&mut self) -> (close: bool)
        ensures
            close == old(self).quit_after_save,
            *final(self) == (QuitStatus { unsaved_changes: false, ..*old(self) }),
    {
        self.unsaved_changes = false;
        self.quit_after_save
    }
}

/// A close request never closes the window while changes are unsaved and maps are loaded;
/// it opens the quit dialog instead. Once the changes are saved or confirmed to be dropped,
/// the next close request is granted.
pub proof fn lemma_no_silent_loss(status: QuitStatus, maps_loaded: bool)
    ensures
        status.unsaved_changes && maps_loaded ==> !close_request_answer(status, maps_loaded).0
            && close_request_answer(status, maps_loaded).1.quit_modal_active,
        close_request_answer(QuitStatus { unsaved_changes: false, ..status }, maps_loaded).0,
{
}

/// Measurement clicks cycle: after two clicks both points are placed, and a third click
/// starts a new measurement at the clicked point.
pub proof fn lemma_measurement_cycle<P>(a: P, b: P, c: P)
    ensures
        ({
            let first = measurement_after_click(None, None, a);
            let second = measurement_after_click(first.0, first.1, b);
            let third = measurement_after_click(second.0, second.1, c);
            &&& second == (Some(a), Some(b))
            &&& third == (Some(c), None::<P>)
        }),
{
}


/// Without a click on the grid nothing happens: no lens is placed, the tool stays as it is
/// and the measurement points are unchanged. A lens is placed only by a click with the lens
/// placement tool over a grid position, at that position, and the tool is then switched off.
pub proof fn lemma_grid_click_needs_click<P>(
    tool: ActiveTool,
    clicked: bool,
    hover: Option<P>,
    measure: (Option<P>, Option<P>),
)
    ensures
        grid_click_outcome(tool, false, hover, measure) == (tool, measure, None::<P>),
        grid_click_outcome(tool, clicked, hover, measure).2 is Some ==> {
            &&& clicked
            &&& tool == ActiveTool::PlaceLens
            &&& grid_click_outcome(tool, clicked, hover, measure).2 == hover
            &&& grid_click_outcome(tool, clicked, hover, measure).0 == ActiveTool::NoTool
            &&& grid_click_outcome(tool, clicked, hover, measure).1 == measure
        },
{
}

} // verus!
