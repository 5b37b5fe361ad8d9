//! Core logic of the `maps` grid map viewer: color maps, draw order, image pixel
//! operations, application state decisions and layout graphs.
pub mod app;
pub mod cli;
pub mod draw_order;
pub mod file_dialog_builder;
pub mod graph;
pub mod grid_options;
pub mod image;
pub mod image_io;
pub mod image_pyramid;
pub mod keys;
pub mod load_delete;
pub mod menu_panel;
pub mod render_options;
pub mod screenshot;
pub mod tint;
pub mod ui_helpers;
pub mod value_colormap;
pub mod os_helpers;
pub mod pose_edit;

use vstd::prelude::*;

verus! {

/// The one-line description of a build of the application.
pub open spec fn build_info_text(
    pkg_version: Seq<char>,
    git_version: Option<Seq<char>>,
    git_dirty: Option<bool>,
    target: Seq<char>,
    profile: Seq<char>,
) -> Seq<char> {
    "maps v"@ + pkg_version + " rev:"@ + match git_version {
        Some(v) => v,
        None => "unknown"@,
    } + if git_dirty == Some(true) {
        "(+ uncommitted changes)"@
    } else {
        ""@
    } + " | "@ + target + " | "@ + profile
}

/// Describes a build: package version, git revision (`unknown` if it is not known),
/// a marker for uncommitted changes, target and profile.
pub fn build_info_string(
    pkg_version: &str,
    git_version: Option<&str>,
    git_dirty: Option<bool>,
    target: &str,
    profile: &str,
) -> (s: String)
    ensures
        s@ == build_info_text(
            pkg_version@,
            match git_version {
                Some(v) => Some(v@),
                None => None,
            },
            git_dirty,
            target@,
            profile@,
        ),
{
    let mut s = String::from_str("maps v");
    s.append(pkg_version);
    s.append(" rev:");
    match git_version {
        Some(v) => s.append(v),
        None => s.append("unknown"),
    }
    if git_dirty == Some(true) {
        s.append("(+ uncommitted changes)");
    } else {
        s.append("");
    }
    s.append(" | ");
    s.append(target);
    s.append(" | ");
    s.append(profile);
    s
}

} // verus!
