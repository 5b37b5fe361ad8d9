//! Integration with the desktop environment.
use vstd::prelude::*;

verus! {

/// The text of a freedesktop.org `.desktop` entry that launches the executable at
/// `exec_path` under the name `app_id`, with the icon at `icon_path`.
pub open spec fn desktop_entry_text(app_id: Seq<char>, exec_path: Seq<char>, icon_path: Seq<char>) -> Seq<char> {
    "[Desktop Entry]\nName="@ + app_id
        + "\nComment=Inspect, compare and align multiple grid maps in an intuitive & fast GUI\nExec="@
        + exec_path + "\nIcon="@ + icon_path
        + "\nType=Application\nCategories=maps;ROS;SLAM;Navigation;Development;Engineering;Rust;egui\nStartupNotify=false\n"@
}

/// Builds the `.desktop` entry for the application.
pub fn desktop_entry(app_id: &str, exec_path: &str, icon_path: &str) -> (s: String)
    ensures
        s@ == desktop_entry_text(app_id@, exec_path@, icon_path@),
{
    let mut s = String::from_str("[Desktop Entry]\nName=");
    s.append(app_id);
    s.append(
        "\nComment=Inspect, compare and align multiple grid maps in an intuitive & fast GUI\nExec=",
    );
    s.append(exec_path);
    s.append("\nIcon=");
    s.append(icon_path);
    s.append(
        "\nType=Application\nCategories=maps;ROS;SLAM;Navigation;Development;Engineering;Rust;egui\nStartupNotify=false\n",
    );
    s
}

/// Whether the desktop file is written: always when overwriting is asked for,
/// otherwise only if it does not exist yet.
pub fn should_write_desktop_file(overwrite: bool, exists: bool) -> (b: bool)
    ensures
        b == (overwrite || !exists),
{
    overwrite || !exists
}

} // verus!
