use maps::build_info_string;
use maps::file_dialog_builder::{extension_matches, path_passes_filter};
use maps::load_delete::{deselect_deleted, Selections};
use maps::menu_panel::{all_maps_hidden, toggle_all_visible};
use maps::os_helpers::{desktop_entry, should_write_desktop_file};
use maps::pose_edit::{apply_pose_to_other_maps, pose_edit_combo_box, pose_edit_target, PoseEditOptions};
use maps::grid_options::GridLineDimension;
use maps::render_options::{default_crop_threshold, SamplingFilter, TextureFilter};
use maps::ui_helpers::{choose_display_path, display_path};
use maps::app::ActiveMovable;

#[test]
fn display_path_shortens() {
    assert_eq!(display_path("/data/maps/map_1.yaml", false), "map_1.yaml");
    assert_eq!(display_path("/data/maps/map_1.yaml", true), "/data/maps/map_1.yaml");
    assert_eq!(display_path("map.yaml", false), "map.yaml");
    assert_eq!(display_path("/data/..", false), "/data/..");
    assert_eq!(display_path("/a/b/map.yaml", false), "map.yaml");
    assert_eq!(display_path("maps/.hidden", false), ".hidden");
    assert_eq!(display_path("/", false), "/");
    assert_eq!(display_path("/usr/bin/", false), "bin");
    assert_eq!(display_path("maps/map.yaml/.", false), "map.yaml");
    assert_eq!(display_path(".", false), ".");
    assert_eq!(display_path("", false), "");
    assert_eq!(choose_display_path("/a/b", Some("b".to_string()), false), "b");
    assert_eq!(choose_display_path("/a/..", None, false), "/a/..");
    assert_eq!(choose_display_path("/a/b", Some("b".to_string()), true), "/a/b");
}

#[test]
fn file_filters() {
    let yaml = vec!["yaml".to_string(), "yml".to_string()];
    assert!(path_passes_filter("/tmp/map.yaml", &yaml));
    assert!(path_passes_filter("map.yml", &yaml));
    assert!(!path_passes_filter("map.toml", &yaml));
    assert!(!path_passes_filter("/tmp/noext", &yaml));
    assert!(!path_passes_filter("/tmp/noext", &vec!["noext".to_string()]));
    assert!(!path_passes_filter("/tmp/a.yaml/b", &yaml));
    assert!(!path_passes_filter("/tmp/.yaml", &yaml));
    assert!(path_passes_filter("/tmp/..yaml", &yaml));
    assert!(path_passes_filter("/tmp/map.", &vec!["".to_string()]));
    assert!(!path_passes_filter("/tmp/map.", &yaml));
    assert!(extension_matches("yaml", &yaml));
    assert!(extension_matches("xyml", &yaml));
    assert!(!extension_matches("", &yaml));
    assert!(extension_matches("", &vec!["".to_string()]));
}

#[test]
fn build_info() {
    assert_eq!(
        build_info_string("1.2.3", Some("abc"), Some(true), "x86_64", "release"),
        "maps v1.2.3 rev:abc(+ uncommitted changes) | x86_64 | release"
    );
    assert_eq!(
        build_info_string("1.2.3", None, None, "t", "debug"),
        "maps v1.2.3 rev:unknown | t | debug"
    );
}

#[test]
fn desktop_file() {
    let entry = desktop_entry("maps", "/usr/bin/maps", "/icons/maps.png");
    assert!(entry.starts_with("[Desktop Entry]\nName=maps\n"));
    assert!(entry.contains("\nExec=/usr/bin/maps\nIcon=/icons/maps.png\nType=Application\n"));
    assert!(entry.ends_with("StartupNotify=false\n"));
    assert!(should_write_desktop_file(true, true));
    assert!(should_write_desktop_file(false, false));
    assert!(!should_write_desktop_file(false, true));
}

#[test]
fn render_options() {
    assert_eq!(default_crop_threshold(), 6000);
    assert_eq!(TextureFilter::default(), TextureFilter::Auto);
    assert_eq!(GridLineDimension::default(), GridLineDimension::Metric);
    assert_eq!(TextureFilter::Auto.filters(), (SamplingFilter::Nearest, SamplingFilter::Linear));
    assert_eq!(TextureFilter::Smooth.filters(), (SamplingFilter::Linear, SamplingFilter::Linear));
    assert_eq!(TextureFilter::Crisp.filters(), (SamplingFilter::Nearest, SamplingFilter::Nearest));
}

#[test]
fn law_select_toggle() {
    let mut v = vec![true, false, true];
    assert!(!all_maps_hidden(&v));
    toggle_all_visible(&mut v);
    assert_eq!(v, vec![false, false, false]);
    assert!(all_maps_hidden(&v));
    toggle_all_visible(&mut v);
    assert_eq!(v, vec![true, true, true]);
}

#[test]
fn pose_selection() {
    let names = vec!["a.yaml".to_string(), "b.yaml".to_string()];
    let mut movable = ActiveMovable::MapPose;
    let mut options = PoseEditOptions::default();
    pose_edit_combo_box(&names, &mut movable, &mut options);
    assert_eq!(options.selected_map, "a.yaml");
    assert!(!options.text_editing());
    assert_eq!(movable, ActiveMovable::MapPose);
    assert!(pose_edit_target(&names, "b.yaml", &mut movable));
    assert_eq!(movable, ActiveMovable::MapPose);
    assert!(!pose_edit_target(&names, "c.yaml", &mut movable));
    assert_eq!(movable, ActiveMovable::Grid);

    let none: Vec<String> = Vec::new();
    let mut movable = ActiveMovable::MapPose;
    let mut options = PoseEditOptions { selected_map: "x".to_string(), edit_root_frame: false, edit_map_frame: true };
    pose_edit_combo_box(&none, &mut movable, &mut options);
    assert_eq!(movable, ActiveMovable::Grid);
    assert_eq!(options.selected_map, "x");
    assert!(options.text_editing());
}

#[test]
fn delete_updates_selections() {
    let mut sel = Selections {
        active_tool: Some("b".to_string()),
        tint_selection: Some("b".to_string()),
        pose_map: "b".to_string(),
    };
    deselect_deleted(&mut sel, "b", &vec!["a".to_string(), "c".to_string()]);
    assert_eq!(sel.active_tool, None);
    assert_eq!(sel.tint_selection.as_deref(), Some("c"));
    assert_eq!(sel.pose_map, "");

    let mut other = Selections {
        active_tool: Some("a".to_string()),
        tint_selection: Some("z".to_string()),
        pose_map: "a".to_string(),
    };
    deselect_deleted(&mut other, "b", &vec![]);
    assert_eq!(other.active_tool.as_deref(), Some("a"));
    assert_eq!(other.tint_selection.as_deref(), Some("z"));
    assert_eq!(other.pose_map, "a");

    let mut last = Selections { active_tool: None, tint_selection: Some("b".to_string()), pose_map: String::new() };
    deselect_deleted(&mut last, "b", &vec![]);
    assert_eq!(last.tint_selection, None);
}

#[test]
fn copy_pose_to_other_maps() {
    let names = vec!["a".to_string(), "b".to_string(), "c".to_string()];
    let mut poses = vec![(1, 1), (2, 2), (3, 3)];
    assert!(!apply_pose_to_other_maps(&names, &mut poses, 0, &Vec::new()));
    assert_eq!(poses, vec![(1, 1), (2, 2), (3, 3)]);
    let picked = vec!["c".to_string(), "gone".to_string()];
    assert!(apply_pose_to_other_maps(&names, &mut poses, 0, &picked));
    assert_eq!(poses, vec![(1, 1), (2, 2), (1, 1)]);
}
