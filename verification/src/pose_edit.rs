//! Decisions of the map pose editor.
use vstd::prelude::*;

use crate::app::ActiveMovable;

verus! {

/// Options of the map pose editor. The step sizes of the pose controls stay with the
/// user interface.
#[derive(Debug, Default)]
pub struct PoseEditOptions {
    pub selected_map: String,
    pub edit_root_frame: bool,
    pub edit_map_frame: bool,
}

impl PoseEditOptions {
    /// Whether a frame ID is being edited in a text field.
    pub fn text_editing(&self) -> (b: bool)
        ensures
            b == (self.edit_map_frame || self.edit_root_frame),
    {
        self.edit_map_frame || self.edit_root_frame
    }
}

/// Selection defaults of the pose editor's map combo box, for the sorted map names `names`:
/// without maps, the grid is moved; when maps are to be moved and none is selected,
/// the first map is selected.
pub fn pose_edit_combo_box(
    names: &Vec<String>,
    active_movable: &mut ActiveMovable,
    pose_edit: &mut PoseEditOptions,
)
    ensures
        final(pose_edit).edit_root_frame == old(pose_edit).edit_root_frame,
        final(pose_edit).edit_map_frame == old(pose_edit).edit_map_frame,
        names@.len() == 0 ==> *final(active_movable) == ActiveMovable::Grid
            && final(pose_edit).selected_map@ == old(pose_edit).selected_map@,
        names@.len() > 0 ==> *final(active_movable) == *old(active_movable)
            && final(pose_edit).selected_map@ == (if *old(active_movable) == ActiveMovable::MapPose
            && old(pose_edit).selected_map@.len() == 0 {
            names@[0]@
        } else {
            old(pose_edit).selected_map@
        }),
{
    if names.len() == 0 {
        *active_movable = ActiveMovable::Grid;
        return;
    }
    if *active_movable == ActiveMovable::MapPose && pose_edit.selected_map.as_str().is_empty() {
        pose_edit.selected_map = names[0].clone();
    }
}

/// The pose editor falls back to moving the grid when the selected map does not exist.
pub fn pose_edit_target(names: &Vec<String>, selected_map: &str, active_movable: &mut ActiveMovable) -> (found: bool)
    ensures
        found == exists|i: int| 0 <= i < names@.len() && #[trigger] names@[i]@ == selected_map@,
        found ==> *final(active_movable) == *old(active_movable),
        !found ==> *final(active_movable) == ActiveMovable::Grid,
{
    let target = selected_map.to_owned();
    let n = names.len();
    let mut i: usize = 0;
    while i < n
        invariant
            n == names@.len(),
            target@ == selected_map@,
            i <= n,
            forall|j: int| 0 <= j < i ==> #[trigger] names@[j]@ != selected_map@,
        decreases n - i,
    {
        if names[i] == target {
            assert(names@[i as int]@ == selected_map@);
            return true;
        }
        i = i + 1;
    }
    *active_movable = ActiveMovable::Grid;
    false
}


/// Whether `name` is one of `names`.
pub open spec fn names_contain(names: Seq<String>, name: Seq<char>) -> bool {
    exists|j: int| 0 <= j < names.len() && #[trigger] names[j]@ == name
}

fn contains_name(names: &Vec<String>, name: &String) -> (b: bool)
    ensures
        b == names_contain(names@, name@),
{
    let n = names.len();
    let mut j: usize = 0;
    while j < n
        invariant
            n == names@.len(),
            j <= n,
            forall|k: int| 0 <= k < j ==> #[trigger] names@[k]@ != name@,
        decreases n - j,
    {
        if names[j] == *name {
            assert(names@[j as int]@ == name@);
            return true;
        }
        j = j + 1;
    }
    false
}

/// Copies the pose of the map at `source` (the map whose pose is edited) to the maps that
/// the user picked by name in `targets`; picked names of no map are skipped. `names` and
/// `poses` hold the maps' names and poses side by side. Returns whether maps were picked,
/// which makes unsaved changes.
pub fn apply_pose_to_other_maps<P: Copy>(
    names: &Vec<String>,
    poses: &mut Vec<P>,
    source: usize,
    targets: &Vec<String>,
) -> (changed: bool)
    requires
        old(poses)@.len() == names@.len(),
        source < names@.len(),
    ensures
        changed == (targets@.len() > 0),
        final(poses)@.len() == old(poses)@.len(),
        forall|i: int|
            0 <= i < old(poses)@.len() ==> #[trigger] final(poses)@[i] == (if names_contain(
                targets@,
                names@[i]@,
            ) {
                old(poses)@[source as int]
            } else {
                old(poses)@[i]
            }),
{
    if targets.len() == 0 {
        return false;
    }
    let pose = poses[source];
    let n = poses.len();
    let mut i: usize = 0;
    while i < n
        invariant
            n == poses@.len(),
            n == old(poses)@.len(),
            n == names@.len(),
            pose == old(poses)@[source as int],
            i <= n,
            forall|j: int|
                0 <= j < i ==> #[trigger] poses@[j] == (if names_contain(targets@, names@[j]@) {
                    pose
                } else {
                    old(poses)@[j]
                }),
            forall|j: int| i <= j < n ==> #[trigger] poses@[j] == old(poses)@[j],
        decreases n - i,
    {
        if contains_name(targets, &names[i]) {
            poses.set(i, pose);
        }
        i = i + 1;
    }
    true
}

} // verus!
