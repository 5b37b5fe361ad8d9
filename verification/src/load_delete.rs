//! Bookkeeping when maps are deleted.
use vstd::prelude::*;

verus! {

/// The selections that refer to maps by name.
pub struct Selections {
    /// The map that a lens or hover tool shows, if any.
    pub active_tool: Option<String>,
    /// The map whose tint is edited; `None` stands for all maps.
    pub tint_selection: Option<String>,
    /// The map whose pose is edited; empty if none.
    pub pose_map: String,
}

/// The characters of an optional string.
pub open spec fn opt_chars(s: Option<String>) -> Option<Seq<char>> {
    match s {
        Some(x) => Some(x@),
        None => None,
    }
}

/// Updates the selections after the map `name` was deleted, given the sorted names
/// of the remaining maps: a tool on that map stops, its tint selection moves to the
/// last remaining map (or to all maps if none remains), and its pose selection is cleared.
pub fn deselect_deleted(sel: &mut Selections, name: &str, remaining: &Vec<String>)
    ensures
        opt_chars(final(sel).active_tool) == (if opt_chars(old(sel).active_tool) == Some(name@) {
            None
        } else {
            opt_chars(old(sel).active_tool)
        }),
        opt_chars(final(sel).tint_selection) == (if opt_chars(old(sel).tint_selection) == Some(
            name@,
        ) {
            if remaining@.len() == 0 {
                None
            } else {
                Some(remaining@.last()@)
            }
        } else {
            opt_chars(old(sel).tint_selection)
        }),
        final(sel).pose_map@ == (if old(sel).pose_map@ == name@ {
            Seq::<char>::empty()
        } else {
            old(sel).pose_map@
        }),
{
    let target = name.to_owned();
    let tool_hit = match &sel.active_tool {
        Some(t) => *t == target,
        None => false,
    };
    if tool_hit {
        sel.active_tool = None;
    }
    let tint_hit = match &sel.tint_selection {
        Some(t) => *t == target,
        None => false,
    };
    if tint_hit {
        if remaining.len() == 0 {
            sel.tint_selection = None;
        } else {
            sel.tint_selection = Some(remaining[remaining.len() - 1].clone());
        }
    }
    if sel.pose_map == target {
        let empty = String::new();
        sel.pose_map = empty;
    }
}

} // verus!
