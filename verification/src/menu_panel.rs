//! Decisions of the map list in the menu panel.
use vstd::prelude::*;

verus! {

/// Whether all maps are hidden.
pub open spec fn all_hidden(visible: Seq<bool>) -> bool {
    forall|i: int| 0 <= i < visible.len() ==> !visible[i]
}

/// Whether all maps are hidden; then the toggle offers to select all, otherwise to deselect all.
pub fn all_maps_hidden(visible: &Vec<bool>) -> (b: bool)
    ensures
        b == all_hidden(visible@),
{
    let n = visible.len();
    let mut i: usize = 0;
    while i < n
        invariant
            n == visible@.len(),
            i <= n,
            forall|j: int| 0 <= j < i ==> !visible@[j],
        decreases n - i,
    {
        if visible[i] {
            return false;
        }
        i = i + 1;
    }
    true
}

/// The select/deselect-all toggle: shows all maps if all are hidden, otherwise hides all.
pub fn toggle_all_visible(visible: &mut Vec<bool>)
    ensures
        final(visible)@ == Seq::new(old(visible)@.len(), |i: int| all_hidden(old(visible)@)),
{
    let show = all_maps_hidden(visible);
    let n = visible.len();
    let mut i: usize = 0;
    while i < n
        invariant
            n == visible@.len(),
            i <= n,
            show == all_hidden(old(visible)@),
            n == old(visible)@.len(),
            forall|j: int| 0 <= j < i ==> visible@[j] == show,
        decreases n - i,
    {
        visible.set(i, show);
        i = i + 1;
    }
    proof {
        assert(visible@ =~= Seq::new(old(visible)@.len(), |i: int| all_hidden(old(visible)@)));
    }
}

/// Toggling twice: if all maps were hidden, all are hidden again; if some map was shown,
/// all maps end up shown.
pub proof fn lemma_toggle_twice(visible: Seq<bool>)
    requires
        visible.len() > 0,
    ensures
        ({
            let once = Seq::new(visible.len(), |i: int| all_hidden(visible));
            let twice = Seq::new(once.len(), |i: int| all_hidden(once));
            &&& all_hidden(visible) ==> twice == Seq::new(visible.len(), |i: int| false)
            &&& !all_hidden(visible) ==> twice == Seq::new(visible.len(), |i: int| true)
        }),
{
    let once = Seq::new(visible.len(), |i: int| all_hidden(visible));
    if all_hidden(visible) {
        assert(once[0]);
    }
    let twice = Seq::new(once.len(), |i: int| all_hidden(once));
    assert(all_hidden(visible) ==> twice =~= Seq::new(visible.len(), |i: int| false));
    assert(!all_hidden(visible) ==> twice =~= Seq::new(visible.len(), |i: int| true));
}

} // verus!
