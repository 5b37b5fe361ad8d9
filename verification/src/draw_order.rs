//! Draw order of the loaded maps: an ordered list of distinct map names.
use vstd::prelude::*;

verus! {

/// The names of a sequence of strings.
pub open spec fn names(keys: Seq<String>) -> Seq<Seq<char>> {
    keys.map_values(|k: String| k@)
}

/// The draw order after adding `name`: appended at the end unless it is already there.
pub open spec fn order_add(order: Seq<Seq<char>>, name: Seq<char>) -> Seq<Seq<char>> {
    if order.contains(name) {
        order
    } else {
        order.push(name)
    }
}

/// The draw order after removing `name`: every occurrence is dropped, the rest keeps its order.
pub open spec fn order_remove(order: Seq<Seq<char>>, name: Seq<char>) -> Seq<Seq<char>> {
    order.filter(other_than(name))
}

/// Holds of every name but `name`.
pub open spec fn other_than(name: Seq<char>) -> spec_fn(Seq<char>) -> bool {
    |k: Seq<char>| k != name
}

/// The draw order after adding all names of `other`, in the order of `other`.
pub open spec fn order_extend(order: Seq<Seq<char>>, other: Seq<Seq<char>>) -> Seq<Seq<char>>
    decreases other.len(),
{
    if other.len() == 0 {
        order
    } else {
        order_add(order_extend(order, other.drop_last()), other.last())
    }
}

/// Stores the order in which maps are drawn, first to last.
/// Each name occurs at most once.
pub struct DrawOrder {
    keys: Vec<String>,
}

impl View for DrawOrder {
    type V = Seq<Seq<char>>;

    closed spec fn view(&self) -> Seq<Seq<char>> {
        names(self.keys@)
    }
}

impl DrawOrder {
    #[verifier::type_invariant]
    spec fn well_formed(self) -> bool {
        names(self.keys@).no_duplicates()
    }

    /// Creates an empty draw order.
    pub fn new() -> (s: Self)
        ensures
            s@ == Seq::<Seq<char>>::empty(),
    {
        let s = DrawOrder { keys: Vec::new() };
        assert(s@ =~= Seq::<Seq<char>>::empty());
        s
    }

    /// Appends `name` at the end, unless it is already in the draw order
    /// (e.g. when a map that was already inserted is reloaded).
    pub fn add(&mut self, name: String)
        ensures
            final(self)@ == order_add(old(self)@, name@),
    {
        if self.contains(name.as_str()) {
            return;
        }
        proof {
            use_type_invariant(&*self);
        }
        let mut keys: Vec<String> = Vec::new();
        std::mem::swap(&mut keys, &mut self.keys);
        proof {
            assert(names(keys@.push(name)) =~= names(keys@).push(name@));
        }
        keys.push(name);
        self.keys = keys;
    }

    /// Removes `name` from the draw order, if present.
    pub fn remove(&mut self, name: &str)
        ensures
            final(self)@ == order_remove(old(self)@, name@),
    {
        proof {
            use_type_invariant(&*self);
        }
        let ghost old_names = self@;
        let mut kept: Vec<String> = Vec::new();
        let mut i: usize = 0;
        let n = self.keys.len();
        let target = name.to_owned();
        while i < n
            invariant
                n == self.keys@.len(),
                old_names == names(self.keys@),
                old_names.no_duplicates(),
                target@ == name@,
                i <= n,
                names(kept@) == order_remove(old_names.take(i as int), name@),
                names(kept@).no_duplicates(),
                forall|m: Seq<char>|
                    names(kept@).contains(m) ==> old_names.take(i as int).contains(m),
            decreases n - i,
        {
            proof {
                reveal_with_fuel(Seq::<_>::filter, 1);
                assert(old_names.take(i + 1).drop_last() =~= old_names.take(i as int));
            }
            if !(self.keys[i] == target) {
                let k = self.keys[i].clone();
                proof {
                    assert(names(kept@.push(k)) =~= names(kept@).push(k@));
                    assert(k@ == old_names[i as int]);
                    if names(kept@).contains(k@) {
                        let j = choose|j: int|
                            0 <= j < i && old_names.take(i as int)[j] == k@;
                        assert(old_names[j] == old_names[i as int]);
                    }
                    assert forall|m: Seq<char>|
                        names(kept@.push(k)).contains(m) implies old_names.take(
                        i + 1,
                    ).contains(m) by {
                        if m == k@ {
                            assert(old_names.take(i + 1)[i as int] == m);
                        } else {
                            assert(names(kept@).contains(m));
                            let j = choose|j: int|
                                0 <= j < i && old_names.take(i as int)[j] == m;
                            assert(old_names.take(i + 1)[j] == m);
                        }
                    }
                }
                kept.push(k);
            }
            i = i + 1;
        }
        proof {
            assert(old_names.take(n as int) =~= old_names);
        }
        self.keys = kept;
    }

    /// The names in draw order, each once.
    pub fn keys(&self) -> (k: &Vec<String>)
        ensures
            names(k@) == self@,
            self@.no_duplicates(),
    {
        proof {
            use_type_invariant(self);
        }
        &self.keys
    }

    /// Whether `name` is in the draw order.
    pub fn contains(&self, name: &str) -> (b: bool)
        ensures
            b == self@.contains(name@),
    {
        let target = name.to_owned();
        let n = self.keys.len();
        let mut i: usize = 0;
        while i < n
            invariant
                n == self.keys@.len(),
                target@ == name@,
                i <= n,
                forall|j: int| 0 <= j < i ==> self@[j] != name@,
            decreases n - i,
        {
            if self.keys[i] == target {
                assert(self@[i as int] == name@);
                return true;
            }
            i = i + 1;
        }
        false
    }

    /// Adds all names of `other` that are not yet in the draw order,
    /// in the order of `other`.
    pub fn extend(&mut self, other: &DrawOrder)
        ensures
            final(self)@ == order_extend(old(self)@, other@),
    {
        let ghost start = self@;
        let n = other.keys.len();
        let mut i: usize = 0;
        while i < n
            invariant
                n == other.keys@.len(),
                i <= n,
                self@ == order_extend(start, other@.take(i as int)),
            decreases n - i,
        {
            proof {
                assert(other@.take(i + 1).drop_last() =~= other@.take(i as int));
                assert(other@.take(i + 1).last() == other.keys@[i as int]@);
            }
            self.add(other.keys[i].clone());
            i = i + 1;
        }
        proof {
            assert(other@.take(n as int) =~= other@);
        }
    }
}

impl Default for DrawOrder {
    fn default() -> (s: Self)
        ensures
            s@ == Seq::<Seq<char>>::empty(),
    {
        DrawOrder::new()
    }
}

/// Adding a name twice has the same effect as adding it once.
pub proof fn lemma_add_idempotent(order: Seq<Seq<char>>, name: Seq<char>)
    ensures
        order_add(order_add(order, name), name) == order_add(order, name),
        order_add(order, name).contains(name),
{
    assert(order.push(name).last() == name);
}

/// Removing a name that was just added to a draw order without it gives back that draw order.
pub proof fn lemma_remove_undoes_add(order: Seq<Seq<char>>, name: Seq<char>)
    requires
        !order.contains(name),
    ensures
        order_remove(order_add(order, name), name) == order,
    decreases order.len(),
{
    reveal_with_fuel(Seq::<_>::filter, 1);
    let pushed = order.push(name);
    assert(pushed.drop_last() =~= order);
    lemma_remove_absent(order, name);
}

/// Removing a name that is not in a draw order changes nothing.
pub proof fn lemma_remove_absent(order: Seq<Seq<char>>, name: Seq<char>)
    requires
        !order.contains(name),
    ensures
        order_remove(order, name) == order,
    decreases order.len(),
{
    reveal_with_fuel(Seq::<_>::filter, 1);
    if order.len() > 0 {
        let prefix = order.drop_last();
        assert(!prefix.contains(name)) by {
            if prefix.contains(name) {
                let j = choose|j: int| 0 <= j < prefix.len() && prefix[j] == name;
                assert(order[j] == name);
            }
        }
        lemma_remove_absent(prefix, name);
        assert(order.last() != name);
        assert(prefix.push(order.last()) =~= order);
    }
}

/// Removing a name from a draw order of distinct names takes out exactly that name: the
/// names before it and the names after it stay where they are relative to each other, so
/// no other map changes its place in the drawing order; a draw order without the name
/// stays as it is.
pub proof fn lemma_remove_keeps_order(order: Seq<Seq<char>>, name: Seq<char>, i: int)
    requires
        order.no_duplicates(),
    ensures
        !order.contains(name) ==> order_remove(order, name) == order,
        0 <= i < order.len() && order[i] == name ==> order_remove(order, name) == order.take(i)
            + order.skip(i + 1),
{
    if !order.contains(name) {
        lemma_remove_absent(order, name);
    }
    if 0 <= i < order.len() && order[i] == name {
        let before = order.take(i);
        let after = order.skip(i + 1);
        let pred = other_than(name);
        assert(order =~= before + seq![name] + after);
        assert(!before.contains(name)) by {
            if before.contains(name) {
                let j = choose|j: int| 0 <= j < before.len() && before[j] == name;
                assert(order[j] == order[i]);
            }
        }
        assert(!after.contains(name)) by {
            if after.contains(name) {
                let j = choose|j: int| 0 <= j < after.len() && after[j] == name;
                assert(order[i + 1 + j] == order[i]);
            }
        }
        lemma_remove_absent(before, name);
        lemma_remove_absent(after, name);
        Seq::filter_distributes_over_add(before + seq![name], after, pred);
        Seq::filter_distributes_over_add(before, seq![name], pred);
        reveal_with_fuel(Seq::<_>::filter, 2);
        assert(seq![name].drop_last() =~= Seq::<Seq<char>>::empty());
        assert(seq![name].filter(pred) =~= Seq::<Seq<char>>::empty());
        assert(before + Seq::<Seq<char>>::empty() =~= before);
    }
}

/// After removing a name, the draw order no longer holds it,
/// and it holds every other name that it held before.
pub proof fn lemma_remove_contains(order: Seq<Seq<char>>, name: Seq<char>, other: Seq<char>)
    ensures
        !order_remove(order, name).contains(name),
        other != name ==> (order_remove(order, name).contains(other) <==> order.contains(other)),
{
    let pred = other_than(name);
    if order_remove(order, name).contains(name) {
        let j = choose|j: int|
            0 <= j < order_remove(order, name).len() && order_remove(order, name)[j] == name;
        order.lemma_filter_pred(pred, j);
    }
    if order_remove(order, name).contains(other) {
        order.lemma_filter_contains_rev(pred, other);
    }
    if other != name && order.contains(other) {
        let j = choose|j: int| 0 <= j < order.len() && order[j] == other;
        order.lemma_filter_contains(pred, j);
    }
}

/// Extending a draw order keeps its names in their order at the front,
/// and the result holds exactly the names of both, each once.
pub proof fn lemma_extend(order: Seq<Seq<char>>, other: Seq<Seq<char>>)
    requires
        order.no_duplicates(),
    ensures
        order_extend(order, other).len() >= order.len(),
        order_extend(order, other).subrange(0, order.len() as int) == order,
        order_extend(order, other).no_duplicates(),
        forall|m: Seq<char>|
            #[trigger] order_extend(order, other).contains(m) <==> (order.contains(m)
                || other.contains(m)),
    decreases other.len(),
{
    if other.len() > 0 {
        let prev = order_extend(order, other.drop_last());
        lemma_extend(order, other.drop_last());
        let last = other.last();
        assert(prev.push(last).subrange(0, order.len() as int) =~= prev.subrange(
            0,
            order.len() as int,
        ));
        assert forall|m: Seq<char>|
            #[trigger] order_extend(order, other).contains(m) <==> (order.contains(m)
                || other.contains(m)) by {
            if other.contains(m) && m != last {
                let j = choose|j: int| 0 <= j < other.len() && other[j] == m;
                assert(other.drop_last()[j] == m);
            }
            if other.drop_last().contains(m) {
                let j = choose|j: int| 0 <= j < other.drop_last().len() && other.drop_last()[j] == m;
                assert(other[j] == m);
            }
            if !prev.contains(last) {
                assert(prev.push(last)[prev.len() as int] == last);
                if prev.push(last).contains(m) && m != last {
                    let j = choose|j: int| 0 <= j < prev.push(last).len() && prev.push(last)[j] == m;
                    assert(prev[j] == m);
                }
                if prev.contains(m) {
                    let j = choose|j: int| 0 <= j < prev.len() && prev[j] == m;
                    assert(prev.push(last)[j] == m);
                }
            }
            assert(other[other.len() - 1] == last);
        }
    }
}

/// Extending a draw order with names that it already holds changes nothing,
/// e.g. when a session is reloaded.
pub proof fn lemma_extend_known(order: Seq<Seq<char>>, other: Seq<Seq<char>>)
    requires
        forall|m: Seq<char>| other.contains(m) ==> order.contains(m),
    ensures
        order_extend(order, other) == order,
    decreases other.len(),
{
    if other.len() > 0 {
        assert forall|m: Seq<char>| other.drop_last().contains(m) implies order.contains(m) by {
            let j = choose|j: int| 0 <= j < other.drop_last().len() && other.drop_last()[j] == m;
            assert(other[j] == m);
        }
        lemma_extend_known(order, other.drop_last());
        assert(other.contains(other[other.len() - 1]));
    }
}

} // verus!
