//! Choice of the downscaled levels of an image pyramid.
//! The pyramid stores downscaled versions of an image for discrete sizes, for efficient
//! on-screen rendering at different zoom levels.
use vstd::prelude::*;

verus! {

/// Side lengths used for the image pyramid levels, largest first.
/// These correspond roughly to zoom levels w.r.t. original images.
pub open spec fn pyramid_sizes() -> Seq<u32> {
    seq![8000u32, 6000, 4000, 2000, 1000, 500, 250]
}

fn pyramid_size(i: usize) -> (s: u32)
    requires
        i < 7,
    ensures
        s == pyramid_sizes()[i as int],
{
    let sizes: [u32; 7] = [8000, 6000, 4000, 2000, 1000, 500, 250];
    sizes[i]
}

/// Whether an image of the given size gets a level of side length `size`: the longer
/// side of the image has to be at least that long.
pub open spec fn has_level(width: u32, height: u32) -> spec_fn(u32) -> bool {
    |size: u32| width >= size || height >= size
}

/// The levels that exist and are at least `dim` long.
pub open spec fn usable_level(levels: Seq<u32>, dim: u32, s: u32) -> bool {
    pyramid_sizes().contains(s) && levels.contains(s) && s >= dim
}

/// `s` is the smallest level that is at least `dim` long.
pub open spec fn is_closest_level(levels: Seq<u32>, dim: u32, s: u32) -> bool {
    usable_level(levels, dim, s) && forall|t: u32| usable_level(levels, dim, t) ==> s <= t
}

/// The side lengths of the levels of an image pyramid.
pub struct PyramidLevels {
    sizes: Vec<u32>,
}

impl View for PyramidLevels {
    type V = Seq<u32>;

    closed spec fn view(&self) -> Seq<u32> {
        self.sizes@
    }
}

impl PyramidLevels {
    /// The levels of a pyramid for an image of the given size: every pyramid size that
    /// the longer image side reaches, largest first.
    pub fn new(width: u32, height: u32) -> (l: Self)
        ensures
            l@ == pyramid_sizes().filter(has_level(width, height)),
    {
        let mut sizes: Vec<u32> = Vec::new();
        let mut i: usize = 0;
        while i < 7
            invariant
                i <= 7,
                sizes@ == pyramid_sizes().take(i as int).filter(has_level(width, height)),
            decreases 7 - i,
        {
            proof {
                reveal_with_fuel(Seq::<_>::filter, 1);
                assert(pyramid_sizes().take(i + 1).drop_last() =~= pyramid_sizes().take(i as int));
            }
            let size = pyramid_size(i);
            if width >= size || height >= size {
                sizes.push(size);
            }
            i = i + 1;
        }
        proof {
            assert(pyramid_sizes().take(7) =~= pyramid_sizes());
        }
        PyramidLevels { sizes }
    }

    /// The number of levels.
    pub fn num_levels(&self) -> (n: usize)
        ensures
            n == self@.len(),
    {
        self.sizes.len()
    }

    fn holds(&self, size: u32) -> (b: bool)
        ensures
            b == self@.contains(size),
    {
        let n = self.sizes.len();
        let mut i: usize = 0;
        while i < n
            invariant
                n == self@.len(),
                i <= n,
                forall|j: int| 0 <= j < i ==> self@[j] != size,
            decreases n - i,
        {
            if self.sizes[i] == size {
                return true;
            }
            i = i + 1;
        }
        false
    }

    /// The smallest level that is at least `dim` long, or `None` if there is none and the
    /// original image has to be used.
    pub fn get_level(&self, dim: u32) -> (r: Option<u32>)
        ensures
            r matches Some(s) ==> is_closest_level(self@, dim, s),
            r is None ==> forall|t: u32| !usable_level(self@, dim, t),
    {
        let mut i: usize = 7;
        while i > 0
            invariant
                i <= 7,
                forall|j: int|
                    i <= j < 7 ==> !usable_level(self@, dim, #[trigger] pyramid_sizes()[j]),
            decreases i,
        {
            let size = pyramid_size(i - 1);
            if size >= dim && self.holds(size) {
                proof {
                    assert(pyramid_sizes()[i - 1] == size);
                    assert(pyramid_sizes().contains(size));
                    assert forall|t: u32| usable_level(self@, dim, t) implies size <= t by {
                        let j = choose|j: int| 0 <= j < 7 && pyramid_sizes()[j] == t;
                        if j < i - 1 {
                            assert(pyramid_sizes()[j] > pyramid_sizes()[i - 1]);
                        }
                    }
                }
                return Some(size);
            }
            i = i - 1;
        }
        proof {
            assert forall|t: u32| !usable_level(self@, dim, t) by {
                if pyramid_sizes().contains(t) {
                    let j = choose|j: int| 0 <= j < 7 && pyramid_sizes()[j] == t;
                    assert(!usable_level(self@, dim, pyramid_sizes()[j]));
                }
            }
        }
        None
    }
}

/// No level of a pyramid is longer than the longer side of its image, and a level exists for
/// every pyramid size that the longer side reaches.
pub proof fn lemma_levels_fit_image(width: u32, height: u32, s: u32)
    ensures
        pyramid_sizes().filter(has_level(width, height)).contains(s) <==> (pyramid_sizes().contains(
            s,
        ) && (width >= s || height >= s)),
{
    let p = has_level(width, height);
    if pyramid_sizes().filter(p).contains(s) {
        pyramid_sizes().lemma_filter_contains_rev(p, s);
        let j = choose|j: int|
            0 <= j < pyramid_sizes().filter(p).len() && pyramid_sizes().filter(p)[j] == s;
        pyramid_sizes().lemma_filter_pred(p, j);
    }
    if pyramid_sizes().contains(s) && (width >= s || height >= s) {
        let j = choose|j: int| 0 <= j < pyramid_sizes().len() && pyramid_sizes()[j] == s;
        pyramid_sizes().lemma_filter_contains(p, j);
    }
}

/// A larger requested size never gives a smaller level.
pub proof fn lemma_closest_level_monotone(levels: Seq<u32>, d1: u32, d2: u32, a: u32, b: u32)
    requires
        d1 <= d2,
        is_closest_level(levels, d1, a),
        is_closest_level(levels, d2, b),
    ensures
        a <= b,
{
    assert(usable_level(levels, d1, b));
}

} // verus!
