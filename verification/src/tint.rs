//! Blending options of the maps: tint, color to alpha, texture filter and value
//! interpretation, for all maps at once or for one map.
//! Value interpretations are kept in the type `V` that the caller chooses.
use vstd::prelude::*;

use crate::render_options::TextureFilter;
use crate::value_colormap::{ColorMap, Rgba};

verus! {

/// The tint that leaves a map's colors as they are (white).
pub open spec fn no_tint() -> Rgba {
    Rgba([255u8, 255u8, 255u8, 255u8])
}

/// The color that the color to alpha picker starts with (middle gray).
pub open spec fn initial_color_to_alpha() -> Rgba {
    Rgba([128u8, 128u8, 128u8, 255u8])
}

/// The blending options of one map.
pub struct MapTint<V> {
    pub tint: Option<Rgba>,
    pub color_to_alpha: Option<Rgba>,
    pub texture_filter: TextureFilter,
    pub use_value_interpretation: bool,
    pub value_interpretation: V,
    /// The value interpretation of the map's metadata file.
    pub file_value_interpretation: V,
    /// Whether the metadata file sets the interpretation mode explicitly.
    pub file_mode_explicit: bool,
}

/// The blending options of the settings panel.
pub struct TintOptions<V> {
    /// The map whose options are edited; `None` stands for all maps.
    pub active_tint_selection: Option<String>,
    pub tint_for_all: Rgba,
    pub edit_color_to_alpha: bool,
    pub color_to_alpha_for_all: Option<Rgba>,
    pub use_value_interpretation_for_all: bool,
    pub value_interpretation_for_all: V,
    pub colormap_for_all: ColorMap,
    pub texture_filter_for_all: TextureFilter,
}

impl<V> TintOptions<V> {
    /// The options at start: all maps selected, no tint, no color to alpha, the given
    /// value interpretation not in use, the default colormap and texture filter.
    pub fn new(value_interpretation: V) -> (o: Self)
        ensures
            o.active_tint_selection is None,
            o.tint_for_all == no_tint(),
            !o.edit_color_to_alpha,
            o.color_to_alpha_for_all is None,
            !o.use_value_interpretation_for_all,
            o.value_interpretation_for_all == value_interpretation,
            o.colormap_for_all == ColorMap::RvizMap,
            o.texture_filter_for_all == TextureFilter::Auto,
    {
        TintOptions {
            active_tint_selection: None,
            tint_for_all: Rgba([255, 255, 255, 255]),
            edit_color_to_alpha: false,
            color_to_alpha_for_all: None,
            use_value_interpretation_for_all: false,
            value_interpretation_for_all: value_interpretation,
            colormap_for_all: ColorMap::RvizMap,
            texture_filter_for_all: TextureFilter::Auto,
        }
    }
}

/// The color to alpha after its checkbox: none while the checkbox is off; when it is on,
/// the picked color, starting from middle gray.
pub fn color_to_alpha_choice(edit: bool, current: Option<Rgba>) -> (c: Option<Rgba>)
    ensures
        c == (if !edit {
            None
        } else if current is None {
            Some(initial_color_to_alpha())
        } else {
            current
        }),
{
    if !edit {
        None
    } else if current.is_none() {
        Some(Rgba([128, 128, 128, 255]))
    } else {
        current
    }
}

/// The reset button: color to alpha editing, the value interpretation for all maps and
/// the texture filter for all maps return to their defaults (`default_interpretation` for
/// the value interpretation); with all maps selected, the tint and color to alpha for all
/// maps are cleared too.
pub fn reset_tint_options<V: Copy>(options: &mut TintOptions<V>, default_interpretation: V, all_selected: bool)
    ensures
        !final(options).edit_color_to_alpha,
        !final(options).use_value_interpretation_for_all,
        final(options).value_interpretation_for_all == default_interpretation,
        final(options).texture_filter_for_all == TextureFilter::Auto,
        final(options).tint_for_all == (if all_selected {
            no_tint()
        } else {
            old(options).tint_for_all
        }),
        final(options).color_to_alpha_for_all == (if all_selected {
            None
        } else {
            old(options).color_to_alpha_for_all
        }),
        final(options).active_tint_selection == old(options).active_tint_selection,
        final(options).colormap_for_all == old(options).colormap_for_all,
{
    options.edit_color_to_alpha = false;
    options.use_value_interpretation_for_all = false;
    options.value_interpretation_for_all = default_interpretation;
    options.texture_filter_for_all = TextureFilter::Auto;
    if all_selected {
        options.tint_for_all = Rgba([255, 255, 255, 255]);
        options.color_to_alpha_for_all = None;
    }
}

/// The reset button with one map selected: the map gets back the value interpretation of
/// its metadata file, in use if the file sets the mode explicitly, no tint, no color to
/// alpha and the default texture filter.
pub fn reset_map_tint<V: Copy>(map: &mut MapTint<V>)
    ensures
        final(map).value_interpretation == old(map).file_value_interpretation,
        final(map).use_value_interpretation == old(map).file_mode_explicit,
        final(map).tint == Some(no_tint()),
        final(map).color_to_alpha is None,
        final(map).texture_filter == TextureFilter::Auto,
        final(map).file_value_interpretation == old(map).file_value_interpretation,
        final(map).file_mode_explicit == old(map).file_mode_explicit,
{
    map.value_interpretation = map.file_value_interpretation;
    map.use_value_interpretation = map.file_mode_explicit;
    map.tint = Some(Rgba([255, 255, 255, 255]));
    map.color_to_alpha = None;
    map.texture_filter = TextureFilter::Auto;
}

/// A map after the options for all maps are applied to it: their tint, color to alpha and
/// texture filter; their value interpretation if it is in use for all maps, else the one
/// of the map's metadata file, not in use.
pub open spec fn tinted_for_all<V>(map: MapTint<V>, all: TintOptions<V>) -> MapTint<V> {
    MapTint {
        tint: Some(all.tint_for_all),
        color_to_alpha: all.color_to_alpha_for_all,
        texture_filter: all.texture_filter_for_all,
        use_value_interpretation: all.use_value_interpretation_for_all,
        value_interpretation: if all.use_value_interpretation_for_all {
            all.value_interpretation_for_all
        } else {
            map.file_value_interpretation
        },
        ..map
    }
}

/// Applies the options for all maps to every map.
pub fn apply_tint_to_all<V: Copy>(maps: &mut Vec<MapTint<V>>, all: &TintOptions<V>)
    ensures
        final(maps)@.len() == old(maps)@.len(),
        forall|i: int|
            0 <= i < old(maps)@.len() ==> #[trigger] final(maps)@[i] == tinted_for_all(
                old(maps)@[i],
                *all,
            ),
{
    let n = maps.len();
    let mut i: usize = 0;
    while i < n
        invariant
            n == maps@.len(),
            n == old(maps)@.len(),
            i <= n,
            forall|j: int| 0 <= j < i ==> #[trigger] maps@[j] == tinted_for_all(old(maps)@[j], *all),
            forall|j: int| i <= j < n ==> #[trigger] maps@[j] == old(maps)@[j],
        decreases n - i,
    {
        let m = &maps[i];
        let file_value_interpretation = m.file_value_interpretation;
        let file_mode_explicit = m.file_mode_explicit;
        let value_interpretation = if all.use_value_interpretation_for_all {
            all.value_interpretation_for_all
        } else {
            file_value_interpretation
        };
        let updated = MapTint {
            tint: Some(all.tint_for_all),
            color_to_alpha: all.color_to_alpha_for_all,
            texture_filter: all.texture_filter_for_all,
            use_value_interpretation: all.use_value_interpretation_for_all,
            value_interpretation,
            file_value_interpretation,
            file_mode_explicit,
        };
        maps.set(i, updated);
        i = i + 1;
    }
}

} // verus!
