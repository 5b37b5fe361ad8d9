//! Color maps from occupancy grid cell values to RGBA colors.
//! Includes the classic RViz color maps for occupancy grids.
//!
//! The ramps of the color maps are stated in integer arithmetic: each channel
//! is the floor of a fraction with denominator 100 or 126.
use vstd::prelude::*;

verus! {

/// An 8-bit RGBA color.
#[derive(Debug, Clone, Copy, PartialEq, Eq)]
pub struct Rgba(pub [u8; 4]);

/// Builds a color from its four channels.
pub open spec fn rgba(r: u8, g: u8, b: u8, a: u8) -> Rgba {
    Rgba([r, g, b, a])
}

/// Color shared by all value-interpreting color maps for the values above 100,
/// which are not valid occupancy probabilities: 101..=127 are green, 128..=254 form a
/// ramp from red to yellow, and 255 (unknown) is gray-green.
pub open spec fn special_value_color(v: u8) -> Rgba {
    if v < 128 {
        rgba(0, 255, 0, 255)
    } else if v < 255 {
        rgba(255, ((255 * (v - 128)) / 126) as u8, 0, 255)
    } else {
        rgba(112, 137, 134, 255)
    }
}

/// The RViz "Map" color of a cell value: 0 (free) is white, 100 (occupied) is black,
/// with a gray ramp in between.
pub open spec fn rviz_map_color(v: u8) -> Rgba {
    if v <= 100 {
        let x = ((25500 - 255 * v) / 100) as u8;
        rgba(x, x, x, 255)
    } else {
        special_value_color(v)
    }
}

/// The RViz "Costmap" color of a cell value: 0 is transparent, 1..=98 form a ramp
/// from blue to red, 99 (inscribed) is cyan and 100 (lethal) is purple.
pub open spec fn costmap_color(v: u8) -> Rgba {
    if v == 0 {
        rgba(0, 0, 0, 0)
    } else if v < 99 {
        let x = ((255 * v) / 100) as u8;
        rgba(x, 0, (255 - x) as u8, 255)
    } else if v == 99 {
        rgba(0, 255, 255, 255)
    } else if v == 100 {
        rgba(255, 0, 255, 255)
    } else {
        special_value_color(v)
    }
}

/// The "Cool Costmap" color of a cell value: like the costmap colors, but with a
/// dark teal to pale ramp and less screaming colors for 99 and 100.
pub open spec fn cool_costmap_color(v: u8) -> Rgba {
    if v == 0 {
        rgba(0, 0, 0, 0)
    } else if v < 99 {
        rgba(
            ((3800 + 129 * v) / 100) as u8,
            ((5500 + 171 * v) / 100) as u8,
            ((5900 + 134 * v) / 100) as u8,
            255,
        )
    } else if v == 99 {
        rgba(38, 55, 59, 255)
    } else if v == 100 {
        rgba(255, 252, 93, 255)
    } else {
        special_value_color(v)
    }
}

/// The "Raw" color of a cell value: the value itself as opaque gray.
pub open spec fn raw_color(v: u8) -> Rgba {
    rgba(v, v, v, 255)
}

/// Color map options. Includes the classic RViz colormaps.
#[derive(Debug, Clone, Copy, PartialEq, Eq, Structural)]
pub enum ColorMap {
    /// "Raw" occupancy grid colormap (no-op).
    Raw,
    /// Reimplementation of the ROS RViz "Map" occupancy grid colormap.
    RvizMap,
    /// Reimplementation of the ROS RViz "Costmap" occupancy grid colormap.
    RvizCostmap,
    /// An alternative costmap color map with less screaming colors.
    CoolCostmap,
}

/// The color that a color map option assigns to a cell value.
pub open spec fn color_of(colormap: ColorMap, v: u8) -> Rgba {
    match colormap {
        ColorMap::Raw => raw_color(v),
        ColorMap::RvizMap => rviz_map_color(v),
        ColorMap::RvizCostmap => costmap_color(v),
        ColorMap::CoolCostmap => cool_costmap_color(v),
    }
}

/// The 256 entries of a lookup table for a color function, indexed by cell value.
pub open spec fn table_of(f: spec_fn(u8) -> Rgba) -> Seq<Rgba> {
    Seq::new(256, |i: int| f(i as u8))
}

/// Trait for color mapping from cell values to RGBA colors.
pub trait ValueColorMap {
    /// The color that this map assigns to `value`.
    spec fn spec_map(&self, value: u8) -> Rgba;

    /// Maps a cell value to its color.
    fn map(&self, value: u8) -> (c: Rgba)
        ensures
            c == self.spec_map(value),
    ;
}

fn special_value_entry(v: u8) -> (c: Rgba)
    requires
        v > 100,
    ensures
        c == special_value_color(v),
{
    if v < 128 {
        Rgba([0, 255, 0, 255])
    } else if v < 255 {
        let x: u8 = ((255 * (v as u32 - 128)) / 126) as u8;
        Rgba([255, x, 0, 255])
    } else {
        Rgba([112, 137, 134, 255])
    }
}

fn rviz_map_entry(v: u8) -> (c: Rgba)
    ensures
        c == rviz_map_color(v),
{
    if v <= 100 {
        let x: u8 = ((25500 - 255 * (v as u32)) / 100) as u8;
        Rgba([x, x, x, 255])
    } else {
        special_value_entry(v)
    }
}

fn costmap_entry(v: u8) -> (c: Rgba)
    ensures
        c == costmap_color(v),
{
    if v == 0 {
        Rgba([0, 0, 0, 0])
    } else if v < 99 {
        let x: u8 = ((255 * (v as u32)) / 100) as u8;
        Rgba([x, 0, 255 - x, 255])
    } else if v == 99 {
        Rgba([0, 255, 255, 255])
    } else if v == 100 {
        Rgba([255, 0, 255, 255])
    } else {
        special_value_entry(v)
    }
}

fn cool_costmap_entry(v: u8) -> (c: Rgba)
    ensures
        c == cool_costmap_color(v),
{
    if v == 0 {
        Rgba([0, 0, 0, 0])
    } else if v < 99 {
        let r: u8 = ((3800 + 129 * (v as u32)) / 100) as u8;
        let g: u8 = ((5500 + 171 * (v as u32)) / 100) as u8;
        let b: u8 = ((5900 + 134 * (v as u32)) / 100) as u8;
        Rgba([r, g, b, 255])
    } else if v == 99 {
        Rgba([38, 55, 59, 255])
    } else if v == 100 {
        Rgba([255, 252, 93, 255])
    } else {
        special_value_entry(v)
    }
}

/// Lookup table of the RViz "Map" colors.
pub struct RvizMapColors {
    mapped: Vec<Rgba>,
}

impl View for RvizMapColors {
    type V = Seq<Rgba>;

    closed spec fn view(&self) -> Seq<Rgba> {
        self.mapped@
    }
}

impl RvizMapColors {
    #[verifier::type_invariant]
    spec fn well_formed(self) -> bool {
        self.mapped@ == table_of(|v: u8| rviz_map_color(v))
    }

    /// Builds the lookup table.
    pub fn new() -> (s: Self)
        ensures
            s@ == table_of(|v: u8| rviz_map_color(v)),
    {
        let mut mapped: Vec<Rgba> = Vec::new();
        let mut i: u32 = 0;
        while i < 256
            invariant
                i <= 256,
                mapped@.len() == i,
                forall|j: int| 0 <= j < i ==> mapped@[j] == rviz_map_color(j as u8),
            decreases 256 - i,
        {
            let c = rviz_map_entry(i as u8);
            mapped.push(c);
            i = i + 1;
        }
        assert(mapped@ =~= table_of(|v: u8| rviz_map_color(v)));
        RvizMapColors { mapped }
    }
}

impl ValueColorMap for RvizMapColors {
    open spec fn spec_map(&self, value: u8) -> Rgba {
        rviz_map_color(value)
    }

    fn map(&self, value: u8) -> (c: Rgba) {
        proof {
            use_type_invariant(self);
        }
        self.mapped[value as usize]
    }
}

/// Lookup table of the RViz "Costmap" colors.
pub struct CostmapColors {
    mapped: Vec<Rgba>,
}

impl View for CostmapColors {
    type V = Seq<Rgba>;

    closed spec fn view(&self) -> Seq<Rgba> {
        self.mapped@
    }
}

impl CostmapColors {
    #[verifier::type_invariant]
    spec fn well_formed(self) -> bool {
        self.mapped@ == table_of(|v: u8| costmap_color(v))
    }

    /// Builds the lookup table.
    pub fn new() -> (s: Self)
        ensures
            s@ == table_of(|v: u8| costmap_color(v)),
    {
        let mut mapped: Vec<Rgba> = Vec::new();
        let mut i: u32 = 0;
        while i < 256
            invariant
                i <= 256,
                mapped@.len() == i,
                forall|j: int| 0 <= j < i ==> mapped@[j] == costmap_color(j as u8),
            decreases 256 - i,
        {
            let c = costmap_entry(i as u8);
            mapped.push(c);
            i = i + 1;
        }
        assert(mapped@ =~= table_of(|v: u8| costmap_color(v)));
        CostmapColors { mapped }
    }
}

impl ValueColorMap for CostmapColors {
    open spec fn spec_map(&self, value: u8) -> Rgba {
        costmap_color(value)
    }

    fn map(&self, value: u8) -> (c: Rgba) {
        proof {
            use_type_invariant(self);
        }
        self.mapped[value as usize]
    }
}

/// "Raw" occupancy grid colormap: shows the value as gray.
pub struct Raw;

impl ValueColorMap for Raw {
    open spec fn spec_map(&self, value: u8) -> Rgba {
        raw_color(value)
    }

    fn map(&self, value: u8) -> (c: Rgba) {
        Rgba([value, value, value, 255])
    }
}

/// Lookup table of the "Cool Costmap" colors.
pub struct CoolCostmapColors {
    mapped: Vec<Rgba>,
}

impl View for CoolCostmapColors {
    type V = Seq<Rgba>;

    closed spec fn view(&self) -> Seq<Rgba> {
        self.mapped@
    }
}

impl CoolCostmapColors {
    #[verifier::type_invariant]
    spec fn well_formed(self) -> bool {
        self.mapped@ == table_of(|v: u8| cool_costmap_color(v))
    }

    /// Builds the lookup table.
    pub fn new() -> (s: Self)
        ensures
            s@ == table_of(|v: u8| cool_costmap_color(v)),
    {
        let mut mapped: Vec<Rgba> = Vec::new();
        let mut i: u32 = 0;
        while i < 256
            invariant
                i <= 256,
                mapped@.len() == i,
                forall|j: int| 0 <= j < i ==> mapped@[j] == cool_costmap_color(j as u8),
            decreases 256 - i,
        {
            let c = cool_costmap_entry(i as u8);
            mapped.push(c);
            i = i + 1;
        }
        assert(mapped@ =~= table_of(|v: u8| cool_costmap_color(v)));
        CoolCostmapColors { mapped }
    }
}

impl ValueColorMap for CoolCostmapColors {
    open spec fn spec_map(&self, value: u8) -> Rgba {
        cool_costmap_color(value)
    }

    fn map(&self, value: u8) -> (c: Rgba) {
        proof {
            use_type_invariant(self);
        }
        self.mapped[value as usize]
    }
}

/// The color map implementation that belongs to a [`ColorMap`] option.
pub enum ColorMapImpl {
    Raw(Raw),
    RvizMap(RvizMapColors),
    RvizCostmap(CostmapColors),
    CoolCostmap(CoolCostmapColors),
}

impl ColorMapImpl {
    /// The option that this implementation belongs to.
    pub open spec fn option(&self) -> ColorMap {
        match self {
            ColorMapImpl::Raw(_) => ColorMap::Raw,
            ColorMapImpl::RvizMap(_) => ColorMap::RvizMap,
            ColorMapImpl::RvizCostmap(_) => ColorMap::RvizCostmap,
            ColorMapImpl::CoolCostmap(_) => ColorMap::CoolCostmap,
        }
    }
}

impl ValueColorMap for ColorMapImpl {
    open spec fn spec_map(&self, value: u8) -> Rgba {
        color_of(self.option(), value)
    }

    fn map(&self, value: u8) -> (c: Rgba) {
        match self {
            ColorMapImpl::Raw(m) => m.map(value),
            ColorMapImpl::RvizMap(m) => m.map(value),
            ColorMapImpl::RvizCostmap(m) => m.map(value),
            ColorMapImpl::CoolCostmap(m) => m.map(value),
        }
    }
}

impl ColorMap {
    /// Gives access to the corresponding color map trait implementation.
    pub fn get(&self) -> (m: ColorMapImpl)
        ensures
            m.option() == *self,
            forall|v: u8| #[trigger] m.spec_map(v) == color_of(*self, v),
    {
        match self {
            ColorMap::RvizMap => ColorMapImpl::RvizMap(RvizMapColors::new()),
            ColorMap::RvizCostmap => ColorMapImpl::RvizCostmap(CostmapColors::new()),
            ColorMap::Raw => ColorMapImpl::Raw(Raw),
            ColorMap::CoolCostmap => ColorMapImpl::CoolCostmap(CoolCostmapColors::new()),
        }
    }

    /// Display name of the option.
    pub fn name(&self) -> (s: String)
        ensures
            s@ == colormap_name(*self),
    {
        match self {
            ColorMap::Raw => String::from_str("Raw"),
            ColorMap::RvizMap => String::from_str("RViz \"Map\""),
            ColorMap::RvizCostmap => String::from_str("RViz \"Costmap\""),
            ColorMap::CoolCostmap => String::from_str("Cool Costmap"),
        }
    }
}

/// Display name of a color map option.
pub open spec fn colormap_name(c: ColorMap) -> Seq<char> {
    match c {
        ColorMap::Raw => "Raw"@,
        ColorMap::RvizMap => "RViz \"Map\""@,
        ColorMap::RvizCostmap => "RViz \"Costmap\""@,
        ColorMap::CoolCostmap => "Cool Costmap"@,
    }
}

impl Default for ColorMap {
    /// The RViz "Map" color map is the default.
    fn default() -> (c: ColorMap)
        ensures
            c == ColorMap::RvizMap,
    {
        ColorMap::RvizMap
    }
}

/// In the RViz "Map" colors, a higher occupancy value never gives a brighter gray.
pub proof fn lemma_rviz_map_darkens_with_occupancy(a: u8, b: u8)
    requires
        a <= b <= 100,
    ensures
        rviz_map_color(b).0[0] <= rviz_map_color(a).0[0],
        rviz_map_color(a).0[0] == rviz_map_color(a).0[1] == rviz_map_color(a).0[2],
{
    vstd::arithmetic::div_mod::lemma_div_is_ordered(
        25500 - 255 * (b as int),
        25500 - 255 * (a as int),
        100,
    );
}

/// In the costmap colors, the blue to red ramp over 1..=98 never loses red,
/// and red and blue always add up to 255.
pub proof fn lemma_costmap_ramp(a: u8, b: u8)
    requires
        1 <= a <= b < 99,
    ensures
        costmap_color(a).0[0] <= costmap_color(b).0[0],
        costmap_color(a).0[0] + costmap_color(a).0[2] == 255,
{
    vstd::arithmetic::div_mod::lemma_div_is_ordered(255 * (a as int), 255 * (b as int), 100);
}

/// All value-interpreting color maps agree on the values above 100.
pub proof fn lemma_special_values_shared(v: u8)
    requires
        v > 100,
    ensures
        rviz_map_color(v) == costmap_color(v),
        costmap_color(v) == cool_costmap_color(v),
{
}

/// Every color is opaque, except the fully transparent value 0 of the two costmaps.
pub proof fn lemma_opacity(c: ColorMap, v: u8)
    ensures
        color_of(c, v).0[3] == (if v == 0 && (c == ColorMap::RvizCostmap || c
            == ColorMap::CoolCostmap) {
            0u8
        } else {
            255u8
        }),
{
}

} // verus!
