use maps::value_colormap::{
    ColorMap, CoolCostmapColors, CostmapColors, Raw, Rgba, RvizMapColors, ValueColorMap,
};

#[test]
fn test_rviz_map_colors() {
    let palette = RvizMapColors::new();
    assert_eq!(palette.map(0), Rgba([255, 255, 255, 255]));
    assert_eq!(palette.map(100), Rgba([0, 0, 0, 255]));
    assert_eq!(palette.map(101), Rgba([0, 255, 0, 255]));
    assert_eq!(palette.map(128), Rgba([255, 0, 0, 255]));
    assert_eq!(palette.map(254), Rgba([255, 255, 0, 255]));
    assert_eq!(palette.map(255), Rgba([112, 137, 134, 255]));
}

#[test]
fn test_costmap_colors() {
    let palette = CostmapColors::new();
    assert_eq!(palette.map(0), Rgba([0, 0, 0, 0]));
    assert_eq!(palette.map(1), Rgba([2, 0, 253, 255]));
    assert_eq!(palette.map(99), Rgba([0, 255, 255, 255]));
    assert_eq!(palette.map(100), Rgba([255, 0, 255, 255]));
    assert_eq!(palette.map(101), Rgba([0, 255, 0, 255]));
    assert_eq!(palette.map(128), Rgba([255, 0, 0, 255]));
    assert_eq!(palette.map(234), Rgba([255, 214, 0, 255]));
    assert_eq!(palette.map(254), Rgba([255, 255, 0, 255]));
    assert_eq!(palette.map(255), Rgba([112, 137, 134, 255]));
}

#[test]
fn test_rviz_raw_colors() {
    let palette = Raw;
    assert_eq!(palette.map(0), Rgba([0, 0, 0, 255]));
    assert_eq!(palette.map(100), Rgba([100, 100, 100, 255]));
    assert_eq!(palette.map(255), Rgba([255, 255, 255, 255]));
}

/// The color maps give the colors of the float formulas they are named after.
fn float_rviz_map(i: usize) -> Rgba {
    if i <= 100 {
        let x = (255. - (i as f32 * 255.) / 100.) as u8;
        Rgba([x, x, x, 255])
    } else if i < 128 {
        Rgba([0, 255, 0, 255])
    } else if i < 255 {
        let x = ((255. * (i as f32 - 128.)) / (254. - 128.)) as u8;
        Rgba([255, x, 0, 255])
    } else {
        Rgba([112, 137, 134, 255])
    }
}

fn float_costmap(i: usize) -> Rgba {
    if i == 0 {
        Rgba([0, 0, 0, 0])
    } else if i < 99 {
        let x = (i as f32 * 255. / 100.) as u8;
        Rgba([x, 0, 255 - x, 255])
    } else if i == 99 {
        Rgba([0, 255, 255, 255])
    } else if i == 100 {
        Rgba([255, 0, 255, 255])
    } else {
        float_rviz_map(i)
    }
}

fn float_cool_costmap(i: usize) -> Rgba {
    if i == 0 {
        Rgba([0, 0, 0, 0])
    } else if i < 99 {
        let r = (38. + (i as f32 * 129.) / 100.) as u8;
        let g = (55. + (i as f32 * 171.) / 100.) as u8;
        let b = (59. + (i as f32 * 134.) / 100.) as u8;
        Rgba([r, g, b, 255])
    } else if i == 99 {
        Rgba([38, 55, 59, 255])
    } else if i == 100 {
        Rgba([255, 252, 93, 255])
    } else {
        float_rviz_map(i)
    }
}

#[test]
fn integer_ramps_equal_float_ramps() {
    let rviz = RvizMapColors::new();
    let costmap = CostmapColors::new();
    let cool = CoolCostmapColors::new();
    for i in 0..256usize {
        let v = i as u8;
        assert_eq!(rviz.map(v), float_rviz_map(i), "rviz {i}");
        assert_eq!(costmap.map(v), float_costmap(i), "costmap {i}");
        assert_eq!(cool.map(v), float_cool_costmap(i), "cool {i}");
    }
}

#[test]
fn cool_costmap_colors() {
    let palette = CoolCostmapColors::new();
    assert_eq!(palette.map(0), Rgba([0, 0, 0, 0]));
    assert_eq!(palette.map(1), Rgba([39, 56, 60, 255]));
    assert_eq!(palette.map(98), Rgba([164, 222, 190, 255]));
    assert_eq!(palette.map(99), Rgba([38, 55, 59, 255]));
    assert_eq!(palette.map(100), Rgba([255, 252, 93, 255]));
    assert_eq!(palette.map(255), Rgba([112, 137, 134, 255]));
}

#[test]
fn colormap_get_dispatches() {
    assert_eq!(ColorMap::Raw.get().map(7), Rgba([7, 7, 7, 255]));
    assert_eq!(ColorMap::RvizMap.get().map(0), Rgba([255, 255, 255, 255]));
    assert_eq!(ColorMap::RvizCostmap.get().map(99), Rgba([0, 255, 255, 255]));
    assert_eq!(ColorMap::CoolCostmap.get().map(100), Rgba([255, 252, 93, 255]));
    assert_eq!(ColorMap::default(), ColorMap::RvizMap);
    assert_eq!(ColorMap::RvizMap.name(), "RViz \"Map\"");
    assert_eq!(ColorMap::CoolCostmap.name(), "Cool Costmap");
}

#[test]
fn law_rviz_map_darkens_with_occupancy() {
    let palette = RvizMapColors::new();
    for v in 0..100u8 {
        assert!(palette.map(v + 1).0[0] <= palette.map(v).0[0]);
    }
}

#[test]
fn law_special_values_shared_and_opacity() {
    let rviz = RvizMapColors::new();
    let costmap = CostmapColors::new();
    let cool = CoolCostmapColors::new();
    for v in 101..=255u8 {
        assert_eq!(rviz.map(v), costmap.map(v));
        assert_eq!(costmap.map(v), cool.map(v));
    }
    for v in 1..=255u8 {
        assert_eq!(costmap.map(v).0[3], 255);
        assert_eq!(cool.map(v).0[3], 255);
    }
    assert_eq!(costmap.map(0).0[3], 0);
}
