use maps::render_options::TextureFilter;
use maps::tint::{apply_tint_to_all, color_to_alpha_choice, reset_map_tint, reset_tint_options, MapTint, TintOptions};
use maps::value_colormap::{ColorMap, Rgba};

fn map(vi: u8, explicit: bool) -> MapTint<u8> {
    MapTint {
        tint: None,
        color_to_alpha: Some(Rgba([1, 2, 3, 4])),
        texture_filter: TextureFilter::Crisp,
        use_value_interpretation: true,
        value_interpretation: 99,
        file_value_interpretation: vi,
        file_mode_explicit: explicit,
    }
}

#[test]
fn options_at_start() {
    let o = TintOptions::new(7u8);
    assert!(o.active_tint_selection.is_none());
    assert_eq!(o.tint_for_all, Rgba([255, 255, 255, 255]));
    assert!(!o.edit_color_to_alpha && !o.use_value_interpretation_for_all);
    assert_eq!(o.value_interpretation_for_all, 7);
    assert_eq!(o.colormap_for_all, ColorMap::RvizMap);
    assert_eq!(o.texture_filter_for_all, TextureFilter::Auto);
}

#[test]
fn apply_to_all_maps() {
    let mut all = TintOptions::new(5u8);
    all.tint_for_all = Rgba([10, 20, 30, 40]);
    all.color_to_alpha_for_all = Some(Rgba([0, 0, 0, 255]));
    all.texture_filter_for_all = TextureFilter::Smooth;
    let mut maps = vec![map(1, true), map(2, false)];
    apply_tint_to_all(&mut maps, &all);
    for (m, vi) in maps.iter().zip([1u8, 2]) {
        assert_eq!(m.tint, Some(Rgba([10, 20, 30, 40])));
        assert_eq!(m.color_to_alpha, Some(Rgba([0, 0, 0, 255])));
        assert_eq!(m.texture_filter, TextureFilter::Smooth);
        assert!(!m.use_value_interpretation);
        assert_eq!(m.value_interpretation, vi);
    }
    all.use_value_interpretation_for_all = true;
    apply_tint_to_all(&mut maps, &all);
    assert!(maps.iter().all(|m| m.use_value_interpretation && m.value_interpretation == 5));
    assert_eq!(maps[1].file_value_interpretation, 2);
}

#[test]
fn reset_rules() {
    let mut o = TintOptions::new(5u8);
    o.tint_for_all = Rgba([1, 1, 1, 1]);
    o.edit_color_to_alpha = true;
    o.color_to_alpha_for_all = Some(Rgba([2, 2, 2, 2]));
    o.use_value_interpretation_for_all = true;
    o.value_interpretation_for_all = 9;
    o.texture_filter_for_all = TextureFilter::Crisp;
    reset_tint_options(&mut o, 0, false);
    assert!(!o.edit_color_to_alpha && !o.use_value_interpretation_for_all);
    assert_eq!((o.value_interpretation_for_all, o.texture_filter_for_all), (0, TextureFilter::Auto));
    assert_eq!(o.tint_for_all, Rgba([1, 1, 1, 1]));
    reset_tint_options(&mut o, 0, true);
    assert_eq!(o.tint_for_all, Rgba([255, 255, 255, 255]));
    assert_eq!(o.color_to_alpha_for_all, None);

    let mut m = map(3, true);
    reset_map_tint(&mut m);
    assert_eq!(m.tint, Some(Rgba([255, 255, 255, 255])));
    assert_eq!(m.color_to_alpha, None);
    assert_eq!(m.texture_filter, TextureFilter::Auto);
    assert!(m.use_value_interpretation);
    assert_eq!(m.value_interpretation, 3);
}

#[test]
fn color_to_alpha_checkbox() {
    assert_eq!(color_to_alpha_choice(false, Some(Rgba([1, 2, 3, 4]))), None);
    assert_eq!(color_to_alpha_choice(true, None), Some(Rgba([128, 128, 128, 255])));
    assert_eq!(color_to_alpha_choice(true, Some(Rgba([1, 2, 3, 4]))), Some(Rgba([1, 2, 3, 4])));
}
