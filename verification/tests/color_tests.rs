use wsi_raster::color::{
    bit_ize, checked_bit_ize, collapse_grey_to_color, convert_color_value, CollapseColor,
    CollapseConfig, CollapseMode, Rgba8, MAX_LABEL,
};

#[test]
fn labels_become_bit_flags() {
    assert_eq!(bit_ize(0), 0);
    assert_eq!(bit_ize(1), 1);
    assert_eq!(bit_ize(2), 2);
    assert_eq!(bit_ize(3), 4);
    assert_eq!(bit_ize(4), 8);
    assert_eq!(bit_ize(5), 16);
    assert_eq!(bit_ize(6), 32);
    assert_eq!(bit_ize(7), 64);
    assert_eq!(bit_ize(8), 128);
}

#[test]
fn flags_of_different_labels_do_not_collide() {
    let mut seen: u8 = 0;
    for n in 1..=MAX_LABEL {
        let flag = bit_ize(n);
        assert_eq!(flag.count_ones(), 1);
        assert_eq!(seen & flag, 0);
        seen |= flag;
    }
    assert_eq!(seen, 255);
}

#[test]
fn labels_above_eight_have_no_flag() {
    assert_eq!(MAX_LABEL, 8);
    assert_eq!(checked_bit_ize(8), Some(128));
    assert_eq!(checked_bit_ize(0), Some(0));
    assert_eq!(checked_bit_ize(9), None);
    assert_eq!(checked_bit_ize(255), None);
    for n in 0..=8u8 {
        assert_eq!(checked_bit_ize(n), Some(bit_ize(n)));
    }
}

#[test]
fn bitmask_wraps_to_zero_above_eight() {
    assert_eq!(convert_color_value(8, &CollapseMode::Bitmask), 128);
    assert_eq!(convert_color_value(9, &CollapseMode::Bitmask), 0);
    assert_eq!(convert_color_value(10, &CollapseMode::Bitmask), 0);
    assert_eq!(convert_color_value(255, &CollapseMode::Bitmask), 0);
    for n in 9..=255u8 {
        let wrapped = 2u8.wrapping_pow((n - 1) as u32);
        assert_eq!(convert_color_value(n, &CollapseMode::Bitmask), wrapped);
    }
}

#[test]
fn modes_transform_values() {
    for v in [0u8, 1, 3, 8, 9, 101, 255] {
        assert_eq!(convert_color_value(v, &CollapseMode::Heatmap), v);
        assert_eq!(convert_color_value(v, &CollapseMode::PassThrough), v);
        assert_eq!(convert_color_value(v, &CollapseMode::Skip), 0);
    }
    assert_eq!(convert_color_value(3, &CollapseMode::Bitmask), 4);
    assert_eq!(convert_color_value(0, &CollapseMode::Bitmask), 0);
}

#[test]
fn grey_pixel_collapses_into_one_plane() {
    let config = CollapseConfig {
        red: CollapseMode::Bitmask,
        green: CollapseMode::PassThrough,
        blue: CollapseMode::Skip,
    };
    let pixel = Rgba8 { r: 5, g: 6, b: 7, a: 9 };
    assert_eq!(
        collapse_grey_to_color(pixel, CollapseColor::Red, &config),
        Rgba8 { r: 16, g: 0, b: 0, a: 255 }
    );
    assert_eq!(
        collapse_grey_to_color(pixel, CollapseColor::Green, &config),
        Rgba8 { r: 0, g: 6, b: 0, a: 255 }
    );
    assert_eq!(
        collapse_grey_to_color(pixel, CollapseColor::Blue, &config),
        Rgba8 { r: 0, g: 0, b: 0, a: 255 }
    );
}

#[test]
fn named_pixels() {
    assert_eq!(Rgba8::transparent(), Rgba8 { r: 0, g: 0, b: 0, a: 0 });
    assert_eq!(Rgba8::black(), Rgba8 { r: 0, g: 0, b: 0, a: 255 });
}

#[test]
fn modes_and_their_words() {
    let all = CollapseMode::value_variants();
    assert_eq!(
        all,
        vec![
            CollapseMode::Bitmask,
            CollapseMode::Heatmap,
            CollapseMode::PassThrough,
            CollapseMode::Skip
        ]
    );
    assert_eq!(CollapseMode::Bitmask.to_possible_value(), "bitmask");
    assert_eq!(CollapseMode::Heatmap.to_possible_value(), "heatmap");
    assert_eq!(CollapseMode::PassThrough.to_possible_value(), "pass-through");
    assert_eq!(CollapseMode::Skip.to_possible_value(), "skip");
}
