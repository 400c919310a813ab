use wsi_raster::naming::{get_file_name, push_decimal};

#[test]
fn name_without_prefix() {
    assert_eq!(get_file_name(1, 2, 3, ""), "3_2_1");
    assert_eq!(get_file_name(0, 0, 0, ""), "0_0_0");
}

#[test]
fn name_with_prefix() {
    assert_eq!(get_file_name(1, 2, 3, "dzi"), "dzi_3_2_1");
    assert_eq!(get_file_name(12, 345, 6, "slide_a"), "slide_a_6_345_12");
    assert_eq!(get_file_name(7, 8, 9, "näme"), "näme_9_8_7");
}

#[test]
fn name_agrees_with_formatting() {
    for (x, y, z) in [(0u32, 0u32, 0u32), (9, 10, 11), (99, 100, 101), (u32::MAX, 1234567890, 4)] {
        assert_eq!(get_file_name(x, y, z, "p"), format!("{}_{}_{}_{}", "p", z, y, x));
        assert_eq!(get_file_name(x, y, z, ""), format!("{}_{}_{}", z, y, x));
    }
}

#[test]
fn decimal_is_appended() {
    for n in [0u32, 5, 9, 10, 11, 99, 100, 1000, 4096, 1234567890, u32::MAX] {
        let mut text = String::from("n=");
        push_decimal(&mut text, n);
        assert_eq!(text, format!("n={}", n));
    }
}
