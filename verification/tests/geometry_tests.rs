use wsi_raster::error::InvalidGeometry;
use wsi_raster::geometry::{
    bbox_from, mul_u32, size_from, validate_bbox, validate_original_size, BBox, ImgScale, ImgSize,
    Ratio,
};

#[test]
fn bbox_of_four_numbers_is_read_in_order() {
    assert_eq!(
        validate_bbox(vec![10, 20, 110, 220]),
        Ok(BBox { min_x: 10, min_y: 20, max_x: 110, max_y: 220 })
    );
}

#[test]
fn bbox_of_wrong_length_is_rejected() {
    assert_eq!(validate_bbox(vec![]), Err(InvalidGeometry::WrongCardinality));
    assert_eq!(validate_bbox(vec![1, 2, 3]), Err(InvalidGeometry::WrongCardinality));
    assert_eq!(validate_bbox(vec![1, 2, 3, 4, 5]), Err(InvalidGeometry::WrongCardinality));
}

#[test]
fn bbox_without_extent_is_rejected() {
    assert_eq!(validate_bbox(vec![5, 0, 5, 10]), Err(InvalidGeometry::ZeroExtent));
    assert_eq!(validate_bbox(vec![0, 7, 10, 7]), Err(InvalidGeometry::ZeroExtent));
    assert_eq!(validate_bbox(vec![9, 0, 3, 10]), Err(InvalidGeometry::ZeroExtent));
    assert_eq!(validate_bbox(vec![0, 9, 10, 3]), Err(InvalidGeometry::ZeroExtent));
}

#[test]
fn bbox_from_slice_agrees_with_validate_bbox() {
    let values = [0u32, 0, 100, 50];
    assert_eq!(bbox_from(&values), validate_bbox(values.to_vec()));
    assert!(bbox_from(&values).unwrap().is_valid());
}

#[test]
fn original_size_takes_two_numbers() {
    assert_eq!(validate_original_size(vec![640, 480]), Ok(ImgSize(640, 480)));
    assert_eq!(validate_original_size(vec![640]), Err(InvalidGeometry::WrongCardinality));
    assert_eq!(validate_original_size(vec![1, 2, 3]), Err(InvalidGeometry::WrongCardinality));
    assert_eq!(size_from(&[3, 4]), Ok(ImgSize(3, 4)));
}

#[test]
fn size_is_positive_when_both_sides_are() {
    assert!(ImgSize(1, 1).is_positive());
    assert!(!ImgSize(0, 1).is_positive());
    assert!(!ImgSize(1, 0).is_positive());
}

#[test]
fn product_of_largest_counts_fits() {
    assert_eq!(mul_u32(u32::MAX, u32::MAX), 18446744065119617025u64);
    assert_eq!(mul_u32(0, u32::MAX), 0);
}

#[test]
fn ratios_compare_by_value() {
    let half = Ratio { num: 1, den: 2 };
    let two_quarters = Ratio { num: 2, den: 4 };
    let third = Ratio { num: 1, den: 3 };
    assert!(half.is_same(&two_quarters));
    assert!(!half.is_same(&third));
    assert!(third.is_less_than(&half));
    assert!(!half.is_less_than(&third));
    assert!(!half.is_less_than(&two_quarters));
    assert_eq!(half.smaller(&third), third);
    assert_eq!(third.smaller(&half), third);
    assert_eq!(half.smaller(&two_quarters), half);
    assert_eq!(two_quarters.smaller(&half), two_quarters);
}

#[test]
fn ratio_is_positive_only_with_both_terms() {
    assert!(Ratio { num: 3, den: 4 }.is_positive());
    assert!(!Ratio { num: 0, den: 4 }.is_positive());
    assert!(!Ratio { num: 3, den: 0 }.is_positive());
}

#[test]
fn quotient_rounds_down() {
    // 7 / (2/1) = 3.5
    assert_eq!(Ratio { num: 2, den: 1 }.floor_quotient(7), 3);
    // 10 / (3/2) = 6.66..
    assert_eq!(Ratio { num: 3, den: 2 }.floor_quotient(10), 6);
    assert_eq!(Ratio { num: 1, den: 1 }.floor_quotient(u32::MAX), u32::MAX as u64);
}

#[test]
fn quotient_rounds_to_nearest_and_half_goes_up() {
    // 7 / 2 = 3.5
    assert_eq!(Ratio { num: 2, den: 1 }.nearest_quotient(7), 4);
    // 10 / (3/2) = 6.66..
    assert_eq!(Ratio { num: 3, den: 2 }.nearest_quotient(10), 7);
    // 10 / 3 = 3.33..
    assert_eq!(Ratio { num: 3, den: 1 }.nearest_quotient(10), 3);
    // 5 / 4 = 1.25
    assert_eq!(Ratio { num: 4, den: 1 }.nearest_quotient(5), 1);
    assert_eq!(Ratio { num: 4, den: 1 }.nearest_quotient(0), 0);
    assert_eq!(
        Ratio { num: 1, den: u32::MAX }.nearest_quotient(u32::MAX),
        18446744065119617025u64
    );
}

#[test]
fn scales_compare_on_both_axes() {
    let a = ImgScale(Ratio { num: 2, den: 1 }, Ratio { num: 3, den: 1 });
    let b = ImgScale(Ratio { num: 4, den: 2 }, Ratio { num: 6, den: 2 });
    let c = ImgScale(Ratio { num: 2, den: 1 }, Ratio { num: 4, den: 1 });
    assert!(a.is_same(&b));
    assert!(!a.is_same(&c));
    assert!(a.is_positive());
    assert!(!ImgScale(Ratio { num: 0, den: 1 }, Ratio { num: 3, den: 1 }).is_positive());
}

#[test]
fn every_fault_has_its_own_message() {
    let all = [
        InvalidGeometry::WrongCardinality,
        InvalidGeometry::ZeroExtent,
        InvalidGeometry::ZeroTarget,
        InvalidGeometry::TooLarge,
    ];
    assert_eq!(InvalidGeometry::WrongCardinality.message(), "wrong number of values");
    assert_eq!(InvalidGeometry::ZeroExtent.message(), "empty extent");
    assert_eq!(InvalidGeometry::ZeroTarget.message(), "computed size is empty");
    assert_eq!(InvalidGeometry::TooLarge.message(), "computed size is too large");
    for (i, a) in all.iter().enumerate() {
        for (j, b) in all.iter().enumerate() {
            if i != j {
                assert_ne!(a.message(), b.message());
            }
        }
    }
}
