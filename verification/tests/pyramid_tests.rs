use wsi_raster::color::Rgba8;
use wsi_raster::error::InvalidGeometry;
use wsi_raster::pyramid::{
    calculate_zoom_levels, copy_pixels_to_tile, cut_tile, dzi_dimensions, extent_at,
    get_image_or_blank, half_up, layer_plan, prepare_first_layer, prepare_scaled_layer,
    prepare_scaled_tile, DZIDimensions, LayerStep, Siblings, TileCoordinate, MAX_TILE_SIZE,
};
use wsi_raster::raster::Raster;

fn ramp(width: u32, height: u32) -> Raster {
    let mut pixels = Vec::new();
    for y in 0..height {
        for x in 0..width {
            pixels.push(Rgba8 { r: x as u8, g: y as u8, b: (x * y) as u8, a: 255 });
        }
    }
    Raster::from_pixels(width, pixels).unwrap()
}

fn tile(column: u32, row: u32, level: u32) -> TileCoordinate {
    TileCoordinate { column, row, level }
}

#[test]
fn zoom_levels_count_halvings() {
    assert_eq!(calculate_zoom_levels(640, 2304, 256), 4);
    assert_eq!(calculate_zoom_levels(256, 256, 256), 0);
    assert_eq!(calculate_zoom_levels(1, 1, 256), 0);
    assert_eq!(calculate_zoom_levels(257, 1, 256), 1);
    assert_eq!(calculate_zoom_levels(1, 513, 256), 1);
    assert_eq!(calculate_zoom_levels(1, 514, 256), 2);
    assert_eq!(calculate_zoom_levels(0, 0, 0), 0);
    assert_eq!(calculate_zoom_levels(1, 0, 0), 1);
    assert_eq!(calculate_zoom_levels(u32::MAX, u32::MAX, 0), 32);
    assert_eq!(calculate_zoom_levels(u32::MAX, 1, 1), 31);
}

#[test]
fn pyramid_of_a_wide_raster() {
    let (width, height, tile_size) = (2304u32, 640u32, 256u32);
    let dims = dzi_dimensions(width, height, tile_size).unwrap();
    assert_eq!(dims, DZIDimensions { cols: 9, rows: 3, zoom_levels: 4 });
    let z = dims.zoom_levels;
    let longest = width.max(height) as u64;
    assert!((tile_size as u64) << z >= longest);
    assert!(((tile_size as u64) << (z - 1)) < longest);

    let steps = layer_plan(&dims, 0);
    assert_eq!(
        steps,
        vec![
            LayerStep::Finest { level: 4, cols: 9, rows: 3 },
            LayerStep::Coarser { level: 3, source_cols: 9, source_rows: 3 },
            LayerStep::Coarser { level: 2, source_cols: 5, source_rows: 2 },
            LayerStep::Coarser { level: 1, source_cols: 3, source_rows: 1 },
            LayerStep::Coarser { level: 0, source_cols: 2, source_rows: 1 },
        ]
    );
    let mut counts = vec![prepare_first_layer(&dims).len()];
    for step in &steps[1..] {
        match *step {
            LayerStep::Coarser { level, source_cols, source_rows } => {
                let tiles = prepare_scaled_layer(level, source_cols, source_rows);
                let shrink = 1u32 << (z - level);
                let cols = dims.cols.div_ceil(shrink);
                let rows = dims.rows.div_ceil(shrink);
                assert_eq!(tiles.len() as u32, cols * rows);
                assert!(tiles.iter().all(|t| t.level == level && t.column < cols && t.row < rows));
                counts.push(tiles.len());
            },
            LayerStep::Finest { .. } => unreachable!(),
        }
    }
    assert_eq!(counts, vec![27, 10, 3, 2, 1]);
}

#[test]
fn coarsest_level_of_an_awkward_raster_has_two_tiles() {
    let dims = dzi_dimensions(513, 1, 256).unwrap();
    assert_eq!(dims, DZIDimensions { cols: 3, rows: 1, zoom_levels: 1 });
    let steps = layer_plan(&dims, 0);
    assert_eq!(
        steps,
        vec![
            LayerStep::Finest { level: 1, cols: 3, rows: 1 },
            LayerStep::Coarser { level: 0, source_cols: 3, source_rows: 1 },
        ]
    );
    assert_eq!(prepare_scaled_layer(0, 3, 1), vec![tile(0, 0, 0), tile(1, 0, 0)]);
}

#[test]
fn dimensions_round_up() {
    assert_eq!(
        dzi_dimensions(256, 256, 256),
        Ok(DZIDimensions { cols: 1, rows: 1, zoom_levels: 0 })
    );
    assert_eq!(
        dzi_dimensions(257, 255, 256),
        Ok(DZIDimensions { cols: 2, rows: 1, zoom_levels: 1 })
    );
    assert_eq!(
        dzi_dimensions(1000, 3000, 100),
        Ok(DZIDimensions { cols: 10, rows: 30, zoom_levels: 5 })
    );
}

#[test]
fn tile_size_must_be_usable() {
    assert_eq!(dzi_dimensions(100, 100, 0), Err(InvalidGeometry::ZeroExtent));
    assert_eq!(dzi_dimensions(100, 100, MAX_TILE_SIZE + 1), Err(InvalidGeometry::TooLarge));
    assert!(dzi_dimensions(100, 100, MAX_TILE_SIZE).is_ok());
    assert!(dzi_dimensions(100, 100, 1).is_ok());
    assert_eq!(MAX_TILE_SIZE, 32767);
}

#[test]
fn halving_rounds_up() {
    assert_eq!(half_up(0), 0);
    assert_eq!(half_up(1), 1);
    assert_eq!(half_up(2), 1);
    assert_eq!(half_up(3), 2);
    assert_eq!(half_up(9), 5);
    assert_eq!(half_up(u32::MAX), 2147483648);
    assert_eq!(extent_at(9, 0), 9);
    assert_eq!(extent_at(9, 1), 5);
    assert_eq!(extent_at(9, 2), 3);
    assert_eq!(extent_at(9, 3), 2);
    assert_eq!(extent_at(9, 4), 1);
    assert_eq!(extent_at(9, 40), 1);
    assert_eq!(extent_at(0, 3), 0);
    for n in [1u32, 2, 3, 7, 8, 9, 1000, 1025] {
        for k in 0..12u32 {
            assert_eq!(extent_at(n, k), n.div_ceil(1 << k));
        }
    }
}

#[test]
fn single_level_plans() {
    let dims = DZIDimensions { cols: 9, rows: 3, zoom_levels: 4 };
    assert_eq!(layer_plan(&dims, 4), vec![LayerStep::Finest { level: 4, cols: 9, rows: 3 }]);
    assert_eq!(
        layer_plan(&dims, 3),
        vec![LayerStep::Coarser { level: 3, source_cols: 9, source_rows: 3 }]
    );
    assert_eq!(
        layer_plan(&dims, 1),
        vec![LayerStep::Coarser { level: 1, source_cols: 3, source_rows: 1 }]
    );
    assert_eq!(layer_plan(&dims, 5), vec![]);
    assert_eq!(layer_plan(&dims, u32::MAX), vec![]);
}

#[test]
fn plans_of_small_and_empty_grids() {
    let single = DZIDimensions { cols: 1, rows: 1, zoom_levels: 0 };
    assert_eq!(layer_plan(&single, 0), vec![LayerStep::Finest { level: 0, cols: 1, rows: 1 }]);
    let empty = DZIDimensions { cols: 0, rows: 3, zoom_levels: 2 };
    assert_eq!(layer_plan(&empty, 0), vec![]);
    let empty = DZIDimensions { cols: 3, rows: 0, zoom_levels: 2 };
    assert_eq!(layer_plan(&empty, 0), vec![]);
}

#[test]
fn last_step_of_a_full_plan_is_level_zero() {
    for (w, h, t) in [(2304u32, 640u32, 256u32), (100, 100, 10), (5000, 1, 7), (1, 1, 1)] {
        let dims = dzi_dimensions(w, h, t).unwrap();
        let steps = layer_plan(&dims, 0);
        assert_eq!(steps.len() as u32, dims.zoom_levels + 1);
        assert_eq!(steps[0], LayerStep::Finest { level: dims.zoom_levels, cols: dims.cols, rows: dims.rows });
        for (i, step) in steps.iter().enumerate().skip(1) {
            match *step {
                LayerStep::Coarser { level, source_cols, source_rows } => {
                    assert_eq!(level, dims.zoom_levels - i as u32);
                    assert!(source_cols >= 1 && source_rows >= 1);
                },
                LayerStep::Finest { .. } => unreachable!(),
            }
        }
    }
}

#[test]
fn tiles_are_listed_row_after_row() {
    let dims = DZIDimensions { cols: 3, rows: 2, zoom_levels: 5 };
    assert_eq!(
        prepare_first_layer(&dims),
        vec![tile(0, 0, 5), tile(1, 0, 5), tile(2, 0, 5), tile(0, 1, 5), tile(1, 1, 5), tile(2, 1, 5)]
    );
    assert_eq!(
        prepare_scaled_layer(4, 3, 2),
        vec![tile(0, 0, 4), tile(1, 0, 4)]
    );
    assert_eq!(
        prepare_scaled_layer(2, 5, 3),
        vec![tile(0, 0, 2), tile(1, 0, 2), tile(2, 0, 2), tile(0, 1, 2), tile(1, 1, 2), tile(2, 1, 2)]
    );
    assert_eq!(prepare_scaled_layer(0, 1, 1), vec![tile(0, 0, 0)]);
    assert_eq!(prepare_scaled_layer(0, 0, 5), vec![]);
}

#[test]
fn siblings_are_the_four_tiles_below() {
    assert_eq!(
        tile(3, 5, 2).siblings(),
        Some(Siblings {
            top_left: tile(6, 10, 3),
            top_right: tile(7, 10, 3),
            bottom_left: tile(6, 11, 3),
            bottom_right: tile(7, 11, 3),
        })
    );
    assert_eq!(tile(0, 0, 0).siblings().unwrap().bottom_right, tile(1, 1, 1));
    assert!(tile(0x7FFF_FFFF, 0x7FFF_FFFF, 0).siblings().is_some());
    assert_eq!(tile(0x8000_0000, 0, 0).siblings(), None);
    assert_eq!(tile(0, 0x8000_0000, 0).siblings(), None);
    assert_eq!(tile(0, 0, u32::MAX).siblings(), None);
}

#[test]
fn tile_is_a_window_of_the_raster() {
    let image = ramp(10, 7);
    let t = copy_pixels_to_tile(&image, 4, 2, 1);
    assert_eq!((t.width(), t.height()), (4, 4));
    for j in 0..4u32 {
        for i in 0..4u32 {
            assert_eq!(t.get_pixel(i, j), image.get_pixel(2 + i, 1 + j));
        }
    }
}

#[test]
fn edge_tile_is_padded_with_transparent_black() {
    let image = ramp(10, 7);
    let t = copy_pixels_to_tile(&image, 4, 8, 4);
    for j in 0..4u32 {
        for i in 0..4u32 {
            let expected = if 8 + i < 10 && 4 + j < 7 {
                image.get_pixel(8 + i, 4 + j).unwrap()
            } else {
                Rgba8 { r: 0, g: 0, b: 0, a: 0 }
            };
            assert_eq!(t.get_pixel(i, j), Some(expected));
        }
    }
    let far = copy_pixels_to_tile(&image, 2, u32::MAX, u32::MAX);
    assert_eq!(far.to_pixels(), vec![Rgba8 { r: 0, g: 0, b: 0, a: 0 }; 4]);
}

#[test]
fn cut_tile_starts_at_column_and_row_times_size() {
    let image = ramp(10, 7);
    let t = cut_tile(&image, 4, &tile(2, 1, 3));
    assert_eq!(t.to_pixels(), copy_pixels_to_tile(&image, 4, 8, 4).to_pixels());
    let t = cut_tile(&image, 4, &tile(0, 0, 3));
    assert_eq!(t.to_pixels(), copy_pixels_to_tile(&image, 4, 0, 0).to_pixels());
    let far = cut_tile(&image, 4, &tile(u32::MAX, u32::MAX, 3));
    assert_eq!(far.to_pixels(), vec![Rgba8 { r: 0, g: 0, b: 0, a: 0 }; 16]);
    assert_eq!((far.width(), far.height()), (4, 4));
}

#[test]
fn finest_tiles_cover_the_raster() {
    let image = ramp(10, 7);
    let dims = dzi_dimensions(10, 7, 4).unwrap();
    let mut seen = vec![false; 70];
    for t in prepare_first_layer(&dims) {
        let cut = cut_tile(&image, 4, &t);
        for j in 0..4u32 {
            for i in 0..4u32 {
                let (x, y) = (t.column * 4 + i, t.row * 4 + j);
                if x < 10 && y < 7 {
                    assert_eq!(cut.get_pixel(i, j), image.get_pixel(x, y));
                    assert!(!seen[(y * 10 + x) as usize]);
                    seen[(y * 10 + x) as usize] = true;
                }
            }
        }
    }
    assert!(seen.iter().all(|s| *s));
}

#[test]
fn missing_tile_is_opaque_black() {
    let blank = get_image_or_blank(None, 3);
    assert_eq!((blank.width(), blank.height()), (3, 3));
    assert_eq!(blank.to_pixels(), vec![Rgba8 { r: 0, g: 0, b: 0, a: 255 }; 9]);
    let found = get_image_or_blank(Some(ramp(2, 5)), 3);
    assert_eq!(found.to_pixels(), ramp(2, 5).to_pixels());
    assert_eq!((found.width(), found.height()), (2, 5));
}

#[test]
fn scaled_tile_has_the_tile_size_with_any_sibling_missing() {
    let red = Rgba8 { r: 200, g: 0, b: 0, a: 255 };
    for mask in 0..16u32 {
        let get = |bit: u32| {
            if mask & (1 << bit) != 0 {
                Some(Raster::new(4, 4, red).unwrap())
            } else {
                None
            }
        };
        let t = prepare_scaled_tile(get(0), get(1), get(2), get(3), 4);
        assert_eq!((t.width(), t.height()), (4, 4));
        let black = Rgba8 { r: 0, g: 0, b: 0, a: 255 };
        let corner = |bit: u32| if mask & (1 << bit) != 0 { red } else { black };
        assert_eq!(t.get_pixel(0, 0), Some(corner(0)));
        assert_eq!(t.get_pixel(3, 0), Some(corner(1)));
        assert_eq!(t.get_pixel(0, 3), Some(corner(2)));
        assert_eq!(t.get_pixel(3, 3), Some(corner(3)));
        for p in t.to_pixels() {
            assert_eq!(p.a, 255);
        }
    }
}

#[test]
fn scaled_tile_of_four_plain_tiles_keeps_the_quarters() {
    let colour = |v: u8| Rgba8 { r: v, g: v, b: v, a: 255 };
    let t = prepare_scaled_tile(
        Some(Raster::new(8, 8, colour(10)).unwrap()),
        Some(Raster::new(8, 8, colour(20)).unwrap()),
        Some(Raster::new(8, 8, colour(30)).unwrap()),
        Some(Raster::new(8, 8, colour(40)).unwrap()),
        8,
    );
    assert_eq!((t.width(), t.height()), (8, 8));
    assert_eq!(t.get_pixel(1, 1), Some(colour(10)));
    assert_eq!(t.get_pixel(6, 1), Some(colour(20)));
    assert_eq!(t.get_pixel(1, 6), Some(colour(30)));
    assert_eq!(t.get_pixel(6, 6), Some(colour(40)));
}

#[test]
fn scaled_tile_agrees_with_the_imaging_crate() {
    let source = ramp(4, 4);
    let t = prepare_scaled_tile(Some(ramp(4, 4)), None, None, Some(ramp(4, 4)), 4);
    let mut square = ril::Image::new(8, 8, ril::Rgba::black());
    let tile_image = ril::Image::from_fn(4, 4, |x, y| {
        let p = source.get_pixel(x, y).unwrap();
        ril::Rgba { r: p.r, g: p.g, b: p.b, a: p.a }
    });
    square.paste(0, 0, &tile_image);
    square.paste(4, 4, &tile_image);
    square.resize(4, 4, ril::ResizeAlgorithm::Bilinear);
    let theirs: Vec<Rgba8> =
        square.data.iter().map(|p| Rgba8 { r: p.r, g: p.g, b: p.b, a: p.a }).collect();
    assert_eq!(t.to_pixels(), theirs);
}
