//! The pyramid of tiles of one raster.
//!
//! The finest level cuts the raster into square tiles. Every coarser level
//! has half as many tiles on each axis, rounded up; each of its tiles is made
//! of up to four tiles of the level below it. Level zero is the coarsest.
//!
//! A coarser tile is reduced with a bilinear filter: the levels are made to
//! be looked at, and a smooth reduction serves the eye better than the
//! nearest pixel would.

use crate::color::{opaque_black, transparent_black, Rgba8};
use crate::error::InvalidGeometry;
use crate::raster::{
    blank_grid, grid_has, grid_height, grid_wf, grid_width, pasted_grid, resized_rows, Raster,
    Resampling,
};
use vstd::arithmetic::div_mod::{
    lemma_basic_div, lemma_div_denominator, lemma_fundamental_div_mod,
    lemma_fundamental_div_mod_converse_div, lemma_mod_bound,
};
use vstd::arithmetic::power2::{lemma2_to64, lemma_pow2_pos, lemma_pow2_unfold, pow2};
use vstd::prelude::*;

verus! {

/// The longest side that a tile can have: the pixels of four tiles side by
/// side must still be counted in 32 bits.
pub const MAX_TILE_SIZE: u32 = 0x7FFF;

/// `n / d`, rounded up.
pub open spec fn ceil_div(n: int, d: int) -> int {
    (n + d - 1) / d
}

/// A length after `times` halvings that each round down.
pub open spec fn halved(n: int, times: nat) -> int {
    n / (pow2(times) as int)
}

/// The number of tiles on one axis after `times` halvings that each round up.
pub open spec fn level_extent(n: int, times: nat) -> int {
    ceil_div(n, pow2(times) as int)
}

/// `z` is the least number of halvings that bring both sides of the raster
/// down to the size of a tile.
pub open spec fn is_zoom_level(height: u32, width: u32, tile_size: u32, z: nat) -> bool {
    &&& halved(height as int, z) <= tile_size
    &&& halved(width as int, z) <= tile_size
    &&& forall|k: nat|
        k < z ==> #[trigger] halved(height as int, k) > tile_size || halved(width as int, k)
            > tile_size
}

/// The shape of a pyramid: the grid of its finest level, and the number of
/// that level.
#[derive(Debug, Clone, Copy, PartialEq, Eq, Structural)]
pub struct DZIDimensions {
    pub cols: u32,
    pub rows: u32,
    pub zoom_levels: u32,
}

/// The place of a tile in its pyramid.
#[derive(Debug, Clone, Copy, PartialEq, Eq, Structural)]
pub struct TileCoordinate {
    pub column: u32,
    pub row: u32,
    pub level: u32,
}

/// One level to produce.
#[derive(Debug, Clone, Copy, PartialEq, Eq, Structural)]
pub enum LayerStep {
    /// Cut the raster itself into the tiles of the finest level.
    Finest { level: u32, cols: u32, rows: u32 },
    /// Make the tiles of `level` from those of the level below it, whose
    /// grid has `source_cols` columns and `source_rows` rows.
    Coarser { level: u32, source_cols: u32, source_rows: u32 },
}

proof fn lemma_halve_again(n: int, times: nat)
    requires
        0 <= n,
    ensures
        halved(n, times + 1) == halved(n, times) / 2,
        0 <= halved(n, times) <= n,
{
    lemma_pow2_pos(times);
    lemma_pow2_unfold(times + 1);
    lemma_div_denominator(n, pow2(times) as int, 2);
    assert(pow2(times) * 2 == 2 * pow2(times));
    vstd::arithmetic::div_mod::lemma_div_pos_is_pos(n, pow2(times) as int);
    vstd::arithmetic::div_mod::lemma_div_is_ordered_by_denominator(n, 1, pow2(times) as int);
}

proof fn lemma_pow2_at_least(times: nat, floor: nat)
    requires
        floor <= times,
    ensures
        pow2(floor) <= pow2(times),
{
    if floor < times {
        vstd::arithmetic::power2::lemma_pow2_strictly_increases(floor, times);
    }
}

proof fn lemma_halved_to_nothing(n: u32, times: nat)
    requires
        times >= 32,
    ensures
        halved(n as int, times) == 0,
{
    lemma2_to64();
    lemma_pow2_at_least(times, 32);
    lemma_basic_div(n as int, pow2(times) as int);
}

/// Counts the halvings that bring a raster down to the size of one tile.
/// The number is the level of the finest layer of the pyramid.
pub fn calculate_zoom_levels(height: u32, width: u32, tile_size: u32) -> (zoom_levels: u32)
    ensures
        is_zoom_level(height, width, tile_size, zoom_levels as nat),
        zoom_levels <= 32,
{
    let mut h = height;
    let mut w = width;
    let mut zoom_levels: u32 = 0;
    proof {
        lemma2_to64();
        assert(halved(height as int, 0) == height);
        assert(halved(width as int, 0) == width);
    }
    while h > tile_size || w > tile_size
        invariant
            h == halved(height as int, zoom_levels as nat),
            w == halved(width as int, zoom_levels as nat),
            zoom_levels <= 32,
            forall|k: nat|
                k < zoom_levels ==> #[trigger] halved(height as int, k) > tile_size || halved(
                    width as int,
                    k,
                ) > tile_size,
        decreases h + w,
    {
        proof {
            if zoom_levels >= 32 {
                lemma_halved_to_nothing(height, zoom_levels as nat);
                lemma_halved_to_nothing(width, zoom_levels as nat);
            }
            lemma_halve_again(height as int, zoom_levels as nat);
            lemma_halve_again(width as int, zoom_levels as nat);
        }
        h = h / 2;
        w = w / 2;
        zoom_levels = zoom_levels + 1;
    }
    zoom_levels
}

/// The number of halvings that `calculate_zoom_levels` counts is settled by
/// the longer side: with at least one halving, a tile doubled one time less
/// is still shorter than that side, and a tile one pixel longer, doubled as
/// often as the raster was halved, is longer than it.
pub proof fn lemma_zoom_level_bounds(height: u32, width: u32, tile_size: u32, z: nat)
    requires
        is_zoom_level(height, width, tile_size, z),
    ensures
        height < (tile_size + 1) * pow2(z),
        width < (tile_size + 1) * pow2(z),
        z >= 1 ==> tile_size * pow2((z - 1) as nat) < height || tile_size * pow2((z - 1) as nat)
            < width,
{
    lemma_pow2_pos(z);
    lemma_floor_bounds(height as int, pow2(z) as int);
    lemma_floor_bounds(width as int, pow2(z) as int);
    let p = pow2(z) as int;
    let t = tile_size as int;
    assert(height < (t + 1) * p) by (nonlinear_arith)
        requires
            height < (halved(height as int, z) + 1) * p,
            halved(height as int, z) <= t,
            p > 0,
    ;
    assert(width < (t + 1) * p) by (nonlinear_arith)
        requires
            width < (halved(width as int, z) + 1) * p,
            halved(width as int, z) <= t,
            p > 0,
    ;
    if z >= 1 {
        let k = (z - 1) as nat;
        let q = pow2(k) as int;
        lemma_pow2_pos(k);
        lemma_floor_bounds(height as int, q);
        lemma_floor_bounds(width as int, q);
        assert(halved(height as int, k) > tile_size || halved(width as int, k) > tile_size);
        if halved(height as int, k) > tile_size {
            assert(t * q < height) by (nonlinear_arith)
                requires
                    halved(height as int, k) * q <= height,
                    halved(height as int, k) > t,
                    q > 0,
            ;
        } else {
            assert(t * q < width) by (nonlinear_arith)
                requires
                    halved(width as int, k) * q <= width,
                    halved(width as int, k) > t,
                    q > 0,
            ;
        }
    }
}

proof fn lemma_floor_bounds(n: int, d: int)
    requires
        0 <= n,
        0 < d,
    ensures
        (n / d) * d <= n < (n / d + 1) * d,
{
    lemma_fundamental_div_mod(n, d);
    lemma_mod_bound(n, d);
    assert((n / d) * d == d * (n / d)) by (nonlinear_arith);
    assert((n / d + 1) * d == d * (n / d) + d) by (nonlinear_arith);
}

/// Rounding up is rounding down and adding one, unless the division is exact.
pub proof fn lemma_ceil_div(n: int, d: int)
    requires
        0 <= n,
        0 < d,
    ensures
        ceil_div(n, d) == (if n % d == 0 {
            n / d
        } else {
            n / d + 1
        }),
        n > 0 ==> ceil_div(n, d) == (n - 1) / d + 1,
        n > 0 ==> ceil_div(n, d) >= 1,
        ceil_div(n, d) <= n,
        ceil_div(0, d) == 0,
{
    lemma_fundamental_div_mod(n, d);
    lemma_mod_bound(n, d);
    let q = n / d;
    let r = n % d;
    assert(d * q == q * d) by (nonlinear_arith);
    if r == 0 {
        lemma_fundamental_div_mod_converse_div(n + d - 1, d, q, d - 1);
    } else {
        assert(n + d - 1 == (q + 1) * d + (r - 1)) by (nonlinear_arith)
            requires
                n == q * d + r,
        ;
        lemma_fundamental_div_mod_converse_div(n + d - 1, d, q + 1, r - 1);
    }
    if n > 0 {
        assert(n - 1 + d == 1 * d + (n - 1));
        vstd::arithmetic::div_mod::lemma_div_plus_one(n - 1, d);
        vstd::arithmetic::div_mod::lemma_div_pos_is_pos(n - 1, d);
    }
    lemma_basic_div(d - 1, d);
    vstd::arithmetic::div_mod::lemma_div_pos_is_pos(n, d);
    assert(q <= n) by (nonlinear_arith)
        requires
            n == q * d + r,
            r >= 0,
            d >= 1,
            q >= 0,
    ;
    if r != 0 && q == n {
        assert(false) by (nonlinear_arith)
            requires
                n == q * d + r,
                q == n,
                r > 0,
                d >= 1,
                q >= 0,
        ;
    }
}

/// Halving the number of tiles once more, rounding up, is the same as
/// dividing the first number by the next power of two, rounding up.
pub proof fn lemma_level_extent_halves(n: int, times: nat)
    requires
        0 <= n,
    ensures
        level_extent(n, times + 1) == ceil_div(level_extent(n, times), 2),
        level_extent(n, 0) == n,
        0 <= level_extent(n, times) <= n,
        n > 0 ==> level_extent(n, times) >= 1,
{
    lemma2_to64();
    lemma_pow2_pos(times);
    lemma_pow2_pos(times + 1);
    lemma_pow2_unfold(times + 1);
    let p = pow2(times) as int;
    lemma_ceil_div(n, p);
    lemma_ceil_div(n, 2 * p);
    lemma_ceil_div(n, 1);
    lemma_ceil_div(level_extent(n, times), 2);
    if n > 0 {
        lemma_div_denominator(n - 1, p, 2);
        assert(p * 2 == 2 * p);
    }
}

/// Rounding up after each of two divisions gives what one division by the
/// product gives.
pub proof fn lemma_ceil_div_twice(n: int, a: int, b: int)
    requires
        0 <= n,
        0 < a,
        0 < b,
    ensures
        ceil_div(ceil_div(n, a), b) == ceil_div(n, a * b),
{
    assert(a * b > 0) by (nonlinear_arith)
        requires
            a > 0,
            b > 0,
    ;
    lemma_ceil_div(n, a);
    lemma_ceil_div(n, a * b);
    lemma_ceil_div(ceil_div(n, a), b);
    if n > 0 {
        lemma_div_denominator(n - 1, a, b);
    }
}

/// The number of tiles of a level below the finest: on each axis the number
/// of the finest level divided by two as often as the level lies above it,
/// rounded up.
pub proof fn lemma_tiles_of_level(dims: DZIDimensions, level: u32)
    requires
        level < dims.zoom_levels,
    ensures
        ({
            let above = (dims.zoom_levels - level) as nat;
            let cols = level_extent(dims.cols as int, above);
            let rows = level_extent(dims.rows as int, above);
            &&& coarser_step(dims, level) matches LayerStep::Coarser { source_cols, source_rows, .. }
            &&& ceil_div(source_cols as int, 2) == cols
            &&& ceil_div(source_rows as int, 2) == rows
            &&& 0 <= cols <= u32::MAX && 0 <= rows <= u32::MAX
            &&& grid_tiles(level, cols as u32, rows as u32).len() == cols * rows
        }),
{
    let below = (dims.zoom_levels - level - 1) as nat;
    lemma_level_extent_halves(dims.cols as int, below);
    lemma_level_extent_halves(dims.rows as int, below);
    lemma_level_extent_halves(dims.cols as int, below + 1);
    lemma_level_extent_halves(dims.rows as int, below + 1);
    let cols = level_extent(dims.cols as int, below + 1);
    let rows = level_extent(dims.rows as int, below + 1);
    assert(0 <= cols * rows) by (nonlinear_arith)
        requires
            0 <= cols,
            0 <= rows,
    ;
}

/// A raster whose sides are no longer than a tile doubled as often as the
/// pyramid has levels above level zero has exactly one tile at level zero.
pub proof fn lemma_single_top_tile(side: u32, tile_size: u32, z: nat)
    requires
        0 < side,
        0 < tile_size,
        side <= tile_size * pow2(z),
    ensures
        level_extent(ceil_div(side as int, tile_size as int), z) == 1,
{
    lemma_pow2_pos(z);
    let whole = tile_size * pow2(z);
    assert(whole > 0) by (nonlinear_arith)
        requires
            whole == tile_size * pow2(z),
            tile_size > 0,
            pow2(z) > 0,
    ;
    lemma_ceil_div_twice(side as int, tile_size as int, pow2(z) as int);
    lemma_ceil_div(side as int, whole as int);
    lemma_basic_div(side - 1, whole as int);
}

/// Works out the grid of the finest level and its number for a raster and a
/// tile size. A tile has a side of at least one pixel and of at most
/// `MAX_TILE_SIZE`.
pub fn dzi_dimensions(width: u32, height: u32, tile_size: u32) -> (r: Result<
    DZIDimensions,
    InvalidGeometry,
>)
    ensures
        tile_size == 0 ==> r == Err::<DZIDimensions, InvalidGeometry>(InvalidGeometry::ZeroExtent),
        tile_size > MAX_TILE_SIZE ==> r == Err::<DZIDimensions, InvalidGeometry>(
            InvalidGeometry::TooLarge,
        ),
        0 < tile_size <= MAX_TILE_SIZE ==> (r matches Ok(dims) && dims.cols == ceil_div(
            width as int,
            tile_size as int,
        ) && dims.rows == ceil_div(height as int, tile_size as int) && is_zoom_level(
            height,
            width,
            tile_size,
            dims.zoom_levels as nat,
        ) && dims.zoom_levels <= 32),
{
    if tile_size == 0 {
        return Err(InvalidGeometry::ZeroExtent);
    }
    if tile_size > MAX_TILE_SIZE {
        return Err(InvalidGeometry::TooLarge);
    }
    proof {
        lemma_ceil_div(width as int, tile_size as int);
        lemma_ceil_div(height as int, tile_size as int);
    }
    let cols = if width % tile_size == 0 {
        width / tile_size
    } else {
        width / tile_size + 1
    };
    let rows = if height % tile_size == 0 {
        height / tile_size
    } else {
        height / tile_size + 1
    };
    Ok(DZIDimensions { cols, rows, zoom_levels: calculate_zoom_levels(height, width, tile_size) })
}

/// Half of a number of tiles, rounded up.
pub fn half_up(n: u32) -> (half: u32)
    ensures
        half == ceil_div(n as int, 2),
{
    proof {
        lemma_ceil_div(n as int, 2);
    }
    n / 2 + n % 2
}

/// The number of tiles on one axis after `times` halvings.
pub fn extent_at(n: u32, times: u32) -> (extent: u32)
    ensures
        extent == level_extent(n as int, times as nat),
{
    let mut extent = n;
    let mut done: u32 = 0;
    proof {
        lemma_level_extent_halves(n as int, 0);
    }
    while done < times
        invariant
            done <= times,
            extent == level_extent(n as int, done as nat),
        decreases times - done,
    {
        proof {
            lemma_level_extent_halves(n as int, done as nat);
        }
        extent = half_up(extent);
        done = done + 1;
    }
    extent
}

/// The step that makes `level` of a pyramid, for a level below the finest.
pub open spec fn coarser_step(dims: DZIDimensions, level: u32) -> LayerStep {
    LayerStep::Coarser {
        level,
        source_cols: level_extent(dims.cols as int, (dims.zoom_levels - level - 1) as nat) as u32,
        source_rows: level_extent(dims.rows as int, (dims.zoom_levels - level - 1) as nat) as u32,
    }
}

/// The step that cuts the finest level of a pyramid.
pub open spec fn finest_step(dims: DZIDimensions) -> LayerStep {
    LayerStep::Finest { level: dims.zoom_levels, cols: dims.cols, rows: dims.rows }
}

/// The steps that produce a pyramid, or one level of it.
///
/// With `layer_to_prepare` zero the whole pyramid is produced: the finest
/// level first, then every coarser level down to level zero, each from the
/// one before it. A grid without tiles has no levels. Any other
/// `layer_to_prepare` asks for that level alone, made from the level below
/// it as it was left by an earlier run; a level that the pyramid does not
/// have takes no step.
pub open spec fn layer_steps(dims: DZIDimensions, layer_to_prepare: u32) -> Seq<LayerStep> {
    if layer_to_prepare == 0 {
        if dims.cols == 0 || dims.rows == 0 {
            Seq::empty()
        } else {
            Seq::new(
                (dims.zoom_levels + 1) as nat,
                |i: int|
                    if i == 0 {
                        finest_step(dims)
                    } else {
                        coarser_step(dims, (dims.zoom_levels - i) as u32)
                    },
            )
        }
    } else if layer_to_prepare == dims.zoom_levels {
        seq![finest_step(dims)]
    } else if layer_to_prepare < dims.zoom_levels {
        seq![coarser_step(dims, layer_to_prepare)]
    } else {
        Seq::empty()
    }
}

/// Lists the steps that produce a pyramid, or the one level that is asked
/// for.
pub fn layer_plan(dims: &DZIDimensions, layer_to_prepare: u32) -> (steps: Vec<LayerStep>)
    requires
        dims.zoom_levels <= 32,
    ensures
        steps@ == layer_steps(*dims, layer_to_prepare),
{
    let mut steps: Vec<LayerStep> = Vec::new();
    let finest = LayerStep::Finest { level: dims.zoom_levels, cols: dims.cols, rows: dims.rows };
    if layer_to_prepare == 0 {
        if dims.cols == 0 || dims.rows == 0 {
            assert(steps@ =~= layer_steps(*dims, layer_to_prepare));
            return steps;
        }
        steps.push(finest);
        let mut layer_cols = dims.cols;
        let mut layer_rows = dims.rows;
        let mut done: u32 = 0;
        proof {
            lemma_level_extent_halves(dims.cols as int, 0);
            lemma_level_extent_halves(dims.rows as int, 0);
        }
        while done < dims.zoom_levels
            invariant
                done <= dims.zoom_levels <= 32,
                layer_to_prepare == 0,
                dims.cols != 0 && dims.rows != 0,
                layer_cols == level_extent(dims.cols as int, done as nat),
                layer_rows == level_extent(dims.rows as int, done as nat),
                steps@.len() == done + 1,
                forall|i: int|
                    0 <= i < steps@.len() ==> steps@[i] == layer_steps(*dims, layer_to_prepare)[i],
            decreases dims.zoom_levels - done,
        {
            let level = dims.zoom_levels - 1 - done;
            proof {
                lemma_level_extent_halves(dims.cols as int, done as nat);
                lemma_level_extent_halves(dims.rows as int, done as nat);
            }
            steps.push(
                LayerStep::Coarser { level, source_cols: layer_cols, source_rows: layer_rows },
            );
            layer_cols = half_up(layer_cols);
            layer_rows = half_up(layer_rows);
            done = done + 1;
        }
        assert(steps@ =~= layer_steps(*dims, layer_to_prepare));
    } else if layer_to_prepare == dims.zoom_levels {
        steps.push(finest);
        assert(steps@ =~= layer_steps(*dims, layer_to_prepare));
    } else if layer_to_prepare < dims.zoom_levels {
        let times = dims.zoom_levels - layer_to_prepare - 1;
        steps.push(
            LayerStep::Coarser {
                level: layer_to_prepare,
                source_cols: extent_at(dims.cols, times),
                source_rows: extent_at(dims.rows, times),
            },
        );
        proof {
            lemma_level_extent_halves(dims.cols as int, times as nat);
            lemma_level_extent_halves(dims.rows as int, times as nat);
        }
        assert(steps@ =~= layer_steps(*dims, layer_to_prepare));
    } else {
        assert(steps@ =~= layer_steps(*dims, layer_to_prepare));
    }
    steps
}

/// The tiles of a grid at one level, row after row.
pub open spec fn grid_tiles(level: u32, cols: u32, rows: u32) -> Seq<TileCoordinate> {
    Seq::new(
        (cols * rows) as nat,
        |i: int|
            TileCoordinate {
                column: (i % (cols as int)) as u32,
                row: (i / (cols as int)) as u32,
                level,
            },
    )
}

fn list_tiles(level: u32, cols: u32, rows: u32) -> (tiles: Vec<TileCoordinate>)
    requires
        cols * rows <= usize::MAX,
    ensures
        tiles@ == grid_tiles(level, cols, rows),
{
    let mut tiles: Vec<TileCoordinate> = Vec::new();
    let mut row: u32 = 0;
    while row < rows
        invariant
            row <= rows,
            cols * rows <= usize::MAX,
            tiles@.len() == row * cols,
            forall|i: int| 0 <= i < tiles@.len() ==> tiles@[i] == grid_tiles(level, cols, rows)[i],
        decreases rows - row,
    {
        let mut column: u32 = 0;
        while column < cols
            invariant
                row < rows,
                column <= cols,
                cols * rows <= usize::MAX,
                tiles@.len() == row * cols + column,
                forall|i: int|
                    0 <= i < tiles@.len() ==> tiles@[i] == grid_tiles(level, cols, rows)[i],
            decreases cols - column,
        {
            proof {
                let i = row * cols + column;
                lemma_fundamental_div_mod_converse_div(i, cols as int, row as int, column as int);
                vstd::arithmetic::div_mod::lemma_fundamental_div_mod_converse_mod(
                    i,
                    cols as int,
                    row as int,
                    column as int,
                );
                assert(cols * row == row * cols) by (nonlinear_arith);
                assert(row * cols + column < cols * rows) by (nonlinear_arith)
                    requires
                        row < rows,
                        column < cols,
                ;
            }
            tiles.push(TileCoordinate { column, row, level });
            column = column + 1;
        }
        proof {
            assert((row + 1) * cols == row * cols + cols) by (nonlinear_arith);
        }
        row = row + 1;
    }
    proof {
        assert(rows * cols == cols * rows) by (nonlinear_arith);
        assert(tiles@ =~= grid_tiles(level, cols, rows));
    }
    tiles
}

/// Lists the tiles of the finest level in the order in which they are cut:
/// row after row, each from left to right.
pub fn prepare_first_layer(dims: &DZIDimensions) -> (tiles: Vec<TileCoordinate>)
    requires
        dims.cols * dims.rows <= usize::MAX,
    ensures
        tiles@ == grid_tiles(dims.zoom_levels, dims.cols, dims.rows),
        tiles@.len() == dims.cols * dims.rows,
{
    list_tiles(dims.zoom_levels, dims.cols, dims.rows)
}

/// Lists the tiles of `level`, which is made from a level of `layer_cols`
/// columns and `layer_rows` rows: half as many on each axis, rounded up.
pub fn prepare_scaled_layer(level: u32, layer_cols: u32, layer_rows: u32) -> (tiles: Vec<
    TileCoordinate,
>)
    requires
        ceil_div(layer_cols as int, 2) * ceil_div(layer_rows as int, 2) <= usize::MAX,
    ensures
        tiles@ == grid_tiles(
            level,
            ceil_div(layer_cols as int, 2) as u32,
            ceil_div(layer_rows as int, 2) as u32,
        ),
        tiles@.len() == ceil_div(layer_cols as int, 2) * ceil_div(layer_rows as int, 2),
{
    list_tiles(level, half_up(layer_cols), half_up(layer_rows))
}

/// The four tiles of the level below from which a tile is made.
#[derive(Debug, Clone, Copy, PartialEq, Eq, Structural)]
pub struct Siblings {
    pub top_left: TileCoordinate,
    pub top_right: TileCoordinate,
    pub bottom_left: TileCoordinate,
    pub bottom_right: TileCoordinate,
}

impl TileCoordinate {
    /// The four places of the level below that this tile covers. Any of them
    /// may lie outside the grid of that level.
    pub open spec fn sources(self) -> Siblings {
        let level = (self.level + 1) as u32;
        let left = (2 * self.column) as u32;
        let right = (2 * self.column + 1) as u32;
        let top = (2 * self.row) as u32;
        let bottom = (2 * self.row + 1) as u32;
        Siblings {
            top_left: TileCoordinate { column: left, row: top, level },
            top_right: TileCoordinate { column: right, row: top, level },
            bottom_left: TileCoordinate { column: left, row: bottom, level },
            bottom_right: TileCoordinate { column: right, row: bottom, level },
        }
    }

    /// The places of `sources` are 32-bit coordinates.
    pub open spec fn has_sources(self) -> bool {
        2 * self.column + 1 <= u32::MAX && 2 * self.row + 1 <= u32::MAX && self.level < u32::MAX
    }

    /// The four places of the level below that this tile covers.
    pub fn siblings(&self) -> (r: Option<Siblings>)
        ensures
            r == (if self.has_sources() {
                Some(self.sources())
            } else {
                None
            }),
    {
        if self.column > 0x7FFF_FFFF || self.row > 0x7FFF_FFFF || self.level == u32::MAX {
            return None;
        }
        let level = self.level + 1;
        let left = 2 * self.column;
        let right = 2 * self.column + 1;
        let top = 2 * self.row;
        let bottom = 2 * self.row + 1;
        Some(
            Siblings {
                top_left: TileCoordinate { column: left, row: top, level },
                top_right: TileCoordinate { column: right, row: top, level },
                bottom_left: TileCoordinate { column: left, row: bottom, level },
                bottom_right: TileCoordinate { column: right, row: bottom, level },
            },
        )
    }
}

/// The square window of a grid whose corner is at column `left` of row
/// `top`. Where the window reaches beyond the grid it is transparent black.
pub open spec fn window_grid(rows: Seq<Seq<Rgba8>>, size: nat, left: int, top: int) -> Seq<
    Seq<Rgba8>,
> {
    Seq::new(size, |j: int| Seq::new(size, |i: int| window_pixel(rows, left + i, top + j)))
}

/// The pixel of a grid at a position, or transparent black where it has
/// none.
pub open spec fn window_pixel(rows: Seq<Seq<Rgba8>>, x: int, y: int) -> Rgba8 {
    if grid_has(rows, x, y) {
        rows[y][x]
    } else {
        transparent_black()
    }
}

fn read_or_transparent(image: &Raster, x: u64, y: u64) -> (pixel: Rgba8)
    ensures
        pixel == window_pixel(image@, x as int, y as int),
{
    image.shape();
    if x > u32::MAX as u64 || y > u32::MAX as u64 {
        return Rgba8::transparent();
    }
    match image.get_pixel(x as u32, y as u32) {
        Some(pixel) => pixel,
        None => Rgba8::transparent(),
    }
}

/// Copies a square window of the raster into a tile of its own. The
/// window's corner is at column `x` of row `y`; the part of it that lies
/// beyond the raster comes out as transparent black, which pads the tiles
/// of the right and bottom edges.
pub fn copy_pixels_to_tile(image: &Raster, tile_size: u32, x: u32, y: u32) -> (tile: Raster)
    requires
        0 < tile_size <= MAX_TILE_SIZE,
    ensures
        tile@ == window_grid(image@, tile_size as nat, x as int, y as int),
        grid_wf(tile@),
        grid_width(tile@) == tile_size,
        grid_height(tile@) == tile_size,
{
    proof {
        assert(tile_size * tile_size <= u32::MAX) by (nonlinear_arith)
            requires
                tile_size <= 0x7FFF,
        ;
    }
    let mut tile = Raster::filled(tile_size, tile_size, Rgba8::transparent());
    let mut i: u32 = 0;
    while i < tile_size
        invariant
            i <= tile_size,
            grid_wf(tile@),
            grid_width(tile@) == tile_size,
            grid_height(tile@) == tile_size,
            forall|c: int, r: int|
                0 <= c < i && 0 <= r < tile_size ==> (#[trigger] tile@[r][c]) == window_pixel(
                    image@,
                    x + c,
                    y + r,
                ),
        decreases tile_size - i,
    {
        let mut j: u32 = 0;
        while j < tile_size
            invariant
                i < tile_size,
                j <= tile_size,
                grid_wf(tile@),
                grid_width(tile@) == tile_size,
                grid_height(tile@) == tile_size,
                forall|c: int, r: int|
                    0 <= c < i && 0 <= r < tile_size ==> (#[trigger] tile@[r][c]) == window_pixel(
                        image@,
                        x + c,
                        y + r,
                    ),
                forall|r: int|
                    0 <= r < j ==> (#[trigger] tile@[r])[i as int] == window_pixel(
                        image@,
                        x + i,
                        y + r,
                    ),
            decreases tile_size - j,
        {
            let source = read_or_transparent(image, x as u64 + i as u64, y as u64 + j as u64);
            tile.set_pixel(i, j, source);
            tile.shape();
            j = j + 1;
        }
        i = i + 1;
    }
    assert(tile@ =~~= window_grid(image@, tile_size as nat, x as int, y as int));
    tile
}

/// Cuts the tile of the finest level at a place of its grid: the window
/// whose corner is `tile_size` times the column and the row.
pub fn cut_tile(image: &Raster, tile_size: u32, tile: &TileCoordinate) -> (out: Raster)
    requires
        0 < tile_size <= MAX_TILE_SIZE,
    ensures
        out@ == window_grid(
            image@,
            tile_size as nat,
            tile.column * tile_size,
            tile.row * tile_size,
        ),
        grid_wf(out@),
        grid_width(out@) == tile_size,
        grid_height(out@) == tile_size,
{
    let x = crate::geometry::mul_u32(tile.column, tile_size);
    let y = crate::geometry::mul_u32(tile.row, tile_size);
    if x > u32::MAX as u64 || y > u32::MAX as u64 {
        image.shape();
        proof {
            assert(tile_size * tile_size <= u32::MAX) by (nonlinear_arith)
                requires
                    tile_size <= 0x7FFF,
            ;
        }
        let out = Raster::filled(tile_size, tile_size, Rgba8::transparent());
        assert(out@ =~~= window_grid(image@, tile_size as nat, x as int, y as int));
        out
    } else {
        copy_pixels_to_tile(image, tile_size, x as u32, y as u32)
    }
}

/// The grid of a tile that was found, or none.
pub open spec fn found_grid(loaded: Option<Raster>) -> Option<Seq<Seq<Rgba8>>> {
    match loaded {
        Some(raster) => Some(raster@),
        None => None,
    }
}

/// The grid of a tile, or for a tile that is missing a square of opaque
/// black.
pub open spec fn tile_or_blank(tile: Option<Seq<Seq<Rgba8>>>, tile_size: u32) -> Seq<Seq<Rgba8>> {
    match tile {
        Some(rows) => rows,
        None => blank_grid(tile_size as nat, tile_size as nat, opaque_black()),
    }
}

/// Stands a black tile in for one that is missing.
pub fn get_image_or_blank(loaded: Option<Raster>, tile_size: u32) -> (tile: Raster)
    requires
        0 < tile_size <= MAX_TILE_SIZE,
    ensures
        tile@ == tile_or_blank(found_grid(loaded), tile_size),
        grid_wf(tile@),
        loaded is None ==> grid_width(tile@) == tile_size && grid_height(tile@) == tile_size,
{
    match loaded {
        Some(raster) => {
            raster.shape();
            raster
        },
        None => {
            proof {
                assert(tile_size * tile_size <= u32::MAX) by (nonlinear_arith)
                    requires
                        tile_size <= 0x7FFF,
                ;
            }
            Raster::filled(tile_size, tile_size, Rgba8::black())
        },
    }
}

/// Four tiles side by side on a black square of twice the tile size: the
/// first at the top left, the second at the top right, the third at the
/// bottom left and the fourth at the bottom right.
pub open spec fn quad_grid(
    top_left: Seq<Seq<Rgba8>>,
    top_right: Seq<Seq<Rgba8>>,
    bottom_left: Seq<Seq<Rgba8>>,
    bottom_right: Seq<Seq<Rgba8>>,
    tile_size: u32,
) -> Seq<Seq<Rgba8>> {
    let side = (2 * tile_size) as nat;
    let size = tile_size as int;
    pasted_grid(
        pasted_grid(
            pasted_grid(
                pasted_grid(blank_grid(side, side, opaque_black()), top_left, 0, 0),
                top_right,
                size,
                0,
            ),
            bottom_left,
            0,
            size,
        ),
        bottom_right,
        size,
        size,
    )
}

/// The tile of a coarser level that four tiles of the level below make: the
/// four side by side, reduced to half with the bilinear filter.
pub open spec fn scaled_tile_of(
    top_left: Option<Seq<Seq<Rgba8>>>,
    top_right: Option<Seq<Seq<Rgba8>>>,
    bottom_left: Option<Seq<Seq<Rgba8>>>,
    bottom_right: Option<Seq<Seq<Rgba8>>>,
    tile_size: u32,
) -> Seq<Seq<Rgba8>> {
    resized_rows(
        quad_grid(
            tile_or_blank(top_left, tile_size),
            tile_or_blank(top_right, tile_size),
            tile_or_blank(bottom_left, tile_size),
            tile_or_blank(bottom_right, tile_size),
            tile_size,
        ),
        tile_size,
        tile_size,
        Resampling::Bilinear,
    )
}

/// A tile that was found can be pasted into any quarter of the square: its
/// far edges are 32-bit coordinates.
pub open spec fn fits_quarter(tile: Option<Seq<Seq<Rgba8>>>, tile_size: u32) -> bool {
    tile matches Some(rows) ==> tile_size + grid_width(rows) <= u32::MAX && tile_size
        + grid_height(rows) <= u32::MAX
}

/// Makes one tile of a coarser level from the four tiles of the level below
/// that it covers. A tile that is missing, as happens at the right and
/// bottom edges of a grid with an odd number of tiles, counts as opaque
/// black. The result is a tile of the ordinary size in every case.
pub fn prepare_scaled_tile(
    top_left: Option<Raster>,
    top_right: Option<Raster>,
    bottom_left: Option<Raster>,
    bottom_right: Option<Raster>,
    tile_size: u32,
) -> (tile: Raster)
    requires
        0 < tile_size <= MAX_TILE_SIZE,
        fits_quarter(found_grid(top_left), tile_size),
        fits_quarter(found_grid(top_right), tile_size),
        fits_quarter(found_grid(bottom_left), tile_size),
        fits_quarter(found_grid(bottom_right), tile_size),
    ensures
        tile@ == scaled_tile_of(
            found_grid(top_left),
            found_grid(top_right),
            found_grid(bottom_left),
            found_grid(bottom_right),
            tile_size,
        ),
        grid_wf(tile@),
        grid_width(tile@) == tile_size,
        grid_height(tile@) == tile_size,
{
    proof {
        assert((2 * tile_size) * (2 * tile_size) <= u32::MAX) by (nonlinear_arith)
            requires
                tile_size <= 0x7FFF,
        ;
        assert(tile_size * tile_size <= u32::MAX) by (nonlinear_arith)
            requires
                tile_size <= 0x7FFF,
        ;
    }
    let top_left = get_image_or_blank(top_left, tile_size);
    let top_right = get_image_or_blank(top_right, tile_size);
    let bottom_left = get_image_or_blank(bottom_left, tile_size);
    let bottom_right = get_image_or_blank(bottom_right, tile_size);
    let mut square = Raster::filled(2 * tile_size, 2 * tile_size, Rgba8::black());
    square.paste(0, 0, &top_left);
    square.paste(tile_size, 0, &top_right);
    square.paste(0, tile_size, &bottom_left);
    square.paste(tile_size, tile_size, &bottom_right);
    square.resized(tile_size, tile_size, Resampling::Bilinear)
}

} // verus!
