//! Geometry of a grid of square cells laid over an image.
use vstd::prelude::*;
use vstd::arithmetic::div_mod::{
    lemma_div_denominator, lemma_div_is_ordered, lemma_div_multiples_vanish,
    lemma_fundamental_div_mod, lemma_fundamental_div_mod_converse,
};

use crate::raster::{Pixels, RgbImage};

verus! {

/// Side of the largest square cell of which `x_cells` fit side by side in `width`
/// and `y_cells` fit one above the other in `height`.
pub open spec fn cell_side(width: int, height: int, x_cells: int, y_cells: int) -> int {
    if width / x_cells <= height / y_cells {
        width / x_cells
    } else {
        height / y_cells
    }
}

/// Cutting `a` down to the width that matches the height `b` in the ratio `x : y`, and then
/// down to a multiple of `x`, leaves `x` cells of the common side.
proof fn lemma_fit_axis(a: int, b: int, x: int, y: int)
    requires
        0 <= a,
        0 <= b,
        0 < x,
        0 < y,
    ensures
        ({
            let scaled = (b * x) / y;
            let fitted = if a <= scaled { a } else { scaled };
            &&& 0 <= fitted <= a
            &&& fitted - fitted % x == x * cell_side(a, b, x, y)
        }),
{
    let scaled = (b * x) / y;
    let fitted = if a <= scaled { a } else { scaled };
    assert(0 <= b * x) by (nonlinear_arith)
        requires
            0 <= b,
            0 < x,
    ;
    assert(scaled / x == b / y) by {
        lemma_div_denominator(b * x, y, x);
        lemma_div_denominator(b * x, x, y);
        assert(y * x == x * y) by (nonlinear_arith);
        lemma_div_multiples_vanish(b, x);
        assert(b * x == x * b) by (nonlinear_arith);
    }
    assert(0 <= scaled) by (nonlinear_arith)
        requires
            0 <= b * x,
            0 < y,
            scaled == (b * x) / y,
    ;
    if a <= scaled {
        lemma_div_is_ordered(a, scaled, x);
    } else {
        lemma_div_is_ordered(scaled, a, x);
    }
    lemma_fundamental_div_mod(fitted, x);
}

/// Fits a grid of `x_cells` by `y_cells` square cells into an image and returns the size of
/// the whole grid, which is a multiple of the cell count along each axis.
pub fn fit_dims(in_width: u32, in_height: u32, x_cells: u32, y_cells: u32) -> (dims: (u32, u32))
    requires
        0 < x_cells,
        0 < y_cells,
        in_height * x_cells <= u32::MAX,
        in_width * y_cells <= u32::MAX,
    ensures
        dims.0 == x_cells * cell_side(
            in_width as int,
            in_height as int,
            x_cells as int,
            y_cells as int,
        ),
        dims.1 == y_cells * cell_side(
            in_width as int,
            in_height as int,
            x_cells as int,
            y_cells as int,
        ),
        dims.0 <= in_width,
        dims.1 <= in_height,
{
    let scaled_width: u32 = in_height * x_cells / y_cells;
    let scaled_height: u32 = in_width * y_cells / x_cells;
    let width: u32 = if in_width <= scaled_width { in_width } else { scaled_width };
    let height: u32 = if in_height <= scaled_height { in_height } else { scaled_height };
    proof {
        lemma_fit_axis(in_width as int, in_height as int, x_cells as int, y_cells as int);
        lemma_fit_axis(in_height as int, in_width as int, y_cells as int, x_cells as int);
    }
    (width - width % x_cells, height - height % y_cells)
}

/// Space left free before a grid of size `grid` that is centred in `full`. An odd pixel goes
/// before the grid.
pub open spec fn margin_before(full: int, grid: int) -> int {
    (full - grid + 1) / 2
}

/// A grid of square cells with its upper left corner at `(x_offset, y_offset)`.
#[derive(Clone, Copy, Debug, PartialEq, Eq, Structural)]
pub struct Grid {
    pub x_offset: u32,
    pub y_offset: u32,
    pub side: u32,
}

impl Grid {
    /// The grid of `x_cells` by `y_cells` of the largest possible cells, centred in an image
    /// of `width` by `height` pixels.
    pub open spec fn is_centered(
        self,
        width: int,
        height: int,
        x_cells: int,
        y_cells: int,
    ) -> bool {
        &&& self.side == cell_side(width, height, x_cells, y_cells)
        &&& self.x_offset == margin_before(width, x_cells * self.side)
        &&& self.y_offset == margin_before(height, y_cells * self.side)
    }

    /// Left edge of the cells in column `i`.
    pub open spec fn left(self, i: int) -> int {
        self.x_offset + i * self.side
    }

    /// Upper edge of the cells in row `j`.
    pub open spec fn top(self, j: int) -> int {
        self.y_offset + j * self.side
    }

    /// Places the largest grid of `x_cells` by `y_cells` square cells in the middle of an
    /// image.
    pub fn centered(width: u32, height: u32, x_cells: u32, y_cells: u32) -> (grid: Grid)
        requires
            0 < x_cells,
            0 < y_cells,
            height * x_cells <= u32::MAX,
            width * y_cells <= u32::MAX,
        ensures
            grid.is_centered(width as int, height as int, x_cells as int, y_cells as int),
    {
        let (grid_width, grid_height) = fit_dims(width, height, x_cells, y_cells);
        let x_free: u32 = width - grid_width;
        let y_free: u32 = height - grid_height;
        let ghost side = cell_side(width as int, height as int, x_cells as int, y_cells as int);
        proof {
            assert(x_cells * side == side * x_cells) by (nonlinear_arith);
            lemma_fundamental_div_mod_converse(grid_width as int, x_cells as int, side, 0);
        }
        Grid {
            x_offset: x_free / 2 + x_free % 2,
            y_offset: y_free / 2 + y_free % 2,
            side: grid_width / x_cells,
        }
    }
}

/// Every cell of a centred grid lies within the image.
pub proof fn law_cells_inside(
    grid: Grid,
    width: int,
    height: int,
    x_cells: int,
    y_cells: int,
    i: int,
    j: int,
)
    requires
        0 <= width,
        0 <= height,
        0 < x_cells,
        0 < y_cells,
        grid.is_centered(width, height, x_cells, y_cells),
        0 <= i < x_cells,
        0 <= j < y_cells,
    ensures
        0 <= grid.left(i),
        grid.left(i) + grid.side <= width,
        0 <= grid.top(j),
        grid.top(j) + grid.side <= height,
{
    let side = grid.side as int;
    lemma_side_fits(width, height, x_cells, y_cells);
    assert(0 <= i * side && i * side + side <= x_cells * side) by (nonlinear_arith)
        requires
            0 <= i,
            i + 1 <= x_cells,
            0 <= side,
    ;
    assert(0 <= j * side && j * side + side <= y_cells * side) by (nonlinear_arith)
        requires
            0 <= j,
            j + 1 <= y_cells,
            0 <= side,
    ;
}

/// The grid of the common side fits in the image along both axes.
pub(crate) proof fn lemma_side_fits(width: int, height: int, x_cells: int, y_cells: int)
    requires
        0 <= width,
        0 <= height,
        0 < x_cells,
        0 < y_cells,
    ensures
        0 <= cell_side(width, height, x_cells, y_cells),
        x_cells * cell_side(width, height, x_cells, y_cells) <= width,
        y_cells * cell_side(width, height, x_cells, y_cells) <= height,
{
    let side = cell_side(width, height, x_cells, y_cells);
    lemma_fundamental_div_mod(width, x_cells);
    lemma_fundamental_div_mod(height, y_cells);
    assert(0 <= width / x_cells) by (nonlinear_arith)
        requires
            0 <= width,
            0 < x_cells,
    ;
    assert(0 <= height / y_cells) by (nonlinear_arith)
        requires
            0 <= height,
            0 < y_cells,
    ;
    assert(x_cells * side <= x_cells * (width / x_cells)) by (nonlinear_arith)
        requires
            side <= width / x_cells,
            0 < x_cells,
    ;
    assert(y_cells * side <= y_cells * (height / y_cells)) by (nonlinear_arith)
        requires
            side <= height / y_cells,
            0 < y_cells,
    ;
}

/// The common side is no longer than the image.
pub(crate) proof fn lemma_side_bound(width: int, height: int, x_cells: int, y_cells: int)
    requires
        0 <= width,
        0 <= height,
        0 < x_cells,
        0 < y_cells,
    ensures
        cell_side(width, height, x_cells, y_cells) <= width,
        cell_side(width, height, x_cells, y_cells) <= height,
{
    let side = cell_side(width, height, x_cells, y_cells);
    lemma_side_fits(width, height, x_cells, y_cells);
    assert(side <= x_cells * side && side <= y_cells * side) by (nonlinear_arith)
        requires
            0 <= side,
            1 <= x_cells,
            1 <= y_cells,
    ;
}

/// The fitted grid has square cells: both of its sides hold their number of cells at the
/// same cell size, and neither exceeds the image.
pub proof fn law_fitted_cells_are_square(width: int, height: int, x_cells: int, y_cells: int)
    requires
        0 <= width,
        0 <= height,
        0 < x_cells,
        0 < y_cells,
    ensures
        ({
            let w = x_cells * cell_side(width, height, x_cells, y_cells);
            let h = y_cells * cell_side(width, height, x_cells, y_cells);
            &&& w / x_cells == h / y_cells
            &&& w % x_cells == 0
            &&& h % y_cells == 0
            &&& w <= width
            &&& h <= height
        }),
{
    let side = cell_side(width, height, x_cells, y_cells);
    lemma_side_fits(width, height, x_cells, y_cells);
    assert(x_cells * side == side * x_cells + 0) by (nonlinear_arith);
    assert(y_cells * side == side * y_cells + 0) by (nonlinear_arith);
    lemma_fundamental_div_mod_converse(x_cells * side, x_cells, side, 0);
    lemma_fundamental_div_mod_converse(y_cells * side, y_cells, side, 0);
}

/// No grid with larger square cells fits in the image.
pub proof fn law_cells_are_largest(width: int, height: int, x_cells: int, y_cells: int, side: int)
    requires
        0 <= width,
        0 <= height,
        0 < x_cells,
        0 < y_cells,
        x_cells * side <= width,
        y_cells * side <= height,
    ensures
        side <= cell_side(width, height, x_cells, y_cells),
{
    lemma_div_is_ordered(x_cells * side, width, x_cells);
    lemma_div_is_ordered(y_cells * side, height, y_cells);
    lemma_div_multiples_vanish(side, x_cells);
    lemma_div_multiples_vanish(side, y_cells);
}

/// Two cells of a grid that differ in their column or in their row share no pixel.
pub proof fn law_cells_disjoint(grid: Grid, i: int, j: int, k: int, l: int, x: int, y: int)
    requires
        i != k || j != l,
        grid.left(i) <= x < grid.left(i) + grid.side,
        grid.top(j) <= y < grid.top(j) + grid.side,
    ensures
        !(grid.left(k) <= x < grid.left(k) + grid.side && grid.top(l) <= y < grid.top(l)
            + grid.side),
{
    let side = grid.side as int;
    if i < k {
        assert(i * side + side <= k * side) by (nonlinear_arith)
            requires
                i + 1 <= k,
                0 <= side,
        ;
    } else if k < i {
        assert(k * side + side <= i * side) by (nonlinear_arith)
            requires
                k + 1 <= i,
                0 <= side,
        ;
    } else if j < l {
        assert(j * side + side <= l * side) by (nonlinear_arith)
            requires
                j + 1 <= l,
                0 <= side,
        ;
    } else {
        assert(l * side + side <= j * side) by (nonlinear_arith)
            requires
                l + 1 <= j,
                0 <= side,
        ;
    }
}

/// The space before a centred grid is as large as the space behind it, or one pixel larger.
pub proof fn law_grid_is_centered(
    grid: Grid,
    width: int,
    height: int,
    x_cells: int,
    y_cells: int,
)
    requires
        grid.is_centered(width, height, x_cells, y_cells),
    ensures
        0 <= grid.x_offset - (width - grid.left(x_cells)) <= 1,
        0 <= grid.y_offset - (height - grid.top(y_cells)) <= 1,
{
}

/// Cell `k` of the largest centred grid over an image, counted row by row.
pub open spec fn grid_cell(image: Pixels, x_cells: int, y_cells: int, k: int) -> Pixels {
    let (width, height) = (image.width as int, image.height as int);
    let side = cell_side(width, height, x_cells, y_cells);
    image.cropped(
        margin_before(width, x_cells * side) + (k % x_cells) * side,
        margin_before(height, y_cells * side) + (k / x_cells) * side,
        side as nat,
        side as nat,
    )
}

/// Cuts an image into the cells of the largest centred grid, row by row.
pub fn make_centered_grid(image: &RgbImage, x_cells: u32, y_cells: u32) -> (cells: Vec<RgbImage>)
    requires
        image.well_formed(),
        0 < x_cells,
        0 < y_cells,
        image.height * x_cells <= u32::MAX,
        image.width * y_cells <= u32::MAX,
    ensures
        cells@.len() == x_cells * y_cells,
        forall|k: int| 0 <= k < cells@.len() ==> (#[trigger] cells@[k]).well_formed(),
        forall|k: int|
            0 <= k < cells@.len() ==> (#[trigger] cells@[k])@ == grid_cell(
                image@,
                x_cells as int,
                y_cells as int,
                k,
            ),
{
    let grid = Grid::centered(image.width, image.height, x_cells, y_cells);
    let mut cells: Vec<RgbImage> = Vec::new();
    let mut j: u32 = 0;
    while j < y_cells
        invariant
            image.well_formed(),
            0 < x_cells,
            0 <= j <= y_cells,
            grid.is_centered(
                image.width as int,
                image.height as int,
                x_cells as int,
                y_cells as int,
            ),
            cells@.len() == j * x_cells,
            forall|k: int| 0 <= k < cells@.len() ==> (#[trigger] cells@[k]).well_formed(),
            forall|k: int|
                0 <= k < cells@.len() ==> (#[trigger] cells@[k])@ == grid_cell(
                    image@,
                    x_cells as int,
                    y_cells as int,
                    k,
                ),
        decreases y_cells - j,
    {
        let mut i: u32 = 0;
        while i < x_cells
            invariant
                image.well_formed(),
                0 < x_cells,
                0 <= i <= x_cells,
                0 <= j < y_cells,
                grid.is_centered(
                    image.width as int,
                    image.height as int,
                    x_cells as int,
                    y_cells as int,
                ),
                cells@.len() == j * x_cells + i,
                forall|k: int| 0 <= k < cells@.len() ==> (#[trigger] cells@[k]).well_formed(),
                forall|k: int|
                    0 <= k < cells@.len() ==> (#[trigger] cells@[k])@ == grid_cell(
                        image@,
                        x_cells as int,
                        y_cells as int,
                        k,
                    ),
            decreases x_cells - i,
        {
            proof {
                law_cells_inside(
                    grid,
                    image.width as int,
                    image.height as int,
                    x_cells as int,
                    y_cells as int,
                    i as int,
                    j as int,
                );
                assert(0 <= i * grid.side && 0 <= j * grid.side) by (nonlinear_arith);
                lemma_fundamental_div_mod_converse(
                    j * x_cells + i,
                    x_cells as int,
                    j as int,
                    i as int,
                );
            }
            cells.push(
                image.crop(
                    grid.x_offset + i * grid.side,
                    grid.y_offset + j * grid.side,
                    grid.side,
                    grid.side,
                ),
            );
            i = i + 1;
        }
        assert((j + 1) * x_cells == j * x_cells + x_cells) by (nonlinear_arith);
        j = j + 1;
    }
    assert(y_cells * x_cells == x_cells * y_cells) by (nonlinear_arith);
    cells
}

/// A cut gives one square cell for each place of the grid, all of the same side. The grid fits in
/// the image, and a grid of larger cells would not.
pub proof fn law_cut_gives_the_largest_squares(
    image: RgbImage,
    x_cells: u32,
    y_cells: u32,
    cells: Vec<RgbImage>,
    k: int,
)
    requires
        call_ensures(make_centered_grid, (&image, x_cells, y_cells), cells),
        0 < x_cells,
        0 < y_cells,
        0 <= k < cells@.len(),
    ensures
        cells@.len() == x_cells * y_cells,
        cells@[k].width == cells@[0].width,
        cells@[k].height == cells@[0].width,
        cells@[k].data@.len() == 3 * (cells@[k].width * cells@[k].height),
        x_cells * cells@[k].width <= image.width,
        y_cells * cells@[k].width <= image.height,
        x_cells * (cells@[k].width + 1) > image.width || y_cells * (cells@[k].width + 1)
            > image.height,
{
    let (width, height) = (image.width as int, image.height as int);
    let side = cell_side(width, height, x_cells as int, y_cells as int);
    lemma_side_fits(width, height, x_cells as int, y_cells as int);
    lemma_side_bound(width, height, x_cells as int, y_cells as int);
    assert(cells@[k]@ == grid_cell(image@, x_cells as int, y_cells as int, k));
    assert(cells@[0]@ == grid_cell(image@, x_cells as int, y_cells as int, 0));
    assert(cells@[k].well_formed());
    if x_cells * (side + 1) <= width && y_cells * (side + 1) <= height {
        law_cells_are_largest(width, height, x_cells as int, y_cells as int, side + 1);
    }
}

/// A cut shows the middle of the image. The cell in column `i` of row `j` shows what lies `i` and
/// `j` cells away from a corner, to the pixel, and from that corner as many columns are free to the
/// left of the grid as to its right, and as many rows above it as below it, or one more.
pub proof fn law_cells_show_the_middle(
    image: RgbImage,
    x_cells: u32,
    y_cells: u32,
    cells: Vec<RgbImage>,
    side: int,
    x0: int,
    y0: int,
    i: int,
    j: int,
    a: int,
    b: int,
    byte: int,
)
    requires
        call_ensures(make_centered_grid, (&image, x_cells, y_cells), cells),
        0 <= i < x_cells,
        0 <= j < y_cells,
        0 <= j * x_cells + i < cells@.len(),
        side == cells@[j * x_cells + i].width,
        0 <= x0 - (image.width - x0 - x_cells * side) <= 1,
        0 <= y0 - (image.height - y0 - y_cells * side) <= 1,
        0 <= a < side,
        0 <= b < side,
        0 <= byte < 3,
    ensures
        cells@[j * x_cells + i].data@[3 * (b * side + a) + byte] == image.data@[3 * ((y0 + j * side
            + b) * image.width + x0 + i * side + a) + byte],
{
    let (width, height) = (image.width as int, image.height as int);
    let (columns, rows) = (x_cells as int, y_cells as int);
    let k = j * columns + i;
    lemma_side_fits(width, height, columns, rows);
    lemma_side_bound(width, height, columns, rows);
    assert(cells@[k]@ == grid_cell(image@, columns, rows, k));
    lemma_fundamental_div_mod_converse(k, columns, j, i);
    assert(side == cell_side(width, height, columns, rows));
    let index = 3 * (b * side + a) + byte;
    assert(index == b * (3 * side) + (3 * a + byte)) by (nonlinear_arith)
        requires
            index == 3 * (b * side + a) + byte,
    ;
    lemma_fundamental_div_mod_converse(index, 3 * side, b, 3 * a + byte);
    assert(0 <= index < 3 * (side * side)) by (nonlinear_arith)
        requires
            index == b * (3 * side) + (3 * a + byte),
            0 <= b,
            b + 1 <= side,
            0 <= 3 * a + byte < 3 * side,
    ;
    assert(grid_cell(image@, columns, rows, k).bytes[index] == image.data@[3 * ((margin_before(
        height,
        rows * side,
    ) + j * side + b) * width + margin_before(width, columns * side) + i * side) + (3 * a + byte)]);
}

/// A fitted grid lies within the image, both of its sides hold their number of cells of one side,
/// and cells that were a pixel larger would not fit.
pub proof fn law_fitted_grid_is_the_largest(
    width: u32,
    height: u32,
    x_cells: u32,
    y_cells: u32,
    dims: (u32, u32),
    side: int,
)
    requires
        call_ensures(fit_dims, (width, height, x_cells, y_cells), dims),
        0 < x_cells,
        0 < y_cells,
        x_cells * side <= dims.0 < x_cells * (side + 1),
    ensures
        dims.0 == x_cells * side,
        dims.1 == y_cells * side,
        dims.0 <= width,
        dims.1 <= height,
        x_cells * (side + 1) > width || y_cells * (side + 1) > height,
{
    let (w, h, x, y) = (width as int, height as int, x_cells as int, y_cells as int);
    let largest = cell_side(w, h, x, y);
    lemma_side_fits(w, h, x, y);
    assert(side == largest) by (nonlinear_arith)
        requires
            x * side <= x * largest < x * (side + 1),
            0 < x,
    ;
    if x * (side + 1) <= w && y * (side + 1) <= h {
        law_cells_are_largest(w, h, x, y, side + 1);
    }
}

/// A centred grid has the largest cells that fit, and as many columns are free to its left as to its
/// right, and as many rows above it as below it, or one more.
pub proof fn law_placed_grid_is_in_the_middle(
    width: u32,
    height: u32,
    x_cells: u32,
    y_cells: u32,
    grid: Grid,
)
    requires
        call_ensures(Grid::centered, (width, height, x_cells, y_cells), grid),
        0 < x_cells,
        0 < y_cells,
    ensures
        x_cells * grid.side <= width,
        y_cells * grid.side <= height,
        x_cells * (grid.side + 1) > width || y_cells * (grid.side + 1) > height,
        0 <= grid.x_offset - (width - grid.x_offset - x_cells * grid.side) <= 1,
        0 <= grid.y_offset - (height - grid.y_offset - y_cells * grid.side) <= 1,
{
    let (w, h, x, y) = (width as int, height as int, x_cells as int, y_cells as int);
    lemma_side_fits(w, h, x, y);
    if x * (grid.side + 1) <= w && y * (grid.side + 1) <= h {
        law_cells_are_largest(w, h, x, y, grid.side + 1);
    }
}

/// A grid can be fitted, placed and cut out for every image and every number of cells of which the
/// products fit in 32 bits.
pub proof fn law_usual_grids_can_be_cut(image: RgbImage, x_cells: u32, y_cells: u32)
    requires
        image.data@.len() == 3 * (image.width * image.height),
        0 < x_cells,
        0 < y_cells,
        image.height * x_cells <= u32::MAX,
        image.width * y_cells <= u32::MAX,
    ensures
        call_requires(fit_dims, (image.width, image.height, x_cells, y_cells)),
        call_requires(Grid::centered, (image.width, image.height, x_cells, y_cells)),
        call_requires(make_centered_grid, (&image, x_cells, y_cells)),
{
}

} // verus!
