use vstd::prelude::*;
use crate::raster::{lemma_rgba_index_bounds, rgba_index, RgbaImage};

verus! {

/// Step between two sampled pixels, along a row and between rows.
pub const SAMPLE_STEP: u32 = 5;

/// Moves one step along the sampling grid: `block_size` to the right while the
/// next column stays left of the last pixel column, otherwise back to column 0
/// of the row `block_size` further down.
pub fn next_coordinates(width: u32, x: u32, y: u32, block_size: u32) -> (r: (u32, u32))
    requires
        width >= 1,
        x < width - 1 ==> x + block_size <= u32::MAX,
        !(x < width - 1 && x + block_size < width - 1) ==> y + block_size <= u32::MAX,
    ensures
        x < width - 1 && x + block_size < width - 1 ==> r.0 == x + block_size && r.1 == y,
        !(x < width - 1 && x + block_size < width - 1) ==> r.0 == 0 && r.1 == y + block_size,
{
    let mut next_x = x;
    let mut next_y = y;
    let w = width - 1;

    if x < w && x + block_size < w {
        next_x += block_size;
    } else {
        next_x = 0;
        next_y = y + block_size;
    }

    (next_x, next_y)
}

/// Sampled columns are those left of this bound.
pub open spec fn column_limit(width: int) -> int {
    if width >= 2 {
        width - 1
    } else {
        1
    }
}

/// Number of sampled columns: `x = 5i` with `x < column_limit(width)`.
pub open spec fn sample_columns(width: int) -> int {
    (column_limit(width) + 4) / 5
}

/// Number of sampled rows: `y = 5j` with `y < height`.
pub open spec fn sample_rows(height: int) -> int {
    (height + 4) / 5
}

/// Number of sampled pixels: the whole grid except its origin `(0, 0)`.
pub open spec fn sample_count(width: int, height: int) -> int {
    sample_rows(height) * sample_columns(width) - 1
}

/// Sum of channel `c` over the first `n` grid pixels of grid row `j`.
pub open spec fn row_sum(img: RgbaImage, c: int, j: int, n: int) -> int
    decreases n,
{
    if n <= 0 {
        0
    } else {
        row_sum(img, c, j, n - 1) + img.channel(5 * (n - 1), 5 * j, c)
    }
}

/// Sum of channel `c` over the first `m` full grid rows.
pub open spec fn grid_sum(img: RgbaImage, c: int, m: int) -> int
    decreases m,
{
    if m <= 0 {
        0
    } else {
        grid_sum(img, c, m - 1) + row_sum(img, c, m - 1, sample_columns(img.width as int))
    }
}

/// Sum of channel `c` over every sampled pixel.
pub open spec fn sample_sum(img: RgbaImage, c: int) -> int {
    grid_sum(img, c, sample_rows(img.height as int)) - img.channel(0, 0, c)
}

/// Average of channel `c` over the sampled pixels (integer division).
pub open spec fn sample_average(img: RgbaImage, c: int) -> int {
    sample_sum(img, c) / sample_count(img.width as int, img.height as int)
}

proof fn lemma_row_sum_bounds(img: RgbaImage, c: int, j: int, n: int, k: int)
    requires
        0 <= k <= n,
    ensures
        0 <= row_sum(img, c, j, k) <= row_sum(img, c, j, n),
        row_sum(img, c, j, n) <= 255 * n,
        n >= 1 ==> row_sum(img, c, j, n) - img.channel(0, 5 * j, c) <= 255 * (n - 1),
    decreases n,
{
    if n > 0 {
        lemma_row_sum_bounds(img, c, j, n - 1, if k == n { n - 1 } else { k });
    }
}

proof fn lemma_grid_sum_bounds(img: RgbaImage, c: int, m: int, k: int)
    requires
        0 <= k <= m,
    ensures
        0 <= grid_sum(img, c, k) <= grid_sum(img, c, m),
        m >= 1 ==> grid_sum(img, c, m) - img.channel(0, 0, c) <= 255 * (m * sample_columns(
            img.width as int,
        ) - 1),
    decreases m,
{
    let cols = sample_columns(img.width as int);
    if m > 0 {
        lemma_grid_sum_bounds(img, c, m - 1, if k == m { m - 1 } else { k });
        lemma_row_sum_bounds(img, c, m - 1, cols, 0);
        if cols >= 0 {
            lemma_row_sum_bounds(img, c, m - 1, cols, cols);
        }
        assert(m * cols == (m - 1) * cols + cols) by (nonlinear_arith);
    }
}

/// Every partial sum taken along the grid is bounded by the full sample sum.
proof fn lemma_partial_sum_bound(img: RgbaImage, c: int, j: int, i: int)
    requires
        0 <= j < sample_rows(img.height as int),
        0 <= i < sample_columns(img.width as int),
    ensures
        0 <= grid_sum(img, c, j) + row_sum(img, c, j, i + 1),
        grid_sum(img, c, j) + row_sum(img, c, j, i + 1) <= grid_sum(
            img,
            c,
            sample_rows(img.height as int),
        ),
{
    let cols = sample_columns(img.width as int);
    let rows = sample_rows(img.height as int);
    lemma_row_sum_bounds(img, c, j, cols, i + 1);
    lemma_grid_sum_bounds(img, c, rows, j + 1);
    lemma_grid_sum_bounds(img, c, j, j);
}

/// The sample average of a channel never exceeds the largest channel value.
proof fn lemma_sample_average_bound(img: RgbaImage, c: int)
    requires
        sample_count(img.width as int, img.height as int) >= 1,
    ensures
        0 <= sample_average(img, c) <= 255,
{
    let cols = sample_columns(img.width as int);
    let rows = sample_rows(img.height as int);
    let count = sample_count(img.width as int, img.height as int);
    assert(rows >= 1) by (nonlinear_arith)
        requires
            rows * cols - 1 >= 1,
            cols >= 0,
            rows >= 0,
    ;
    assert(cols >= 1) by (nonlinear_arith)
        requires
            rows * cols - 1 >= 1,
            cols >= 0,
            rows >= 0,
    ;
    assert(grid_sum(img, c, 0) == 0);
    assert(grid_sum(img, c, 1) == row_sum(img, c, 0, cols));
    assert(row_sum(img, c, 0, 0) == 0);
    assert(row_sum(img, c, 0, 1) == img.channel(0, 0, c));
    lemma_grid_sum_bounds(img, c, rows, 0);
    lemma_row_sum_bounds(img, c, 0, cols, 1);
    lemma_grid_sum_bounds(img, c, rows, 1);
    let s = sample_sum(img, c);
    assert(0 <= s);
    assert(s <= 255 * count);
    assert(0 <= s / count <= 255) by (nonlinear_arith)
        requires
            0 <= s <= 255 * count,
            count >= 1,
    ;
}

/// Averages the red, green and blue channels over a grid of pixels taken every
/// fifth column and row, starting one step past the top-left pixel.
pub fn calculate_average(img: &RgbaImage) -> (avg: [u8; 3])
    requires
        img.wf(),
        img.width >= 1,
        img.height >= 1,
        1 <= sample_count(img.width as int, img.height as int) <= u32::MAX,
        sample_sum(*img, 0) <= u32::MAX,
        sample_sum(*img, 1) <= u32::MAX,
        sample_sum(*img, 2) <= u32::MAX,
    ensures
        avg[0] == sample_average(*img, 0),
        avg[1] == sample_average(*img, 1),
        avg[2] == sample_average(*img, 2),
{
    let width = img.width;
    let height = img.height;
    let ghost cols: int = sample_columns(width as int);
    let ghost rows: int = sample_rows(height as int);

    let block_size: u32 = SAMPLE_STEP;
    let mut x: u32 = 0;
    let mut y: u32 = 0;
    let mut rgb: [u32; 3] = [0, 0, 0];
    let mut count: u32 = 0;

    assert forall|c: int| 0 <= c < 3 implies #[trigger] rgb[c] == grid_sum(*img, c, 0) + row_sum(
        *img,
        c,
        0,
        1,
    ) - img.channel(0, 0, c) by {
        assert(row_sum(*img, c, 0, 0) == 0);
        assert(row_sum(*img, c, 0, 1) == img.channel(0, 0, c));
    }
    loop
        invariant
            img.wf(),
            width == img.width,
            height == img.height,
            width >= 1,
            height >= 1,
            block_size == 5,
            cols == sample_columns(width as int),
            rows == sample_rows(height as int),
            1 <= sample_count(width as int, height as int) <= u32::MAX,
            sample_sum(*img, 0) <= u32::MAX,
            sample_sum(*img, 1) <= u32::MAX,
            sample_sum(*img, 2) <= u32::MAX,
            x % 5 == 0,
            y % 5 == 0,
            x < column_limit(width as int),
            y < height,
            count == (y / 5) * cols + x / 5,
            forall|c: int|
                0 <= c < 3 ==> #[trigger] rgb[c] == grid_sum(*img, c, y as int / 5) + row_sum(
                    *img,
                    c,
                    y as int / 5,
                    x as int / 5 + 1,
                ) - img.channel(0, 0, c),
        ensures
            count == sample_count(width as int, height as int),
            forall|c: int| 0 <= c < 3 ==> #[trigger] rgb[c] == sample_sum(*img, c),
        decreases height - y, column_limit(width as int) - x,
    {
        let ghost i: int = x as int / 5;
        let ghost j: int = y as int / 5;
        assert(i < cols && j < rows);
        assert(x < width - 1 ==> x + block_size <= u32::MAX);
        assert(y + block_size <= u32::MAX);
        let (x1, y1) = next_coordinates(width, x, y, block_size);

        if y1 > height - 1 {
            assert(i == cols - 1);
            assert(j == rows - 1);
            assert(count == rows * cols - 1) by (nonlinear_arith)
                requires
                    count == j * cols + i,
                    i == cols - 1,
                    j == rows - 1,
            ;
            assert forall|c: int| 0 <= c < 3 implies #[trigger] rgb[c] == sample_sum(*img, c) by {
                assert(grid_sum(*img, c, j + 1) == grid_sum(*img, c, j) + row_sum(
                    *img,
                    c,
                    j,
                    cols,
                ));
            }
            break;
        }

        let ghost i1: int = x1 as int / 5;
        let ghost j1: int = y1 as int / 5;
        assert(x1 < column_limit(width as int));
        assert(x1 < width && y1 < height);
        assert(i1 < cols && j1 < rows);
        assert(j1 * cols + i1 == j * cols + i + 1) by (nonlinear_arith)
            requires
                (i1 == i + 1 && j1 == j) || (i1 == 0 && j1 == j + 1 && i == cols - 1),
        ;
        assert(j1 * cols + i1 <= rows * cols - 1) by (nonlinear_arith)
            requires
                0 <= i1 < cols,
                0 <= j1 < rows,
        ;

        proof {
            lemma_rgba_index_bounds(width as int, height as int, x1 as int, y1 as int, 0);
            lemma_rgba_index_bounds(width as int, height as int, x1 as int, y1 as int, 3);
        }
        assert((y1 as int) * (width as int) <= (y1 as int) * (width as int) + x1) by (
        nonlinear_arith)
            requires
                x1 >= 0,
        ;
        let len: usize = img.data.len();
        let ghost row_start: int = (y1 as int) * (width as int);
        assert((row_start + x1) * 4 + 3 < len);
        assert(row_start <= usize::MAX);
        let base: usize = ((y1 as usize) * (width as usize) + (x1 as usize)) * 4;

        proof {
            assert forall|c: int| 0 <= c < 3 implies rgb[c] + img.channel(x1 as int, y1 as int, c)
                == grid_sum(*img, c, j1) + row_sum(*img, c, j1, i1 + 1) - img.channel(0, 0, c)
                && grid_sum(*img, c, j1) + row_sum(*img, c, j1, i1 + 1) - img.channel(0, 0, c)
                <= u32::MAX by {
                lemma_partial_sum_bound(*img, c, j1, i1);
                if i1 == 0 {
                    assert(grid_sum(*img, c, j1) == grid_sum(*img, c, j) + row_sum(
                        *img,
                        c,
                        j,
                        cols,
                    ));
                    assert(row_sum(*img, c, j1, 0) == 0);
                    assert(row_sum(*img, c, j1, 1) == img.channel(0, 5 * j1, c));
                } else {
                    assert(row_sum(*img, c, j, i1 + 1) == row_sum(*img, c, j, i + 1)
                        + img.channel(5 * i1, 5 * j, c));
                }
            }
        }
        let ghost old_rgb = rgb;
        assert(base + 3 < img.data@.len());
        let red: u8 = img.data[base];
        let green: u8 = img.data[base + 1];
        let blue: u8 = img.data[base + 2];
        assert(red == img.channel(x1 as int, y1 as int, 0));
        assert(green == img.channel(x1 as int, y1 as int, 1));
        assert(blue == img.channel(x1 as int, y1 as int, 2));
        rgb[0] = rgb[0] + red as u32;
        rgb[1] = rgb[1] + green as u32;
        rgb[2] = rgb[2] + blue as u32;

        count += 1;
        x = x1;
        y = y1;
    }

    proof {
        lemma_sample_average_bound(*img, 0);
        lemma_sample_average_bound(*img, 1);
        lemma_sample_average_bound(*img, 2);
    }
    let mut k: usize = 0;
    while k < 3
        invariant
            0 <= k <= 3,
            count == sample_count(width as int, height as int),
            count >= 1,
            width == img.width,
            height == img.height,
            forall|c: int| k <= c < 3 ==> #[trigger] rgb[c] == sample_sum(*img, c),
            forall|c: int| 0 <= c < k ==> #[trigger] rgb[c] == sample_average(*img, c),
            forall|c: int| 0 <= c < 3 ==> sample_average(*img, c) <= 255,
        decreases 3 - k,
    {
        assert(rgb[k as int] == sample_sum(*img, k as int));
        let v = rgb[k] / count;
        assert(v == sample_average(*img, k as int));
        let inverted = !v;
        let restored = !inverted;
        assert(restored == v) by (bit_vector)
            requires
                inverted == !v,
                restored == !inverted,
        ;
        rgb[k] = restored;
        k = k + 1;
    }

    [rgb[0] as u8, rgb[1] as u8, rgb[2] as u8]
}

} // verus!

verus! {

/// The inputs on which `calculate_average` is defined: a non-empty image with
/// at least one sampled pixel, whose sample count and channel sums fit in 32
/// bits.
pub open spec fn average_defined(img: RgbaImage) -> bool {
    &&& img.width >= 1
    &&& img.height >= 1
    &&& 1 <= sample_count(img.width as int, img.height as int) <= u32::MAX
    &&& sample_sum(img, 0) <= u32::MAX
    &&& sample_sum(img, 1) <= u32::MAX
    &&& sample_sum(img, 2) <= u32::MAX
}

/// Whether `calculate_average` may be called on the image.
#[verifier::loop_isolation(false)]
pub fn can_calculate_average(img: &RgbaImage) -> (ok: bool)
    requires
        img.wf(),
    ensures
        ok == average_defined(*img),
{
    let width = img.width;
    let height = img.height;
    if width == 0 || height == 0 {
        return false;
    }
    let limit: u64 = if width >= 2 {
        width as u64 - 1
    } else {
        1
    };
    let cols: u64 = (limit + 4) / 5;
    let rows: u64 = (height as u64 + 4) / 5;
    assert(cols * rows <= 0x4000_0000 * 0x4000_0000) by (nonlinear_arith)
        requires
            cols <= 0x4000_0000,
            rows <= 0x4000_0000,
    ;
    let cells: u64 = cols * rows;
    assert(cells == sample_rows(height as int) * sample_columns(width as int)) by (
    nonlinear_arith)
        requires
            cells == cols * rows,
            cols == sample_columns(width as int),
            rows == sample_rows(height as int),
    ;
    if cells < 2 || cells - 1 > u32::MAX as u64 {
        return false;
    }
    proof {
        lemma_rgba_index_bounds(width as int, height as int, 0, 0, 0);
    }
    let origin: [u64; 3] = [img.data[0] as u64, img.data[1] as u64, img.data[2] as u64];
    let mut sums: [u64; 3] = [0, 0, 0];
    let mut j: u64 = 0;
    while j < rows
        invariant
            img.wf(),
            width == img.width,
            height == img.height,
            cols == sample_columns(width as int),
            rows == sample_rows(height as int),
            j <= rows,
            forall|c: int| 0 <= c < 3 ==> #[trigger] origin[c] == img.channel(0, 0, c),
            forall|c: int|
                0 <= c < 3 ==> #[trigger] sums[c] == grid_sum(*img, c, j as int) && sums[c]
                    <= u32::MAX + origin[c],
        decreases rows - j,
    {
        let mut i: u64 = 0;
        while i < cols
            invariant
                img.wf(),
                width == img.width,
                height == img.height,
                cols == sample_columns(width as int),
                rows == sample_rows(height as int),
                j < rows,
                i <= cols,
                forall|c: int| 0 <= c < 3 ==> #[trigger] origin[c] == img.channel(0, 0, c),
                forall|c: int|
                    0 <= c < 3 ==> #[trigger] sums[c] == grid_sum(*img, c, j as int) + row_sum(
                        *img,
                        c,
                        j as int,
                        i as int,
                    ) && sums[c] <= u32::MAX + origin[c],
            decreases cols - i,
        {
            let x: u64 = 5 * i;
            let y: u64 = 5 * j;
            assert(x < width && y < height);
            proof {
                lemma_rgba_index_bounds(width as int, height as int, x as int, y as int, 0);
                lemma_rgba_index_bounds(width as int, height as int, x as int, y as int, 3);
            }
            let len: usize = img.data.len();
            let ghost row_start: int = (y as int) * (width as int);
            assert((row_start + x) * 4 + 3 < len);
            assert(row_start <= usize::MAX);
            let base: usize = ((y as usize) * (width as usize) + (x as usize)) * 4;
            let mut k: usize = 0;
            while k < 3
                invariant
                    0 <= k <= 3,
                    base + 3 < img.data@.len(),
                    base == crate::raster::rgba_index(width as int, x as int, y as int, 0),
                    img.wf(),
                    width == img.width,
                    forall|c: int|
                        0 <= c < k ==> #[trigger] sums[c] == grid_sum(*img, c, j as int)
                            + row_sum(*img, c, j as int, i as int + 1) && sums[c] <= u32::MAX
                            + origin[c],
                    forall|c: int|
                        k <= c < 3 ==> #[trigger] sums[c] == grid_sum(*img, c, j as int)
                            + row_sum(*img, c, j as int, i as int) && sums[c] <= u32::MAX
                            + origin[c],
                decreases 3 - k,
            {
                let v: u64 = img.data[base + k] as u64;
                assert(v == img.channel(x as int, y as int, k as int));
                let s = sums[k] + v;
                if s > u32::MAX as u64 + origin[k] {
                    proof {
                        lemma_partial_sum_bound(*img, k as int, j as int, i as int);
                    }
                    return false;
                }
                sums[k] = s;
                k = k + 1;
            }
            i = i + 1;
        }
        proof {
            assert forall|c: int| 0 <= c < 3 implies #[trigger] sums[c] == grid_sum(
                *img,
                c,
                j as int + 1,
            ) by {
                assert(grid_sum(*img, c, j as int + 1) == grid_sum(*img, c, j as int) + row_sum(
                    *img,
                    c,
                    j as int,
                    cols as int,
                ));
            }
        }
        j = j + 1;
    }
    assert(1 <= sample_count(width as int, height as int) <= u32::MAX);
    assert(sums[0] == grid_sum(*img, 0, rows as int) && origin[0] == img.channel(0, 0, 0));
    assert(sums[1] == grid_sum(*img, 1, rows as int) && origin[1] == img.channel(0, 0, 1));
    assert(sums[2] == grid_sum(*img, 2, rows as int) && origin[2] == img.channel(0, 0, 2));
    true
}

} // verus!

verus! {

proof fn lemma_uniform_row(img: RgbaImage, c: int, v: int, j: int, n: int)
    requires
        0 <= n <= sample_columns(img.width as int),
        forall|i: int| 0 <= i < n ==> #[trigger] img.channel(5 * i, 5 * j, c) == v,
    ensures
        row_sum(img, c, j, n) == n * v,
    decreases n,
{
    if n == 0 {
        assert(0 * v == 0) by (nonlinear_arith);
    } else {
        lemma_uniform_row(img, c, v, j, n - 1);
        assert(img.channel(5 * (n - 1), 5 * j, c) == v);
        assert(n * v == (n - 1) * v + v) by (nonlinear_arith);
    }
}

proof fn lemma_uniform_grid(img: RgbaImage, c: int, v: int, m: int)
    requires
        0 <= m <= sample_rows(img.height as int),
        forall|i: int, j: int|
            0 <= i < sample_columns(img.width as int) && 0 <= j < m ==> #[trigger] img.channel(
                5 * i,
                5 * j,
                c,
            ) == v,
    ensures
        grid_sum(img, c, m) == m * sample_columns(img.width as int) * v,
    decreases m,
{
    let cols = sample_columns(img.width as int);
    if m == 0 {
        assert(0 * cols * v == 0) by (nonlinear_arith);
    } else {
        lemma_uniform_grid(img, c, v, m - 1);
        lemma_uniform_row(img, c, v, m - 1, cols);
        assert(grid_sum(img, c, m) == grid_sum(img, c, m - 1) + row_sum(img, c, m - 1, cols));
        assert(m * cols * v == (m - 1) * cols * v + cols * v) by (nonlinear_arith);
    }
}

/// The sampled average of an image whose every pixel has the same red, green
/// and blue is that colour, whatever the alpha bytes hold.
pub proof fn uniform_image_average(img: RgbaImage, color: [u8; 3])
    requires
        img.width >= 1,
        sample_count(img.width as int, img.height as int) >= 1,
        forall|x: int, y: int, c: int|
            0 <= x < img.width && 0 <= y < img.height && 0 <= c < 3 ==> #[trigger] img.channel(
                x,
                y,
                c,
            ) == color[c],
    ensures
        forall|c: int| 0 <= c < 3 ==> #[trigger] sample_average(img, c) == color[c],
{
    let cols = sample_columns(img.width as int);
    let rows = sample_rows(img.height as int);
    let count = sample_count(img.width as int, img.height as int);
    assert(cols >= 1 && rows >= 1) by (nonlinear_arith)
        requires
            rows * cols - 1 >= 1,
            cols >= 0,
            rows >= 0,
    ;
    assert forall|c: int| 0 <= c < 3 implies #[trigger] sample_average(img, c) == color[c] by {
        let v = color[c] as int;
        assert forall|i: int, j: int| 0 <= i < cols && 0 <= j < rows implies #[trigger] img.channel(
            5 * i,
            5 * j,
            c,
        ) == v by {
            let lim = column_limit(img.width as int);
            assert(5 * i < lim) by (nonlinear_arith)
                requires
                    0 <= i < (lim + 4) / 5,
                    lim >= 1,
            ;
            assert(5 * j < img.height) by (nonlinear_arith)
                requires
                    0 <= j < (img.height + 4) / 5,
            ;
            assert(img.channel(5 * i, 5 * j, c) == color[c]);
        }
        lemma_uniform_grid(img, c, v, rows);
        assert(img.channel(0, 0, c) == v);
        let s = sample_sum(img, c);
        assert(s == count * v) by (nonlinear_arith)
            requires
                s == rows * cols * v - v,
                count == rows * cols - 1,
        ;
        assert(s / count == v) by (nonlinear_arith)
            requires
                s == count * v,
                count >= 1,
        ;
    }
}

proof fn lemma_row_sum_range(img: RgbaImage, c: int, j: int, n: int, lo: int, hi: int)
    requires
        0 <= n,
        forall|i: int| 0 <= i < n ==> lo <= #[trigger] img.channel(5 * i, 5 * j, c) <= hi,
    ensures
        lo * n <= row_sum(img, c, j, n) <= hi * n,
        n >= 1 ==> lo * (n - 1) <= row_sum(img, c, j, n) - img.channel(0, 5 * j, c) <= hi * (n
            - 1),
    decreases n,
{
    if n > 0 {
        lemma_row_sum_range(img, c, j, n - 1, lo, hi);
        let v = img.channel(5 * (n - 1), 5 * j, c) as int;
        assert(lo <= v <= hi);
        assert(lo * n == lo * (n - 1) + lo && hi * n == hi * (n - 1) + hi) by (nonlinear_arith);
        if n == 1 {
            assert(row_sum(img, c, j, 1) == img.channel(0, 5 * j, c));
            assert(lo * 0 == 0 && hi * 0 == 0) by (nonlinear_arith);
        } else {
            assert(lo * (n - 1) == lo * (n - 2) + lo && hi * (n - 1) == hi * (n - 2) + hi)
                by (nonlinear_arith);
        }
    }
}

proof fn lemma_grid_sum_range(img: RgbaImage, c: int, m: int, lo: int, hi: int)
    requires
        1 <= m,
        sample_columns(img.width as int) >= 1,
        forall|i: int, j: int|
            0 <= i < sample_columns(img.width as int) && 0 <= j < m ==> lo
                <= #[trigger] img.channel(5 * i, 5 * j, c) <= hi,
    ensures
        lo * (m * sample_columns(img.width as int) - 1) <= grid_sum(img, c, m) - img.channel(0, 0, c)
            <= hi * (m * sample_columns(img.width as int) - 1),
    decreases m,
{
    let cols = sample_columns(img.width as int);
    assert forall|i: int| 0 <= i < cols implies lo <= #[trigger] img.channel(5 * i, 5 * (m - 1), c)
        <= hi by {
        assert(lo <= img.channel(5 * i, 5 * (m - 1), c) <= hi);
    }
    lemma_row_sum_range(img, c, m - 1, cols, lo, hi);
    if m == 1 {
        assert(grid_sum(img, c, 0) == 0);
        assert(1 * cols - 1 == cols - 1);
    } else {
        lemma_grid_sum_range(img, c, m - 1, lo, hi);
        assert(lo * (m * cols - 1) == lo * ((m - 1) * cols - 1) + lo * cols && hi * (m * cols - 1)
            == hi * ((m - 1) * cols - 1) + hi * cols) by (nonlinear_arith);
    }
}

/// The sampled average of a channel lies between the smallest and the largest
/// value that channel takes anywhere in the image.
pub proof fn average_within_channel_range(img: RgbaImage, c: int, lo: int, hi: int)
    requires
        img.width >= 1,
        sample_count(img.width as int, img.height as int) >= 1,
        forall|x: int, y: int|
            0 <= x < img.width && 0 <= y < img.height ==> lo <= #[trigger] img.channel(x, y, c)
                <= hi,
    ensures
        lo <= sample_average(img, c) <= hi,
{
    let cols = sample_columns(img.width as int);
    let rows = sample_rows(img.height as int);
    let count = sample_count(img.width as int, img.height as int);
    assert(cols >= 1 && rows >= 1) by (nonlinear_arith)
        requires
            rows * cols - 1 >= 1,
            cols >= 0,
            rows >= 0,
    ;
    assert forall|i: int, j: int| 0 <= i < cols && 0 <= j < rows implies lo
        <= #[trigger] img.channel(5 * i, 5 * j, c) <= hi by {
        let lim = column_limit(img.width as int);
        assert(5 * i < lim) by (nonlinear_arith)
            requires
                0 <= i < (lim + 4) / 5,
                lim >= 1,
        ;
        assert(5 * j < img.height) by (nonlinear_arith)
            requires
                0 <= j < (img.height + 4) / 5,
        ;
        assert(lo <= img.channel(5 * i, 5 * j, c) <= hi);
    }
    lemma_grid_sum_range(img, c, rows, lo, hi);
    let s = sample_sum(img, c);
    assert(lo * count <= s <= hi * count);
    assert(lo <= s / count <= hi) by (nonlinear_arith)
        requires
            lo * count <= s <= hi * count,
            count >= 1,
    ;
}

} // verus!
