use vstd::prelude::*;

verus! {

/// Columns of the aligned face left out of the blur measurement.
pub const REMOVE_SIDE_COLUMNS: usize = 56;

/// Largest magnitude of a matrix entry for which the Laplacian stays in `i32`.
pub const MAX_PIXEL_MAGNITUDE: i32 = 0x10_0000;

/// Which way a face is turned, judged from its landmarks.
#[derive(Clone, Copy, Debug, PartialEq, Eq, Structural)]
pub enum FaceDirection {
    Left,
    Right,
    Straight,
}

/// First source column of the retained stripe: the side the face turns away
/// from is kept, a frontal face keeps the centre.
pub open spec fn start_column(direction: FaceDirection) -> int {
    match direction {
        FaceDirection::Straight => (REMOVE_SIDE_COLUMNS / 2) as int,
        FaceDirection::Left => REMOVE_SIDE_COLUMNS as int,
        FaceDirection::Right => 0,
    }
}

/// `m` has `rows` rows of `cols` entries each.
pub open spec fn is_matrix(m: Seq<Vec<i32>>, rows: int, cols: int) -> bool {
    m.len() == rows && forall|i: int| 0 <= i < rows ==> (#[trigger] m[i])@.len() == cols
}

/// A grey image the blur padding can take: at least one row, rows of one
/// length, wide enough for the stripe and its border.
pub open spec fn paddable(image: Seq<Vec<i32>>) -> bool {
    &&& image.len() >= 1
    &&& image[0]@.len() >= REMOVE_SIDE_COLUMNS + 1
    &&& image.len() + 2 <= usize::MAX
    &&& is_matrix(image, image.len() as int, image[0]@.len() as int)
}

/// Width of the retained stripe.
pub open spec fn stripe_width(image: Seq<Vec<i32>>) -> int {
    image[0]@.len() - REMOVE_SIDE_COLUMNS
}

/// Entry `(r, c)` of the padded image before its border columns are filled:
/// the stripe in rows 1 to `rows`, the second and the second-to-last image row
/// reflected into the top and bottom rows (zeros for a one-row image), zero
/// outside the stripe's columns.
pub open spec fn pad_core(image: Seq<Vec<i32>>, direction: FaceDirection, r: int, c: int) -> i32 {
    let rows = image.len() as int;
    let s = start_column(direction);
    if !(1 <= c <= stripe_width(image)) {
        0
    } else if 1 <= r <= rows {
        image[r - 1]@[c - 1 + s]
    } else if rows >= 2 {
        if r == 0 {
            image[1]@[c - 1 + s]
        } else {
            image[rows - 2]@[c - 1 + s]
        }
    } else {
        0
    }
}

/// Entry `(r, c)` of the padded image: the outer columns mirror the columns two
/// steps inside.
pub open spec fn padded_value(image: Seq<Vec<i32>>, direction: FaceDirection, r: int, c: int) -> i32 {
    let last = stripe_width(image) + 1;
    if c == 0 {
        pad_core(image, direction, r, 2)
    } else if c == last {
        pad_core(image, direction, r, last - 2)
    } else {
        pad_core(image, direction, r, c)
    }
}

/// Discrete Laplacian `[[0,1,0],[1,-4,1],[0,1,0]]` of the padded image at output
/// position `(i, j)`, whose centre is padded entry `(i + 1, j + 1)`.
pub open spec fn laplacian_at(image: Seq<Vec<i32>>, direction: FaceDirection, i: int, j: int) -> int {
    padded_value(image, direction, i, j + 1) + padded_value(image, direction, i + 1, j)
        - 4 * padded_value(image, direction, i + 1, j + 1) + padded_value(
        image,
        direction,
        i + 1,
        j + 2,
    ) + padded_value(image, direction, i + 2, j + 1)
}

fn pad_core_exec(image: &Vec<Vec<i32>>, start: usize, copy_cols: usize, r: usize, c: usize) -> (v:
    i32)
    requires
        paddable(image@),
        copy_cols == stripe_width(image@),
        start <= REMOVE_SIDE_COLUMNS,
    ensures
        forall|d: FaceDirection| start_column(d) == start ==> v == pad_core(image@, d, r as int, c as int),
{
    let rows = image.len();
    let cols = image[0].len();
    assert(copy_cols + REMOVE_SIDE_COLUMNS == cols);
    if !(1 <= c && c <= copy_cols) {
        0
    } else if 1 <= r && r <= rows {
        image[r - 1][c - 1 + start]
    } else if rows >= 2 {
        if r == 0 {
            image[1][c - 1 + start]
        } else {
            image[rows - 2][c - 1 + start]
        }
    } else {
        0
    }
}

/// Pads a grey image for the blur measurement: keeps a stripe
/// `REMOVE_SIDE_COLUMNS` narrower than the image, placed by the face direction,
/// and surrounds it by one reflected row above and below and one mirrored
/// column on each side.
pub fn pad_image_for_direction(image: &Vec<Vec<i32>>, direction: FaceDirection) -> (r: Vec<Vec<i32>>)
    requires
        paddable(image@),
    ensures
        is_matrix(r@, image@.len() as int + 2, stripe_width(image@) + 2),
        forall|i: int, j: int|
            0 <= i < image@.len() + 2 && 0 <= j < stripe_width(image@) + 2 ==> #[trigger] r@[i]@[j]
                == padded_value(image@, direction, i, j),
{
    let rows = image.len();
    let cols = image[0].len();
    let copy_cols = cols - REMOVE_SIDE_COLUMNS;
    let padded_cols = copy_cols + 2;
    let start: usize = match direction {
        FaceDirection::Straight => REMOVE_SIDE_COLUMNS / 2,
        FaceDirection::Left => REMOVE_SIDE_COLUMNS,
        FaceDirection::Right => 0,
    };
    let mut padded: Vec<Vec<i32>> = Vec::new();
    let mut i: usize = 0;
    while i < rows + 2
        invariant
            paddable(image@),
            rows == image@.len(),
            copy_cols == stripe_width(image@),
            padded_cols == copy_cols + 2,
            start == start_column(direction),
            i <= rows + 2,
            is_matrix(padded@, i as int, padded_cols as int),
            forall|a: int, b: int|
                0 <= a < i && 0 <= b < padded_cols ==> #[trigger] padded@[a]@[b] == padded_value(
                    image@,
                    direction,
                    a,
                    b,
                ),
        decreases rows + 2 - i,
    {
        let mut row: Vec<i32> = Vec::new();
        let mut j: usize = 0;
        while j < padded_cols
            invariant
                paddable(image@),
                rows == image@.len(),
                copy_cols == stripe_width(image@),
                padded_cols == copy_cols + 2,
                start == start_column(direction),
                i < rows + 2,
                j <= padded_cols,
                row@.len() == j,
                forall|b: int| 0 <= b < j ==> #[trigger] row@[b] == padded_value(image@, direction, i as int, b),
            decreases padded_cols - j,
        {
            let source_col = if j == 0 {
                2
            } else if j == padded_cols - 1 {
                padded_cols - 3
            } else {
                j
            };
            let v = pad_core_exec(image, start, copy_cols, i, source_col);
            row.push(v);
            j = j + 1;
        }
        padded.push(row);
        i = i + 1;
    }
    padded
}

/// Every entry of `m` lies within `bound` of zero.
pub open spec fn entries_within(m: Seq<Vec<i32>>, bound: int) -> bool {
    forall|i: int, j: int|
        0 <= i < m.len() && 0 <= j < m[i]@.len() ==> -bound <= #[trigger] m[i]@[j] <= bound
}

proof fn lemma_padded_within(image: Seq<Vec<i32>>, direction: FaceDirection, r: int, c: int)
    requires
        paddable(image),
        entries_within(image, MAX_PIXEL_MAGNITUDE as int),
    ensures
        -MAX_PIXEL_MAGNITUDE <= padded_value(image, direction, r, c) <= MAX_PIXEL_MAGNITUDE,
{
    let rows = image.len() as int;
    let w = stripe_width(image);
    let s = start_column(direction);
    assert forall|rr: int, cc: int|
        1 <= cc <= w && 0 <= rr implies -MAX_PIXEL_MAGNITUDE <= #[trigger] pad_core(
        image,
        direction,
        rr,
        cc,
    ) <= MAX_PIXEL_MAGNITUDE by {
        if 1 <= rr <= rows {
            assert(image[rr - 1]@.len() == image[0]@.len());
        } else if rows >= 2 {
            assert(image[1]@.len() == image[0]@.len());
            assert(image[rows - 2]@.len() == image[0]@.len());
        }
    }
}

/// The Laplacian of the padded grey image (see `pad_image_for_direction`), one
/// value per pixel of the retained stripe.
pub fn apply_laplacian(image: &Vec<Vec<i32>>, direction: FaceDirection) -> (r: Vec<Vec<i32>>)
    requires
        paddable(image@),
        entries_within(image@, MAX_PIXEL_MAGNITUDE as int),
    ensures
        is_matrix(r@, image@.len() as int, stripe_width(image@)),
        forall|i: int, j: int|
            0 <= i < image@.len() && 0 <= j < stripe_width(image@) ==> #[trigger] r@[i]@[j]
                == laplacian_at(image@, direction, i, j),
{
    let padded = pad_image_for_direction(image, direction);
    let rows = padded.len() - 2;
    let cols = padded[0].len() - 2;
    let mut out: Vec<Vec<i32>> = Vec::new();
    let mut i: usize = 0;
    while i < rows
        invariant
            paddable(image@),
            entries_within(image@, MAX_PIXEL_MAGNITUDE as int),
            rows == image@.len(),
            cols == stripe_width(image@),
            is_matrix(padded@, image@.len() as int + 2, stripe_width(image@) + 2),
            forall|a: int, b: int|
                0 <= a < image@.len() + 2 && 0 <= b < stripe_width(image@) + 2 ==> #[trigger] padded@[a]@[b]
                    == padded_value(image@, direction, a, b),
            i <= rows,
            is_matrix(out@, i as int, cols as int),
            forall|a: int, b: int|
                0 <= a < i && 0 <= b < cols ==> #[trigger] out@[a]@[b] == laplacian_at(
                    image@,
                    direction,
                    a,
                    b,
                ),
        decreases rows - i,
    {
        let mut row: Vec<i32> = Vec::new();
        let mut j: usize = 0;
        while j < cols
            invariant
                paddable(image@),
                entries_within(image@, MAX_PIXEL_MAGNITUDE as int),
                rows == image@.len(),
                cols == stripe_width(image@),
                is_matrix(padded@, image@.len() as int + 2, stripe_width(image@) + 2),
                forall|a: int, b: int|
                    0 <= a < image@.len() + 2 && 0 <= b < stripe_width(image@) + 2
                        ==> #[trigger] padded@[a]@[b] == padded_value(image@, direction, a, b),
                i < rows,
                j <= cols,
                row@.len() == j,
                forall|b: int| 0 <= b < j ==> #[trigger] row@[b] == laplacian_at(image@, direction, i as int, b),
            decreases cols - j,
        {
            proof {
                lemma_padded_within(image@, direction, i as int, j + 1);
                lemma_padded_within(image@, direction, i + 1, j as int);
                lemma_padded_within(image@, direction, i + 1, j + 1);
                lemma_padded_within(image@, direction, i + 1, j + 2);
                lemma_padded_within(image@, direction, i + 2, j + 1);
            }
            let up = padded[i][j + 1];
            let left = padded[i + 1][j];
            let centre = padded[i + 1][j + 1];
            let right = padded[i + 1][j + 2];
            let down = padded[i + 2][j + 1];
            let sum = up + left - 4 * centre + right + down;
            row.push(sum);
            j = j + 1;
        }
        out.push(row);
        i = i + 1;
    }
    out
}

} // verus!
