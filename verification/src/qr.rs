//! Drawing the code that a user scans to log in.
use vstd::prelude::*;

use crate::app_lib::AppLib;

verus! {

/// A colour: its red, green and blue parts and its opacity.
pub type Color = (u8, u8, u8, u8);

/// A picture that is being drawn, held by `image::RgbaImage`.
#[verifier::external_body]
pub struct Canvas {
    image: image::RgbaImage,
}

/// The colours of the pixels of a picture, row by row from the top, each row from the left.
pub uninterp spec fn pixels(canvas: Canvas) -> Seq<Seq<(u8, u8, u8, u8)>>;

/// The modules of the code for a text, row by row from the top, each row from the left; a dark
/// one is `true`. A text that is too long has none.
pub uninterp spec fn qr_matrix(text: Seq<char>) -> Option<Seq<Seq<bool>>>;

/// The rows of a table.
pub open spec fn rows(table: Seq<Vec<bool>>) -> Seq<Seq<bool>> {
    table.map_values(|row: Vec<bool>| row@)
}

/// Whether a table has as many rows as columns.
pub open spec fn is_square<T>(table: Seq<Seq<T>>) -> bool {
    is_grid(table, table.len(), table.len())
}

/// Whether a table has this many columns and rows.
pub open spec fn is_grid<T>(table: Seq<Seq<T>>, width: nat, height: nat) -> bool {
    &&& table.len() == height
    &&& forall|y: int| 0 <= y < height ==> (#[trigger] table[y]).len() == width
}

/// What stands in a picture where nothing was drawn.
pub open spec fn nothing() -> Color {
    (0, 0, 0, 0)
}

/// The colour of a pixel of a code that is drawn in a picture `size` pixels wide. The modules
/// are drawn as squares, as large as fit, from the top left corner on. What is left over to
/// the right and at the bottom stays empty.
pub open spec fn module_color(
    matrix: Seq<Seq<bool>>,
    size: nat,
    foreground: Color,
    background: Color,
    x: int,
    y: int,
) -> Color {
    let side = size as int / matrix.len() as int;
    if side == 0 || x / side >= matrix.len() || y / side >= matrix.len() {
        nothing()
    } else if matrix[y / side][x / side] {
        foreground
    } else {
        background
    }
}

/// A code drawn in a picture `size` pixels wide and high.
pub open spec fn drawn(
    matrix: Seq<Seq<bool>>,
    size: nat,
    foreground: Color,
    background: Color,
) -> Seq<Seq<Color>> {
    Seq::new(
        size,
        |y: int|
            Seq::new(
                size,
                |x: int| module_color(matrix, size, foreground, background, x, y),
            ),
    )
}

/// The four bytes of a colour.
pub open spec fn color_bytes(color: Color) -> Seq<u8> {
    seq![color.0, color.1, color.2, color.3]
}

/// The bytes of a picture: the colours of its pixels, one after the other.
pub open spec fn picture_bytes(table: Seq<Seq<Color>>) -> Seq<u8> {
    table.map_values(
        |row: Seq<Color>| row.map_values(|color: Color| color_bytes(color)).flatten(),
    ).flatten()
}

/// Makes an empty picture, by `image::RgbaImage::new`: it is as large as asked for and every
/// byte of it is zero. The size of a picture is left out where its bytes, or those of a row,
/// would not fit in memory.
#[verifier::external_body]
fn blank_canvas(width: u32, height: u32) -> (canvas: Canvas)
    requires
        4 * width <= isize::MAX,
        4 * width * height <= isize::MAX,
    ensures
        pixels(canvas) == Seq::new(
            height as nat,
            |y: int| Seq::new(width as nat, |x: int| (0u8, 0u8, 0u8, 0u8)),
        ),
{
    Canvas { image: image::RgbaImage::new(width, height) }
}

/// Colours a pixel, by `image::RgbaImage::put_pixel`: the others keep their colours. A pixel
/// outside the picture is left out.
#[verifier::external_body]
fn put_pixel(canvas: &mut Canvas, x: u32, y: u32, color: Color)
    requires
        y < pixels(*old(canvas)).len(),
        x < pixels(*old(canvas))[y as int].len(),
    ensures
        pixels(*final(canvas)) == pixels(*old(canvas)).update(
            y as int,
            pixels(*old(canvas))[y as int].update(x as int, color),
        ),
{
    canvas.image.put_pixel(x, y, image::Rgba([color.0, color.1, color.2, color.3]));
}

/// Hands out the bytes of a picture, by `image::RgbaImage::into_raw`: four for each pixel, row
/// by row.
#[verifier::external_body]
fn into_bytes(canvas: Canvas) -> (bytes: Vec<u8>)
    ensures
        bytes@ == picture_bytes(pixels(canvas)),
{
    canvas.image.into_raw()
}

/// The modules of the code for a text with the lowest error correction, by
/// `qrcode_generator::to_matrix`. It depends on the text alone and has as many rows as
/// columns, from 21 to 177. A text so long that its bits would not fit in memory is left out.
#[verifier::external_body]
fn encode(text: &str) -> (matrix: Result<Vec<Vec<bool>>, qrcode_generator::QRCodeError>)
    requires
        text@.len() < 0x200_0000,
    ensures
        match matrix {
            Ok(matrix) => qr_matrix(text@) == Some(rows(matrix@)) && is_square(rows(matrix@)) && 21
                <= matrix@.len() <= 177,
            Err(_) => qr_matrix(text@) is None,
        },
{
    qrcode_generator::to_matrix(text, qrcode_generator::QrCodeEcc::Low)
}

/// The error of `qrcode_generator`.
#[verifier::external_type_specification]
#[verifier::external_body]
pub struct ExQRCodeError(qrcode_generator::QRCodeError);

/// Colours a square.
fn fill_square(canvas: &mut Canvas, left: u32, top: u32, side: u32, color: Color, size: u32)
    requires
        is_grid(pixels(*old(canvas)), size as nat, size as nat),
        left + side <= size,
        top + side <= size,
    ensures
        is_grid(pixels(*final(canvas)), size as nat, size as nat),
        forall|x: int, y: int|
            0 <= x < size && 0 <= y < size ==> #[trigger] pixels(*final(canvas))[y][x] == (if left
                <= x < left + side && top <= y < top + side {
                color
            } else {
                pixels(*old(canvas))[y][x]
            }),
{
    let mut dy: u32 = 0;
    while dy < side
        invariant
            dy <= side,
            left + side <= size,
            top + side <= size,
            is_grid(pixels(*canvas), size as nat, size as nat),
            forall|x: int, y: int|
                0 <= x < size && 0 <= y < size ==> #[trigger] pixels(*canvas)[y][x] == (if left
                    <= x < left + side && top <= y < top + dy {
                    color
                } else {
                    pixels(*old(canvas))[y][x]
                }),
        decreases side - dy,
    {
        let mut dx: u32 = 0;
        while dx < side
            invariant
                dx <= side,
                dy < side,
                left + side <= size,
                top + side <= size,
                is_grid(pixels(*canvas), size as nat, size as nat),
                forall|x: int, y: int|
                    0 <= x < size && 0 <= y < size ==> #[trigger] pixels(*canvas)[y][x] == (if (left
                        <= x < left + side && top <= y < top + dy) || (left <= x < left + dx && y
                        == top + dy) {
                        color
                    } else {
                        pixels(*old(canvas))[y][x]
                    }),
            decreases side - dx,
        {
            put_pixel(canvas, left + dx, top + dy, color);
            dx += 1;
        }
        dy += 1;
    }
}

/// Draws a code in a picture and gives the bytes of the picture.
pub fn draw_modules(
    matrix: &Vec<Vec<bool>>,
    qr_size: u32,
    foreground: Color,
    background: Color,
) -> (bytes: Vec<u8>)
    requires
        0 < matrix@.len() <= u32::MAX,
        is_square(rows(matrix@)),
        4 * qr_size * qr_size <= isize::MAX,
    ensures
        bytes@ == picture_bytes(drawn(rows(matrix@), qr_size as nat, foreground, background)),
{
    let count: u32 = matrix.len() as u32;
    let side: u32 = qr_size / count;
    let ghost table = rows(matrix@);
    assert(4 * qr_size <= 4 * qr_size * qr_size) by (nonlinear_arith)
        requires
            qr_size >= 0,
    ;
    let mut canvas = blank_canvas(qr_size, qr_size);
    let mut row: u32 = 0;
    proof {
        assert(side * count <= qr_size) by (nonlinear_arith)
            requires
                side == qr_size / count,
                count > 0,
        ;
    }
    while row < count
        invariant
            row <= count,
            count == matrix@.len(),
            table == rows(matrix@),
            is_square(table),
            side == qr_size / count,
            side * count <= qr_size,
            is_grid(pixels(canvas), qr_size as nat, qr_size as nat),
            forall|x: int, y: int|
                0 <= x < qr_size && 0 <= y < qr_size ==> #[trigger] pixels(canvas)[y][x] == (if y
                    < row * side {
                    module_color(table, qr_size as nat, foreground, background, x, y)
                } else {
                    nothing()
                }),
        decreases count - row,
    {
        let mut column: u32 = 0;
        while column < count
            invariant
                column <= count,
                row < count,
                count == matrix@.len(),
                table == rows(matrix@),
                is_square(table),
                side == qr_size / count,
                side * count <= qr_size,
                is_grid(pixels(canvas), qr_size as nat, qr_size as nat),
                forall|x: int, y: int|
                    0 <= x < qr_size && 0 <= y < qr_size ==> #[trigger] pixels(canvas)[y][x] == (if y
                        < row * side || (y < (row + 1) * side && x < column * side) {
                        module_color(table, qr_size as nat, foreground, background, x, y)
                    } else {
                        nothing()
                    }),
            decreases count - column,
        {
            let ghost before = pixels(canvas);
            assert(table[row as int] == matrix@[row as int]@);
            assert(table[row as int].len() == count);
            let color: Color = if matrix[row as usize][column as usize] {
                foreground
            } else {
                background
            };
            proof {
                lemma_cell_fits(column as int, side as int, count as int);
                lemma_cell_fits(row as int, side as int, count as int);
            }
            fill_square(&mut canvas, column * side, row * side, side, color, qr_size);
            proof {
                assert forall|x: int, y: int|
                    0 <= x < qr_size && 0 <= y < qr_size implies #[trigger] pixels(canvas)[y][x]
                    == (if y < row * side || (y < (row + 1) * side && x < (column + 1) * side) {
                    module_color(table, qr_size as nat, foreground, background, x, y)
                } else {
                    nothing()
                }) by {
                    let old_color = before[y][x];
                    if column * side <= x < column * side + side && row * side <= y < row * side
                        + side {
                        lemma_cell_of(x, column as int, side as int);
                        lemma_cell_of(y, row as int, side as int);
                        assert(pixels(canvas)[y][x] == color);
                    } else {
                        assert(pixels(canvas)[y][x] == old_color);
                    }
                }
            }
            column += 1;
        }
        proof {
            lemma_cell_fits(row as int, side as int, count as int);
            assert forall|x: int, y: int|
                0 <= x < qr_size && 0 <= y < qr_size implies #[trigger] pixels(canvas)[y][x] == (if y
                < (row + 1) * side {
                module_color(table, qr_size as nat, foreground, background, x, y)
            } else {
                nothing()
            }) by {
                if row * side <= y < (row + 1) * side && x >= count * side {
                    lemma_cell_beyond(x, count as int, side as int);
                }
            }
        }
        row += 1;
    }
    proof {
        let wanted = drawn(table, qr_size as nat, foreground, background);
        assert forall|y: int| 0 <= y < qr_size implies pixels(canvas)[y] == #[trigger] wanted[y] by {
            assert forall|x: int| 0 <= x < qr_size implies pixels(canvas)[y][x]
                == #[trigger] wanted[y][x] by {
                if y >= count * side {
                    lemma_cell_beyond(y, count as int, side as int);
                }
                assert(pixels(canvas)[y][x] == module_color(
                    table,
                    qr_size as nat,
                    foreground,
                    background,
                    x,
                    y,
                ));
            }
            assert(pixels(canvas)[y] =~= wanted[y]);
        }
        assert(pixels(canvas) =~= wanted);
    }
    into_bytes(canvas)
}

impl AppLib {
    /// Draws the code for a text in a picture and gives the bytes of the picture. There is none
    /// for a text that is too long.
    pub fn generate_qrcode_image(
        qr_str: &str,
        qr_size: u32,
        foreground: Color,
        background: Color,
    ) -> (bytes: Option<Vec<u8>>)
        requires
            qr_str@.len() < 0x200_0000,
            4 * qr_size * qr_size <= isize::MAX,
        ensures
            match bytes {
                Some(bytes) => {
                    &&& qr_matrix(qr_str@) is Some
                    &&& bytes@ == picture_bytes(
                        drawn(qr_matrix(qr_str@)->0, qr_size as nat, foreground, background),
                    )
                },
                None => qr_matrix(qr_str@) is None,
            },
    {
        match encode(qr_str) {
            Ok(matrix) => Some(draw_modules(&matrix, qr_size, foreground, background)),
            Err(_) => None,
        }
    }
}

proof fn lemma_cell_fits(cell: int, side: int, count: int)
    by (nonlinear_arith)
    requires
        0 <= cell < count,
        0 <= side,
    ensures
        0 <= cell * side,
        cell * side + side <= side * count,
        (cell + 1) * side == cell * side + side,
{
}

proof fn lemma_cell_of(x: int, cell: int, side: int)
    by (nonlinear_arith)
    requires
        0 <= cell,
        cell * side <= x < cell * side + side,
    ensures
        side > 0,
        x / side == cell,
{
}

proof fn lemma_cell_beyond(x: int, count: int, side: int)
    by (nonlinear_arith)
    requires
        0 <= side,
        0 <= x,
        x >= count * side,
    ensures
        side > 0 ==> x / side >= count,
{
}

/// The modules of a code are drawn as squares of the same size, side by side from the upper left
/// corner: the dark ones in the one colour, the others in the other colour. What is left over on
/// the right and at the bottom stays empty.
pub proof fn lemma_modules_are_squares(
    matrix: Seq<Seq<bool>>,
    size: nat,
    foreground: Color,
    background: Color,
    side: int,
    row: int,
    column: int,
    x: int,
    y: int,
)
    requires
        matrix.len() > 0,
        side == size as int / matrix.len() as int,
        0 <= x < size,
        0 <= y < size,
    ensures
        drawn(matrix, size, foreground, background).len() == size,
        drawn(matrix, size, foreground, background)[y].len() == size,
        0 <= row < matrix.len() && 0 <= column < matrix.len() && column * side <= x < column * side
            + side && row * side <= y < row * side + side ==> drawn(
            matrix,
            size,
            foreground,
            background,
        )[y][x] == (if matrix[row][column] {
            foreground
        } else {
            background
        }),
        x >= matrix.len() * side || y >= matrix.len() * side ==> drawn(
            matrix,
            size,
            foreground,
            background,
        )[y][x] == (0u8, 0u8, 0u8, 0u8),
{
    let count = matrix.len() as int;
    assert(side >= 0) by (nonlinear_arith)
        requires
            side == size as int / count,
            count > 0,
    ;
    if 0 <= row < count && 0 <= column < count && column * side <= x < column * side + side && row
        * side <= y < row * side + side {
        lemma_cell_of(x, column, side);
        lemma_cell_of(y, row, side);
    }
    if x >= count * side {
        lemma_cell_beyond(x, count, side);
    }
    if y >= count * side {
        lemma_cell_beyond(y, count, side);
    }
}

/// The bytes of a picture are those of its pixels, four each, row by row from the top and each
/// row from the left.
pub proof fn lemma_bytes_of_a_picture(
    table: Seq<Seq<Color>>,
    width: nat,
    height: nat,
    x: int,
    y: int,
)
    requires
        is_grid(table, width, height),
        0 <= x < width,
        0 <= y < height,
    ensures
        picture_bytes(table).len() == height * (width * 4),
        0 <= y * (width * 4) + x * 4 && y * (width * 4) + x * 4 + 3 < picture_bytes(table).len(),
        picture_bytes(table)[y * (width * 4) + x * 4] == table[y][x].0,
        picture_bytes(table)[y * (width * 4) + x * 4 + 1] == table[y][x].1,
        picture_bytes(table)[y * (width * 4) + x * 4 + 2] == table[y][x].2,
        picture_bytes(table)[y * (width * 4) + x * 4 + 3] == table[y][x].3,
{
    let lines = table.map_values(
        |row: Seq<Color>| row.map_values(|color: Color| color_bytes(color)).flatten(),
    );
    assert forall|k: int| 0 <= k < lines.len() implies (#[trigger] lines[k]).len() == width
        * 4 by {
        let cells = table[k].map_values(|color: Color| color_bytes(color));
        assert(table[k].len() == width);
        lemma_flatten_even(cells, 4, 0, 0);
    }
    let cells = table[y].map_values(|color: Color| color_bytes(color));
    assert(table[y].len() == width);
    let within = x * 4;
    assert forall|c: int| 0 <= c < 4 implies #[trigger] picture_bytes(table)[y * (width * 4) + (
    within + c)] == color_bytes(table[y][x])[c] && 0 <= y * (width * 4) + (within + c)
        < picture_bytes(table).len() by {
        lemma_flatten_even(cells, 4, x, c);
        assert(lines[y] == cells.flatten());
        assert(0 <= within + c < width * 4);
        lemma_flatten_even(lines, width * 4, y, within + c);
    }
    lemma_flatten_even(lines, width * 4, 0, 0);
    assert(picture_bytes(table)[y * (width * 4) + (within + 0)] == color_bytes(table[y][x])[0]);
    assert(picture_bytes(table)[y * (width * 4) + (within + 1)] == color_bytes(table[y][x])[1]);
    assert(picture_bytes(table)[y * (width * 4) + (within + 2)] == color_bytes(table[y][x])[2]);
    assert(picture_bytes(table)[y * (width * 4) + (within + 3)] == color_bytes(table[y][x])[3]);
}

proof fn lemma_flatten_even<T>(parts: Seq<Seq<T>>, n: nat, i: int, j: int)
    requires
        forall|k: int| 0 <= k < parts.len() ==> (#[trigger] parts[k]).len() == n,
    ensures
        parts.flatten().len() == parts.len() * n,
        0 <= i < parts.len() && 0 <= j < n ==> 0 <= i * n + j < parts.flatten().len()
            && parts.flatten()[i * n + j] == parts[i][j],
    decreases parts.len(),
{
    if parts.len() > 0 {
        let rest = parts.drop_first();
        assert forall|k: int| 0 <= k < rest.len() implies (#[trigger] rest[k]).len() == n by {
            assert(rest[k] == parts[k + 1]);
        }
        lemma_flatten_even(rest, n, i - 1, j);
        assert(parts.flatten() == parts.first() + rest.flatten());
        assert(parts[0].len() == n);
        assert(parts.len() * n == n + (parts.len() - 1) * n) by (nonlinear_arith)
            requires
                parts.len() > 0,
        ;
        if 0 <= i < parts.len() && 0 <= j < n {
            if i > 0 {
                assert(i * n + j == n + ((i - 1) * n + j)) by (nonlinear_arith);
                assert(rest[i - 1] == parts[i]);
                assert(parts.flatten()[n + ((i - 1) * n + j)] == rest.flatten()[(i - 1) * n + j]);
            } else {
                assert(i * n + j == j) by (nonlinear_arith)
                    requires
                        i == 0,
                ;
            }
        }
    } else {
        assert(parts.flatten().len() == 0);
        assert(parts.len() * n == 0) by (nonlinear_arith)
            requires
                parts.len() == 0,
        ;
    }
}

} // verus!
