//! Procedural textures.
use vstd::prelude::*;

use crate::memory::buffer::Buffer;
use crate::memory::{law_raster_position, lemma_raster_extents, raster_at, Raster};

verus! {

/// The colour of cell `(x, y)` of a checkerboard: `even` where `x + y` is
/// even, `odd` elsewhere.
pub open spec fn board_colour<T>(x: int, y: int, even: T, odd: T) -> T {
    if (x + y) % 2 == 0 {
        even
    } else {
        odd
    }
}

proof fn lemma_cell_before_row(xx: int, yy: int, width: int, y: int)
    requires
        0 <= xx < width,
        0 <= yy < y,
    ensures
        0 <= xx + yy * width < y * width,
{
    assert(0 <= xx + yy * width < y * width) by (nonlinear_arith)
        requires
            0 <= xx < width,
            0 <= yy < y,
    ;
}

/// A `width` by `height` checkerboard of `even` and `odd` cells; the
/// fallback texture of the renderer is the 8 by 8 one.
pub fn checkerboard<T: Copy>(width: usize, height: usize, even: T, odd: T) -> (board: Raster<T>)
    requires
        width * height <= usize::MAX,
    ensures
        board.wf(),
        board.dims() == seq![width, height],
        forall|x: usize, y: usize|
            x < width && y < height ==> #[trigger] raster_at(board, x, y) == board_colour(
                x as int,
                y as int,
                even,
                odd,
            ),
{
    let mut items: std::vec::Vec<T> = std::vec::Vec::new();
    for y in 0..height
        invariant
            width * height <= usize::MAX,
            items@.len() == y * width,
            forall|yy: int, xx: int|
                0 <= yy < y && 0 <= xx < width ==> #[trigger] items@[xx + yy * width] == board_colour(
                    xx,
                    yy,
                    even,
                    odd,
                ),
    {
        for x in 0..width
            invariant
                y < height,
                items@.len() == y * width + x,
                forall|yy: int, xx: int|
                    0 <= yy < y && 0 <= xx < width ==> #[trigger] items@[xx + yy * width]
                        == board_colour(xx, yy, even, odd),
                forall|xx: int|
                    0 <= xx < x ==> #[trigger] items@[xx + y * width] == board_colour(
                        xx,
                        y as int,
                        even,
                        odd,
                    ),
        {
            proof {
                assert(y * width + x < height * width) by (nonlinear_arith)
                    requires
                        y < height,
                        x < width,
                ;
                assert(height * width == width * height) by (nonlinear_arith);
            }
            let cell = if x % 2 == y % 2 {
                even
            } else {
                odd
            };
            assert(cell == board_colour(x as int, y as int, even, odd));
            let ghost before = items@;
            items.push(cell);
            proof {
                assert forall|yy: int, xx: int|
                    0 <= yy < y && 0 <= xx < width implies #[trigger] items@[xx + yy * width]
                    == board_colour(xx, yy, even, odd) by {
                    lemma_cell_before_row(xx, yy, width as int, y as int);
                    assert(items@[xx + yy * width] == before[xx + yy * width]);
                }
                assert forall|xx: int| 0 <= xx < x + 1 implies #[trigger] items@[xx + y * width]
                    == board_colour(xx, y as int, even, odd) by {
                    if xx < x {
                        assert(items@[xx + y * width] == before[xx + y * width]);
                    }
                }
            }
        }
        proof {
            assert(y * width + width == (y + 1) * width) by (nonlinear_arith);
            assert forall|yy: int, xx: int|
                0 <= yy < y + 1 && 0 <= xx < width implies #[trigger] items@[xx + yy * width]
                == board_colour(xx, yy, even, odd) by {
                if yy == y {
                    assert(items@[xx + y * width] == board_colour(xx, y as int, even, odd));
                }
            }
        }
    }
    let size: [usize; 2] = [width, height];
    proof {
        lemma_raster_extents(size);
        assert(size@ =~= seq![width, height]);
        assert(height * width == width * height) by (nonlinear_arith);
    }
    let board = Buffer::from_parts(size, items);
    proof {
        assert forall|x: usize, y: usize| x < width && y < height implies #[trigger] raster_at(
            board,
            x,
            y,
        ) == board_colour(x as int, y as int, even, odd) by {
            law_raster_position(board, x, y);
            lemma_cell_before_row(x as int, y as int, width as int, height as int);
            assert(items@[x + y * width] == board_colour(x as int, y as int, even, odd));
        }
    }
    board
}

} // verus!
