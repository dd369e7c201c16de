use vstd::prelude::*;

verus! {

/// Whether pixel `(x, y)` falls in a black tile of a checkerboard of square
/// tiles of side `tile_size` whose top-left tile is black.
pub open spec fn is_black_pixel(x: int, y: int, tile_size: int) -> bool {
    (x / tile_size + y / tile_size) % 2 == 0
}

/// The RGBA bytes of pixel `(x, y)`: opaque black on black tiles, opaque white elsewhere.
pub open spec fn checker_byte(x: int, y: int, channel: int, tile_size: int) -> u8 {
    if channel == 3 {
        255
    } else if is_black_pixel(x, y, tile_size) {
        0
    } else {
        255
    }
}

/// The checkerboard: its top-left pixel is black; pixels of one tile share
/// a color; moving one tile right or one tile down flips the color.
pub proof fn lemma_checkerboard(x: int, y: int, x2: int, y2: int, tile_size: int)
    requires
        tile_size > 0,
        0 <= x,
        0 <= y,
    ensures
        is_black_pixel(0, 0, tile_size),
        x / tile_size == x2 / tile_size && y / tile_size == y2 / tile_size ==> is_black_pixel(x, y, tile_size)
            == is_black_pixel(x2, y2, tile_size),
        is_black_pixel(x + tile_size, y, tile_size) != is_black_pixel(x, y, tile_size),
        is_black_pixel(x, y + tile_size, tile_size) != is_black_pixel(x, y, tile_size),
{
    lemma_next_tile(x, tile_size);
    lemma_next_tile(y, tile_size);
    assert(0int / tile_size == 0) by (nonlinear_arith)
        requires
            tile_size > 0,
    ;
}

/// One tile further along, the tile index is one more.
proof fn lemma_next_tile(v: int, tile_size: int)
    requires
        tile_size > 0,
        0 <= v,
    ensures
        (v + tile_size) / tile_size == v / tile_size + 1,
{
    vstd::arithmetic::div_mod::lemma_div_plus_one(v, tile_size);
}

/// Every pixel is opaque and grey: its color channels are equal, 0 on a
/// black tile and 255 on a white one.
pub proof fn lemma_checker_bytes(x: int, y: int, tile_size: int)
    ensures
        checker_byte(x, y, 3, tile_size) == 255,
        checker_byte(x, y, 0, tile_size) == checker_byte(x, y, 1, tile_size),
        checker_byte(x, y, 1, tile_size) == checker_byte(x, y, 2, tile_size),
        checker_byte(x, y, 0, tile_size) == (if is_black_pixel(x, y, tile_size) { 0u8 } else { 255u8 }),
{
}

/// RGBA pixels, row by row, of a `width` by `height` checkerboard of
/// `tile_size` square tiles, black first.
pub fn create_checker_texture(width: usize, height: usize, tile_size: usize) -> (r: Vec<u8>)
    requires
        width > 0 && height > 0 ==> tile_size > 0,
        width * height * 4 <= usize::MAX,
    ensures
        r@.len() == width * height * 4,
        forall|y: int, x: int, c: int|
            0 <= y < height && 0 <= x < width && 0 <= c < 4 ==> #[trigger] r@[(y * width + x) * 4 + c]
                == checker_byte(x, y, c, tile_size as int),        width > 0 && height > 0 ==> r@[0] == 0u8 && r@[3] == 255u8,
        forall|y: int, x: int, c: int|
            0 <= y && y + tile_size < height && 0 <= x < width && 0 <= c < 3 ==> #[trigger] r@[(y * width + x)
                * 4 + c] != #[trigger] r@[((y + tile_size) * width + x) * 4 + c],
        forall|y: int, x: int, c: int|
            0 <= y < height && 0 <= x && x + tile_size < width && 0 <= c < 3 ==> #[trigger] r@[(y * width + x)
                * 4 + c] != #[trigger] r@[(y * width + (x + tile_size)) * 4 + c],
{
    let total = width * height * 4;
    let mut texture_data: Vec<u8> = Vec::new();
    let mut n: usize = 0;
    while n < total
        invariant
            n <= total,
            texture_data@.len() == n,
            forall|k: int| 0 <= k < n ==> texture_data@[k] == 0u8,
        decreases total - n,
    {
        texture_data.push(0u8);
        n = n + 1;
    }
    let mut y: usize = 0;
    while y < height
        invariant
            y <= height,
            width > 0 && height > 0 ==> tile_size > 0,
            total == width * height * 4,
            texture_data@.len() == total,
            forall|yy: int, x: int, c: int|
                0 <= yy < y && 0 <= x < width && 0 <= c < 4 ==> #[trigger] texture_data@[(yy * width + x) * 4 + c]
                    == checker_byte(x, yy, c, tile_size as int),
        decreases height - y,
    {
        let mut x: usize = 0;
        while x < width
            invariant
                y < height,
                x <= width,
                width > 0 && height > 0 ==> tile_size > 0,
                total == width * height * 4,
                texture_data@.len() == total,
                forall|yy: int, xx: int, c: int|
                    0 <= yy < y && 0 <= xx < width && 0 <= c < 4 ==> #[trigger] texture_data@[(yy * width + xx) * 4 + c]
                        == checker_byte(xx, yy, c, tile_size as int),
                forall|xx: int, c: int|
                    0 <= xx < x && 0 <= c < 4 ==> #[trigger] texture_data@[(y * width + xx) * 4 + c]
                        == checker_byte(xx, y as int, c, tile_size as int),
            decreases width - x,
        {
            proof {
                lemma_pixel_offset(width as int, height as int, x as int, y as int);
            }
            let tile_x = x / tile_size;
            let tile_y = y / tile_size;
            proof {
                assert(tile_x <= x && tile_y <= y) by (nonlinear_arith)
                    requires
                        tile_x == x / tile_size,
                        tile_y == y / tile_size,
                        tile_size > 0,
                ;
                assert(x + y <= width * height * 4) by (nonlinear_arith)
                    requires
                        x < width,
                        y < height,
                ;
            }
            let is_black = (tile_x + tile_y) % 2 == 0;
            let offset = (y * width + x) * 4;
            let ghost before = texture_data@;
            if is_black {
                texture_data.set(offset, 0);
                texture_data.set(offset + 1, 0);
                texture_data.set(offset + 2, 0);
                texture_data.set(offset + 3, 255);
            } else {
                texture_data.set(offset, 255);
                texture_data.set(offset + 1, 255);
                texture_data.set(offset + 2, 255);
                texture_data.set(offset + 3, 255);
            }
            proof {
                assert forall|yy: int, xx: int, c: int|
                    0 <= yy < y && 0 <= xx < width && 0 <= c < 4 implies #[trigger] texture_data@[(yy * width + xx) * 4 + c]
                        == checker_byte(xx, yy, c, tile_size as int) by {
                    lemma_pixel_offset(width as int, height as int, xx, yy);
                    lemma_pixels_apart(width as int, xx, yy, x as int, y as int, c);
                    assert(before[(yy * width + xx) * 4 + c] == checker_byte(xx, yy, c, tile_size as int));
                }
                assert forall|xx: int, c: int|
                    0 <= xx <= x && 0 <= c < 4 implies #[trigger] texture_data@[(y * width + xx) * 4 + c]
                        == checker_byte(xx, y as int, c, tile_size as int) by {
                    if xx < x {
                        lemma_pixel_offset(width as int, height as int, xx, y as int);
                        lemma_pixels_apart(width as int, xx, y as int, x as int, y as int, c);
                        assert(before[(y * width + xx) * 4 + c] == checker_byte(xx, y as int, c, tile_size as int));
                    }
                }
            }
            x = x + 1;
        }
        y = y + 1;
    }
    proof {
        if width > 0 && height > 0 {
            assert(texture_data@[(0 * width + 0) * 4 + 0] == checker_byte(0, 0, 0, tile_size as int));
            assert(texture_data@[(0 * width + 0) * 4 + 3] == checker_byte(0, 0, 3, tile_size as int));
            lemma_checkerboard(0, 0, 0, 0, tile_size as int);
        }
        assert forall|yy: int, xx: int, c: int|
            0 <= yy && yy + tile_size < height && 0 <= xx < width && 0 <= c < 3 implies #[trigger] texture_data@[(yy
                * width + xx) * 4 + c] != #[trigger] texture_data@[((yy + tile_size) * width + xx) * 4 + c] by {
            lemma_checkerboard(xx, yy, xx, yy, tile_size as int);
        }
        assert forall|yy: int, xx: int, c: int|
            0 <= yy < height && 0 <= xx && xx + tile_size < width && 0 <= c < 3 implies #[trigger] texture_data@[(yy
                * width + xx) * 4 + c] != #[trigger] texture_data@[(yy * width + (xx + tile_size)) * 4 + c] by {
            lemma_checkerboard(xx, yy, xx, yy, tile_size as int);
        }
    }
    texture_data
}

/// The bytes of pixel `(x, y)` lie within the `width` by `height` image.
proof fn lemma_pixel_offset(width: int, height: int, x: int, y: int)
    requires
        0 <= x < width,
        0 <= y < height,
    ensures
        0 <= (y * width + x) * 4,
        (y * width + x) * 4 + 4 <= width * height * 4,
{
    assert(y * width + x < width * height) by (nonlinear_arith)
        requires
            0 <= x < width,
            0 <= y < height,
    ;
    assert(0 <= y * width) by (nonlinear_arith)
        requires
            0 <= y,
            0 <= width,
    ;
}

/// Two different pixels do not share a byte.
proof fn lemma_pixels_apart(width: int, x1: int, y1: int, x2: int, y2: int, c: int)
    requires
        0 <= x1 < width,
        0 <= x2 < width,
        0 <= y1,
        0 <= y2,
        0 <= c < 4,
        x1 != x2 || y1 != y2,
    ensures
        (y1 * width + x1) * 4 + c != (y2 * width + x2) * 4,
        (y1 * width + x1) * 4 + c != (y2 * width + x2) * 4 + 1,
        (y1 * width + x1) * 4 + c != (y2 * width + x2) * 4 + 2,
        (y1 * width + x1) * 4 + c != (y2 * width + x2) * 4 + 3,
{
    assert(y1 * width + x1 != y2 * width + x2) by (nonlinear_arith)
        requires
            0 <= x1 < width,
            0 <= x2 < width,
            x1 != x2 || y1 != y2,
    ;
}

} // verus!
