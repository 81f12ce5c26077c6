//! The image that a render is written to.
//!
//! The image is the pixel buffer of the terminal renderer. What it holds is
//! known here only by two names, [`image_size`] and [`image_pixels`], and
//! what is said of them is taken on trust from the renderer's source.

use simple_term_renderer::img::{Color, Image};
use simple_term_renderer::math::Vec2;
use vstd::prelude::*;

verus! {

/// The renderer's image, which the library hands on without looking inside.
#[verifier::external_type_specification]
#[verifier::external_body]
pub struct ExImage(simple_term_renderer::img::Image);

/// The width and the height of an image, in pixels.
pub uninterp spec fn image_size(image: Image) -> (int, int);

/// The colour of each pixel of an image, as red, green and blue, under the
/// pixel's column and row.
pub uninterp spec fn image_pixels(image: Image) -> Map<(int, int), (u8, u8, u8)>;

/// Whether an image of this size has a pixel at every column and row within
/// its size: neither side is negative and the number of pixels fits `i32`.
pub open spec fn holds_its_pixels(size: (int, int)) -> bool {
    0 <= size.0 && 0 <= size.1 && size.0 * size.1 <= i32::MAX
}

/// Calls `Image::size`. Taken on trust: it returns the width and the height
/// of the image, which are what [`image_size`] names.
#[verifier::external_body]
fn size_of(target: &Image) -> (size: (i32, i32))
    ensures
        size.0 == image_size(*target).0,
        size.1 == image_size(*target).1,
{
    let size = target.size();
    (size.x, size.y)
}

/// Calls `Image::point` with the colour `Color::rgb(red, green, blue)`.
/// Taken on trust: for a pixel within the size of an image that holds its
/// pixels, it sets the colour of that pixel, leaves every other pixel and
/// the size as they are, and does not panic.
#[verifier::external_body]
fn set_pixel(target: &mut Image, column: i32, row: i32, red: u8, green: u8, blue: u8)
    requires
        holds_its_pixels(image_size(*old(target))),
        0 <= column < image_size(*old(target)).0,
        0 <= row < image_size(*old(target)).1,
    ensures
        image_size(*final(target)) == image_size(*old(target)),
        image_pixels(*final(target)) == image_pixels(*old(target)).insert(
            (column as int, row as int),
            (red, green, blue),
        ),
{
    target.point(Vec2::new(column, row), Color::rgb(red, green, blue));
}

/// Whether an image of size `size` has a pixel at `place`, a column and a row.
pub open spec fn within(size: (int, int), place: (int, int)) -> bool {
    0 <= place.0 < size.0 && 0 <= place.1 < size.1
}

/// Where the colour of the pixel at `place` stands in a list of colours that
/// goes through an image of width `width` row by row.
pub open spec fn place_in_rows(width: int, place: (int, int)) -> int {
    place.1 * width + place.0
}

/// The pixels of an image of size `size` that showed `before`, once the
/// first `count` of `colors` are written to it row by row.
pub open spec fn painted_so_far(
    before: Map<(int, int), (u8, u8, u8)>,
    size: (int, int),
    colors: Seq<(u8, u8, u8)>,
    count: int,
) -> Map<(int, int), (u8, u8, u8)> {
    Map::new(
        |place: (int, int)|
            before.contains_key(place) || (within(size, place) && place_in_rows(size.0, place)
                < count),
        |place: (int, int)|
            if within(size, place) && place_in_rows(size.0, place) < count {
                colors[place_in_rows(size.0, place)]
            } else {
                before[place]
            },
    )
}

/// The pixels of an image of size `size` that showed `before`, once `colors`
/// are written to it row by row, one for each pixel.
pub open spec fn painted(
    before: Map<(int, int), (u8, u8, u8)>,
    size: (int, int),
    colors: Seq<(u8, u8, u8)>,
) -> Map<(int, int), (u8, u8, u8)> {
    Map::new(
        |place: (int, int)| before.contains_key(place) || within(size, place),
        |place: (int, int)|
            if within(size, place) {
                colors[place_in_rows(size.0, place)]
            } else {
                before[place]
            },
    )
}

/// Going row by row, every pixel of an image has a place of its own among
/// as many places as the image has pixels.
pub proof fn lemma_place_in_rows(size: (int, int), place: (int, int), other: (int, int))
    requires
        within(size, place),
        within(size, other),
    ensures
        0 <= place_in_rows(size.0, place) < size.0 * size.1,
        place_in_rows(size.0, place) == place_in_rows(size.0, other) ==> place == other,
{
    assert(place.1 * size.0 + size.0 <= size.1 * size.0) by (nonlinear_arith)
        requires
            0 <= place.1 < size.1,
            0 < size.0,
    ;
    assert(0 <= place.1 * size.0) by (nonlinear_arith)
        requires
            0 <= place.1,
            0 < size.0,
    ;
    assert(size.1 * size.0 == size.0 * size.1) by (nonlinear_arith);
    if place_in_rows(size.0, place) == place_in_rows(size.0, other) {
        assert(place.1 == other.1) by (nonlinear_arith)
            requires
                place.1 * size.0 + place.0 == other.1 * size.0 + other.0,
                0 <= place.0 < size.0,
                0 <= other.0 < size.0,
        ;
    }
}

/// Writes `colors` to `target`, one for each pixel, row by row from the top
/// and each row from the left.
pub fn write_pixels(target: &mut Image, colors: &Vec<(u8, u8, u8)>)
    requires
        holds_its_pixels(image_size(*old(target))),
        colors@.len() == image_size(*old(target)).0 * image_size(*old(target)).1,
    ensures
        image_size(*final(target)) == image_size(*old(target)),
        image_pixels(*final(target)) == painted(
            image_pixels(*old(target)),
            image_size(*old(target)),
            colors@,
        ),
{
    let (width, height) = size_of(target);
    let ghost size = image_size(*target);
    let ghost before = image_pixels(*target);
    let mut written: usize = 0;
    let mut row: i32 = 0;
    assert(image_pixels(*target) =~= painted_so_far(before, size, colors@, 0)) by {
        assert forall|place: (int, int)| within(size, place) implies place_in_rows(size.0, place)
            >= 0 by {
            lemma_place_in_rows(size, place, place);
        }
    }
    while row < height
        invariant
            size == (width as int, height as int),
            holds_its_pixels(size),
            colors@.len() == size.0 * size.1,
            0 <= row <= height,
            written == row * width,
            image_size(*target) == size,
            image_pixels(*target) == painted_so_far(before, size, colors@, written as int),
        decreases height - row,
    {
        let mut column: i32 = 0;
        while column < width
            invariant
                size == (width as int, height as int),
                holds_its_pixels(size),
                colors@.len() == size.0 * size.1,
                0 <= row < height,
                0 <= column <= width,
                written == row * width + column,
                image_size(*target) == size,
                image_pixels(*target) == painted_so_far(before, size, colors@, written as int),
            decreases width - column,
        {
            proof {
                lemma_place_in_rows(size, (column as int, row as int), (column as int, row as int));
            }
            let (red, green, blue) = colors[written];
            let ghost earlier = image_pixels(*target);
            set_pixel(target, column, row, red, green, blue);
            proof {
                let here = (column as int, row as int);
                let now = earlier.insert(here, (red, green, blue));
                let next = painted_so_far(before, size, colors@, written + 1);
                assert(within(size, here) && place_in_rows(size.0, here) == written);
                assert forall|place: (int, int)| #[trigger]
                    now.contains_key(place) == next.contains_key(place) by {
                    if within(size, place) {
                        lemma_place_in_rows(size, place, here);
                    }
                }
                assert forall|place: (int, int)| #[trigger]
                    now.contains_key(place) implies now[place] == next[place] by {
                    if within(size, place) {
                        lemma_place_in_rows(size, place, here);
                    }
                }
                assert(now.dom() =~= next.dom());
                assert(now =~= next);
            }
            column = column + 1;
            written = written + 1;
        }
        assert(written == (row + 1) * width) by (nonlinear_arith)
            requires
                written == row * width + width,
        ;
        row = row + 1;
    }
    proof {
        assert(written == size.0 * size.1) by (nonlinear_arith)
            requires
                written == height * width,
                size == (width as int, height as int),
        ;
        assert forall|place: (int, int)| within(size, place) implies place_in_rows(size.0, place)
            < written by {
            lemma_place_in_rows(size, place, place);
        }
        assert(painted_so_far(before, size, colors@, written as int) =~= painted(
            before,
            size,
            colors@,
        ));
    }
}

/// Writes `colors` to `target` if there is one colour for each pixel, and
/// tells whether it did. An image that does not take them is left as it is.
pub fn try_write_pixels(target: &mut Image, colors: &Vec<(u8, u8, u8)>) -> (written: bool)
    ensures
        written == (holds_its_pixels(image_size(*old(target))) && colors@.len() == image_size(
            *old(target),
        ).0 * image_size(*old(target)).1),
        image_size(*final(target)) == image_size(*old(target)),
        image_pixels(*final(target)) == if written {
            painted(image_pixels(*old(target)), image_size(*old(target)), colors@)
        } else {
            image_pixels(*old(target))
        },
{
    let (width, height) = size_of(target);
    if width < 0 || height < 0 {
        return false;
    }
    assert(0 <= width * height <= 0x7fff_ffff * 0x7fff_ffff) by (nonlinear_arith)
        requires
            0 <= width <= 0x7fff_ffff,
            0 <= height <= 0x7fff_ffff,
    ;
    let pixels: u64 = (width as u64) * (height as u64);
    if pixels > 0x7fff_ffff || colors.len() as u64 != pixels {
        return false;
    }
    write_pixels(target, colors);
    true
}

} // verus!
