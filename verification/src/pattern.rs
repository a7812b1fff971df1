//! The striped test pattern: vertical bars of eight dots, alternately black
//! and white, sent to the device in slices of a few rows as bitmap files.

use vstd::prelude::*;
use crate::directive::{Directive, DirectiveView};

verus! {

/// The image type of the `bmp` crate. Nothing inside it is visible here;
/// [`image_rows`] names what it holds.
#[verifier::external_type_specification]
#[verifier::external_body]
pub struct ExImage(bmp::Image);

/// The pixels of an image as red, green and blue, row by row from the top
/// and from left to right within a row.
pub uninterp spec fn image_rows(image: bmp::Image) -> Seq<Seq<(u8, u8, u8)>>;

/// Whether an image is as `bmp::Image::new` makes one, but for the colours
/// of its pixels: everything else that goes into its file follows from its
/// width and height.
pub uninterp spec fn is_canvas(image: bmp::Image) -> bool;

/// The bytes of the bitmap file that the `bmp` crate writes for a canvas of
/// these rows, or `None` where it reports an error.
pub uninterp spec fn bmp_file(rows: Seq<Seq<(u8, u8, u8)>>) -> Option<Seq<u8>>;

/// Dots across the pattern: the width of the print head.
pub const PATTERN_WIDTH: u32 = 384;

/// Rows that go to the device in one slice.
pub const SLICE_HEIGHT: u32 = 24;

/// Rows of the whole pattern.
pub const PATTERN_HEIGHT: u32 = 12;

/// The largest width and height of an image that is built here.
pub const MAX_IMAGE_SIDE: u32 = 4096;

/// `bmp::Image::new`: an image of the given width and height, black all
/// over. The sides are bounded so that the crate's size arithmetic, done in
/// 32 bits, stays in range.
#[verifier::external_body]
fn new_image(width: u32, height: u32) -> (image: bmp::Image)
    requires
        width <= MAX_IMAGE_SIDE,
        height <= MAX_IMAGE_SIDE,
    ensures
        is_canvas(image),
        image_rows(image) == Seq::new(
            height as nat,
            |y: int| Seq::new(width as nat, |x: int| (0u8, 0u8, 0u8)),
        ),
{
    bmp::Image::new(width, height)
}

/// `bmp::Image::set_pixel` with a pixel made by `bmp::Pixel::new`: the pixel
/// in column `x` of row `y`, counted from the top, takes the given colour,
/// and nothing else changes. The position must lie inside the image.
#[verifier::external_body]
fn set_image_pixel(image: &mut bmp::Image, x: u32, y: u32, color: (u8, u8, u8))
    requires
        is_canvas(*old(image)),
        y < image_rows(*old(image)).len(),
        x < image_rows(*old(image))[y as int].len(),
    ensures
        is_canvas(*final(image)),
        image_rows(*final(image)) == image_rows(*old(image)).update(
            y as int,
            image_rows(*old(image))[y as int].update(x as int, color),
        ),
{
    image.set_pixel(x, y, bmp::Pixel::new(color.0, color.1, color.2));
}

/// `bmp::Image::to_writer` into an empty byte vector: the bitmap file of a
/// canvas, which depends on its rows alone, or `None` where the crate
/// reports an error. The canvas has at least one row, so that its rows
/// show its width.
#[verifier::external_body]
fn encode_image(image: &bmp::Image) -> (bytes: Option<Vec<u8>>)
    requires
        is_canvas(*image),
        image_rows(*image).len() > 0,
    ensures
        match bmp_file(image_rows(*image)) {
            Some(file) => bytes is Some && bytes->0@ == file,
            None => bytes is None,
        },
{
    let mut bytes: Vec<u8> = Vec::new();
    match image.to_writer(&mut bytes) {
        Ok(()) => Some(bytes),
        Err(_) => None,
    }
}

/// The colour of the pattern in column `x`: bars of eight columns, black
/// first, then white, and so on.
pub open spec fn stripe(x: nat) -> (u8, u8, u8) {
    if (x / 8) % 2 == 0 {
        (0u8, 0u8, 0u8)
    } else {
        (255u8, 255u8, 255u8)
    }
}

/// The rows of a striped image: every row shows the same bars.
pub open spec fn stripes(width: nat, height: nat) -> Seq<Seq<(u8, u8, u8)>> {
    Seq::new(height, |y: int| Seq::new(width, |x: int| stripe(x as nat)))
}

/// The rows of the slice that begins at row `offset` of a pattern of
/// `total` rows: a full slice, or what is left of the pattern.
pub open spec fn slice_rows(slice_height: nat, total: nat, offset: nat) -> nat {
    if total - offset < slice_height {
        (total - offset) as nat
    } else {
        slice_height
    }
}

/// The bitmap files of the slices of a striped pattern from row `offset`
/// on, or `None` where one of them cannot be written.
pub open spec fn pattern_files(width: nat, slice_height: nat, total: nat, offset: nat) -> Option<
    Seq<Seq<u8>>,
>
    decreases total - offset,
{
    if offset >= total || slice_height == 0 {
        Some(Seq::empty())
    } else {
        let rows = slice_rows(slice_height, total, offset);
        match bmp_file(stripes(width, rows)) {
            None => None,
            Some(file) => match pattern_files(width, slice_height, total, offset + rows) {
                None => None,
                Some(rest) => Some(seq![file] + rest),
            },
        }
    }
}

/// What the device is sent for the given bitmap files: one image each, in
/// order, and then the command byte `0x18`.
pub open spec fn pattern_sequence(files: Seq<Seq<u8>>) -> Seq<DirectiveView> {
    Seq::new(files.len(), |k: int| DirectiveView::ImageBytes(files[k])).push(
        DirectiveView::Raw(seq![0x18u8]),
    )
}

/// The deep view of a byte vector is its bytes.
proof fn lemma_bytes_view(bytes: Vec<u8>)
    ensures
        bytes.deep_view() == bytes@,
{
}

/// The colour of the pattern in column `x`.
pub fn stripe_color(x: u32) -> (color: (u8, u8, u8))
    ensures
        color == stripe(x as nat),
{
    if (x / 8) % 2 == 0 {
        (0, 0, 0)
    } else {
        (255, 255, 255)
    }
}

/// A striped image of the given size.
fn striped_image(width: u32, height: u32) -> (image: bmp::Image)
    requires
        width <= MAX_IMAGE_SIDE,
        height <= MAX_IMAGE_SIDE,
    ensures
        is_canvas(image),
        image_rows(image) == stripes(width as nat, height as nat),
{
    let mut image = new_image(width, height);
    let mut y: u32 = 0;
    while y < height
        invariant
            y <= height,
            is_canvas(image),
            image_rows(image).len() == height,
            forall|r: int| 0 <= r < height ==> (#[trigger] image_rows(image)[r]).len() == width,
            forall|r: int, c: int|
                0 <= r < y && 0 <= c < width ==> #[trigger] image_rows(image)[r][c] == stripe(
                    c as nat,
                ),
        decreases height - y,
    {
        let mut x: u32 = 0;
        while x < width
            invariant
                y < height,
                x <= width,
                is_canvas(image),
                image_rows(image).len() == height,
                forall|r: int| 0 <= r < height ==> (#[trigger] image_rows(image)[r]).len() == width,
                forall|r: int, c: int|
                    0 <= r < y && 0 <= c < width ==> #[trigger] image_rows(image)[r][c] == stripe(
                        c as nat,
                    ),
                forall|c: int|
                    0 <= c < x ==> #[trigger] image_rows(image)[y as int][c] == stripe(c as nat),
            decreases width - x,
        {
            let color = stripe_color(x);
            set_image_pixel(&mut image, x, y, color);
            x += 1;
        }
        y += 1;
    }
    assert(image_rows(image) =~~= stripes(width as nat, height as nat));
    image
}

/// The bitmap files of a striped pattern of `total` rows, cut into slices
/// of `slice_height` rows from the top; the last slice holds what is left.
fn striped_slices(width: u32, slice_height: u32, total: u32) -> (files: Option<Vec<Vec<u8>>>)
    requires
        width <= MAX_IMAGE_SIDE,
        0 < slice_height <= MAX_IMAGE_SIDE,
    ensures
        match pattern_files(width as nat, slice_height as nat, total as nat, 0) {
            Some(expected) => files is Some && files->0.deep_view() == expected,
            None => files is None,
        },
{
    let mut files: Vec<Vec<u8>> = Vec::new();
    let mut offset: u32 = 0;
    while offset < total
        invariant
            offset <= total,
            width <= MAX_IMAGE_SIDE,
            0 < slice_height <= MAX_IMAGE_SIDE,
            pattern_files(width as nat, slice_height as nat, total as nat, 0) == (
            match pattern_files(width as nat, slice_height as nat, total as nat, offset as nat) {
                Some(rest) => Some(files.deep_view() + rest),
                None => None,
            }),
        decreases total - offset,
    {
        let rows = if total - offset < slice_height {
            total - offset
        } else {
            slice_height
        };
        let image = striped_image(width, rows);
        let ghost before = files.deep_view();
        match encode_image(&image) {
            Some(file) => {
                files.push(file);
                proof {
                    lemma_bytes_view(file);
                    assert(files.deep_view() =~= before.push(file@));
                }
            },
            None => {
                return None;
            },
        }
        offset = offset + rows;
    }
    Some(files)
}

/// Wraps bitmap files into what the device is sent: one image directive
/// each, in order, and then the command byte `0x18`.
pub fn pattern_directives(files: &Vec<Vec<u8>>) -> (directives: Vec<Directive>)
    ensures
        directives.deep_view() == pattern_sequence(files.deep_view()),
{
    let mut directives: Vec<Directive> = Vec::new();
    let mut done: usize = 0;
    while done < files.len()
        invariant
            done <= files.len(),
            directives.len() == done,
            forall|k: int|
                0 <= k < done ==> #[trigger] directives@[k]@ == DirectiveView::ImageBytes(
                    files@[k]@,
                ),
        decreases files.len() - done,
    {
        directives.push(Directive::ImageBytes(files[done].clone()));
        done += 1;
    }
    let mut command: Vec<u8> = Vec::new();
    command.push(0x18);
    directives.push(Directive::Raw(command));
    proof {
        assert forall|k: int| 0 <= k < files.len() implies #[trigger] files.deep_view()[k]
            == files@[k]@ by {
            lemma_bytes_view(files@[k]);
        }
    }
    directives
}

/// The striped test pattern as directives: its slices as bitmap images,
/// then the command byte `0x18`. The pattern is lower than one slice, so it
/// is a single image of its full width and height. `None` where the image
/// cannot be written as a bitmap file.
pub fn print_test_pattern_line_by_line() -> (result: Option<Vec<Directive>>)
    ensures
        match bmp_file(stripes(PATTERN_WIDTH as nat, PATTERN_HEIGHT as nat)) {
            Some(file) => result is Some && result->0.deep_view() == seq![
                DirectiveView::ImageBytes(file),
                DirectiveView::Raw(seq![0x18u8]),
            ],
            None => result is None,
        },
{
    proof {
        // One slice holds the whole pattern.
        reveal_with_fuel(pattern_files, 3);
    }
    match striped_slices(PATTERN_WIDTH, SLICE_HEIGHT, PATTERN_HEIGHT) {
        Some(files) => Some(pattern_directives(&files)),
        None => None,
    }
}

} // verus!
