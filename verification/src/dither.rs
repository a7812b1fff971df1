//! Preparing a picture for the print head: ImageMagick turns it into a
//! dithered one-bit bitmap, which then goes to the device. What is to be
//! run and what is to be sent is decided here; running and sending is the
//! caller's part.

use vstd::prelude::*;
use vstd::string::*;
use crate::directive::{Directive, DirectiveView};

verus! {

/// What it takes to print a dithered picture: a program to run first, and
/// the directives to send once it has succeeded.
#[derive(Clone, Debug, PartialEq, Eq)]
pub struct DitherJob {
    pub program: String,
    pub arguments: Vec<String>,
    pub directives: Vec<Directive>,
}

/// The tallest dithered picture, in dots.
pub const DITHER_MAX_HEIGHT: u32 = 128000;

/// Where the dithered bitmap is written.
pub open spec fn dither_target() -> Seq<char> {
    "/tmp/dithered.bmp"@
}

/// The arguments that make ImageMagick read `source`, put it on white,
/// scale it to the 384 dots of the print head, brighten it, soften its
/// contrast, dither it to black and white, and write it to `target`.
pub open spec fn dither_arguments(source: Seq<char>, target: Seq<char>) -> Seq<Seq<char>> {
    seq![
        source,
        "-background"@,
        "white"@,
        "-alpha"@,
        "remove"@,
        "-resize"@,
        "384x"@,
        "-modulate"@,
        "115"@,
        "-level"@,
        "5%,95%"@,
        "-dither"@,
        "FloydSteinberg"@,
        "-remap"@,
        "pattern:gray50"@,
        "-depth"@,
        "1"@,
        target,
    ]
}

/// The directives that print the dithered bitmap and feed one line.
pub open spec fn dither_directives() -> Seq<DirectiveView> {
    seq![
        DirectiveView::Image {
            reference: dither_target(),
            max_width: None,
            max_height: Some(DITHER_MAX_HEIGHT),
            required: true,
        },
        DirectiveView::Feed(1),
    ]
}

/// The job that prints the picture at `img_path`, dithered.
pub fn image_with_dither(img_path: &str) -> (job: DitherJob)
    ensures
        job.program@ == "convert"@,
        job.arguments.deep_view() == dither_arguments(img_path@, dither_target()),
        job.directives.deep_view() == dither_directives(),
{
    let target = "/tmp/dithered.bmp";
    let mut arguments: Vec<String> = Vec::new();
    arguments.push(String::from_str(img_path));
    arguments.push(String::from_str("-background"));
    arguments.push(String::from_str("white"));
    arguments.push(String::from_str("-alpha"));
    arguments.push(String::from_str("remove"));
    arguments.push(String::from_str("-resize"));
    arguments.push(String::from_str("384x"));
    arguments.push(String::from_str("-modulate"));
    arguments.push(String::from_str("115"));
    arguments.push(String::from_str("-level"));
    arguments.push(String::from_str("5%,95%"));
    arguments.push(String::from_str("-dither"));
    arguments.push(String::from_str("FloydSteinberg"));
    arguments.push(String::from_str("-remap"));
    arguments.push(String::from_str("pattern:gray50"));
    arguments.push(String::from_str("-depth"));
    arguments.push(String::from_str("1"));
    arguments.push(String::from_str(target));
    let mut directives: Vec<Directive> = Vec::new();
    directives.push(
        Directive::Image {
            reference: String::from_str(target),
            max_width: None,
            max_height: Some(DITHER_MAX_HEIGHT),
            required: true,
        },
    );
    directives.push(Directive::Feed(1));
    DitherJob { program: String::from_str("convert"), arguments, directives }
}

} // verus!
