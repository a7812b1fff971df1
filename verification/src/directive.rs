//! What a receipt asks of a printing device, as plain values: the whole
//! sequence is computed before anything is sent.

use vstd::prelude::*;
use vstd::string::*;
use crate::barcode::{Barcode, BarcodeView};
use crate::text::{push_run, run};

verus! {

/// Where the device puts a line that is shorter than its paper.
#[derive(Clone, Copy, Debug, PartialEq, Eq, Structural)]
pub enum Justification {
    Left,
    Center,
    Right,
}

/// One request to the device.
#[derive(Clone, Debug, PartialEq, Eq)]
pub enum Directive {
    /// Set the justification of the lines that follow.
    Justify(Justification),
    /// Switch bold print on or off.
    Emphasis(bool),
    /// Print one line of text.
    Text(String),
    /// Draw a horizontal rule of so many characters.
    Rule(usize),
    /// Print the raster image that the reference names, scaled down to
    /// the given limits in dots where it is larger. Where the image is not
    /// `required`, a failure to print it is reported and the job goes on.
    Image { reference: String, max_width: Option<u32>, max_height: Option<u32>, required: bool },
    /// Print the raster image that the bytes encode.
    ImageBytes(Vec<u8>),
    /// Print a barcode.
    Barcode(Barcode),
    /// Feed so many empty lines.
    Feed(u8),
    /// Cut the paper.
    Cut,
    /// Send the bytes to the device as they are.
    Raw(Vec<u8>),
}

/// The mathematical content of a [`Directive`].
pub enum DirectiveView {
    Justify(Justification),
    Emphasis(bool),
    Text(Seq<char>),
    Rule(nat),
    Image { reference: Seq<char>, max_width: Option<u32>, max_height: Option<u32>, required: bool },
    ImageBytes(Seq<u8>),
    Barcode(BarcodeView),
    Feed(nat),
    Cut,
    Raw(Seq<u8>),
}

impl View for Directive {
    type V = DirectiveView;

    open spec fn view(&self) -> DirectiveView {
        match *self {
            Directive::Justify(mode) => DirectiveView::Justify(mode),
            Directive::Emphasis(on) => DirectiveView::Emphasis(on),
            Directive::Text(line) => DirectiveView::Text(line@),
            Directive::Rule(width) => DirectiveView::Rule(width as nat),
            Directive::Image { reference, max_width, max_height, required } => {
                DirectiveView::Image { reference: reference@, max_width, max_height, required }
            },
            Directive::ImageBytes(bytes) => DirectiveView::ImageBytes(bytes@),
            Directive::Barcode(barcode) => DirectiveView::Barcode(barcode@),
            Directive::Feed(lines) => DirectiveView::Feed(lines as nat),
            Directive::Cut => DirectiveView::Cut,
            Directive::Raw(bytes) => DirectiveView::Raw(bytes@),
        }
    }
}

impl DeepView for Directive {
    type V = DirectiveView;

    open spec fn deep_view(&self) -> DirectiveView {
        self@
    }
}

/// What one directive shows in plain text: a line of text and a rule are
/// one line each, a feed is its empty lines, and the rest shows nothing.
pub open spec fn shown(directive: DirectiveView) -> Seq<char> {
    match directive {
        DirectiveView::Text(line) => line.push('\n'),
        DirectiveView::Rule(width) => run('-', width).push('\n'),
        DirectiveView::Feed(lines) => run('\n', lines),
        _ => Seq::empty(),
    }
}

/// The plain text of a sequence of directives: what each shows, in order.
pub open spec fn plain_text(directives: Seq<DirectiveView>) -> Seq<char>
    decreases directives.len(),
{
    if directives.len() == 0 {
        Seq::empty()
    } else {
        plain_text(directives.drop_last()) + shown(directives.last())
    }
}

/// The command that moves the paper back by `n` motion units.
pub fn move_back(n: u8) -> (directive: Directive)
    ensures
        directive@ == DirectiveView::Raw(seq![0x1Bu8, 0x6Au8, n]),
{
    let mut command: Vec<u8> = Vec::new();
    command.push(0x1B);
    command.push(0x6A);
    command.push(n);
    assert(command@ =~= seq![0x1Bu8, 0x6Au8, n]);
    Directive::Raw(command)
}

/// Renders a directive sequence as plain text, for a preview, a log or a
/// terminal.
pub fn render_text(directives: &Vec<Directive>) -> (text: String)
    ensures
        text@ == plain_text(directives.deep_view()),
{
    let mut text = String::new();
    let mut done: usize = 0;
    while done < directives.len()
        invariant
            done <= directives.len(),
            text@ == plain_text(directives.deep_view().take(done as int)),
        decreases directives.len() - done,
    {
        match &directives[done] {
            Directive::Text(line) => {
                text.append(line.as_str());
                text.push('\n');
            },
            Directive::Rule(width) => {
                push_run(&mut text, '-', *width);
                text.push('\n');
            },
            Directive::Feed(lines) => {
                push_run(&mut text, '\n', *lines as usize);
            },
            _ => {},
        }
        proof {
            let all = directives.deep_view();
            assert(all.take(done + 1).drop_last() =~= all.take(done as int));
        }
        done += 1;
    }
    assert(directives.deep_view().take(done as int) =~= directives.deep_view());
    text
}

} // verus!
