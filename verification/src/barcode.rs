//! Barcodes as the device takes them: a system, the data, and how the bars
//! and the text under them are printed.

use vstd::prelude::*;
use vstd::string::*;

verus! {

/// The symbologies of one-dimensional barcodes.
#[derive(Clone, Copy, Debug, PartialEq, Eq, Structural)]
pub enum BarcodeSystem {
    UpcA,
    UpcE,
    Ean13,
    Ean8,
    Code39,
    /// Interleaved two of five.
    Itf,
    Codabar,
}

/// How wide the bars of a barcode are.
#[derive(Clone, Copy, Debug, PartialEq, Eq, Structural)]
pub enum BarcodeWidth {
    XS,
    S,
    M,
    L,
    XL,
}

/// How high the bars of a barcode are.
#[derive(Clone, Copy, Debug, PartialEq, Eq, Structural)]
pub enum BarcodeHeight {
    XS,
    S,
    M,
    L,
    XL,
}

/// The font of the text that repeats the data of a barcode.
#[derive(Clone, Copy, Debug, PartialEq, Eq, Structural)]
pub enum BarcodeFont {
    A,
    B,
    C,
    D,
    E,
}

/// Where the text that repeats the data of a barcode stands.
#[derive(Clone, Copy, Debug, PartialEq, Eq, Structural)]
pub enum BarcodePosition {
    Hidden,
    Above,
    Below,
    Both,
}

/// How a barcode is printed.
#[derive(Clone, Copy, Debug, PartialEq, Eq, Structural)]
pub struct BarcodeOption {
    pub width: BarcodeWidth,
    pub height: BarcodeHeight,
    pub font: BarcodeFont,
    pub position: BarcodePosition,
}

/// A barcode for the device. The layout hands it on as it is: whether the
/// data suits the system is for the device to say.
#[derive(Clone, Debug, PartialEq, Eq)]
pub struct Barcode {
    pub system: BarcodeSystem,
    pub data: String,
    pub option: BarcodeOption,
}

/// The mathematical content of a [`Barcode`].
pub struct BarcodeView {
    pub system: BarcodeSystem,
    pub data: Seq<char>,
    pub option: BarcodeOption,
}

impl View for Barcode {
    type V = BarcodeView;

    open spec fn view(&self) -> BarcodeView {
        BarcodeView { system: self.system, data: self.data@, option: self.option }
    }
}

} // verus!
