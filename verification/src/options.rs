//! The display options that every line of a receipt is laid out with.

use vstd::prelude::*;
use vstd::string::*;
use crate::barcode::{Barcode, BarcodeView};

verus! {

/// When a price may drop its decimal digits to leave more room for a name.
#[derive(Clone, Copy, Debug, PartialEq, Eq, Structural)]
pub enum RoundingMode {
    /// Prices always keep two decimal digits.
    Never,
    /// A whole price drops its decimals only where the name would not fit.
    IfNameTooLong,
    /// A whole price never shows decimals.
    Always,
}

/// How a name that does not fit its field is shortened.
#[derive(Clone, Copy, Debug, PartialEq, Eq, Structural)]
pub enum ItemNameShorteningMode {
    /// Cut the name off at the end of the field.
    Trim,
    /// Cut the name off one character earlier and end it with a dot.
    TrimWithDot,
    /// Shorten every word alike. No algorithm is defined for this mode:
    /// a name that needs it is refused.
    SymmetricalDot,
}

/// Display options of a receipt. They are read by every line and never
/// changed while a receipt is rendered.
#[derive(Clone, Debug, PartialEq, Eq)]
pub struct ReceiptOptions {
    /// Characters per printed line; a usable configuration has at least one.
    pub width: usize,
    pub name_shortening_mode: ItemNameShorteningMode,
    /// `true` puts the amount before the currency symbol (`12.99$`).
    pub left_leaning_price: bool,
    pub rounding_mode: RoundingMode,
    /// Whether quantities are wanted at all. The quantity text goes by
    /// `show_single_item_quantity` alone.
    pub show_quantities: bool,
    /// Whether a quantity of exactly one is shown.
    pub show_single_item_quantity: bool,
    pub currency_symbol: String,
    /// Where the device finds the logo image; handed on as it is.
    pub logo_reference: Option<String>,
    /// The barcode under the totals; handed on as it is.
    pub barcode_reference: Option<Barcode>,
}

/// The mathematical content of a [`ReceiptOptions`].
pub struct OptionsView {
    pub width: nat,
    pub name_shortening_mode: ItemNameShorteningMode,
    pub left_leaning_price: bool,
    pub rounding_mode: RoundingMode,
    pub show_quantities: bool,
    pub show_single_item_quantity: bool,
    pub currency_symbol: Seq<char>,
    pub logo_reference: Option<Seq<char>>,
    pub barcode_reference: Option<BarcodeView>,
}

/// The characters of an optional text.
pub open spec fn text_view(text: Option<String>) -> Option<Seq<char>> {
    match text {
        Some(s) => Some(s@),
        None => None,
    }
}

/// The content of an optional barcode.
pub open spec fn barcode_view(barcode: Option<Barcode>) -> Option<BarcodeView> {
    match barcode {
        Some(b) => Some(b@),
        None => None,
    }
}

impl View for ReceiptOptions {
    type V = OptionsView;

    open spec fn view(&self) -> OptionsView {
        OptionsView {
            width: self.width as nat,
            name_shortening_mode: self.name_shortening_mode,
            left_leaning_price: self.left_leaning_price,
            rounding_mode: self.rounding_mode,
            show_quantities: self.show_quantities,
            show_single_item_quantity: self.show_single_item_quantity,
            currency_symbol: self.currency_symbol@,
            logo_reference: text_view(self.logo_reference),
            barcode_reference: barcode_view(self.barcode_reference),
        }
    }
}

/// The options of a 32-column printer: names are cut off plainly, whole
/// prices lose their decimals only under pressure, every quantity is shown,
/// the amount stands before a dollar sign, and there is neither logo nor
/// barcode.
pub open spec fn default_options() -> OptionsView {
    OptionsView {
        width: 32,
        name_shortening_mode: ItemNameShorteningMode::Trim,
        left_leaning_price: true,
        rounding_mode: RoundingMode::IfNameTooLong,
        show_quantities: true,
        show_single_item_quantity: true,
        currency_symbol: seq!['$'],
        logo_reference: None,
        barcode_reference: None,
    }
}

impl Default for ReceiptOptions {
    fn default() -> (options: Self)
        ensures
            options@ == default_options(),
    {
        proof {
            reveal_strlit("$");
        }
        let symbol = String::from_str("$");
        assert(symbol@ =~= seq!['$']);
        ReceiptOptions {
            width: 32,
            name_shortening_mode: ItemNameShorteningMode::Trim,
            left_leaning_price: true,
            rounding_mode: RoundingMode::IfNameTooLong,
            show_quantities: true,
            show_single_item_quantity: true,
            currency_symbol: symbol,
            logo_reference: None,
            barcode_reference: None,
        }
    }
}

impl ReceiptOptions {
    /// The default options at the line width that a printer reports.
    pub fn from_printer(characters_per_line: u8) -> (options: Self)
        ensures
            options@ == (OptionsView { width: characters_per_line as nat, ..default_options() }),
    {
        let mut options = ReceiptOptions::default();
        options.width = characters_per_line as usize;
        options
    }
}

} // verus!
