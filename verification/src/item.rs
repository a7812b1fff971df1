//! Fitting one item into one line: the name field takes what quantity and
//! price leave of the width, and the name is padded or shortened to fill it
//! exactly.

use vstd::prelude::*;
use vstd::string::*;
use crate::error::{yields, LayoutError};
use crate::options::{ItemNameShorteningMode, OptionsView, ReceiptOptions, RoundingMode};
use crate::price::{format_price, price_text};
use crate::text::{decimal, push_decimal, push_run, run};

verus! {

/// One position of a receipt.
#[derive(Clone, Debug, PartialEq, Eq)]
pub struct Item {
    pub name: String,
    /// The price in minor units (cents).
    pub price: u32,
    /// How many pieces, where the item is counted.
    pub quantity: Option<u32>,
    /// The weight in grams, where the item is weighed. Where both are given,
    /// the weight is shown.
    pub quantity_grams: Option<u32>,
}

/// The mathematical content of an [`Item`]. The tax and total lines of a
/// receipt are items of this kind too, with amounts beyond any single price.
pub struct ItemView {
    pub name: Seq<char>,
    pub price: nat,
    pub quantity: Option<nat>,
    pub quantity_grams: Option<nat>,
}

/// An optional count as a natural number.
pub open spec fn count_view(count: Option<u32>) -> Option<nat> {
    match count {
        Some(n) => Some(n as nat),
        None => None,
    }
}

impl View for Item {
    type V = ItemView;

    open spec fn view(&self) -> ItemView {
        ItemView {
            name: self.name@,
            price: self.price as nat,
            quantity: count_view(self.quantity),
            quantity_grams: count_view(self.quantity_grams),
        }
    }
}

/// What stands between name and price. A weight comes before a count; a
/// count of one is left out where the options say so; an item with neither
/// gets the one space that parts name and price. The spaces around the
/// quantity belong to the text and count towards the line.
pub open spec fn quantity_text(item: ItemView, options: OptionsView) -> Seq<char> {
    match (item.quantity_grams, item.quantity) {
        (Some(grams), _) => seq![' '] + decimal(grams) + seq!['g', ' '],
        (None, Some(count)) => if options.show_single_item_quantity || count != 1 {
            seq![' '] + decimal(count) + seq![' ']
        } else {
            seq![' ']
        },
        (None, None) => seq![' '],
    }
}

/// The room that is left for the name in a line of `width` characters.
/// It is negative where price and quantity alone are too long.
pub open spec fn budget(width: nat, price: Seq<char>, quantity: Seq<char>) -> int {
    width - price.len() - quantity.len()
}

/// Whether the price of a line is formatted with rounding: always or never
/// where the options say so, and otherwise exactly where the name does not
/// fit beside the unrounded price. Rounding is tried once, before any
/// shortening, and never taken back.
pub open spec fn rounds_price(
    name: Seq<char>,
    price: nat,
    quantity: Seq<char>,
    options: OptionsView,
) -> bool {
    match options.rounding_mode {
        RoundingMode::Always => true,
        RoundingMode::Never => false,
        RoundingMode::IfNameTooLong => name.len() > budget(
            options.width,
            price_text(price, false, options),
            quantity,
        ),
    }
}

/// The price as it stands in the line.
pub open spec fn line_price(
    name: Seq<char>,
    price: nat,
    quantity: Seq<char>,
    options: OptionsView,
) -> Seq<char> {
    price_text(price, rounds_price(name, price, quantity, options), options)
}

/// The room for the name once the price has its final form.
pub open spec fn line_budget(
    name: Seq<char>,
    price: nat,
    quantity: Seq<char>,
    options: OptionsView,
) -> int {
    budget(options.width, line_price(name, price, quantity, options), quantity)
}

/// `name` followed by spaces up to `length` characters; a name that is as
/// long or longer stays as it is.
pub open spec fn padded(name: Seq<char>, length: nat) -> Seq<char> {
    if name.len() < length {
        name + run(' ', (length - name.len()) as nat)
    } else {
        name
    }
}

/// The name field of `room` characters. A name that fits is padded on the
/// right. A longer one is shortened as `mode` says: cut off at `room`, or
/// cut off at `room - 1` and closed with a dot, which needs room for the dot.
pub open spec fn name_field(name: Seq<char>, room: nat, mode: ItemNameShorteningMode) -> Result<
    Seq<char>,
    LayoutError,
> {
    if name.len() <= room {
        Ok(padded(name, room))
    } else {
        match mode {
            ItemNameShorteningMode::Trim => Ok(name.take(room as int)),
            ItemNameShorteningMode::TrimWithDot => if room >= 1 {
                Ok(name.take(room - 1).push('.'))
            } else {
                Err(LayoutError::LineOverflow)
            },
            ItemNameShorteningMode::SymmetricalDot => Err(LayoutError::UnsupportedShorteningMode),
        }
    }
}

/// The line for a name, a price and a quantity text: name field, quantity,
/// price. It fails on a width of zero, where quantity and price alone are
/// longer than the line, and where the name cannot be shortened. Where the
/// two fill the line exactly, the name field is empty: that is still a
/// line, unless the name needs a dot.
pub open spec fn fitted_line(
    name: Seq<char>,
    price: nat,
    quantity: Seq<char>,
    options: OptionsView,
) -> Result<Seq<char>, LayoutError> {
    let room = line_budget(name, price, quantity, options);
    if options.width == 0 {
        Err(LayoutError::Configuration)
    } else if room < 0 {
        Err(LayoutError::LineOverflow)
    } else {
        match name_field(name, room as nat, options.name_shortening_mode) {
            Ok(field) => Ok(field + quantity + line_price(name, price, quantity, options)),
            Err(error) => Err(error),
        }
    }
}

/// The line of an item.
pub open spec fn item_line(item: ItemView, options: OptionsView) -> Result<Seq<char>, LayoutError> {
    fitted_line(item.name, item.price, quantity_text(item, options), options)
}

/// Whether a name can fill a field of `room` characters: it fits, or the
/// mode knows how to shorten it to that length.
pub open spec fn fills(name: Seq<char>, room: nat, mode: ItemNameShorteningMode) -> bool {
    name.len() <= room || mode == ItemNameShorteningMode::Trim || (mode
        == ItemNameShorteningMode::TrimWithDot && room >= 1)
}

/// A line is exactly as wide as the options say, whenever quantity and
/// price leave room for a name field, once rounding has had its turn, and
/// the name can fill that field.
pub proof fn lemma_line_has_exact_width(item: ItemView, options: OptionsView)
    requires
        line_budget(item.name, item.price, quantity_text(item, options), options) >= 0,
        fills(
            item.name,
            line_budget(item.name, item.price, quantity_text(item, options), options) as nat,
            options.name_shortening_mode,
        ),
    ensures
        item_line(item, options) is Ok,
        item_line(item, options)->Ok_0.len() == options.width,
{
    // The quantity text holds at least its space, so the width is not zero.
}

/// No line is ever laid out at another width than the options say, and a
/// line is refused exactly where the width is zero, the room for the name
/// is negative, or the name cannot fill its field.
pub proof fn lemma_line_is_exact_or_refused(item: ItemView, options: OptionsView)
    ensures
        item_line(item, options) is Ok ==> item_line(item, options)->Ok_0.len() == options.width,
        item_line(item, options) is Ok <==> {
            let room = line_budget(item.name, item.price, quantity_text(item, options), options);
            options.width > 0 && room >= 0 && fills(
                item.name,
                room as nat,
                options.name_shortening_mode,
            )
        },
{
}

/// The room for a name beside `price` and `quantity`, or `None` where the
/// two alone are longer than the line.
pub fn max_name_length(options: &ReceiptOptions, price: &str, quantity: &str) -> (room: Option<
    usize,
>)
    ensures
        budget(options@.width, price@, quantity@) >= 0 ==> room == Some(
            budget(options@.width, price@, quantity@) as usize,
        ),
        budget(options@.width, price@, quantity@) < 0 ==> room is None,
{
    let price_length = price.unicode_len();
    let quantity_length = quantity.unicode_len();
    if price_length > options.width {
        return None;
    }
    let rest = options.width - price_length;
    if quantity_length > rest {
        return None;
    }
    Some(rest - quantity_length)
}

/// `name` filled up with spaces to `length` characters.
pub fn pad_name(name: &str, length: usize) -> (field: String)
    ensures
        field@ == padded(name@, length as nat),
{
    let name_length = name.unicode_len();
    let mut field = String::from_str(name);
    if name_length < length {
        push_run(&mut field, ' ', length - name_length);
    }
    field
}

/// Lays out one line: the name in its field, then `quantity`, then the
/// price. The price is rounded where the options ask for it, and the name
/// is padded or shortened so that the line is exactly as wide as the
/// options say.
pub fn fit_line(name: &str, price: u128, quantity: &str, options: &ReceiptOptions) -> (result:
    Result<String, LayoutError>)
    ensures
        yields(result, fitted_line(name@, price as nat, quantity@, options@)),
        result is Ok ==> result->Ok_0@.len() == options.width,
{
    if options.width == 0 {
        return Err(LayoutError::Configuration);
    }
    let name_length = name.unicode_len();
    let mut round_price = matches!(options.rounding_mode, RoundingMode::Always);
    let mut price_string = format_price(price, round_price, options);
    let mut room = max_name_length(options, price_string.as_str(), quantity);
    // The name does not fit, rounding has not been tried, and it is allowed.
    let too_long = match room {
        Some(length) => name_length > length,
        None => true,
    };
    if too_long && !round_price && !matches!(options.rounding_mode, RoundingMode::Never) {
        round_price = true;
        price_string = format_price(price, round_price, options);
        room = max_name_length(options, price_string.as_str(), quantity);
    }
    let length = match room {
        Some(length) => length,
        None => {
            return Err(LayoutError::LineOverflow);
        },
    };
    let mut line = if name_length > length {
        match options.name_shortening_mode {
            ItemNameShorteningMode::Trim => String::from_str(name.substring_char(0, length)),
            ItemNameShorteningMode::TrimWithDot => {
                if length == 0 {
                    return Err(LayoutError::LineOverflow);
                }
                let mut short = String::from_str(name.substring_char(0, length - 1));
                short.push('.');
                short
            },
            ItemNameShorteningMode::SymmetricalDot => {
                return Err(LayoutError::UnsupportedShorteningMode);
            },
        }
    } else {
        pad_name(name, length)
    };
    line.append(quantity);
    line.append(price_string.as_str());
    Ok(line)
}

impl Item {
    /// What stands between the name and the price of this item.
    pub fn quantity_string(&self, options: &ReceiptOptions) -> (text: String)
        ensures
            text@ == quantity_text(self@, options@),
    {
        let mut text = String::new();
        text.push(' ');
        match (self.quantity_grams, self.quantity) {
            (Some(grams), _) => {
                push_decimal(&mut text, grams as u128);
                text.push('g');
                text.push(' ');
            },
            (None, Some(count)) => {
                if options.show_single_item_quantity || count != 1 {
                    push_decimal(&mut text, count as u128);
                    text.push(' ');
                } else {
                }
            },
            (None, None) => {
            },
        }
        text
    }

    /// The line of this item, exactly as wide as the options say.
    pub fn format(&self, options: &ReceiptOptions) -> (result: Result<String, LayoutError>)
        ensures
            yields(result, item_line(self@, options@)),
            result is Ok ==> result->Ok_0@.len() == options.width,
    {
        let quantity = self.quantity_string(options);
        fit_line(self.name.as_str(), self.price as u128, quantity.as_str(), options)
    }
}

} // verus!
