//! Prices as text: an amount in minor units, shown in whole units with two
//! decimal digits or none, beside the currency symbol.

use vstd::prelude::*;
use vstd::string::*;
use crate::options::{OptionsView, ReceiptOptions};
use crate::text::{
    decimal, digit, digit_char, is_digit, is_numeral, lemma_decimal_is_numeral, push_decimal,
};

verus! {

/// Whether an amount is shown without decimal digits: only on request, and
/// only where it is a whole number of units.
pub open spec fn shown_whole(price: nat, round: bool) -> bool {
    round && price % 100 == 0
}

/// The two digits that show the hundredths of `price`.
pub open spec fn cents_text(price: nat) -> Seq<char> {
    seq![digit_char((price % 100) / 10), digit_char(price % 10)]
}

/// The amount of `price` minor units in whole units. One unit is a hundred
/// minor units, so two decimal digits show every amount exactly and no
/// rounding rule is ever needed.
pub open spec fn amount_text(price: nat, round: bool) -> Seq<char> {
    if shown_whole(price, round) {
        decimal(price / 100)
    } else {
        decimal(price / 100).push('.') + cents_text(price)
    }
}

/// The amount beside the currency symbol, on the side that the options name.
pub open spec fn price_text(price: nat, round: bool, options: OptionsView) -> Seq<char> {
    if options.left_leaning_price {
        amount_text(price, round) + options.currency_symbol
    } else {
        options.currency_symbol + amount_text(price, round)
    }
}

/// Whether `text` shows an amount with exactly `places` decimal digits: a
/// numeral, and for `places > 0` a point and `places` digits after it.
pub open spec fn has_decimal_places(text: Seq<char>, places: nat) -> bool {
    if places == 0 {
        is_numeral(text)
    } else {
        let point = text.len() - places - 1;
        &&& point > 0
        &&& text[point] == '.'
        &&& is_numeral(text.take(point))
        &&& is_numeral(text.skip(point + 1))
    }
}

/// A price text without its currency symbol.
pub open spec fn without_symbol(text: Seq<char>, options: OptionsView) -> Seq<char> {
    if options.left_leaning_price {
        text.take(text.len() - options.currency_symbol.len())
    } else {
        text.skip(options.currency_symbol.len() as int)
    }
}

/// Without rounding, every price is shown with exactly two digits after
/// the decimal point.
pub proof fn lemma_unrounded_price_has_two_decimals(price: nat, options: OptionsView)
    ensures
        has_decimal_places(without_symbol(price_text(price, false, options), options), 2),
{
    lemma_amount_with_cents(price, false);
    lemma_without_symbol(price, false, options);
}

/// With rounding, a price is shown without decimal digits if and only if
/// it is a whole number of units; every other price keeps two.
pub proof fn lemma_rounded_price_decimals(price: nat, options: OptionsView)
    ensures
        has_decimal_places(without_symbol(price_text(price, true, options), options), 0)
            <==> price % 100 == 0,
        price % 100 != 0 ==> has_decimal_places(
            without_symbol(price_text(price, true, options), options),
            2,
        ),
{
    lemma_without_symbol(price, true, options);
    if price % 100 == 0 {
        lemma_decimal_is_numeral(price / 100);
    } else {
        lemma_amount_with_cents(price, true);
        let text = amount_text(price, true);
        let point = text.len() - 3;
    }
}

/// Taking the symbol off a price text leaves the amount.
proof fn lemma_without_symbol(price: nat, round: bool, options: OptionsView)
    ensures
        without_symbol(price_text(price, round, options), options) == amount_text(price, round),
{
    let amount = amount_text(price, round);
    let symbol = options.currency_symbol;
    if options.left_leaning_price {
    } else {
    }
}

proof fn lemma_amount_with_cents(price: nat, round: bool)
    requires
        !shown_whole(price, round),
    ensures
        has_decimal_places(amount_text(price, round), 2),
{
    let whole = decimal(price / 100);
    let text = amount_text(price, round);
    lemma_decimal_is_numeral(price / 100);
}

fn push_amount(out: &mut String, price: u128, round: bool)
    ensures
        final(out)@ == old(out)@ + amount_text(price as nat, round),
{
    push_decimal(out, price / 100);
    if !(round && price % 100 == 0) {
        out.push('.');
        out.push(digit(((price % 100) / 10) as u8));
        out.push(digit((price % 10) as u8));
    }
}

/// Shows `price` minor units as text with the currency symbol of `options`.
/// With `round`, a whole amount is shown without decimal digits.
pub fn format_price(price: u128, round: bool, options: &ReceiptOptions) -> (text: String)
    ensures
        text@ == price_text(price as nat, round, options@),
{
    let mut text = String::new();
    if options.left_leaning_price {
        push_amount(&mut text, price, round);
        text.append(options.currency_symbol.as_str());
    } else {
        text.append(options.currency_symbol.as_str());
        push_amount(&mut text, price, round);
    }
    text
}

} // verus!
