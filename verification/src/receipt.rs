//! A whole receipt: centred header, one line per item, tax and total as
//! lines of the same kind, and a centred footer.

use vstd::prelude::*;
use vstd::string::*;
use crate::barcode::Barcode;
use crate::directive::{plain_text, render_text, Directive, DirectiveView, Justification};
use crate::error::{yields, LayoutError};
use crate::item::{fit_line, item_line, lemma_line_is_exact_or_refused, Item, ItemView};
use crate::options::{OptionsView, ReceiptOptions};
use crate::text::{center_string, centered, decimal, push_decimal};

verus! {

/// A receipt as the caller hands it over. Rendering reads it and changes
/// nothing.
#[derive(Clone, Debug, PartialEq, Eq)]
pub struct Receipt {
    pub business_name: String,
    pub address: String,
    pub contact_info: String,
    /// The items in the order in which they are shown.
    pub items: Vec<Item>,
    /// The tax rate in percent; a usable receipt has at most one hundred.
    pub tax_percent: u32,
    pub footer: String,
    pub options: ReceiptOptions,
}

/// The mathematical content of a [`Receipt`].
pub struct ReceiptView {
    pub business_name: Seq<char>,
    pub address: Seq<char>,
    pub contact_info: Seq<char>,
    pub items: Seq<ItemView>,
    pub tax_percent: nat,
    pub footer: Seq<char>,
    pub options: OptionsView,
}

impl View for Receipt {
    type V = ReceiptView;

    open spec fn view(&self) -> ReceiptView {
        ReceiptView {
            business_name: self.business_name@,
            address: self.address@,
            contact_info: self.contact_info@,
            items: Seq::new(self.items@.len(), |i: int| self.items@[i]@),
            tax_percent: self.tax_percent as nat,
            footer: self.footer@,
            options: self.options@,
        }
    }
}

/// The sums of a receipt, in minor units.
#[derive(Clone, Copy, Debug, PartialEq, Eq, Structural)]
pub struct Totals {
    /// The sum of the item prices.
    pub subtotal: u128,
    /// The tax on the subtotal, rounded down.
    pub tax: u128,
    /// Subtotal and tax together.
    pub total: u128,
}

/// The sum of the prices of `items`.
pub open spec fn subtotal(items: Seq<ItemView>) -> nat
    decreases items.len(),
{
    if items.len() == 0 {
        0
    } else {
        subtotal(items.drop_last()) + items.last().price
    }
}

/// The tax on the subtotal: so many hundredths of it, rounded down to a
/// whole minor unit.
pub open spec fn tax_amount(receipt: ReceiptView) -> nat {
    subtotal(receipt.items) * receipt.tax_percent / 100
}

/// What the customer pays: subtotal and tax.
pub open spec fn grand_total(receipt: ReceiptView) -> nat {
    subtotal(receipt.items) + tax_amount(receipt)
}

/// Whether a receipt can be rendered at all: its lines have a width, and
/// its tax rate is a percentage.
pub open spec fn configuration_ok(receipt: ReceiptView) -> bool {
    receipt.options.width > 0 && receipt.tax_percent <= 100
}

/// Whether header and footer are no longer than the line.
pub open spec fn headers_fit(receipt: ReceiptView) -> bool {
    &&& receipt.business_name.len() <= receipt.options.width
    &&& receipt.address.len() <= receipt.options.width
    &&& receipt.contact_info.len() <= receipt.options.width
    &&& receipt.footer.len() <= receipt.options.width
}

/// The tax as an item, so that its line is laid out like the others.
pub open spec fn tax_item(receipt: ReceiptView) -> ItemView {
    ItemView {
        name: "Tax ("@ + decimal(receipt.tax_percent) + "%)"@,
        price: tax_amount(receipt),
        quantity: None,
        quantity_grams: None,
    }
}

/// The grand total as an item.
pub open spec fn total_item(receipt: ReceiptView) -> ItemView {
    ItemView { name: "Total"@, price: grand_total(receipt), quantity: None, quantity_grams: None }
}

/// One text directive per item, in order; the error of the first item
/// whose line cannot be laid out.
pub open spec fn item_directives(items: Seq<ItemView>, options: OptionsView) -> Result<
    Seq<DirectiveView>,
    LayoutError,
>
    decreases items.len(),
{
    if items.len() == 0 {
        Ok(Seq::empty())
    } else {
        match item_directives(items.drop_last(), options) {
            Err(error) => Err(error),
            Ok(before) => match item_line(items.last(), options) {
                Err(error) => Err(error),
                Ok(line) => Ok(before.push(DirectiveView::Text(line))),
            },
        }
    }
}

/// The widest logo, in dots.
pub const LOGO_MAX_WIDTH: u32 = 384;

/// The tallest logo, in dots.
pub const LOGO_MAX_HEIGHT: u32 = 120;

/// The directive for the logo: it is kept within its limits, and a
/// receipt is printed even where its logo cannot be.
pub open spec fn logo_image(reference: Seq<char>) -> DirectiveView {
    DirectiveView::Image {
        reference,
        max_width: Some(LOGO_MAX_WIDTH),
        max_height: Some(LOGO_MAX_HEIGHT),
        required: false,
    }
}

/// What comes before the items: centred bold print, the logo where one is
/// configured, the three header lines, and a rule.
pub open spec fn opening(receipt: ReceiptView) -> Seq<DirectiveView> {
    let width = receipt.options.width;
    seq![DirectiveView::Justify(Justification::Center), DirectiveView::Emphasis(true)] + (
    match receipt.options.logo_reference {
        Some(logo) => seq![logo_image(logo)],
        None => Seq::empty(),
    }) + seq![
        DirectiveView::Text(centered(receipt.business_name, width)),
        DirectiveView::Text(centered(receipt.address, width)),
        DirectiveView::Text(centered(receipt.contact_info, width)),
        DirectiveView::Emphasis(false),
        DirectiveView::Rule(width),
    ]
}

/// What comes after the items: a rule, tax and total in bold, one empty
/// line, the barcode where one is configured, and the footer.
pub open spec fn closing(receipt: ReceiptView, tax: Seq<char>, total: Seq<char>) -> Seq<
    DirectiveView,
> {
    let width = receipt.options.width;
    seq![
        DirectiveView::Rule(width),
        DirectiveView::Emphasis(true),
        DirectiveView::Text(tax),
        DirectiveView::Text(total),
        DirectiveView::Feed(1),
        DirectiveView::Emphasis(false),
    ] + (match receipt.options.barcode_reference {
        Some(barcode) => seq![DirectiveView::Barcode(barcode)],
        None => Seq::empty(),
    }) + seq![DirectiveView::Text(centered(receipt.footer, width))]
}

/// The directives of a receipt, or why it cannot be rendered. The
/// configuration is checked first, then header and footer, then the lines
/// from top to bottom: the items, the tax, the total.
pub open spec fn receipt_directives(receipt: ReceiptView) -> Result<
    Seq<DirectiveView>,
    LayoutError,
> {
    if !configuration_ok(receipt) {
        Err(LayoutError::Configuration)
    } else if !headers_fit(receipt) {
        Err(LayoutError::HeaderOverflow)
    } else {
        match item_directives(receipt.items, receipt.options) {
            Err(error) => Err(error),
            Ok(body) => match item_line(tax_item(receipt), receipt.options) {
                Err(error) => Err(error),
                Ok(tax) => match item_line(total_item(receipt), receipt.options) {
                    Err(error) => Err(error),
                    Ok(total) => Ok(opening(receipt) + body + closing(receipt, tax, total)),
                },
            },
        }
    }
}

/// The plain text of a receipt, or why it cannot be rendered.
pub open spec fn receipt_text(receipt: ReceiptView) -> Result<Seq<char>, LayoutError> {
    match receipt_directives(receipt) {
        Ok(directives) => Ok(plain_text(directives)),
        Err(error) => Err(error),
    }
}

/// Whether a computed directive sequence is the outcome that a receipt
/// prescribes: the same directives, or the same error.
pub open spec fn issues(
    result: Result<Vec<Directive>, LayoutError>,
    outcome: Result<Seq<DirectiveView>, LayoutError>,
) -> bool {
    match outcome {
        Ok(directives) => result is Ok && result->Ok_0.deep_view() == directives,
        Err(error) => result == Err::<Vec<Directive>, LayoutError>(error),
    }
}

/// Rendering as text is repeatable: whatever two renderings of receipts
/// with the same content return is the same, character for character, or
/// the same error.
pub proof fn lemma_text_is_repeatable(
    first: Receipt,
    second: Receipt,
    first_text: Result<String, LayoutError>,
    second_text: Result<String, LayoutError>,
)
    requires
        first@ == second@,
        yields(first_text, receipt_text(first@)),
        yields(second_text, receipt_text(second@)),
    ensures
        first_text is Ok <==> second_text is Ok,
        first_text is Ok ==> first_text->Ok_0@ == second_text->Ok_0@,
        first_text is Err ==> first_text == second_text,
{
}

/// Rendering as directives is repeatable: whatever two renderings of
/// receipts with the same content return is the same, directive for
/// directive, or the same error.
pub proof fn lemma_directives_are_repeatable(
    first: Receipt,
    second: Receipt,
    first_directives: Result<Vec<Directive>, LayoutError>,
    second_directives: Result<Vec<Directive>, LayoutError>,
)
    requires
        first@ == second@,
        issues(first_directives, receipt_directives(first@)),
        issues(second_directives, receipt_directives(second@)),
    ensures
        first_directives is Ok <==> second_directives is Ok,
        first_directives is Ok ==> first_directives->Ok_0.deep_view()
            == second_directives->Ok_0.deep_view(),
        first_directives is Err ==> first_directives == second_directives,
{
}

/// The items of a receipt give one text directive each, in their order,
/// exactly where every one of their lines can be laid out.
pub proof fn lemma_item_directives_in_order(items: Seq<ItemView>, options: OptionsView)
    ensures
        item_directives(items, options) is Ok <==> forall|i: int|
            0 <= i < items.len() ==> (#[trigger] item_line(items[i], options)) is Ok,
        item_directives(items, options) is Ok ==> {
            let body = item_directives(items, options)->Ok_0;
            &&& body.len() == items.len()
            &&& forall|i: int|
                0 <= i < items.len() ==> #[trigger] body[i] == DirectiveView::Text(
                    item_line(items[i], options)->Ok_0,
                )
        },
    decreases items.len(),
{
    if items.len() > 0 {
        let before = items.drop_last();
        lemma_item_directives_in_order(before, options);
        assert forall|i: int| 0 <= i < before.len() implies before[i] == items[i] by {}
        if item_directives(items, options) is Ok {
            assert forall|i: int| 0 <= i < items.len() implies (#[trigger] item_line(
                items[i],
                options,
            )) is Ok by {
                if i < before.len() {
                }
            }
        }
        if forall|i: int| 0 <= i < items.len() ==> (#[trigger] item_line(items[i], options)) is Ok {
            assert forall|i: int| 0 <= i < before.len() implies (#[trigger] item_line(
                before[i],
                options,
            )) is Ok by {
            }
        }
    }
}

impl Receipt {
    /// Subtotal, tax and total, in whole minor units throughout.
    pub fn totals(&self) -> (result: Result<Totals, LayoutError>)
        ensures
            !configuration_ok(self@) ==> result == Err::<Totals, LayoutError>(
                LayoutError::Configuration,
            ),
            configuration_ok(self@) ==> result is Ok && result->Ok_0.subtotal == subtotal(
                self@.items,
            ) && result->Ok_0.tax == tax_amount(self@) && result->Ok_0.total == grand_total(self@),
    {
        if self.options.width == 0 || self.tax_percent > 100 {
            return Err(LayoutError::Configuration);
        }
        let ghost items = self@.items;
        let mut sum: u128 = 0;
        let mut done: usize = 0;
        while done < self.items.len()
            invariant
                done <= self.items.len(),
                items == self@.items,
                sum == subtotal(items.take(done as int)),
                sum <= done * u32::MAX,
            decreases self.items.len() - done,
        {
            proof {
                assert(items.take(done + 1).drop_last() =~= items.take(done as int));
                // So many prices of 32 bits stay far below 128 bits.
                assert((done + 1) * u32::MAX == done * u32::MAX + u32::MAX) by (nonlinear_arith);
                assert(done * u32::MAX <= u64::MAX * u32::MAX) by (nonlinear_arith)
                    requires
                        done <= u64::MAX,
                ;
            }
            sum = sum + self.items[done].price as u128;
            done += 1;
        }
        proof {
            assert(items.take(done as int) =~= items);
            assert(done * u32::MAX <= u64::MAX * u32::MAX) by (nonlinear_arith)
                requires
                    done <= u64::MAX,
            ;
            assert(sum * self.tax_percent <= sum * 100) by (nonlinear_arith)
                requires
                    self.tax_percent <= 100,
                    sum >= 0,
            ;
        }
        let tax = sum * (self.tax_percent as u128) / 100;
        Ok(Totals { subtotal: sum, tax, total: sum + tax })
    }

    /// The three header lines and the footer, each centred.
    fn header_lines(&self) -> (result: Result<(String, String, String, String), LayoutError>)
        ensures
            !headers_fit(self@) ==> result == Err::<(String, String, String, String), LayoutError>(
                LayoutError::HeaderOverflow,
            ),
            headers_fit(self@) ==> result is Ok && {
                let lines = result->Ok_0;
                let width = self@.options.width;
                &&& lines.0@ == centered(self@.business_name, width)
                &&& lines.1@ == centered(self@.address, width)
                &&& lines.2@ == centered(self@.contact_info, width)
                &&& lines.3@ == centered(self@.footer, width)
            },
    {
        let width = self.options.width;
        let business_name = match center_string(self.business_name.as_str(), width) {
            Ok(line) => line,
            Err(error) => {
                return Err(error);
            },
        };
        let address = match center_string(self.address.as_str(), width) {
            Ok(line) => line,
            Err(error) => {
                return Err(error);
            },
        };
        let contact_info = match center_string(self.contact_info.as_str(), width) {
            Ok(line) => line,
            Err(error) => {
                return Err(error);
            },
        };
        let footer = match center_string(self.footer.as_str(), width) {
            Ok(line) => line,
            Err(error) => {
                return Err(error);
            },
        };
        Ok((business_name, address, contact_info, footer))
    }

    /// The directives that come before the items.
    fn opening_directives(
        &self,
        business_name: String,
        address: String,
        contact_info: String,
    ) -> (out: Vec<Directive>)
        requires
            business_name@ == centered(self@.business_name, self@.options.width),
            address@ == centered(self@.address, self@.options.width),
            contact_info@ == centered(self@.contact_info, self@.options.width),
        ensures
            out.deep_view() == opening(self@),
    {
        let mut out: Vec<Directive> = Vec::new();
        out.push(Directive::Justify(Justification::Center));
        out.push(Directive::Emphasis(true));
        if let Some(logo) = &self.options.logo_reference {
            out.push(
                Directive::Image {
                    reference: logo.clone(),
                    max_width: Some(LOGO_MAX_WIDTH),
                    max_height: Some(LOGO_MAX_HEIGHT),
                    required: false,
                },
            );
        }
        out.push(Directive::Text(business_name));
        out.push(Directive::Text(address));
        out.push(Directive::Text(contact_info));
        out.push(Directive::Emphasis(false));
        out.push(Directive::Rule(self.options.width));
        out
    }

    /// Appends one text directive per item, or stops at the first item
    /// whose line cannot be laid out.
    fn push_items(&self, out: &mut Vec<Directive>) -> (result: Result<(), LayoutError>)
        ensures
            match item_directives(self@.items, self@.options) {
                Ok(body) => result is Ok && final(out).deep_view() == old(out).deep_view() + body,
                Err(error) => result == Err::<(), LayoutError>(error),
            },
    {
        let ghost items = self@.items;
        let mut done: usize = 0;
        while done < self.items.len()
            invariant
                done <= self.items.len(),
                items == self@.items,
                item_directives(items.take(done as int), self@.options) is Ok,
                out.deep_view() == old(out).deep_view() + item_directives(
                    items.take(done as int),
                    self@.options,
                )->Ok_0,
            decreases self.items.len() - done,
        {
            proof {
                assert(items.take(done + 1).drop_last() =~= items.take(done as int));
            }
            let ghost before = out.deep_view();
            match self.items[done].format(&self.options) {
                Ok(line) => {
                    out.push(Directive::Text(line));
                    assert(out.deep_view() =~= before.push(DirectiveView::Text(line@)));
                },
                Err(error) => {
                    proof {
                        lemma_item_directives_fail(items, done as int, self@.options);
                    }
                    return Err(error);
                },
            }
            done += 1;
        }
        assert(items.take(done as int) =~= items);
        Ok(())
    }

    /// The lines of tax and total.
    fn summary_lines(&self, totals: Totals) -> (result: Result<(String, String), LayoutError>)
        requires
            totals.tax == tax_amount(self@),
            totals.total == grand_total(self@),
        ensures
            match item_line(tax_item(self@), self@.options) {
                Err(error) => result == Err::<(String, String), LayoutError>(error),
                Ok(tax) => match item_line(total_item(self@), self@.options) {
                    Err(error) => result == Err::<(String, String), LayoutError>(error),
                    Ok(total) => result is Ok && result->Ok_0.0@ == tax && result->Ok_0.1@ == total,
                },
            },
    {
        let mut tax_name = String::from_str("Tax (");
        push_decimal(&mut tax_name, self.tax_percent as u128);
        tax_name.append("%)");
        proof {
            reveal_strlit(" ");
        }
        let tax = match fit_line(tax_name.as_str(), totals.tax, " ", &self.options) {
            Ok(line) => line,
            Err(error) => {
                return Err(error);
            },
        };
        let total = match fit_line("Total", totals.total, " ", &self.options) {
            Ok(line) => line,
            Err(error) => {
                return Err(error);
            },
        };
        Ok((tax, total))
    }

    /// Appends the directives that come after the items.
    fn push_closing(&self, out: &mut Vec<Directive>, tax: String, total: String, footer: String)
        requires
            footer@ == centered(self@.footer, self@.options.width),
        ensures
            final(out).deep_view() == old(out).deep_view() + closing(self@, tax@, total@),
    {
        out.push(Directive::Rule(self.options.width));
        out.push(Directive::Emphasis(true));
        out.push(Directive::Text(tax));
        out.push(Directive::Text(total));
        out.push(Directive::Feed(1));
        out.push(Directive::Emphasis(false));
        if let Some(barcode) = &self.options.barcode_reference {
            out.push(
                Directive::Barcode(
                    Barcode {
                        system: barcode.system,
                        data: barcode.data.clone(),
                        option: barcode.option,
                    },
                ),
            );
        }
        out.push(Directive::Text(footer));
    }

    /// The receipt as a sequence of directives for a printing device.
    /// Every line is laid out before the first directive is handed over, so
    /// a receipt is printed whole or not at all.
    pub fn write(&self) -> (result: Result<Vec<Directive>, LayoutError>)
        ensures
            issues(result, receipt_directives(self@)),
    {
        let totals = match self.totals() {
            Ok(totals) => totals,
            Err(error) => {
                return Err(error);
            },
        };
        let (business_name, address, contact_info, footer) = match self.header_lines() {
            Ok(lines) => lines,
            Err(error) => {
                return Err(error);
            },
        };
        let mut out = self.opening_directives(business_name, address, contact_info);
        match self.push_items(&mut out) {
            Ok(()) => {},
            Err(error) => {
                return Err(error);
            },
        }
        let (tax, total) = match self.summary_lines(totals) {
            Ok(lines) => lines,
            Err(error) => {
                return Err(error);
            },
        };
        self.push_closing(&mut out, tax, total, footer);
        Ok(out)
    }

    /// The receipt as plain text, one line after the other.
    pub fn to_text(&self) -> (result: Result<String, LayoutError>)
        ensures
            yields(result, receipt_text(self@)),
    {
        match self.write() {
            Ok(directives) => Ok(render_text(&directives)),
            Err(error) => Err(error),
        }
    }
}

/// Every line of text of a receipt, from the header to the footer, is
/// exactly as wide as the options say.
pub proof fn lemma_receipt_lines_have_exact_width(receipt: ReceiptView)
    requires
        receipt_directives(receipt) is Ok,
    ensures
        forall|i: int|
            0 <= i < receipt_directives(receipt)->Ok_0.len() ==> (
            #[trigger] receipt_directives(receipt)->Ok_0[i] matches DirectiveView::Text(line)
                ==> line.len() == receipt.options.width),
{
    let options = receipt.options;
    let directives = receipt_directives(receipt)->Ok_0;
    let head = opening(receipt);
    let body = item_directives(receipt.items, options)->Ok_0;
    let tax = item_line(tax_item(receipt), options)->Ok_0;
    let total = item_line(total_item(receipt), options)->Ok_0;
    let tail = closing(receipt, tax, total);
    lemma_item_directives_in_order(receipt.items, options);
    lemma_line_is_exact_or_refused(tax_item(receipt), options);
    lemma_line_is_exact_or_refused(total_item(receipt), options);
    assert forall|i: int| 0 <= i < directives.len() implies (
    #[trigger] directives[i] matches DirectiveView::Text(line) ==> line.len()
        == options.width) by {
        if i < head.len() {
            assert(directives[i] == head[i]);
        } else if i < head.len() + body.len() {
            let k = i - head.len();
            assert(directives[i] == body[k]);
            lemma_line_is_exact_or_refused(receipt.items[k], options);
        } else {
            assert(directives[i] == tail[i - head.len() - body.len()]);
        }
    }
}

/// Where the line of one item fails, and those of the items before it do
/// not, the items give its error.
pub proof fn lemma_first_failing_item_decides(
    items: Seq<ItemView>,
    first: int,
    options: OptionsView,
)
    requires
        0 <= first < items.len(),
        forall|i: int| 0 <= i < first ==> (#[trigger] item_line(items[i], options)) is Ok,
        item_line(items[first], options) is Err,
    ensures
        item_directives(items, options) == Err::<Seq<DirectiveView>, LayoutError>(
            item_line(items[first], options)->Err_0,
        ),
{
    let before = items.take(first);
    lemma_item_directives_in_order(before, options);
    assert forall|i: int| 0 <= i < before.len() implies (#[trigger] item_line(
        before[i],
        options,
    )) is Ok by {
    }
    lemma_item_directives_fail(items, first, options);
}

/// Where the directives of the first items are known and the line of the
/// next one fails, the directives of all items fail with its error.
proof fn lemma_item_directives_fail(items: Seq<ItemView>, first: int, options: OptionsView)
    requires
        0 <= first < items.len(),
        item_directives(items.take(first), options) is Ok,
        item_line(items[first], options) is Err,
    ensures
        item_directives(items, options) == Err::<Seq<DirectiveView>, LayoutError>(
            item_line(items[first], options)->Err_0,
        ),
    decreases items.len(),
{
    if first == items.len() - 1 {
    } else {
        assert(items.drop_last().take(first) =~= items.take(first));
        lemma_item_directives_fail(items.drop_last(), first, options);
    }
}

} // verus!
