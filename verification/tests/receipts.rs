use thermal_receipt::barcode::{
    Barcode, BarcodeFont, BarcodeHeight, BarcodeOption, BarcodePosition, BarcodeSystem,
    BarcodeWidth,
};
use thermal_receipt::directive::{move_back, render_text, Directive, Justification};
use thermal_receipt::error::LayoutError;
use thermal_receipt::item::Item;
use thermal_receipt::options::{ItemNameShorteningMode, ReceiptOptions, RoundingMode};
use thermal_receipt::receipt::{Receipt, Totals};

fn item(name: &str, price: u32, quantity: Option<u32>, quantity_grams: Option<u32>) -> Item {
    Item { name: name.to_string(), price, quantity, quantity_grams }
}

fn priced(prices: &[u32], tax_percent: u32) -> Receipt {
    Receipt {
        business_name: String::new(),
        address: String::new(),
        contact_info: String::new(),
        items: prices.iter().map(|&price| item("item", price, None, None)).collect(),
        tax_percent,
        footer: String::new(),
        options: ReceiptOptions::default(),
    }
}

fn barcode(system: BarcodeSystem, data: &str) -> Barcode {
    Barcode {
        system,
        data: data.to_string(),
        option: BarcodeOption {
            width: BarcodeWidth::M,
            height: BarcodeHeight::XS,
            font: BarcodeFont::A,
            position: BarcodePosition::Hidden,
        },
    }
}

fn shop() -> Receipt {
    Receipt {
        business_name: "HOME INC.".to_string(),
        address: "1 Grove Street, San Andreas".to_string(),
        contact_info: "343-6629-2525".to_string(),
        items: vec![
            item("Uranium-238", 213700, None, Some(100)),
            item("AK-47 Assault Rifle", 100000, Some(1), None),
            item("Qwertyuiopasdfghjklzxcvbnm", 9999, Some(1), None),
            item("Fortnite Card", 1900, Some(1), None),
            item("Deltarune 67", 6700, Some(1), None),
            item("doohickey", 1000, None, Some(1)),
        ],
        tax_percent: 12,
        footer: "Thank you for shopping!".to_string(),
        options: ReceiptOptions {
            name_shortening_mode: ItemNameShorteningMode::TrimWithDot,
            left_leaning_price: false,
            logo_reference: Some("assets/rust.png".to_string()),
            barcode_reference: Some(barcode(BarcodeSystem::Itf, "1234567890")),
            ..ReceiptOptions::default()
        },
    }
}

fn text(line: &str) -> Directive {
    Directive::Text(line.to_string())
}

#[test]
fn totals_use_integers_only() {
    let receipt = priced(&[2500000, 5000, 1600, 1600, 2137], 23);
    assert_eq!(
        receipt.totals(),
        Ok(Totals { subtotal: 2510337, tax: 577377, total: 3087714 })
    );
}

#[test]
fn tax_is_rounded_down() {
    assert_eq!(priced(&[199], 50).totals(), Ok(Totals { subtotal: 199, tax: 99, total: 298 }));
    assert_eq!(priced(&[1], 99).totals(), Ok(Totals { subtotal: 1, tax: 0, total: 1 }));
    assert_eq!(priced(&[100], 0).totals(), Ok(Totals { subtotal: 100, tax: 0, total: 100 }));
    assert_eq!(priced(&[123], 100).totals(), Ok(Totals { subtotal: 123, tax: 123, total: 246 }));
    assert_eq!(priced(&[], 23).totals(), Ok(Totals { subtotal: 0, tax: 0, total: 0 }));
}

#[test]
fn totals_do_not_drift_over_many_items() {
    let prices = vec![4294967295u32; 5000];
    let subtotal = 4294967295u128 * 5000;
    let tax = subtotal * 23 / 100;
    assert_eq!(
        priced(&prices, 23).totals(),
        Ok(Totals { subtotal: 21474836475000, tax: 4939212389250, total: 26414048864250 })
    );
    assert_eq!(tax, 4939212389250);
    // Many small items: the tax is taken on the sum, not item by item.
    let cents = vec![1u32; 10001];
    assert_eq!(priced(&cents, 33).totals(), Ok(Totals { subtotal: 10001, tax: 3300, total: 13301 }));
}

#[test]
fn configuration_is_checked() {
    assert_eq!(priced(&[100], 101).totals(), Err(LayoutError::Configuration));
    assert_eq!(priced(&[100], 101).write(), Err(LayoutError::Configuration));
    assert_eq!(priced(&[100], 101).to_text(), Err(LayoutError::Configuration));
    let mut receipt = priced(&[100], 10);
    receipt.options.width = 0;
    assert_eq!(receipt.totals(), Err(LayoutError::Configuration));
    assert_eq!(receipt.write(), Err(LayoutError::Configuration));
    assert_eq!(receipt.to_text(), Err(LayoutError::Configuration));
    assert!(priced(&[100], 100).write().is_ok());
}

#[test]
fn receipt_becomes_directives_in_order() {
    let expected = vec![
        Directive::Justify(Justification::Center),
        Directive::Emphasis(true),
        Directive::Image {
            reference: "assets/rust.png".to_string(),
            max_width: Some(384),
            max_height: Some(120),
            required: false,
        },
        text("           HOME INC.            "),
        text("  1 Grove Street, San Andreas   "),
        text("         343-6629-2525          "),
        Directive::Emphasis(false),
        Directive::Rule(32),
        text("Uranium-238        100g $2137.00"),
        text("AK-47 Assault Rifle   1 $1000.00"),
        text("Qwertyuiopasdfghjklzxc. 1 $99.99"),
        text("Fortnite Card           1 $19.00"),
        text("Deltarune 67            1 $67.00"),
        text("doohickey              1g $10.00"),
        Directive::Rule(32),
        Directive::Emphasis(true),
        text("Tax (12%)                $399.95"),
        text("Total                   $3732.94"),
        Directive::Feed(1),
        Directive::Emphasis(false),
        Directive::Barcode(barcode(BarcodeSystem::Itf, "1234567890")),
        text("    Thank you for shopping!     "),
    ];
    assert_eq!(shop().write(), Ok(expected));
}

#[test]
fn receipt_becomes_plain_text() {
    let expected = "\
\x20          HOME INC.            \n\
\x20 1 Grove Street, San Andreas   \n\
\x20        343-6629-2525          \n\
--------------------------------\n\
Uranium-238        100g $2137.00\n\
AK-47 Assault Rifle   1 $1000.00\n\
Qwertyuiopasdfghjklzxc. 1 $99.99\n\
Fortnite Card           1 $19.00\n\
Deltarune 67            1 $67.00\n\
doohickey              1g $10.00\n\
--------------------------------\n\
Tax (12%)                $399.95\n\
Total                   $3732.94\n\
\n\
\x20   Thank you for shopping!     \n";
    assert_eq!(shop().to_text(), Ok(expected.to_string()));
}

#[test]
fn receipt_without_logo_and_barcode() {
    let mut receipt = shop();
    receipt.options.logo_reference = None;
    receipt.options.barcode_reference = None;
    let directives = receipt.write().unwrap();
    assert_eq!(directives.len(), 20);
    assert!(directives
        .iter()
        .all(|d| !matches!(d, Directive::Image { .. } | Directive::Barcode(_))));
    assert_eq!(directives[2], text("           HOME INC.            "));
    assert_eq!(directives[19], text("    Thank you for shopping!     "));
    // Logo and barcode show nothing in plain text.
    assert_eq!(receipt.to_text(), shop().to_text());
}

#[test]
fn every_receipt_line_has_the_configured_width() {
    for width in [24usize, 32, 42, 48] {
        let mut receipt = shop();
        receipt.address = "1 Grove Street".to_string();
        receipt.footer = "Thank you!".to_string();
        receipt.options.width = width;
        let rendered = receipt.to_text().unwrap();
        for line in rendered.lines().filter(|line| !line.is_empty()) {
            assert_eq!(line.chars().count(), width, "line {line:?}");
        }
        assert_eq!(rendered.lines().count(), 15);
    }
}

#[test]
fn rendering_twice_gives_the_same_output() {
    let receipt = shop();
    assert_eq!(receipt.to_text(), receipt.to_text());
    assert_eq!(receipt.write(), receipt.write());
    assert_eq!(receipt.clone().to_text(), shop().to_text());
    let failing = priced(&[100], 200);
    assert_eq!(failing.to_text(), failing.to_text());
}

#[test]
fn header_and_footer_must_fit() {
    let wide = "x".repeat(33);
    let mut receipt = shop();
    receipt.business_name = wide.clone();
    assert_eq!(receipt.write(), Err(LayoutError::HeaderOverflow));
    let mut receipt = shop();
    receipt.address = wide.clone();
    assert_eq!(receipt.to_text(), Err(LayoutError::HeaderOverflow));
    let mut receipt = shop();
    receipt.contact_info = wide.clone();
    assert_eq!(receipt.write(), Err(LayoutError::HeaderOverflow));
    let mut receipt = shop();
    receipt.footer = wide;
    assert_eq!(receipt.write(), Err(LayoutError::HeaderOverflow));
    let mut receipt = shop();
    receipt.footer = "x".repeat(32);
    assert!(receipt.write().is_ok());
}

#[test]
fn first_failing_line_stops_the_receipt() {
    let mut receipt = shop();
    receipt.options.name_shortening_mode = ItemNameShorteningMode::SymmetricalDot;
    assert_eq!(receipt.write(), Err(LayoutError::UnsupportedShorteningMode));
    assert_eq!(receipt.to_text(), Err(LayoutError::UnsupportedShorteningMode));
    // Header and footer are looked at before the lines.
    receipt.footer = "x".repeat(40);
    assert_eq!(receipt.write(), Err(LayoutError::HeaderOverflow));
}

#[test]
fn total_line_can_overflow() {
    let mut receipt = priced(&[100000], 10);
    receipt.options.width = 7;
    receipt.options.rounding_mode = RoundingMode::Never;
    // Items of "1000.00$" and a space need nine columns.
    assert_eq!(receipt.write(), Err(LayoutError::LineOverflow));
    let mut receipt = priced(&[100], 100);
    receipt.options.width = 6;
    receipt.options.rounding_mode = RoundingMode::Never;
    receipt.options.name_shortening_mode = ItemNameShorteningMode::TrimWithDot;
    // "1.00$" leaves no room for a dot in the item line.
    assert_eq!(receipt.write(), Err(LayoutError::LineOverflow));
    receipt.options.name_shortening_mode = ItemNameShorteningMode::Trim;
    assert_eq!(
        receipt.to_text(),
        Ok("      \n      \n      \n------\n 1.00$\n------\n 1.00$\n 2.00$\n\n      \n".to_string())
    );
}

#[test]
fn tax_line_names_the_rate() {
    let mut receipt = priced(&[1000], 7);
    receipt.options.width = 20;
    let directives = receipt.write().unwrap();
    assert_eq!(directives[10], text("Tax (7%)       0.70$"));
    assert_eq!(directives[11], text("Total         10.70$"));
    let receipt = priced(&[1000], 100);
    let directives = receipt.write().unwrap();
    assert_eq!(directives[10], text("Tax (100%)                10.00$"));
    assert_eq!(directives[11], text("Total                     20.00$"));
}

#[test]
fn plain_text_of_directives() {
    let directives = vec![
        Directive::Justify(Justification::Left),
        text("one"),
        Directive::Rule(4),
        Directive::Emphasis(true),
        Directive::Feed(2),
        Directive::Image {
            reference: "logo".to_string(),
            max_width: None,
            max_height: None,
            required: true,
        },
        Directive::ImageBytes(vec![1, 2, 3]),
        Directive::Barcode(barcode(BarcodeSystem::Ean8, "01234565")),
        text(""),
        Directive::Raw(vec![0x18]),
        Directive::Rule(0),
        Directive::Cut,
    ];
    assert_eq!(render_text(&directives), "one\n----\n\n\n\n\n");
    assert_eq!(render_text(&Vec::new()), "");
}

#[test]
fn errors_describe_themselves() {
    assert_eq!(LayoutError::Configuration.message(), "invalid receipt configuration");
    assert_eq!(LayoutError::LineOverflow.message(), "quantity and price do not fit the line");
    assert_eq!(LayoutError::UnsupportedShorteningMode.message(), "unsupported name shortening mode");
    assert_eq!(LayoutError::HeaderOverflow.message(), "header or footer text is wider than the line");
}

#[test]
fn default_options() {
    let options = ReceiptOptions::default();
    assert_eq!(
        options,
        ReceiptOptions {
            width: 32,
            name_shortening_mode: ItemNameShorteningMode::Trim,
            left_leaning_price: true,
            rounding_mode: RoundingMode::IfNameTooLong,
            show_quantities: true,
            show_single_item_quantity: true,
            currency_symbol: "$".to_string(),
            logo_reference: None,
            barcode_reference: None,
        }
    );
}

#[test]
fn options_from_printer_take_its_width() {
    assert_eq!(
        ReceiptOptions::from_printer(42),
        ReceiptOptions { width: 42, ..ReceiptOptions::default() }
    );
    assert_eq!(ReceiptOptions::from_printer(0).width, 0);
    assert_eq!(ReceiptOptions::from_printer(255).width, 255);
}

#[test]
fn move_back_is_a_raw_command() {
    assert_eq!(move_back(0xA0), Directive::Raw(vec![0x1B, 0x6A, 0xA0]));
    assert_eq!(move_back(0), Directive::Raw(vec![0x1B, 0x6A, 0]));
}

#[test]
fn barcode_is_handed_on_as_configured() {
    let mut receipt = shop();
    let code = Barcode {
        system: BarcodeSystem::Code39,
        data: "not checked here".to_string(),
        option: BarcodeOption {
            width: BarcodeWidth::XL,
            height: BarcodeHeight::L,
            font: BarcodeFont::C,
            position: BarcodePosition::Both,
        },
    };
    receipt.options.barcode_reference = Some(code.clone());
    let directives = receipt.write().unwrap();
    assert_eq!(directives[20], Directive::Barcode(code));
}
