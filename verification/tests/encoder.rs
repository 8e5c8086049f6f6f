use qrcodegen::QrCode;
use qrcodegen::QrCodeEcc;
use ticket_queue::encode_qr_svg;
use ticket_queue::guest_url;
use ticket_queue::id_string;
use ticket_queue::to_svg_string;
use ticket_queue::TicketId;

#[test]
fn svg_renders_every_dark_module_and_nothing_else() {
    let qr = QrCode::encode_text("https://venue.example/guest/0", QrCodeEcc::Medium).unwrap();
    let svg = to_svg_string(&qr, 4);

    let mut expected = String::new();
    let dim = qr.size();
    let width = dim + 8;
    expected.push_str(&format!(
        "<svg xmlns=\"http://www.w3.org/2000/svg\" version=\"1.1\" viewBox=\"0 0 {0} {0}\" stroke=\"none\">",
        width
    ));
    expected.push_str("<rect width=\"100%\" height=\"100%\" fill=\"#FFFFFF\"/>");
    expected.push_str("<path d=\"");
    for y in 0..dim {
        for x in 0..dim {
            if qr.get_module(x, y) {
                expected.push_str(&format!("M{},{}h1v1h-1z ", x + 4, y + 4));
            }
        }
    }
    expected.push_str("\" fill=\"#000000\"/></svg>");

    assert_eq!(svg, expected);
}

#[test]
fn short_text_fits_the_smallest_version() {
    let svg = encode_qr_svg("Hello, world!").unwrap();
    // version 1 is 21 modules a side; the quiet border adds 4 on each side
    assert!(svg.starts_with(
        "<svg xmlns=\"http://www.w3.org/2000/svg\" version=\"1.1\" viewBox=\"0 0 29 29\""
    ));
    assert!(svg.ends_with("\" fill=\"#000000\"/></svg>"));
    assert!(svg.contains("h1v1h-1z "));
}

#[test]
fn encoding_is_deterministic() {
    let a = encode_qr_svg("https://venue.example/guest/1234").unwrap();
    let b = encode_qr_svg("https://venue.example/guest/1234").unwrap();
    assert_eq!(a, b);
    let c = encode_qr_svg("https://venue.example/guest/5678").unwrap();
    assert_ne!(a, c);
}

#[test]
fn oversized_text_is_rejected_not_swallowed() {
    let too_long = "x".repeat(8000);
    assert_eq!(encode_qr_svg(&too_long).unwrap_err(), ticket_queue::Error::TooLong);
}

#[test]
fn zero_border_leaves_modules_at_the_origin() {
    let qr = QrCode::encode_text("A", QrCodeEcc::Medium).unwrap();
    let svg = to_svg_string(&qr, 0);
    assert!(svg.contains("viewBox=\"0 0 21 21\""));
    // the finder pattern puts a dark module at the top-left corner
    assert!(svg.contains("M0,0h1v1h-1z "));
}

#[test]
fn widest_border_still_fits_the_view_box() {
    let qr = QrCode::encode_text("A", QrCodeEcc::Medium).unwrap();
    let svg = to_svg_string(&qr, ticket_queue::codec::MAX_BORDER);
    // 21 modules plus 1073741735 on both sides
    assert!(svg.contains("viewBox=\"0 0 2147483491 2147483491\""));
}

#[test]
fn id_text_matches_the_uuid_format() {
    let value: u128 = 0x00112233445566778899aabbccddeeff;
    let s = id_string(TicketId { value });
    assert_eq!(s, "00112233-4455-6677-8899-aabbccddeeff");
    assert_eq!(s, uuid::Uuid::from_u128(value).hyphenated().to_string());
}

#[test]
fn guest_url_joins_base_and_id() {
    let url = guest_url("https://venue.example", TicketId { value: 1 });
    assert_eq!(url, "https://venue.example/guest/00000000-0000-0000-0000-000000000001");
}

#[test]
fn issued_guest_url_carries_the_ticket_id() {
    let mut store = ticket_queue::TicketStore::new();
    let (t, url) = store.issue(2, "https://venue.example").unwrap();
    assert_eq!(url, format!("https://venue.example/guest/{}", uuid::Uuid::from_u128(t.id.value)));
}
