use agentgen::types::{GeneratePdfRequest, PdfFormat, PdfMargin, PdfPage, PdfPageSizeSource};

#[test]
fn margin_all_sets_every_side() {
    let m = PdfMargin::all("20mm".to_string());
    assert_eq!(m.top.as_deref(), Some("20mm"));
    assert_eq!(m.bottom.as_deref(), Some("20mm"));
    assert_eq!(m.left.as_deref(), Some("20mm"));
    assert_eq!(m.right.as_deref(), Some("20mm"));
}

#[test]
fn margin_default_is_unset() {
    let m = PdfMargin::default();
    assert_eq!(m, PdfMargin { top: None, bottom: None, left: None, right: None });
}

#[test]
fn page_new_leaves_options_unset() {
    let p = PdfPage::new("<h1>Invoice</h1>".to_string());
    assert_eq!(p.html, "<h1>Invoice</h1>");
    assert_eq!(p.page_size_source, None);
    assert_eq!(p.format, None);
    assert_eq!(p.width, None);
    assert_eq!(p.height, None);
    assert_eq!(p.landscape, None);
    assert_eq!(p.margin, None);
    assert_eq!(p.print_background, None);
}

#[test]
fn page_builder_chain() {
    let p = PdfPage::new("<h1>Invoice</h1>".to_string())
        .format(PdfFormat::A4)
        .print_background(true)
        .margin(PdfMargin::all("20mm".to_string()));
    assert_eq!(p.format, Some(PdfFormat::A4));
    assert_eq!(p.print_background, Some(true));
    assert_eq!(p.margin, Some(PdfMargin::all("20mm".to_string())));
    assert_eq!(p.landscape, None);
}

#[test]
fn page_setters_touch_only_their_field() {
    let base = PdfPage::new("x".to_string()).format(PdfFormat::Letter);
    let p = base.clone().landscape(false);
    assert_eq!(p.landscape, Some(false));
    assert_eq!(PdfPage { landscape: None, ..p }, base);
    let q = base.clone().custom_size("210mm".to_string(), "297mm".to_string());
    assert_eq!(q.width.as_deref(), Some("210mm"));
    assert_eq!(q.height.as_deref(), Some("297mm"));
    assert_eq!(q.format, Some(PdfFormat::Letter));
    let r = base.clone().page_size_source(PdfPageSizeSource::Css);
    assert_eq!(r.page_size_source, Some(PdfPageSizeSource::Css));
    assert_eq!(PdfPage { page_size_source: None, ..r }, base);
}

#[test]
fn later_setter_wins() {
    let p = PdfPage::new("x".to_string()).format(PdfFormat::A3).format(PdfFormat::Legal);
    assert_eq!(p.format, Some(PdfFormat::Legal));
}

#[test]
fn multi_page_request_holds_pages_in_order() {
    let req = GeneratePdfRequest::MultiPage {
        pages: vec![PdfPage::new("a".to_string()), PdfPage::new("b".to_string())],
    };
    match req {
        GeneratePdfRequest::MultiPage { pages } => {
            assert_eq!(pages.len(), 2);
            assert_eq!(pages[0].html, "a");
            assert_eq!(pages[1].html, "b");
        }
        _ => unreachable!(),
    }
}
