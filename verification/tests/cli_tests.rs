use agentgen::cli::{
    build_page, choose_html_source, multi_page_request, parse_image_format, parse_page_size_source,
    parse_pdf_format, single_page_request, HtmlSource, PageOptions,
};
use agentgen::types::{
    GeneratePdfRequest, ImageFormat, PdfFormat, PdfMargin, PdfPage, PdfPageSizeSource,
};

#[test]
fn image_format_names() {
    assert_eq!(parse_image_format("png"), ImageFormat::Png);
    assert_eq!(parse_image_format("JPEG"), ImageFormat::Jpeg);
    assert_eq!(parse_image_format("Jpg"), ImageFormat::Jpeg);
    assert_eq!(parse_image_format("WebP"), ImageFormat::Webp);
    assert_eq!(parse_image_format("gif"), ImageFormat::Png);
    assert_eq!(parse_image_format(""), ImageFormat::Png);
}

#[test]
fn pdf_format_names() {
    assert_eq!(parse_pdf_format("a4"), Some(PdfFormat::A4));
    assert_eq!(parse_pdf_format("Letter"), Some(PdfFormat::Letter));
    assert_eq!(parse_pdf_format("A3"), Some(PdfFormat::A3));
    assert_eq!(parse_pdf_format("legal"), Some(PdfFormat::Legal));
    assert_eq!(parse_pdf_format("A5"), None);
    for f in [PdfFormat::A4, PdfFormat::Letter, PdfFormat::A3, PdfFormat::Legal] {
        let name = format!("{:?}", f);
        assert_eq!(parse_pdf_format(&name), Some(f));
        assert_eq!(parse_pdf_format(&name.to_lowercase()), Some(f));
        assert_eq!(parse_pdf_format(&name.to_uppercase()), Some(f));
    }
}

#[test]
fn page_size_source_names() {
    assert_eq!(parse_page_size_source("CSS"), Some(PdfPageSizeSource::Css));
    assert_eq!(parse_page_size_source("format"), Some(PdfPageSizeSource::Format));
    assert_eq!(parse_page_size_source("paper"), None);
}

#[test]
fn build_page_with_defaults() {
    let p = build_page("<p>x</p>".to_string(), None, None, false, false, None, None, None, None);
    assert_eq!(p, PdfPage::new("<p>x</p>".to_string()));
}

#[test]
fn build_page_with_options() {
    let p = build_page(
        "<p>x</p>".to_string(),
        Some("letter"),
        Some("Format"),
        true,
        true,
        Some("20mm".to_string()),
        None,
        None,
        Some("15mm".to_string()),
    );
    assert_eq!(p.format, Some(PdfFormat::Letter));
    assert_eq!(p.page_size_source, Some(PdfPageSizeSource::Format));
    assert_eq!(p.landscape, Some(true));
    assert_eq!(p.print_background, Some(true));
    assert_eq!(
        p.margin,
        Some(PdfMargin {
            top: Some("20mm".to_string()),
            bottom: None,
            left: None,
            right: Some("15mm".to_string())
        })
    );
    assert_eq!(p.width, None);
}

#[test]
fn build_page_ignores_unknown_names() {
    let p = build_page("h".to_string(), Some("B5"), Some("auto"), false, false, None, None, None, None);
    assert_eq!(p.format, None);
    assert_eq!(p.page_size_source, None);
    assert_eq!(p.margin, None);
}

fn options() -> PageOptions {
    PageOptions {
        format: Some("A4".to_string()),
        page_size_source: Some("css".to_string()),
        landscape: true,
        print_background: false,
        margin_top: Some("10mm".to_string()),
        margin_bottom: None,
        margin_left: None,
        margin_right: None,
    }
}

#[test]
fn multi_page_pages_share_settings() {
    let req = multi_page_request(
        vec!["cover".to_string(), "content".to_string(), "appendix".to_string()],
        &options(),
    );
    match req {
        GeneratePdfRequest::MultiPage { pages } => {
            assert_eq!(pages.len(), 3);
            assert_eq!(pages[0].html, "cover");
            assert_eq!(pages[2].html, "appendix");
            for p in &pages {
                assert_eq!(PdfPage { html: String::new(), ..p.clone() },
                           PdfPage { html: String::new(), ..pages[0].clone() });
                assert_eq!(p.format, Some(PdfFormat::A4));
                assert_eq!(p.page_size_source, Some(PdfPageSizeSource::Css));
                assert_eq!(p.landscape, Some(true));
                assert_eq!(p.print_background, None);
            }
        }
        _ => panic!("expected a multi-page request"),
    }
}

#[test]
fn single_page_request_uses_options() {
    let req = single_page_request("<h1>Invoice #42</h1>".to_string(), &options());
    let expected = PdfPage::new("<h1>Invoice #42</h1>".to_string())
        .page_size_source(PdfPageSizeSource::Css)
        .format(PdfFormat::A4)
        .landscape(true)
        .margin(PdfMargin { top: Some("10mm".to_string()), bottom: None, left: None, right: None });
    assert_eq!(req, GeneratePdfRequest::SinglePage(expected));
}

#[test]
fn inline_html_wins_over_file() {
    assert_eq!(
        choose_html_source(Some("<b>x</b>".to_string()), Some("page.html")),
        HtmlSource::Inline("<b>x</b>".to_string())
    );
    assert_eq!(choose_html_source(None, Some("page.html")), HtmlSource::File("page.html"));
    assert_eq!(choose_html_source::<&str>(None, None), HtmlSource::Missing);
}
