//! What the command-line tool decides from its arguments: option values
//! read case-insensitively, the page built from the PDF options, and the
//! pages of a PDF request.
use vstd::prelude::*;
use crate::text::{
    all_ascii, ascii_lowercase, ascii_uppercase, copy_opt, lowercase_of, opt_view, same_text,
    to_lowercase, to_uppercase, uppercase_of,
};
use crate::types::{
    GeneratePdfRequest, ImageFormat, PdfFormat, PdfMargin, PdfPage, PdfPageSizeSource,
};

verus! {

/// The view of an optional text.
pub open spec fn opt_str_view(o: Option<&str>) -> Option<Seq<char>> {
    match o {
        Some(s) => Some(s@),
        None => None,
    }
}

// ── Option values ────────────────────────────────────────────────────────────
/// The image format that a lowercase name selects; unknown names select PNG.
pub open spec fn image_format_named(l: Seq<char>) -> ImageFormat {
    if l == "jpeg"@ || l == "jpg"@ {
        ImageFormat::Jpeg
    } else if l == "webp"@ {
        ImageFormat::Webp
    } else {
        ImageFormat::Png
    }
}

/// The paper format that an uppercase name selects, if any.
pub open spec fn pdf_format_named(u: Seq<char>) -> Option<PdfFormat> {
    if u == "A4"@ {
        Some(PdfFormat::A4)
    } else if u == "LETTER"@ {
        Some(PdfFormat::Letter)
    } else if u == "A3"@ {
        Some(PdfFormat::A3)
    } else if u == "LEGAL"@ {
        Some(PdfFormat::Legal)
    } else {
        None
    }
}

/// The page-size source that a lowercase name selects, if any.
pub open spec fn page_size_source_named(l: Seq<char>) -> Option<PdfPageSizeSource> {
    if l == "css"@ {
        Some(PdfPageSizeSource::Css)
    } else if l == "format"@ {
        Some(PdfPageSizeSource::Format)
    } else {
        None
    }
}

/// The name of a paper format, as it is written (`A4`, `Letter`, `A3`, `Legal`).
pub open spec fn pdf_format_name(f: PdfFormat) -> Seq<char> {
    match f {
        PdfFormat::A4 => "A4"@,
        PdfFormat::Letter => "Letter"@,
        PdfFormat::A3 => "A3"@,
        PdfFormat::Legal => "Legal"@,
    }
}

/// Law: every paper format's own name selects it, however its ASCII letters
/// are cased (as written, all lowercase, or all uppercase).
pub proof fn lemma_pdf_format_names_round_trip(f: PdfFormat)
    ensures
        all_ascii(pdf_format_name(f)),
        pdf_format_named(ascii_uppercase(pdf_format_name(f))) == Some(f),
        all_ascii(ascii_lowercase(pdf_format_name(f))),
        pdf_format_named(ascii_uppercase(ascii_lowercase(pdf_format_name(f)))) == Some(f),
        all_ascii(ascii_uppercase(pdf_format_name(f))),
        pdf_format_named(ascii_uppercase(ascii_uppercase(pdf_format_name(f)))) == Some(f),
{
    reveal_strlit("A4");
    reveal_strlit("Letter");
    reveal_strlit("A3");
    reveal_strlit("Legal");
    reveal_strlit("LETTER");
    reveal_strlit("LEGAL");
    let n = pdf_format_name(f);
    let u = ascii_uppercase(n);
    let lu = ascii_uppercase(ascii_lowercase(n));
    let uu = ascii_uppercase(u);
    match f {
        PdfFormat::A4 => {
            assert(u =~= "A4"@);
            assert(lu =~= "A4"@);
            assert(uu =~= "A4"@);
            assert(pdf_format_named("A4"@) == Some(f));
        },
        PdfFormat::Letter => {
            assert(u =~= "LETTER"@);
            assert(lu =~= "LETTER"@);
            assert(uu =~= "LETTER"@);
            assert(pdf_format_named("LETTER"@) == Some(f));
        },
        PdfFormat::A3 => {
            assert(u =~= "A3"@);
            assert(lu =~= "A3"@);
            assert(uu =~= "A3"@);
            assert("A3"@[1] != "A4"@[1]);
            assert(pdf_format_named("A3"@) == Some(f));
        },
        PdfFormat::Legal => {
            assert(u =~= "LEGAL"@);
            assert(lu =~= "LEGAL"@);
            assert(uu =~= "LEGAL"@);
            assert(pdf_format_named("LEGAL"@) == Some(f));
        },
    }
}

/// The image format that an already lowercased name selects.
pub fn image_format_from_lowercase(l: &str) -> (f: ImageFormat)
    ensures
        f == image_format_named(l@),
{
    if same_text(l, "jpeg") || same_text(l, "jpg") {
        ImageFormat::Jpeg
    } else if same_text(l, "webp") {
        ImageFormat::Webp
    } else {
        ImageFormat::Png
    }
}

/// The image format named by `s` in any case: `jpeg`/`jpg`, `webp`, and PNG otherwise.
pub fn parse_image_format(s: &str) -> (f: ImageFormat)
    ensures
        f == image_format_named(lowercase_of(s@)),
        all_ascii(s@) ==> f == image_format_named(ascii_lowercase(s@)),
{
    let l = to_lowercase(s);
    image_format_from_lowercase(l.as_str())
}

/// The paper format that an already uppercased name selects.
pub fn pdf_format_from_uppercase(u: &str) -> (f: Option<PdfFormat>)
    ensures
        f == pdf_format_named(u@),
{
    if same_text(u, "A4") {
        Some(PdfFormat::A4)
    } else if same_text(u, "LETTER") {
        Some(PdfFormat::Letter)
    } else if same_text(u, "A3") {
        Some(PdfFormat::A3)
    } else if same_text(u, "LEGAL") {
        Some(PdfFormat::Legal)
    } else {
        None
    }
}

/// The paper format named by `s` in any case (`A4`, `Letter`, `A3`, `Legal`), if any.
pub fn parse_pdf_format(s: &str) -> (f: Option<PdfFormat>)
    ensures
        f == pdf_format_named(uppercase_of(s@)),
        all_ascii(s@) ==> f == pdf_format_named(ascii_uppercase(s@)),
{
    let u = to_uppercase(s);
    pdf_format_from_uppercase(u.as_str())
}

/// The page-size source that an already lowercased name selects.
pub fn page_size_source_from_lowercase(l: &str) -> (p: Option<PdfPageSizeSource>)
    ensures
        p == page_size_source_named(l@),
{
    if same_text(l, "css") {
        Some(PdfPageSizeSource::Css)
    } else if same_text(l, "format") {
        Some(PdfPageSizeSource::Format)
    } else {
        None
    }
}

/// The page-size source named by `s` in any case (`css`, `format`), if any.
pub fn parse_page_size_source(s: &str) -> (p: Option<PdfPageSizeSource>)
    ensures
        p == page_size_source_named(lowercase_of(s@)),
        all_ascii(s@) ==> p == page_size_source_named(ascii_lowercase(s@)),
{
    let l = to_lowercase(s);
    page_size_source_from_lowercase(l.as_str())
}

// ── Pages ────────────────────────────────────────────────────────────────────
/// The page that `build_page` makes: options that were not given, or whose
/// names are unknown, stay unset; flags that are off stay unset; the margin
/// is set exactly when one of its sides is given.
pub open spec fn spec_build_page(
    html: String,
    format: Option<Seq<char>>,
    page_size_source: Option<Seq<char>>,
    landscape: bool,
    print_background: bool,
    margin_top: Option<String>,
    margin_bottom: Option<String>,
    margin_left: Option<String>,
    margin_right: Option<String>,
) -> PdfPage {
    PdfPage {
        html,
        page_size_source: match page_size_source {
            Some(s) => page_size_source_named(lowercase_of(s)),
            None => None,
        },
        format: match format {
            Some(f) => pdf_format_named(uppercase_of(f)),
            None => None,
        },
        width: None,
        height: None,
        landscape: if landscape {
            Some(true)
        } else {
            None
        },
        margin: if margin_top is Some || margin_bottom is Some || margin_left is Some
            || margin_right is Some {
            Some(
                PdfMargin {
                    top: margin_top,
                    bottom: margin_bottom,
                    left: margin_left,
                    right: margin_right,
                },
            )
        } else {
            None
        },
        print_background: if print_background {
            Some(true)
        } else {
            None
        },
    }
}

/// Builds one PDF page from the command-line options.
pub fn build_page(
    html: String,
    format: Option<&str>,
    page_size_source: Option<&str>,
    landscape: bool,
    print_background: bool,
    margin_top: Option<String>,
    margin_bottom: Option<String>,
    margin_left: Option<String>,
    margin_right: Option<String>,
) -> (p: PdfPage)
    ensures
        p == spec_build_page(
            html,
            opt_str_view(format),
            opt_str_view(page_size_source),
            landscape,
            print_background,
            margin_top,
            margin_bottom,
            margin_left,
            margin_right,
        ),
{
    let mut page = PdfPage::new(html);
    if let Some(s) = page_size_source {
        if let Some(source) = parse_page_size_source(s) {
            page = page.page_size_source(source);
        }
    }
    if let Some(f) = format {
        if let Some(fmt) = parse_pdf_format(f) {
            page = page.format(fmt);
        }
    }
    if landscape {
        page = page.landscape(true);
    }
    if print_background {
        page = page.print_background(true);
    }
    let has_margin = margin_top.is_some() || margin_bottom.is_some() || margin_left.is_some()
        || margin_right.is_some();
    if has_margin {
        page =
        page.margin(
            PdfMargin {
                top: margin_top,
                bottom: margin_bottom,
                left: margin_left,
                right: margin_right,
            },
        );
    }
    page
}

/// The page options of the `pdf` command, shared by every page.
#[derive(Clone, Debug, PartialEq)]
pub struct PageOptions {
    pub format: Option<String>,
    pub page_size_source: Option<String>,
    pub landscape: bool,
    pub print_background: bool,
    pub margin_top: Option<String>,
    pub margin_bottom: Option<String>,
    pub margin_left: Option<String>,
    pub margin_right: Option<String>,
}

/// The page that the options make for `html`.
pub open spec fn page_for(html: String, o: PageOptions) -> PdfPage {
    spec_build_page(
        html,
        opt_view(o.format),
        opt_view(o.page_size_source),
        o.landscape,
        o.print_background,
        o.margin_top,
        o.margin_bottom,
        o.margin_left,
        o.margin_right,
    )
}

/// The page that the options make for `html`.
pub fn page_with_options(html: String, options: &PageOptions) -> (p: PdfPage)
    ensures
        p == page_for(html, *options),
{
    let format = match &options.format {
        Some(f) => Some(f.as_str()),
        None => None,
    };
    let source = match &options.page_size_source {
        Some(s) => Some(s.as_str()),
        None => None,
    };
    build_page(
        html,
        format,
        source,
        options.landscape,
        options.print_background,
        copy_opt(&options.margin_top),
        copy_opt(&options.margin_bottom),
        copy_opt(&options.margin_left),
        copy_opt(&options.margin_right),
    )
}

/// A single-page PDF request for `html`.
pub fn single_page_request(html: String, options: &PageOptions) -> (r: GeneratePdfRequest)
    ensures
        r == GeneratePdfRequest::SinglePage(page_for(html, *options)),
{
    GeneratePdfRequest::SinglePage(page_with_options(html, options))
}

/// A multi-page PDF request: one page per HTML text, in order, all with the same options.
pub fn multi_page_request(htmls: Vec<String>, options: &PageOptions) -> (r: GeneratePdfRequest)
    ensures
        r matches GeneratePdfRequest::MultiPage { pages } && pages@.len() == htmls@.len() && (
        forall|i: int| 0 <= i < htmls@.len() ==> #[trigger] pages@[i] == page_for(htmls@[i], *options)),
{
    let mut pages: Vec<PdfPage> = Vec::new();
    let mut i: usize = 0;
    while i < htmls.len()
        invariant
            i <= htmls@.len(),
            pages@.len() == i,
            forall|j: int| 0 <= j < i ==> #[trigger] pages@[j] == page_for(htmls@[j], *options),
        decreases htmls@.len() - i,
    {
        let html = htmls[i].clone();
        pages.push(page_with_options(html, options));
        i = i + 1;
    }
    GeneratePdfRequest::MultiPage { pages }
}

/// Law: the pages of a multi-page request differ in their HTML only; every
/// other setting is the same on all of them.
pub proof fn lemma_pages_share_settings(htmls: Seq<String>, options: PageOptions, i: int, j: int)
    requires
        0 <= i < htmls.len(),
        0 <= j < htmls.len(),
    ensures
        page_for(htmls[i], options) == (PdfPage { html: htmls[i], ..page_for(htmls[j], options) }),
{
}

/// Law: the page built from the options keeps the HTML and every margin side
/// as given; it has a margin exactly when at least one side is given; it is
/// landscape, and prints backgrounds, exactly when those flags are on (and
/// leaves them unset otherwise); it sets no custom size; and its paper format
/// and page-size source are those the given names select.
pub proof fn lemma_build_page(
    html: String,
    format: Option<Seq<char>>,
    page_size_source: Option<Seq<char>>,
    landscape: bool,
    print_background: bool,
    margin_top: Option<String>,
    margin_bottom: Option<String>,
    margin_left: Option<String>,
    margin_right: Option<String>,
)
    ensures
        ({
            let p = spec_build_page(
                html,
                format,
                page_size_source,
                landscape,
                print_background,
                margin_top,
                margin_bottom,
                margin_left,
                margin_right,
            );
            &&& p.html == html
            &&& (p.margin is Some <==> (margin_top is Some || margin_bottom is Some
                || margin_left is Some || margin_right is Some))
            &&& (p.margin matches Some(m) ==> m.top == margin_top && m.bottom == margin_bottom
                && m.left == margin_left && m.right == margin_right)
            &&& (landscape ==> p.landscape == Some(true))
            &&& (!landscape ==> p.landscape is None)
            &&& (print_background ==> p.print_background == Some(true))
            &&& (!print_background ==> p.print_background is None)
            &&& p.width is None
            &&& p.height is None
            &&& (format is None ==> p.format is None)
            &&& (format matches Some(f) ==> p.format == pdf_format_named(uppercase_of(f)))
            &&& (page_size_source is None ==> p.page_size_source is None)
            &&& (page_size_source matches Some(s) ==> p.page_size_source == page_size_source_named(
                lowercase_of(s),
            ))
        }),
{
}

/// Law: every page the `pdf` command builds carries its options side for
/// side: the margin holds exactly the given sides (and is set exactly when one
/// is given), and the flags, paper format and page-size source follow the
/// options; only the HTML comes from the page.
pub proof fn lemma_page_for(html: String, o: PageOptions)
    ensures
        ({
            let p = page_for(html, o);
            &&& p.html == html
            &&& (p.margin is Some <==> (o.margin_top is Some || o.margin_bottom is Some
                || o.margin_left is Some || o.margin_right is Some))
            &&& (p.margin matches Some(m) ==> m.top == o.margin_top && m.bottom == o.margin_bottom
                && m.left == o.margin_left && m.right == o.margin_right)
            &&& (o.landscape ==> p.landscape == Some(true))
            &&& (!o.landscape ==> p.landscape is None)
            &&& (o.print_background ==> p.print_background == Some(true))
            &&& (!o.print_background ==> p.print_background is None)
            &&& (o.format is None ==> p.format is None)
            &&& (o.format matches Some(f) ==> p.format == pdf_format_named(uppercase_of(f@)))
            &&& (o.page_size_source is None ==> p.page_size_source is None)
            &&& (o.page_size_source matches Some(s) ==> p.page_size_source
                == page_size_source_named(lowercase_of(s@)))
        }),
{
}

/// Law: an optional text is viewed as its text.
pub proof fn lemma_opt_str_view(o: Option<&str>)
    ensures
        o matches Some(x) ==> opt_str_view(o) == Some(x@),
        o is None ==> opt_str_view(o) is None,
{
}

/// Law: the option names: `jpeg` and `jpg` select JPEG, `webp` selects WebP,
/// any other name PNG; `A4`, `LETTER`, `A3`, `LEGAL` select their paper
/// formats and no other name selects one; `css` and `format` select their
/// page-size sources and no other name selects one.
pub proof fn lemma_option_names(n: Seq<char>)
    ensures
        (image_format_named(n) == ImageFormat::Jpeg) <==> (n == "jpeg"@ || n == "jpg"@),
        (image_format_named(n) == ImageFormat::Webp) <==> n == "webp"@,
        (image_format_named(n) == ImageFormat::Png) <==> !(n == "jpeg"@ || n == "jpg"@
            || n == "webp"@),
        (pdf_format_named(n) == Some(PdfFormat::A4)) <==> n == "A4"@,
        (pdf_format_named(n) == Some(PdfFormat::Letter)) <==> n == "LETTER"@,
        (pdf_format_named(n) == Some(PdfFormat::A3)) <==> n == "A3"@,
        (pdf_format_named(n) == Some(PdfFormat::Legal)) <==> n == "LEGAL"@,
        pdf_format_named(n) is None <==> !(n == "A4"@ || n == "LETTER"@ || n == "A3"@ || n
            == "LEGAL"@),
        (page_size_source_named(n) == Some(PdfPageSizeSource::Css)) <==> n == "css"@,
        (page_size_source_named(n) == Some(PdfPageSizeSource::Format)) <==> n == "format"@,
        page_size_source_named(n) is None <==> !(n == "css"@ || n == "format"@),
{
    reveal_strlit("jpeg");
    reveal_strlit("jpg");
    reveal_strlit("webp");
    reveal_strlit("A4");
    reveal_strlit("LETTER");
    reveal_strlit("A3");
    reveal_strlit("LEGAL");
    reveal_strlit("css");
    reveal_strlit("format");
    assert("jpeg"@[0] != "webp"@[0]);
    assert("A3"@[1] != "A4"@[1]);
    assert("LEGAL"@.len() != "A4"@.len() && "LEGAL"@.len() != "LETTER"@.len() && "LEGAL"@.len()
        != "A3"@.len());
    assert("LETTER"@.len() != "A4"@.len() && "LETTER"@.len() != "A3"@.len());
    assert("format"@.len() != "css"@.len());
    assert("jpg"@.len() != "jpeg"@.len() && "jpg"@.len() != "webp"@.len());
}

// ── HTML source ──────────────────────────────────────────────────────────────
/// Where the HTML to render comes from.
#[derive(Clone, Debug, PartialEq)]
pub enum HtmlSource<P> {
    /// The HTML given inline.
    Inline(String),
    /// The HTML in the file at this path.
    File(P),
    /// Neither was given.
    Missing,
}

/// Inline HTML wins over a file; with neither, the source is missing.
pub fn choose_html_source<P>(html: Option<String>, file: Option<P>) -> (r: HtmlSource<P>)
    ensures
        html matches Some(h) ==> r == HtmlSource::<P>::Inline(h),
        html is None ==> (file matches Some(f) ==> r == HtmlSource::File(f)),
        html is None && file is None ==> r is Missing,
{
    match html {
        Some(h) => HtmlSource::Inline(h),
        None => match file {
            Some(f) => HtmlSource::File(f),
            None => HtmlSource::Missing,
        },
    }
}

} // verus!
