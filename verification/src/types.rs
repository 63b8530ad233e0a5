//! Request and response types of the AgentGen API.
//!
//! The request types are built with chained setters; every setter states
//! exactly which field it fills and that all other fields stay as they were.
use vstd::prelude::*;

verus! {

// ── Image ────────────────────────────────────────────────────────────────────
/// Output format of a rendered image.
#[derive(Clone, Copy, Debug, PartialEq, Eq, Structural)]
pub enum ImageFormat {
    Png,
    Jpeg,
    Webp,
}

/// Response from `POST /v1/generate/image`.
#[derive(Clone, Debug, PartialEq)]
pub struct GenerateImageResponse {
    pub url: String,
    pub width: u32,
    pub height: u32,
    pub format: ImageFormat,
    pub tokens_used: u32,
    pub request_id: String,
}

// ── PDF ──────────────────────────────────────────────────────────────────────
/// Paper size of a PDF page.
#[derive(Clone, Copy, Debug, PartialEq, Eq, Structural)]
pub enum PdfFormat {
    A4,
    Letter,
    A3,
    Legal,
}

/// Whether the page size comes from the CSS `@page` rule or from the paper format.
#[derive(Clone, Copy, Debug, PartialEq, Eq, Structural)]
pub enum PdfPageSizeSource {
    Css,
    Format,
}

/// Page margins for a PDF page; each side is a CSS length such as `20mm`.
#[derive(Clone, Debug, PartialEq)]
pub struct PdfMargin {
    pub top: Option<String>,
    pub bottom: Option<String>,
    pub left: Option<String>,
    pub right: Option<String>,
}

impl Default for PdfMargin {
    /// No side is set.
    fn default() -> (m: Self)
        ensures
            m.top is None,
            m.bottom is None,
            m.left is None,
            m.right is None,
    {
        PdfMargin { top: None, bottom: None, left: None, right: None }
    }
}

impl PdfMargin {
    /// The same margin on all four sides.
    pub fn all(value: String) -> (m: Self)
        ensures
            m.top == Some(value),
            m.bottom == Some(value),
            m.left == Some(value),
            m.right == Some(value),
    {
        let v = value;
        PdfMargin {
            top: Some(v.clone()),
            bottom: Some(v.clone()),
            left: Some(v.clone()),
            right: Some(v),
        }
    }
}

/// A single page in a PDF request.
#[derive(Clone, Debug, PartialEq)]
pub struct PdfPage {
    pub html: String,
    pub page_size_source: Option<PdfPageSizeSource>,
    pub format: Option<PdfFormat>,
    pub width: Option<String>,
    pub height: Option<String>,
    pub landscape: Option<bool>,
    pub margin: Option<PdfMargin>,
    pub print_background: Option<bool>,
}

impl PdfPage {
    /// A page with the given HTML and every option left to the server's default.
    pub fn new(html: String) -> (p: Self)
        ensures
            p.html == html,
            p.page_size_source is None,
            p.format is None,
            p.width is None,
            p.height is None,
            p.landscape is None,
            p.margin is None,
            p.print_background is None,
    {
        PdfPage {
            html,
            page_size_source: None,
            format: None,
            width: None,
            height: None,
            landscape: None,
            margin: None,
            print_background: None,
        }
    }

    /// Sets where the page size comes from.
    pub fn page_size_source(self, source: PdfPageSizeSource) -> (p: Self)
        ensures
            p == (PdfPage { page_size_source: Some(source), ..self }),
    {
        let mut p = self;
        p.page_size_source = Some(source);
        p
    }

    /// Sets the paper format.
    pub fn format(self, format: PdfFormat) -> (p: Self)
        ensures
            p == (PdfPage { format: Some(format), ..self }),
    {
        let mut p = self;
        p.format = Some(format);
        p
    }

    /// Sets a custom page width and height (CSS lengths).
    pub fn custom_size(self, width: String, height: String) -> (p: Self)
        ensures
            p == (PdfPage { width: Some(width), height: Some(height), ..self }),
    {
        let mut p = self;
        p.width = Some(width);
        p.height = Some(height);
        p
    }

    /// Sets the orientation.
    pub fn landscape(self, landscape: bool) -> (p: Self)
        ensures
            p == (PdfPage { landscape: Some(landscape), ..self }),
    {
        let mut p = self;
        p.landscape = Some(landscape);
        p
    }

    /// Sets the page margins.
    pub fn margin(self, margin: PdfMargin) -> (p: Self)
        ensures
            p == (PdfPage { margin: Some(margin), ..self }),
    {
        let mut p = self;
        p.margin = Some(margin);
        p
    }

    /// Sets whether CSS backgrounds are printed.
    pub fn print_background(self, print_background: bool) -> (p: Self)
        ensures
            p == (PdfPage { print_background: Some(print_background), ..self }),
    {
        let mut p = self;
        p.print_background = Some(print_background);
        p
    }
}

/// Request body for `POST /v1/generate/pdf`: one page, or several.
#[derive(Clone, Debug, PartialEq)]
pub enum GeneratePdfRequest {
    SinglePage(PdfPage),
    MultiPage { pages: Vec<PdfPage> },
}

impl GeneratePdfRequest {
    /// The number of pages in the request.
    pub open spec fn page_count(&self) -> nat {
        match self {
            GeneratePdfRequest::SinglePage(_) => 1,
            GeneratePdfRequest::MultiPage { pages } => pages@.len(),
        }
    }
}

/// Response from `POST /v1/generate/pdf`.
#[derive(Clone, Debug, PartialEq)]
pub struct GeneratePdfResponse {
    pub url: String,
    pub pages: u32,
    pub tokens_used: u32,
    pub request_id: String,
}

// ── Upload ───────────────────────────────────────────────────────────────────
/// Response from `POST /v1/upload/temp`.
#[derive(Clone, Debug, PartialEq)]
pub struct UploadTempResponse {
    pub url: String,
    pub key: String,
    pub size: u64,
    pub expires_in: u32,
    pub expires_at: String,
}

// ── Balance ──────────────────────────────────────────────────────────────────
/// Response from `GET /v1/balance`.
#[derive(Clone, Debug, PartialEq)]
pub struct BalanceResponse {
    pub tokens: i64,
}

// ── Origin ───────────────────────────────────────────────────────────────────
/// Response from `POST /v1/origin`.
#[derive(Clone, Debug, PartialEq)]
pub struct CreateOriginResponse {
    pub id: String,
    pub origin: String,
}

/// Response from `POST /v1/origin/{id}/public-key`.
#[derive(Clone, Debug, PartialEq)]
pub struct UploadOriginPublicKeyResponse {
    pub url: String,
}

} // verus!
