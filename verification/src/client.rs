//! The API client: its key and base URL, and the HTTP request that each
//! API operation sends.
//!
//! Sending a request and reading the reply is I/O and is done by the caller;
//! this module decides what is sent.
use vstd::prelude::*;
use crate::body::{pdf_body, pdf_request_body, views};
use crate::text::{
    ends_with_slash, join2, join3, lemma_trim_trailing_slashes, trim_end_slashes,
    trim_trailing_slashes, view_or,
};
use crate::types::GeneratePdfRequest;

verus! {

/// The production API base URL.
pub open spec fn default_base_url() -> Seq<char> {
    "https://www.agent-gen.com/api"@
}

/// HTTP method of a request.
#[derive(Clone, Copy, Debug, PartialEq, Eq, Structural)]
pub enum HttpMethod {
    Get,
    Post,
}

/// Body of a request.
#[derive(Clone, Debug, PartialEq, Eq)]
pub enum RequestBody {
    /// No body.
    Empty,
    /// A JSON document (sent with `Content-Type: application/json`).
    Json(String),
    /// Plain text, sent as is.
    Text(String),
    /// A multipart form with one file part.
    Multipart { field: String, file_name: String, bytes: Vec<u8> },
}

/// An HTTP request to the API: method, full URL, headers and body.
#[derive(Clone, Debug, PartialEq, Eq)]
pub struct ApiRequest {
    pub method: HttpMethod,
    pub url: String,
    pub headers: Vec<(String, String)>,
    pub body: RequestBody,
}

/// The views of a list of headers.
pub open spec fn header_views(h: Seq<(String, String)>) -> Seq<(Seq<char>, Seq<char>)> {
    h.map_values(|p: (String, String)| (p.0@, p.1@))
}

/// The header that authenticates a request with `key`.
pub open spec fn key_header(key: Seq<char>) -> (Seq<char>, Seq<char>) {
    ("X-API-Key"@, key)
}

/// Async AgentGen API client state: the API key and the base URL, which
/// never ends in `'/'`.
pub struct AgentGenClient {
    api_key: String,
    base_url: String,
}

impl AgentGenClient {
    #[verifier::type_invariant]
    spec fn wf(self) -> bool {
        !ends_with_slash(self.base_url@)
    }

    /// The API key.
    pub closed spec fn spec_api_key(&self) -> Seq<char> {
        self.api_key@
    }

    /// The base URL.
    pub closed spec fn spec_base_url(&self) -> Seq<char> {
        self.base_url@
    }

    /// Create a client using the production API base URL.
    pub fn new(api_key: String) -> (c: Self)
        ensures
            c.spec_api_key() == api_key@,
            c.spec_base_url() == default_base_url(),
    {
        let c = Self::with_base_url(api_key, String::from_str("https://www.agent-gen.com/api"));
        proof {
            reveal_strlit("https://www.agent-gen.com/api");
            let d = default_base_url();
            assert(d.last() == 'i');
            assert(trim_trailing_slashes(d) == d);
        }
        c
    }

    /// Create a client with a custom base URL; trailing slashes are removed.
    pub fn with_base_url(api_key: String, base_url: String) -> (c: Self)
        ensures
            c.spec_api_key() == api_key@,
            c.spec_base_url() == trim_trailing_slashes(base_url@),
    {
        let base = trim_end_slashes(base_url.as_str());
        proof {
            lemma_trim_trailing_slashes(base_url@);
        }
        AgentGenClient { api_key, base_url: base }
    }

    /// The API key.
    pub fn api_key(&self) -> (r: &str)
        ensures
            r@ == self.spec_api_key(),
    {
        self.api_key.as_str()
    }

    /// The base URL, which never ends in `'/'`.
    pub fn base_url(&self) -> (r: &str)
        ensures
            r@ == self.spec_base_url(),
            !ends_with_slash(r@),
    {
        proof {
            use_type_invariant(self);
        }
        self.base_url.as_str()
    }

    /// The full URL of an API path.
    fn endpoint(&self, path: &str) -> (r: String)
        ensures
            r@ == self.spec_base_url() + path@,
    {
        join2(self.base_url.as_str(), path)
    }

    /// The authentication header.
    fn auth_headers(&self) -> (h: Vec<(String, String)>)
        ensures
            header_views(h@) == seq![key_header(self.spec_api_key())],
    {
        let mut h = Vec::new();
        h.push((String::from_str("X-API-Key"), self.api_key.clone()));
        assert(header_views(h@) =~= seq![key_header(self.spec_api_key())]);
        h
    }

    /// `POST /v1/generate/image` with the JSON of the image request.
    /// Costs 1 token.
    pub fn generate_image_request(&self, request_json: String) -> (r: ApiRequest)
        ensures
            r.method == HttpMethod::Post,
            r.url@ == self.spec_base_url() + "/v1/generate/image"@,
            header_views(r.headers@) == seq![key_header(self.spec_api_key())],
            r.body == RequestBody::Json(request_json),
    {
        ApiRequest {
            method: HttpMethod::Post,
            url: self.endpoint("/v1/generate/image"),
            headers: self.auth_headers(),
            body: RequestBody::Json(request_json),
        }
    }

    /// `POST /v1/generate/pdf` for `request`, whose `i`-th page serialises to
    /// `page_json[i]`; the same as `generate_pdf_with_optimize_request` with
    /// no `optimize` flag. Costs 2 tokens per page.
    pub fn generate_pdf_request(&self, request: &GeneratePdfRequest, page_json: &Vec<String>) -> (r:
        ApiRequest)
        requires
            page_json@.len() == request.page_count(),
        ensures
            r.method == HttpMethod::Post,
            r.url@ == self.spec_base_url() + "/v1/generate/pdf"@,
            header_views(r.headers@) == seq![key_header(self.spec_api_key())],
            r.body matches RequestBody::Json(b) && b@ == pdf_body(*request, views(page_json@), None),
    {
        self.generate_pdf_with_optimize_request(request, page_json, None)
    }

    /// `POST /v1/generate/pdf` for `request`, whose `i`-th page serialises to
    /// `page_json[i]`, with the post-processing `optimize` flag when given.
    /// Costs 2 tokens per page.
    pub fn generate_pdf_with_optimize_request(
        &self,
        request: &GeneratePdfRequest,
        page_json: &Vec<String>,
        optimize: Option<bool>,
    ) -> (r: ApiRequest)
        requires
            page_json@.len() == request.page_count(),
        ensures
            r.method == HttpMethod::Post,
            r.url@ == self.spec_base_url() + "/v1/generate/pdf"@,
            header_views(r.headers@) == seq![key_header(self.spec_api_key())],
            r.body matches RequestBody::Json(b) && b@ == pdf_body(
                *request,
                views(page_json@),
                optimize,
            ),
    {
        ApiRequest {
            method: HttpMethod::Post,
            url: self.endpoint("/v1/generate/pdf"),
            headers: self.auth_headers(),
            body: RequestBody::Json(pdf_request_body(request, page_json, optimize)),
        }
    }

    /// `POST /v1/upload/temp`: a multipart form whose part `file` holds the
    /// bytes under `file_name`. Free; the file is deleted after 24 hours.
    pub fn upload_temp_request(&self, file_name: String, bytes: Vec<u8>) -> (r: ApiRequest)
        ensures
            r.method == HttpMethod::Post,
            r.url@ == self.spec_base_url() + "/v1/upload/temp"@,
            header_views(r.headers@) == seq![key_header(self.spec_api_key())],
            r.body matches RequestBody::Multipart { field, file_name: f, bytes: b } && field@
                == "file"@ && f == file_name && b == bytes,
    {
        ApiRequest {
            method: HttpMethod::Post,
            url: self.endpoint("/v1/upload/temp"),
            headers: self.auth_headers(),
            body: RequestBody::Multipart { field: String::from_str("file"), file_name, bytes },
        }
    }

    /// `GET /v1/balance`: the token balance of the key's owner.
    pub fn get_balance_request(&self) -> (r: ApiRequest)
        ensures
            r.method == HttpMethod::Get,
            r.url@ == self.spec_base_url() + "/v1/balance"@,
            header_views(r.headers@) == seq![key_header(self.spec_api_key())],
            r.body is Empty,
    {
        ApiRequest {
            method: HttpMethod::Get,
            url: self.endpoint("/v1/balance"),
            headers: self.auth_headers(),
            body: RequestBody::Empty,
        }
    }

    /// `POST /v1/origin`: provision a new public origin subdomain.
    pub fn create_origin_request(&self) -> (r: ApiRequest)
        ensures
            r.method == HttpMethod::Post,
            r.url@ == self.spec_base_url() + "/v1/origin"@,
            header_views(r.headers@) == seq![key_header(self.spec_api_key())],
            r.body is Empty,
    {
        ApiRequest {
            method: HttpMethod::Post,
            url: self.endpoint("/v1/origin"),
            headers: self.auth_headers(),
            body: RequestBody::Empty,
        }
    }

    /// `POST /v1/origin/{origin_id}/public-key` with the PEM text as a
    /// `text/plain` body.
    pub fn upload_origin_public_key_request(&self, origin_id: &str, pem: &str) -> (r: ApiRequest)
        ensures
            r.method == HttpMethod::Post,
            r.url@ == self.spec_base_url() + "/v1/origin/"@ + origin_id@ + "/public-key"@,
            header_views(r.headers@) == seq![
                key_header(self.spec_api_key()),
                ("Content-Type"@, "text/plain"@),
            ],
            r.body matches RequestBody::Text(t) && t@ == pem@,
    {
        let path = join3("/v1/origin/", origin_id, "/public-key");
        let url = self.endpoint(path.as_str());
        let mut headers = self.auth_headers();
        let ghost h0 = headers@;
        assert(header_views(h0)[0] == key_header(self.spec_api_key()));
        assert(header_views(h0).len() == 1);
        assert(h0.len() == 1);
        headers.push((String::from_str("Content-Type"), String::from_str("text/plain")));
        assert(headers@[0] == h0[0]);
        assert(header_views(headers@) =~= seq![
            key_header(self.spec_api_key()),
            ("Content-Type"@, "text/plain"@),
        ]);
        ApiRequest { method: HttpMethod::Post, url, headers, body: RequestBody::Text(String::from_str(pem)) }
    }
}

/// The name under which a file is uploaded: its file name, or `upload`
/// when it has none.
pub open spec fn spec_upload_file_name(file_name: Option<Seq<char>>) -> Seq<char> {
    view_or(file_name, "upload"@)
}

/// Law: a file is uploaded under its own file name, unchanged, and under
/// `upload` only when it has none.
pub proof fn lemma_upload_file_name(file_name: Option<Seq<char>>)
    ensures
        file_name matches Some(n) ==> spec_upload_file_name(file_name) == n,
        file_name is None ==> spec_upload_file_name(file_name) == "upload"@,
{
}

/// Law: a list of headers is viewed header by header, name then value.
pub proof fn lemma_header_views(h: Seq<(String, String)>, i: int)
    requires
        0 <= i < h.len(),
    ensures
        header_views(h).len() == h.len(),
        header_views(h)[i].0 == h[i].0@,
        header_views(h)[i].1 == h[i].1@,
{
}

/// Law: the production base URL is `https://www.agent-gen.com/api`, and a
/// request is authenticated by the header `X-API-Key` holding the key itself.
pub proof fn lemma_defaults(key: Seq<char>)
    ensures
        default_base_url() == "https://www.agent-gen.com/api"@,
        key_header(key).0 == "X-API-Key"@,
        key_header(key).1 == key,
{
}

/// The name under which a file is uploaded: `file_name` is the path's
/// file name as UTF-8 text (`Path::file_name` then `OsStr::to_str`), `None`
/// when the path has no file name or it is not UTF-8; then the name is
/// `upload`.
pub fn upload_file_name(file_name: Option<&str>) -> (r: String)
    ensures
        r@ == spec_upload_file_name(
            match file_name {
                Some(n) => Some(n@),
                None => None,
            },
        ),
{
    match file_name {
        Some(n) => String::from_str(n),
        None => String::from_str("upload"),
    }
}

} // verus!
