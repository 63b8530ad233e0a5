use agentgen::body::{add_member, join_with_commas, pdf_request_body};
use agentgen::client::{upload_file_name, HttpMethod, RequestBody};
use agentgen::types::{GeneratePdfRequest, PdfPage};
use agentgen::AgentGenClient;

fn key_header(key: &str) -> (String, String) {
    ("X-API-Key".to_string(), key.to_string())
}

#[test]
fn new_uses_production_url() {
    let c = AgentGenClient::new("agk_test".to_string());
    assert_eq!(c.base_url(), "https://www.agent-gen.com/api");
    assert_eq!(c.api_key(), "agk_test");
}

#[test]
fn base_url_trailing_slashes_are_removed() {
    let c = AgentGenClient::with_base_url("k".to_string(), "http://localhost:3000/api///".to_string());
    assert_eq!(c.base_url(), "http://localhost:3000/api");
    let d = AgentGenClient::with_base_url("k".to_string(), "http://localhost:3000/api".to_string());
    assert_eq!(d.base_url(), "http://localhost:3000/api");
    let e = AgentGenClient::with_base_url("k".to_string(), "///".to_string());
    assert_eq!(e.base_url(), "");
}

#[test]
fn balance_request() {
    let c = AgentGenClient::with_base_url("agk_1".to_string(), "http://h/api/".to_string());
    let r = c.get_balance_request();
    assert_eq!(r.method, HttpMethod::Get);
    assert_eq!(r.url, "http://h/api/v1/balance");
    assert_eq!(r.headers, vec![key_header("agk_1")]);
    assert_eq!(r.body, RequestBody::Empty);
}

#[test]
fn image_request() {
    let c = AgentGenClient::new("agk_1".to_string());
    let r = c.generate_image_request("{\"html\":\"<h1>Hi</h1>\"}".to_string());
    assert_eq!(r.method, HttpMethod::Post);
    assert_eq!(r.url, "https://www.agent-gen.com/api/v1/generate/image");
    assert_eq!(r.headers, vec![key_header("agk_1")]);
    assert_eq!(r.body, RequestBody::Json("{\"html\":\"<h1>Hi</h1>\"}".to_string()));
}

#[test]
fn origin_requests() {
    let c = AgentGenClient::with_base_url("agk_2".to_string(), "http://h".to_string());
    let r = c.create_origin_request();
    assert_eq!(r.method, HttpMethod::Post);
    assert_eq!(r.url, "http://h/v1/origin");
    assert_eq!(r.body, RequestBody::Empty);
    let p = c.upload_origin_public_key_request("abc123", "-----BEGIN PUBLIC KEY-----\n");
    assert_eq!(p.method, HttpMethod::Post);
    assert_eq!(p.url, "http://h/v1/origin/abc123/public-key");
    assert_eq!(
        p.headers,
        vec![key_header("agk_2"), ("Content-Type".to_string(), "text/plain".to_string())]
    );
    assert_eq!(p.body, RequestBody::Text("-----BEGIN PUBLIC KEY-----\n".to_string()));
}

#[test]
fn upload_request_and_file_name() {
    let c = AgentGenClient::with_base_url("k".to_string(), "http://h".to_string());
    let name = upload_file_name(Some("logo.png"));
    assert_eq!(name, "logo.png");
    let r = c.upload_temp_request(name, vec![1, 2, 3]);
    assert_eq!(r.url, "http://h/v1/upload/temp");
    assert_eq!(
        r.body,
        RequestBody::Multipart {
            field: "file".to_string(),
            file_name: "logo.png".to_string(),
            bytes: vec![1, 2, 3]
        }
    );
    assert_eq!(upload_file_name(None), "upload");
    assert_eq!(upload_file_name(Some("notes.txt")), "notes.txt");
}

#[test]
fn member_is_added_last() {
    assert_eq!(add_member("{\"a\":1}", "\"b\":2"), "{\"a\":1,\"b\":2}");
    assert_eq!(add_member("{}", "\"b\":2"), "{\"b\":2}");
}

#[test]
fn texts_are_joined_with_commas() {
    assert_eq!(join_with_commas(&vec![]), "");
    assert_eq!(join_with_commas(&vec!["x".to_string()]), "x");
    assert_eq!(join_with_commas(&vec!["x".to_string(), "y".to_string(), "z".to_string()]), "x,y,z");
}

#[test]
fn single_page_pdf_body() {
    let req = GeneratePdfRequest::SinglePage(PdfPage::new("a".to_string()));
    let page = vec!["{\"html\":\"a\"}".to_string()];
    assert_eq!(pdf_request_body(&req, &page, None), "{\"html\":\"a\"}");
    assert_eq!(pdf_request_body(&req, &page, Some(true)), "{\"html\":\"a\",\"optimize\":true}");
    assert_eq!(pdf_request_body(&req, &page, Some(false)), "{\"html\":\"a\",\"optimize\":false}");
}

#[test]
fn multi_page_pdf_body() {
    let req = GeneratePdfRequest::MultiPage {
        pages: vec![PdfPage::new("a".to_string()), PdfPage::new("b".to_string())],
    };
    let pages = vec!["{\"html\":\"a\"}".to_string(), "{\"html\":\"b\"}".to_string()];
    assert_eq!(
        pdf_request_body(&req, &pages, None),
        "{\"pages\":[{\"html\":\"a\"},{\"html\":\"b\"}]}"
    );
    assert_eq!(
        pdf_request_body(&req, &pages, Some(true)),
        "{\"pages\":[{\"html\":\"a\"},{\"html\":\"b\"}],\"optimize\":true}"
    );
    let none = GeneratePdfRequest::MultiPage { pages: vec![] };
    assert_eq!(pdf_request_body(&none, &vec![], None), "{\"pages\":[]}");
}

#[test]
fn pdf_requests() {
    let c = AgentGenClient::with_base_url("k".to_string(), "http://h/".to_string());
    let req = GeneratePdfRequest::SinglePage(PdfPage::new("a".to_string()));
    let page = vec!["{\"html\":\"a\"}".to_string()];
    let r = c.generate_pdf_request(&req, &page);
    assert_eq!(r.url, "http://h/v1/generate/pdf");
    assert_eq!(r.method, HttpMethod::Post);
    assert_eq!(r.headers, vec![key_header("k")]);
    assert_eq!(r.body, RequestBody::Json("{\"html\":\"a\"}".to_string()));
    let o = c.generate_pdf_with_optimize_request(&req, &page, Some(false));
    assert_eq!(o.body, RequestBody::Json("{\"html\":\"a\",\"optimize\":false}".to_string()));
}
