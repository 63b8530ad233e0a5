//! The JSON body of a PDF request, framed from the JSON text of its pages.
//!
//! Each page arrives as the compact JSON object text that serde writes for
//! it (`{` … `}`, no whitespace, and never empty: a page always has `html`);
//! this module places the pages and the optional `optimize` flag into the
//! body that the API expects. `optimize` is added as the last member; JSON
//! gives member order no meaning, so the body is the same object whatever
//! order its members are written in.
use vstd::prelude::*;
use crate::text::{join2, join3};
use crate::types::GeneratePdfRequest;

verus! {

/// The JSON literal of a boolean.
pub open spec fn bool_literal(b: bool) -> Seq<char> {
    if b {
        "true"@
    } else {
        "false"@
    }
}

/// The member `"optimize":<b>`.
pub open spec fn optimize_member(b: bool) -> Seq<char> {
    "\"optimize\":"@ + bool_literal(b)
}

/// The object text `obj` with `member` added as its last member. For the
/// text of a non-empty object this drops the closing `}` and appends
/// `,member}`; a text of two characters or fewer (of object texts, only
/// `{}`) gives the object holding just `member`. Texts that are not JSON
/// objects are outside what this is meant for.
pub open spec fn with_member(obj: Seq<char>, member: Seq<char>) -> Seq<char> {
    if obj.len() <= 2 {
        "{"@ + member + "}"@
    } else {
        obj.subrange(0, obj.len() - 1) + ","@ + member + "}"@
    }
}

/// The texts joined with commas between them.
pub open spec fn join_commas(items: Seq<Seq<char>>) -> Seq<char>
    decreases items.len(),
{
    if items.len() == 0 {
        Seq::empty()
    } else if items.len() == 1 {
        items[0]
    } else {
        join_commas(items.drop_last()) + ","@ + items.last()
    }
}

/// The views of a sequence of strings.
pub open spec fn views(v: Seq<String>) -> Seq<Seq<char>> {
    v.map_values(|s: String| s@)
}

/// Body of a single-page request: the page object, with `optimize` added when given.
pub open spec fn single_page_body(page: Seq<char>, optimize: Option<bool>) -> Seq<char> {
    match optimize {
        Some(b) => with_member(page, optimize_member(b)),
        None => page,
    }
}

/// Body of a multi-page request: `{"pages":[...]}`, with `optimize` added when given.
pub open spec fn multi_page_body(pages: Seq<Seq<char>>, optimize: Option<bool>) -> Seq<char> {
    let tail = match optimize {
        Some(b) => ","@ + optimize_member(b),
        None => Seq::empty(),
    };
    "{\"pages\":["@ + join_commas(pages) + "]"@ + tail + "}"@
}

/// Body of a PDF request whose pages serialise to `page_json`.
pub open spec fn pdf_body(
    request: GeneratePdfRequest,
    page_json: Seq<Seq<char>>,
    optimize: Option<bool>,
) -> Seq<char> {
    match request {
        GeneratePdfRequest::SinglePage(_) => single_page_body(page_json[0], optimize),
        GeneratePdfRequest::MultiPage { .. } => multi_page_body(page_json, optimize),
    }
}

/// Law: without an `optimize` flag the body adds nothing to the pages: one
/// page is sent as its own JSON object, several as `{"pages":[...]}` around
/// their JSON in order, and no `optimize` member is added.
pub proof fn lemma_body_without_optimize(request: GeneratePdfRequest, page_json: Seq<Seq<char>>)
    ensures
        pdf_body(request, page_json, None) == (match request {
            GeneratePdfRequest::SinglePage(_) => page_json[0],
            GeneratePdfRequest::MultiPage { .. } => "{\"pages\":["@ + join_commas(page_json) + "]"@
                + "}"@,
        }),
{
    match request {
        GeneratePdfRequest::SinglePage(_) => {},
        GeneratePdfRequest::MultiPage { .. } => {
            let p = "{\"pages\":["@ + join_commas(page_json) + "]"@;
            assert(p + Seq::<char>::empty() =~= p);
        },
    }
}

/// Law: with an `optimize` flag the body is the body without it plus one last
/// member, `"optimize":` followed by `true` or `false` as the flag is: for
/// several pages it closes the `pages` array and then adds the member; for one
/// page it replaces the object's closing `}` by `,` the member `}` (an object
/// text of at most two characters, `{}`, becomes the object of that member).
pub proof fn lemma_body_optimize_member(pages: Seq<Seq<char>>, page: Seq<char>, b: bool)
    ensures
        multi_page_body(pages, Some(b)) == "{\"pages\":["@ + join_commas(pages) + "]"@ + ","@
            + "\"optimize\":"@ + (if b {
            "true"@
        } else {
            "false"@
        }) + "}"@,
        page.len() > 2 ==> single_page_body(page, Some(b)) == page.subrange(0, page.len() - 1)
            + ","@ + "\"optimize\":"@ + (if b {
            "true"@
        } else {
            "false"@
        }) + "}"@,
        page.len() <= 2 ==> single_page_body(page, Some(b)) == "{"@ + "\"optimize\":"@ + (if b {
            "true"@
        } else {
            "false"@
        }) + "}"@,
        single_page_body(page, None) == page,
        multi_page_body(pages, None) == "{\"pages\":["@ + join_commas(pages) + "]"@ + "}"@,
{
    let lit = if b {
        "true"@
    } else {
        "false"@
    };
    let head = "{\"pages\":["@ + join_commas(pages) + "]"@;
    assert(multi_page_body(pages, Some(b)) =~= head + ","@ + "\"optimize\":"@ + lit + "}"@);
    assert(head + Seq::<char>::empty() =~= head);
    if page.len() > 2 {
        assert(single_page_body(page, Some(b)) =~= page.subrange(0, page.len() - 1) + ","@
            + "\"optimize\":"@ + lit + "}"@);
    } else {
        assert(single_page_body(page, Some(b)) =~= "{"@ + "\"optimize\":"@ + lit + "}"@);
    }
}

/// Law: a list of strings is viewed string by string, in order.
pub proof fn lemma_views(v: Seq<String>, i: int)
    requires
        0 <= i < v.len(),
    ensures
        views(v).len() == v.len(),
        views(v)[i] == v[i]@,
{
}

/// Law: a single-page request's body is built from its one page text and a
/// multi-page request's body from all its page texts.
pub proof fn lemma_pdf_body_by_variant(
    request: GeneratePdfRequest,
    page_json: Seq<Seq<char>>,
    optimize: Option<bool>,
)
    ensures
        request is SinglePage ==> request.page_count() == 1,
        request matches GeneratePdfRequest::MultiPage { pages } ==> request.page_count()
            == pages@.len(),
        request is SinglePage ==> pdf_body(request, page_json, optimize) == single_page_body(
            page_json[0],
            optimize,
        ),
        request is MultiPage ==> pdf_body(request, page_json, optimize) == multi_page_body(
            page_json,
            optimize,
        ),
{
}

/// Law: joining puts the texts in order with one comma between neighbours:
/// nothing for no texts, the text itself for one, and joining two non-empty
/// lists joins their joins with a comma.
pub proof fn lemma_join_commas(s: Seq<Seq<char>>, t: Seq<Seq<char>>)
    ensures
        join_commas(Seq::empty()) == Seq::<char>::empty(),
        s.len() == 1 ==> join_commas(s) == s[0],
        s.len() > 0 && t.len() > 0 ==> join_commas(s + t) == join_commas(s) + ","@ + join_commas(t),
    decreases t.len(),
{
    if s.len() > 0 && t.len() > 0 {
        if t.len() == 1 {
            assert((s + t).drop_last() =~= s);
            assert((s + t).last() == t[0]);
        } else {
            let t1 = t.drop_last();
            lemma_join_commas(s, t1);
            assert((s + t).drop_last() =~= s + t1);
            assert((s + t).last() == t.last());
            assert(join_commas(t) == join_commas(t1) + ","@ + t.last());
            assert(join_commas(s + t) =~= join_commas(s) + ","@ + join_commas(t));
        }
    }
}

/// The member `"optimize":true` or `"optimize":false`.
fn optimize_text(b: bool) -> (r: String)
    ensures
        r@ == optimize_member(b),
{
    if b {
        join2("\"optimize\":", "true")
    } else {
        join2("\"optimize\":", "false")
    }
}

/// Adds `member` as the last member of the object text `obj`.
pub fn add_member(obj: &str, member: &str) -> (r: String)
    ensures
        r@ == with_member(obj@, member@),
{
    let n = obj.unicode_len();
    if n <= 2 {
        join3("{", member, "}")
    } else {
        let mut r = join3(obj.substring_char(0, n - 1), ",", member);
        r.append("}");
        r
    }
}

/// The texts joined with commas between them.
pub fn join_with_commas(items: &Vec<String>) -> (r: String)
    ensures
        r@ == join_commas(views(items@)),
{
    let mut r = String::new();
    let mut i: usize = 0;
    while i < items.len()
        invariant
            i <= items@.len(),
            r@ == join_commas(views(items@).take(i as int)),
        decreases items@.len() - i,
    {
        proof {
            let t = views(items@).take(i + 1);
            assert(t.drop_last() =~= views(items@).take(i as int));
            assert(t.last() == items@[i as int]@);
        }
        if i > 0 {
            r.append(",");
        }
        r.append(items[i].as_str());
        i = i + 1;
    }
    assert(views(items@).take(items@.len() as int) =~= views(items@));
    r
}

/// Body of a single-page request.
pub fn single_page_request_body(page: &str, optimize: Option<bool>) -> (r: String)
    ensures
        r@ == single_page_body(page@, optimize),
{
    match optimize {
        Some(b) => {
            let m = optimize_text(b);
            add_member(page, m.as_str())
        },
        None => String::from_str(page),
    }
}

/// Body of a multi-page request.
pub fn multi_page_request_body(pages: &Vec<String>, optimize: Option<bool>) -> (r: String)
    ensures
        r@ == multi_page_body(views(pages@), optimize),
{
    let joined = join_with_commas(pages);
    let mut r = join3("{\"pages\":[", joined.as_str(), "]");
    match optimize {
        Some(b) => {
            let m = optimize_text(b);
            r.append(",");
            r.append(m.as_str());
        },
        None => {},
    }
    r.append("}");
    r
}

/// Body of a PDF request: `page_json[i]` is the JSON text of the request's
/// `i`-th page (one text for a single page).
pub fn pdf_request_body(
    request: &GeneratePdfRequest,
    page_json: &Vec<String>,
    optimize: Option<bool>,
) -> (r: String)
    requires
        page_json@.len() == request.page_count(),
    ensures
        r@ == pdf_body(*request, views(page_json@), optimize),
{
    match request {
        GeneratePdfRequest::SinglePage(_) => single_page_request_body(
            page_json[0].as_str(),
            optimize,
        ),
        GeneratePdfRequest::MultiPage { .. } => multi_page_request_body(page_json, optimize),
    }
}

} // verus!
