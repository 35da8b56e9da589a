use vstd::prelude::*;
use crate::metrics::{MetricOp, Instrument, Labels, Handler};
use crate::text::str_equal;

verus! {

/// The request methods the scrape service tells apart.
#[derive(Clone, Copy, Debug, PartialEq, Eq, Structural)]
pub enum Method {
    Get,
    Other,
}

/// The pages of the scrape service.
#[derive(Clone, Copy, Debug, PartialEq, Eq, Structural)]
pub enum Page {
    /// `GET /metrics`: the registry in Prometheus text format.
    Metrics,
    /// `GET /`: a greeting.
    Root,
    /// Anything else.
    Missing,
}

/// The body of a reply.
#[derive(Debug)]
pub enum PageBody {
    /// A fixed text.
    Text(String),
    /// Bytes encoded by the metrics exporter.
    Encoded(Vec<u8>),
}

/// A reply of the scrape service.
#[derive(Debug)]
pub struct PageReply {
    pub status: u16,
    pub content_type: Option<String>,
    pub body: PageBody,
}

/// HTTP status of an answered page.
pub const OK: u16 = 200;

/// HTTP status of an unknown page.
pub const NOT_FOUND: u16 = 404;

/// The page a request for `path` with `method` is served.
pub open spec fn spec_route(method: Method, path: Seq<char>) -> Page {
    if method == Method::Get && path == "/metrics"@ {
        Page::Metrics
    } else if method == Method::Get && path == "/"@ {
        Page::Root
    } else {
        Page::Missing
    }
}

/// Only `GET /` is the greeting and only `GET /metrics` the registry; every
/// other method or path, however close to these, is a missing page.
pub proof fn lemma_route_pages(method: Method, path: Seq<char>)
    ensures
        spec_route(method, path) == Page::Root <==> (method == Method::Get && path == "/"@),
        spec_route(method, path) == Page::Metrics <==> (method == Method::Get && path == "/metrics"@),
        spec_route(method, path) == Page::Missing <==> !(method == Method::Get && (path == "/"@
            || path == "/metrics"@)),
{
    reveal_strlit("/");
    reveal_strlit("/metrics");
    assert("/"@.len() != "/metrics"@.len());
}

/// Picks the page for a request: `/metrics` and `/` answer `GET` only.
pub fn route(method: Method, path: &str) -> (p: Page)
    ensures
        p == spec_route(method, path@),
        p == Page::Root <==> (method == Method::Get && path@ == "/"@),
        p == Page::Metrics <==> (method == Method::Get && path@ == "/metrics"@),
        p == Page::Missing <==> !(method == Method::Get && (path@ == "/"@ || path@ == "/metrics"@)),
{
    proof {
        lemma_route_pages(method, path@);
    }
    match method {
        Method::Get => {
            if str_equal(path, "/metrics") {
                Page::Metrics
            } else if str_equal(path, "/") {
                Page::Root
            } else {
                Page::Missing
            }
        },
        Method::Other => Page::Missing,
    }
}

/// The content type of the Prometheus text exposition format.
pub open spec fn spec_text_format() -> Seq<char> {
    "text/plain; version=0.0.4"@
}

/// Reads `prometheus::TEXT_FORMAT`, the value that `TextEncoder::format_type`
/// returns; the crate's source defines it as `"text/plain; version=0.0.4"`.
#[verifier::external_body]
fn prometheus_text_format() -> (s: &'static str)
    ensures
        s@ == spec_text_format(),
{
    prometheus::TEXT_FORMAT
}

/// The metrics page: status 200, the Prometheus text content type, and the
/// registry's text encoding as body.
pub fn metrics_page(encoded: Vec<u8>) -> (r: PageReply)
    ensures
        r.status == OK,
        r.content_type matches Some(t) && t@ == spec_text_format(),
        r.body matches PageBody::Encoded(b) && b@ == encoded@,
{
    let content_type = String::from_str(prometheus_text_format());
    PageReply { status: OK, content_type: Some(content_type), body: PageBody::Encoded(encoded) }
}

/// The pages that need no encoding: `Hello World` with status 200 at the
/// root, `Missing Page` with status 404 elsewhere; neither sets a content type.
pub fn static_page(page: Page) -> (r: PageReply)
    requires
        page != Page::Metrics,
    ensures
        r.content_type is None,
        page == Page::Root ==> r.status == OK,
        page == Page::Root ==> (r.body matches PageBody::Text(t) && t@ == "Hello World"@),
        page == Page::Missing ==> r.status == NOT_FOUND,
        page == Page::Missing ==> (r.body matches PageBody::Text(t) && t@ == "Missing Page"@),
{
    match page {
        Page::Root => PageReply { status: OK, content_type: None, body: PageBody::Text(String::from_str("Hello World")) },
        _ => PageReply { status: NOT_FOUND, content_type: None, body: PageBody::Text(String::from_str("Missing Page")) },
    }
}

/// The measurement the scrape service takes once a reply is ready: the size
/// in bytes of a metrics page, and nothing for the fixed pages.
pub fn scrape_close_ops(reply: &PageReply) -> (ops: Vec<MetricOp>)
    ensures
        reply.body matches PageBody::Encoded(b) ==> ops@ == seq![
            MetricOp::Record {
                instrument: Instrument::HttpResponseSize,
                value: b@.len() as u64,
                labels: Labels::Handler(Handler::All),
            },
        ],
        reply.body is Text ==> ops@.len() == 0,
{
    let mut ops: Vec<MetricOp> = Vec::new();
    match &reply.body {
        PageBody::Encoded(b) => {
            ops.push(MetricOp::Record {
                instrument: Instrument::HttpResponseSize,
                value: b.len() as u64,
                labels: Labels::Handler(Handler::All),
            });
        },
        PageBody::Text(_) => {},
    }
    ops
}

} // verus!
