//! The answer to a request.

use vstd::prelude::*;
use crate::config::{resolved, Config, Environment, EnvironmentView};
use crate::page::{page, template_of, IndexTemplate};
use crate::remote::{classify, PeerIp, PeerIpView, RemoteAddr};

verus! {

/// One header line of a response.
#[derive(Debug, Clone, PartialEq, Eq)]
pub struct Header {
    pub name: String,
    pub value: String,
}

/// A response: its status, its headers in order, and its body.
#[derive(Debug, Clone, PartialEq, Eq)]
pub struct Response {
    pub status: u16,
    pub headers: Vec<Header>,
    pub body: String,
}

/// What a [`Response`] stands for; a header is its name and its value.
pub ghost struct ResponseView {
    pub status: u16,
    pub headers: Seq<(Seq<char>, Seq<char>)>,
    pub body: Seq<char>,
}

impl View for Response {
    type V = ResponseView;

    open spec fn view(&self) -> ResponseView {
        ResponseView {
            status: self.status,
            headers: Seq::new(
                self.headers@.len(),
                |i: int| (self.headers@[i].name@, self.headers@[i].value@),
            ),
            body: self.body@,
        }
    }
}

/// The response that carries a page: status 200, the one header
/// `Content-Type: text/html`, and the page as its body.
pub open spec fn html_response(body: Seq<char>) -> ResponseView {
    ResponseView { status: 200, headers: seq![("Content-Type"@, "text/html"@)], body }
}

/// The answer to any request of a peer under an environment: the page for
/// that peer and the configuration that the environment resolves to.
pub open spec fn answer_of(
    peer: PeerIpView,
    env: EnvironmentView,
    pkg_name: Seq<char>,
    pkg_version: Seq<char>,
) -> ResponseView {
    html_response(page(template_of(classify(peer), resolved(env), pkg_name, pkg_version)))
}

impl Response {
    /// The response that carries a page.
    pub fn html(body: String) -> (response: Response)
        ensures
            response@ == html_response(body@),
    {
        let mut headers: Vec<Header> = Vec::new();
        headers.push(
            Header { name: String::from_str("Content-Type"), value: String::from_str("text/html") },
        );
        let response = Response { status: 200, headers, body };
        assert(response@.headers =~= seq![("Content-Type"@, "text/html"@)]);
        response
    }
}

/// Answers a request. The configuration is resolved anew from `env`, the
/// peer is classified, and the page is rendered. The request itself is no
/// input: its method, path and body change nothing.
pub fn respond(
    peer: PeerIp,
    env: Environment,
    pkg_name: &str,
    pkg_version: &str,
) -> (response: Response)
    ensures
        response@ == answer_of(peer@, env@, pkg_name@, pkg_version@),
        response@.status == 200,
        response@.headers == seq![("Content-Type"@, "text/html"@)],
{
    let remote_address = RemoteAddr::from(peer);
    let config = Config::resolve(env);
    let template = IndexTemplate::new(remote_address, config, pkg_name, pkg_version);
    Response::html(template.render())
}

} // verus!
