//! The page: the values it shows and the text it is rendered to.

use vstd::prelude::*;
use crate::config::{Config, ConfigView};
use crate::remote::{display, RemoteAddr, RemoteAddrView};
use crate::text::{concat_all, contains, join, lemma_concat_all_contains, views};

verus! {

/// The values that the page shows.
#[derive(Debug, Clone)]
pub struct IndexTemplate {
    pub pkg_name: String,
    pub pkg_version: String,
    pub asn: String,
    pub as_name: String,
    pub router_domain: String,
    pub router_id: String,
    pub address_v4: String,
    pub address_v6: String,
    pub remote_address: RemoteAddr,
}

/// What an [`IndexTemplate`] stands for.
pub ghost struct IndexTemplateView {
    pub pkg_name: Seq<char>,
    pub pkg_version: Seq<char>,
    pub asn: Seq<char>,
    pub as_name: Seq<char>,
    pub router_domain: Seq<char>,
    pub router_id: Seq<char>,
    pub address_v4: Seq<char>,
    pub address_v6: Seq<char>,
    pub remote_address: RemoteAddrView,
}

impl View for IndexTemplate {
    type V = IndexTemplateView;

    open spec fn view(&self) -> IndexTemplateView {
        IndexTemplateView {
            pkg_name: self.pkg_name@,
            pkg_version: self.pkg_version@,
            asn: self.asn@,
            as_name: self.as_name@,
            router_domain: self.router_domain@,
            router_id: self.router_id@,
            address_v4: self.address_v4@,
            address_v6: self.address_v6@,
            remote_address: self.remote_address@,
        }
    }
}

/// The values of the page for a peer, a configuration and the package's
/// name and version. The listen address is not shown.
pub open spec fn template_of(
    remote_address: RemoteAddrView,
    config: ConfigView,
    pkg_name: Seq<char>,
    pkg_version: Seq<char>,
) -> IndexTemplateView {
    IndexTemplateView {
        pkg_name,
        pkg_version,
        asn: config.asn,
        as_name: config.as_name,
        router_domain: config.router_domain,
        router_id: config.router_id,
        address_v4: config.address_v4,
        address_v6: config.address_v6,
        remote_address,
    }
}

/// The page in pieces: fixed text and values in turn, a value at every odd
/// place.
pub open spec fn page_parts(t: IndexTemplateView) -> Seq<Seq<char>> {
    seq![
        "<!DOCTYPE html>\n<html lang=\"en\">\n<head>\n<meta charset=\"utf-8\">\n<title>"@,
        t.router_id,
        "."@,
        t.router_domain,
        "</title>\n</head>\n<body>\n<h1>"@,
        t.router_id,
        "."@,
        t.router_domain,
        "</h1>\n<dl>\n<dt>AS number</dt><dd>"@,
        t.asn,
        "</dd>\n<dt>AS name</dt><dd>"@,
        t.as_name,
        "</dd>\n<dt>Router domain</dt><dd>"@,
        t.router_domain,
        "</dd>\n<dt>Router ID</dt><dd>"@,
        t.router_id,
        "</dd>\n<dt>IPv4 address</dt><dd>"@,
        t.address_v4,
        "</dd>\n<dt>IPv6 address</dt><dd>"@,
        t.address_v6,
        "</dd>\n<dt>Your address</dt><dd>"@,
        display(t.remote_address),
        "</dd>\n</dl>\n<footer>"@,
        t.pkg_name,
        " "@,
        t.pkg_version,
        "</footer>\n</body>\n</html>\n"@,
    ]
}

/// The text of the page.
pub open spec fn page(t: IndexTemplateView) -> Seq<char> {
    concat_all(page_parts(t))
}

impl IndexTemplate {
    /// The values of the page for one request.
    pub fn new(remote_address: RemoteAddr, config: Config, pkg_name: &str, pkg_version: &str) -> (t:
        IndexTemplate)
        ensures
            t@ == template_of(remote_address@, config@, pkg_name@, pkg_version@),
    {
        IndexTemplate {
            pkg_name: String::from_str(pkg_name),
            pkg_version: String::from_str(pkg_version),
            asn: config.asn,
            as_name: config.as_name,
            router_domain: config.router_domain,
            router_id: config.router_id,
            address_v4: config.address_v4,
            address_v6: config.address_v6,
            remote_address,
        }
    }

    /// Renders the page: every value is put into its place as it stands.
    pub fn render(&self) -> (html: String)
        ensures
            html@ == page(self@),
    {
        let remote = self.remote_address.to_string();
        let mut parts: Vec<&str> = Vec::new();
        parts.push("<!DOCTYPE html>\n<html lang=\"en\">\n<head>\n<meta charset=\"utf-8\">\n<title>");
        parts.push(self.router_id.as_str());
        parts.push(".");
        parts.push(self.router_domain.as_str());
        parts.push("</title>\n</head>\n<body>\n<h1>");
        parts.push(self.router_id.as_str());
        parts.push(".");
        parts.push(self.router_domain.as_str());
        parts.push("</h1>\n<dl>\n<dt>AS number</dt><dd>");
        parts.push(self.asn.as_str());
        parts.push("</dd>\n<dt>AS name</dt><dd>");
        parts.push(self.as_name.as_str());
        parts.push("</dd>\n<dt>Router domain</dt><dd>");
        parts.push(self.router_domain.as_str());
        parts.push("</dd>\n<dt>Router ID</dt><dd>");
        parts.push(self.router_id.as_str());
        parts.push("</dd>\n<dt>IPv4 address</dt><dd>");
        parts.push(self.address_v4.as_str());
        parts.push("</dd>\n<dt>IPv6 address</dt><dd>");
        parts.push(self.address_v6.as_str());
        parts.push("</dd>\n<dt>Your address</dt><dd>");
        parts.push(remote.as_str());
        parts.push("</dd>\n</dl>\n<footer>");
        parts.push(self.pkg_name.as_str());
        parts.push(" ");
        parts.push(self.pkg_version.as_str());
        parts.push("</footer>\n</body>\n</html>\n");
        assert(views(parts@) =~= page_parts(self@));
        join(&parts)
    }
}

/// The page holds every value that it is given, character for character:
/// the six settings it shows, the peer's address as it is displayed, and
/// the package's name and version.
pub proof fn lemma_page_contains_values(t: IndexTemplateView)
    ensures
        contains(page(t), t.asn),
        contains(page(t), t.as_name),
        contains(page(t), t.router_domain),
        contains(page(t), t.router_id),
        contains(page(t), t.address_v4),
        contains(page(t), t.address_v6),
        contains(page(t), display(t.remote_address)),
        contains(page(t), t.pkg_name),
        contains(page(t), t.pkg_version),
{
    let parts = page_parts(t);
    lemma_concat_all_contains(parts, 9);
    lemma_concat_all_contains(parts, 11);
    lemma_concat_all_contains(parts, 13);
    lemma_concat_all_contains(parts, 15);
    lemma_concat_all_contains(parts, 17);
    lemma_concat_all_contains(parts, 19);
    lemma_concat_all_contains(parts, 21);
    lemma_concat_all_contains(parts, 23);
    lemma_concat_all_contains(parts, 25);
}

} // verus!
