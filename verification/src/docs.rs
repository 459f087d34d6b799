//! Metadata for the API documentation generator.
//!
//! The generator itself is an external collaborator at the HTTP edge: it
//! renders a machine-readable API description and two browsing UIs. This
//! module holds what it consumes — the service's self-description (title,
//! contact, license, servers) and the routing table's entries — as plain
//! values, each pinned to its exact text.

use vstd::prelude::*;

verus! {

/// The service's self-description, as the API description document shows it.
pub struct ApiInfo {
    pub title: String,
    pub description: String,
    pub terms_of_service: String,
    pub contact_name: String,
    pub contact_url: String,
    pub contact_email: String,
    pub license_name: String,
    pub license_url: String,
    pub version: String,
}

/// One server the documented API is reachable on.
pub struct ApiServer {
    pub url: String,
    pub description: String,
}

/// One entry of the routing table, as the generator documents it: the
/// method, the path pattern with its typed parameters, and the tag the
/// documentation groups it under.
pub struct RouteDoc {
    pub method: String,
    pub pattern: String,
    pub tag: String,
}

/// The self-description served in the API description document.
pub fn api_info() -> (info: ApiInfo)
    ensures
        info.title@ == "The best counter API ever"@,
        info.description@ == "This is the best API every, please use me!"@,
        info.terms_of_service@ == "https://github.com/GREsau/okapi/blob/master/LICENSE"@,
        info.contact_name@ == "Dilec Padovani"@,
        info.contact_url@ == "https://github.com/DILECPEDO"@,
        info.contact_email@ == "test@test.com"@,
        info.license_name@ == "MIT"@,
        info.license_url@ == "https://github.com/GREsau/okapi/blob/master/LICENSE"@,
        info.version@ == "0.1.0"@,
{
    ApiInfo {
        title: "The best counter API ever".to_owned(),
        description: "This is the best API every, please use me!".to_owned(),
        terms_of_service: "https://github.com/GREsau/okapi/blob/master/LICENSE".to_owned(),
        contact_name: "Dilec Padovani".to_owned(),
        contact_url: "https://github.com/DILECPEDO".to_owned(),
        contact_email: "test@test.com".to_owned(),
        license_name: "MIT".to_owned(),
        license_url: "https://github.com/GREsau/okapi/blob/master/LICENSE".to_owned(),
        version: "0.1.0".to_owned(),
    }
}

/// The servers the documented API is reachable on: localhost first, then
/// the production remote.
pub fn api_servers() -> (servers: Vec<ApiServer>)
    ensures
        servers@.len() == 2,
        servers@[0].url@ == "http://127.0.0.1:8000/"@,
        servers@[0].description@ == "Localhost"@,
        servers@[1].url@ == "https://example.com/"@,
        servers@[1].description@ == "Production Remote"@,
{
    let mut servers: Vec<ApiServer> = Vec::new();
    servers.push(
        ApiServer {
            url: "http://127.0.0.1:8000/".to_owned(),
            description: "Localhost".to_owned(),
        },
    );
    servers.push(
        ApiServer {
            url: "https://example.com/".to_owned(),
            description: "Production Remote".to_owned(),
        },
    );
    servers
}

/// The routing table as the documentation shows it: the listing under the
/// `Home` tag, the three counter operations under `Counters`.
pub fn route_docs() -> (docs: Vec<RouteDoc>)
    ensures
        docs@.len() == 4,
        docs@[0].method@ == "GET"@ && docs@[0].pattern@ == "/"@ && docs@[0].tag@ == "Home"@,
        docs@[1].method@ == "GET"@ && docs@[1].pattern@ == "/add/<name>/<number>"@
            && docs@[1].tag@ == "Counters"@,
        docs@[2].method@ == "GET"@ && docs@[2].pattern@ == "/subtract/<name>/<number>"@
            && docs@[2].tag@ == "Counters"@,
        docs@[3].method@ == "GET"@ && docs@[3].pattern@ == "/status/<name>"@
            && docs@[3].tag@ == "Counters"@,
{
    let mut docs: Vec<RouteDoc> = Vec::new();
    docs.push(
        RouteDoc { method: "GET".to_owned(), pattern: "/".to_owned(), tag: "Home".to_owned() },
    );
    docs.push(
        RouteDoc {
            method: "GET".to_owned(),
            pattern: "/add/<name>/<number>".to_owned(),
            tag: "Counters".to_owned(),
        },
    );
    docs.push(
        RouteDoc {
            method: "GET".to_owned(),
            pattern: "/subtract/<name>/<number>".to_owned(),
            tag: "Counters".to_owned(),
        },
    );
    docs.push(
        RouteDoc {
            method: "GET".to_owned(),
            pattern: "/status/<name>".to_owned(),
            tag: "Counters".to_owned(),
        },
    );
    docs
}

} // verus!
