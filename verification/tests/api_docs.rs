use counter_service::docs::api_info;
use counter_service::docs::api_servers;
use counter_service::docs::route_docs;

#[test]
fn the_api_describes_itself() {
    let info = api_info();
    assert_eq!(info.title, "The best counter API ever");
    assert_eq!(info.description, "This is the best API every, please use me!");
    assert_eq!(info.terms_of_service, "https://github.com/GREsau/okapi/blob/master/LICENSE");
    assert_eq!(info.contact_name, "Dilec Padovani");
    assert_eq!(info.contact_url, "https://github.com/DILECPEDO");
    assert_eq!(info.contact_email, "test@test.com");
    assert_eq!(info.license_name, "MIT");
    assert_eq!(info.license_url, "https://github.com/GREsau/okapi/blob/master/LICENSE");
    assert_eq!(info.version, "0.1.0");
}

#[test]
fn two_servers_are_documented() {
    let servers = api_servers();
    assert_eq!(servers.len(), 2);
    assert_eq!(servers[0].url, "http://127.0.0.1:8000/");
    assert_eq!(servers[0].description, "Localhost");
    assert_eq!(servers[1].url, "https://example.com/");
    assert_eq!(servers[1].description, "Production Remote");
}

#[test]
fn the_routing_table_is_documented_entry_for_entry() {
    let docs = route_docs();
    assert_eq!(docs.len(), 4);
    let entries: Vec<(&str, &str, &str)> = docs
        .iter()
        .map(|d| (d.method.as_str(), d.pattern.as_str(), d.tag.as_str()))
        .collect();
    assert_eq!(entries[0], ("GET", "/", "Home"));
    assert_eq!(entries[1], ("GET", "/add/<name>/<number>", "Counters"));
    assert_eq!(entries[2], ("GET", "/subtract/<name>/<number>", "Counters"));
    assert_eq!(entries[3], ("GET", "/status/<name>", "Counters"));
}
