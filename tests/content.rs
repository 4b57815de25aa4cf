use remote_input::http::{
    content_type_for, content_type_for_extension, not_found, ok_head, parse_request_target,
    request_target, resolve_path, CONTENT_ROOT,
};

#[test]
fn request_targets() {
    assert_eq!(parse_request_target("GET /index.html HTTP/1.1\r\nHost: x\r\n\r\n").as_deref(), Some("/index.html"));
    assert_eq!(parse_request_target("GET /").as_deref(), Some("/"));
    assert_eq!(parse_request_target("  GET \t /a.css   HTTP/1.1\n").as_deref(), Some("/a.css"));
    assert_eq!(parse_request_target("POST / HTTP/1.1\r\n"), None);
    assert_eq!(parse_request_target("get / HTTP/1.1\r\n"), None);
    assert_eq!(parse_request_target("GET\r\n/ HTTP/1.1"), None);
    assert_eq!(parse_request_target("GETX / HTTP/1.1"), None);
    assert_eq!(parse_request_target(""), None);
    assert_eq!(parse_request_target("\r\nGET / HTTP/1.1"), None);
}

#[test]
fn request_target_from_bytes() {
    assert_eq!(request_target(b"GET /app.js HTTP/1.1\r\n\r\n").as_deref(), Some("/app.js"));
    assert_eq!(request_target(b"GET /a\xffb HTTP/1.1\r\n").as_deref(), Some("/a\u{FFFD}b"));
    assert_eq!(request_target(b""), None);
}

#[test]
fn paths_are_not_sanitized() {
    assert_eq!(resolve_path("/srv/webapp", "/../../etc/passwd"), "/srv/webapp/../../etc/passwd");
    assert_eq!(resolve_path("/srv/webapp", "/css/site.css"), "/srv/webapp/css/site.css");
    assert_eq!(resolve_path("/srv/webapp", "relative"), "/srv/webapprelative");
}

#[test]
fn root_serves_index_as_html() {
    let full = resolve_path(CONTENT_ROOT, "/");
    assert_eq!(full, "/home/pi/serve-and-ate-rust/webapp/index.html");
    assert_eq!(content_type_for(&full), "text/html");
    assert_eq!(
        ok_head(content_type_for(&full), 42),
        "HTTP/1.1 200 OK\r\nContent-Type: text/html\r\nContent-Length: 42\r\n\
         Access-Control-Allow-Origin: *\r\n\
         Access-Control-Allow-Methods: GET, POST, OPTIONS\r\n\
         Access-Control-Allow-Headers: Content-Type\r\n\r\n"
    );
}

#[test]
fn content_types() {
    let cases = [
        ("/a/b.html", "text/html"),
        ("/style.css", "text/css"),
        ("/app.js", "application/javascript"),
        ("/data.json", "application/json"),
        ("/i.png", "image/png"),
        ("/i.jpg", "image/jpeg"),
        ("/i.jpeg", "image/jpeg"),
        ("/i.gif", "image/gif"),
        ("/i.svg", "image/svg+xml"),
        ("/archive.tar.gz", "text/plain"),
        ("/README", "text/plain"),
        ("/.hidden", "text/plain"),
        ("/dir/..", "text/plain"),
        ("/page.HTML", "text/plain"),
    ];
    for (path, ty) in cases {
        assert_eq!(content_type_for(path), ty, "path {}", path);
    }
    assert_eq!(content_type_for_extension(None), "text/plain");
    assert_eq!(content_type_for_extension(Some("svg")), "image/svg+xml");
}

#[test]
fn missing_file_answer() {
    let r = not_found();
    assert_eq!(
        r,
        "HTTP/1.1 404 NOT FOUND\r\nContent-Length: 13\r\n\
         Access-Control-Allow-Origin: *\r\n\
         Access-Control-Allow-Methods: GET, POST, OPTIONS\r\n\
         Access-Control-Allow-Headers: Content-Type\r\n\r\n404 Not Found"
    );
    let body = r.split("\r\n\r\n").nth(1).unwrap();
    assert_eq!(body, "404 Not Found");
    assert_eq!(body.len(), 13);
}

#[test]
fn ok_head_lengths() {
    assert!(ok_head("image/png", 0).contains("\r\nContent-Length: 0\r\n"));
    assert!(ok_head("image/png", 1048576).contains("\r\nContent-Length: 1048576\r\n"));
}

#[test]
fn unicode_white_space_separates_words() {
    assert_eq!(parse_request_target("GET\u{3000}/x\u{a0}HTTP/1.1").as_deref(), Some("/x"));
    assert_eq!(parse_request_target("GET\u{200b}/x HTTP/1.1"), None);
}
