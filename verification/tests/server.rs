use static_server::content_type::content_type_for;
use static_server::handler::{plan_response, plan_response_now};
use static_server::headers::{build_headers, current_http_date};
use static_server::paths::{final_candidate, is_contained, join_under_root, resolve_path, split_segments};
use static_server::policy::{decide_status, reason_from_code, should_send_body};
use static_server::request::{parse_request, percent_decode};
use static_server::text::{str_eq, to_lowercase_ascii, u64_to_string};

const DATE: &str = "Thu, 01 Jan 1970 00:00:00 GMT";

#[test]
fn parse_basic_get() {
    let req = parse_request("GET /a/b.html HTTP/1.0\r\n").unwrap();
    assert_eq!(req.method, "GET");
    assert_eq!(req.path, "a/b.html");
}

#[test]
fn parse_root_path_is_empty() {
    let req = parse_request("GET / HTTP/1.0").unwrap();
    assert_eq!(req.method, "GET");
    assert_eq!(req.path, "");
}

#[test]
fn parse_malformed_lines() {
    assert!(parse_request("GET").is_none());
    assert!(parse_request("GET /index.html").is_none());
    assert!(parse_request("").is_none());
}

#[test]
fn parse_strips_query() {
    let req = parse_request("GET /a.html?x=1&y=2 HTTP/1.0").unwrap();
    assert_eq!(req.path, "a.html");
}

#[test]
fn parse_percent_decodes_path() {
    let req = parse_request("GET /a%20b.html HTTP/1.0").unwrap();
    assert_eq!(req.path, "a b.html");
}

#[test]
fn percent_decode_cases() {
    assert_eq!(percent_decode("%41"), "A");
    assert_eq!(percent_decode("a%2Fb"), "a/b");
    assert_eq!(percent_decode("a%2fb"), "a/b");
    assert_eq!(percent_decode("%zz"), "%zz");
    assert_eq!(percent_decode("%4"), "%4");
    assert_eq!(percent_decode("plain"), "plain");
    assert_eq!(percent_decode(""), "");
}

#[test]
fn content_type_known_table() {
    assert_eq!(content_type_for("/srv/a/b.html"), "text/html");
    assert_eq!(content_type_for("style.css"), "text/css");
    assert_eq!(content_type_for("app.js"), "text/javascript");
    assert_eq!(content_type_for("pic.jpg"), "image/jpeg");
    assert_eq!(content_type_for("pic.jpeg"), "image/jpeg");
    assert_eq!(content_type_for("pic.png"), "image/png");
    assert_eq!(content_type_for("anim.gif"), "image/gif");
    assert_eq!(content_type_for("movie.swf"), "application/x-shockwave-flash");
}

#[test]
fn content_type_unknown_or_missing() {
    assert_eq!(content_type_for("notes.txt"), "");
    assert_eq!(content_type_for("Makefile"), "");
    assert_eq!(content_type_for("a.dir/file"), "");
    assert_eq!(content_type_for(""), "");
    assert_eq!(content_type_for("ends.with.dot."), "");
}

#[test]
fn content_type_is_case_insensitive() {
    assert_eq!(content_type_for("PAGE.HTML"), "text/html");
    assert_eq!(content_type_for("Pic.JpEg"), "image/jpeg");
}

#[test]
fn reason_phrases() {
    assert_eq!(reason_from_code(200), "OK");
    assert_eq!(reason_from_code(403), "Forbidden");
    assert_eq!(reason_from_code(404), "Not Found");
    assert_eq!(reason_from_code(405), "Method Not Allowed");
    assert_eq!(reason_from_code(500), "Unknown Code");
}

#[test]
fn status_policy() {
    assert_eq!(decide_status("GET", false, true, true), 200);
    assert_eq!(decide_status("HEAD", false, true, true), 200);
    assert_eq!(decide_status("GET", false, false, false), 404);
    assert_eq!(decide_status("GET", true, false, false), 403);
    assert_eq!(decide_status("GET", false, true, false), 403);
    assert_eq!(decide_status("POST", false, true, true), 405);
    assert_eq!(decide_status("POST", false, false, false), 404);
    assert_eq!(decide_status("POST", false, true, false), 403);
}

#[test]
fn body_policy() {
    assert!(should_send_body("GET", 200));
    assert!(!should_send_body("HEAD", 200));
    assert!(!should_send_body("GET", 404));
    assert!(!should_send_body("POST", 405));
}

#[test]
fn decimal_rendering() {
    assert_eq!(u64_to_string(0), "0");
    assert_eq!(u64_to_string(7), "7");
    assert_eq!(u64_to_string(200), "200");
    assert_eq!(u64_to_string(1234567890), "1234567890");
    assert_eq!(u64_to_string(u64::MAX), "18446744073709551615");
}

#[test]
fn text_helpers() {
    assert!(str_eq("abc", "abc"));
    assert!(!str_eq("abc", "abd"));
    assert!(!str_eq("abc", "ab"));
    assert_eq!(to_lowercase_ascii("HeLLo-7.TXT"), "hello-7.txt");
}

#[test]
fn containment_component_wise() {
    assert!(is_contained("/srv", "/srv"));
    assert!(is_contained("/srv", "/srv/a/b.html"));
    assert!(is_contained("/srv/", "/srv/a"));
    assert!(is_contained("/", "/anything/at/all"));
    assert!(!is_contained("/srv", "/srv2/x"));
    assert!(!is_contained("/srv", "/etc/passwd"));
    assert!(!is_contained("/srv/a", "/srv"));
}

#[test]
fn segments_drop_empty_components() {
    assert_eq!(split_segments("/srv//a/"), vec!["srv".to_string(), "a".to_string()]);
    assert_eq!(split_segments("/"), Vec::<String>::new());
}

#[test]
fn path_joining() {
    assert_eq!(join_under_root("/srv", "a/b.html"), "/srv/a/b.html");
    assert_eq!(join_under_root("/srv", ""), "/srv/");
    assert_eq!(final_candidate("/srv/a", true), "/srv/a/index.html");
    assert_eq!(final_candidate("/srv/a.html", false), "/srv/a.html");
}

#[test]
fn headers_for_ok_response() {
    let h = build_headers(200, 2, "text/html", DATE);
    assert_eq!(
        h,
        "HTTP/1.0 200 OK\r\n\
         Date: Thu, 01 Jan 1970 00:00:00 GMT\r\n\
         Connection: close\r\n\
         Server: rust_static_server\r\n\
         Content-Type: text/html\r\n\
         Content-Length: 2\r\n\
         \r\n"
    );
}

#[test]
fn headers_omit_content_type_when_unknown() {
    let h = build_headers(200, 5, "", DATE);
    assert_eq!(
        h,
        "HTTP/1.0 200 OK\r\n\
         Date: Thu, 01 Jan 1970 00:00:00 GMT\r\n\
         Connection: close\r\n\
         Server: rust_static_server\r\n\
         Content-Length: 5\r\n\
         \r\n"
    );
}

#[test]
fn headers_for_error_response() {
    let h = build_headers(404, 0, "", DATE);
    assert_eq!(
        h,
        "HTTP/1.0 404 Not Found\r\n\
         Date: Thu, 01 Jan 1970 00:00:00 GMT\r\n\
         Connection: close\r\n\
         Server: rust_static_server\r\n\
         \r\n"
    );
}

#[test]
fn resolution_carries_path_only_on_200() {
    let ok = resolve_path("/srv", "/srv/a/b.html", false, true);
    assert_eq!(ok.status, 200);
    assert_eq!(ok.absolute_path.as_deref(), Some("/srv/a/b.html"));
    let escaped = resolve_path("/srv", "/etc/passwd", false, true);
    assert_eq!(escaped.status, 403);
    assert!(escaped.absolute_path.is_none());
    let missing = resolve_path("/srv", "", false, false);
    assert_eq!(missing.status, 404);
    assert!(missing.absolute_path.is_none());
    let no_index = resolve_path("/srv", "", true, false);
    assert_eq!(no_index.status, 403);
    assert!(no_index.absolute_path.is_none());
}

#[test]
fn plan_for_existing_file() {
    let resolution = resolve_path("/srv", "/srv/a/b.html", false, true);
    let plan = plan_response("GET", &resolution, 2, "text/html", DATE);
    assert_eq!(plan.status, 200);
    assert!(plan.send_body);
    assert!(plan.headers.contains("Content-Length: 2\r\n"));
    assert!(plan.headers.contains("Content-Type: text/html\r\n"));
}

#[test]
fn plan_for_head_request() {
    let resolution = resolve_path("/srv", "/srv/style.css", false, true);
    let plan = plan_response("HEAD", &resolution, 5, "text/css", DATE);
    assert_eq!(plan.status, 200);
    assert!(!plan.send_body);
    assert!(plan.headers.contains("Content-Length: 5\r\n"));
}

#[test]
fn plan_for_unsupported_method() {
    let resolution = resolve_path("/srv", "/srv/a/b.html", false, true);
    let plan = plan_response("POST", &resolution, 9, "text/html", DATE);
    assert_eq!(plan.status, 405);
    assert!(!plan.send_body);
    assert!(plan.headers.starts_with("HTTP/1.0 405 Method Not Allowed\r\n"));
    assert!(!plan.headers.contains("Content-Length"));
}

#[test]
fn clock_date_has_http_date_shape() {
    let date = current_http_date();
    assert_eq!(date.len(), 29);
    assert!(date.chars().all(|c| (' '..='~').contains(&c)));
    assert!(httpdate::parse_http_date(&date).is_ok());
}

#[test]
fn plan_with_clock_date_parses_back() {
    let resolution = resolve_path("/srv", "/srv/a/b.html", false, true);
    let plan = plan_response_now("GET", &resolution, 2, "text/html");
    assert_eq!(plan.status, 200);
    let start: usize = plan.headers.find("Date: ").unwrap() + "Date: ".len();
    let date = &plan.headers[start..start + 29];
    assert!(httpdate::parse_http_date(date).is_ok());
}

#[test]
fn scenario_nested_html_file() {
    let req = parse_request("GET /a/b.html HTTP/1.0\r\nHost: x\r\n\r\n").unwrap();
    assert_eq!(req.path, "a/b.html");
    let candidate = join_under_root("/srv", &req.path);
    assert_eq!(candidate, "/srv/a/b.html");
    let adjusted = final_candidate(&candidate, false);
    let resolution = resolve_path("/srv", &adjusted, false, true);
    assert_eq!(resolution.status, 200);
    let ctype = content_type_for(&adjusted);
    assert_eq!(ctype, "text/html");
    let plan = plan_response(&req.method, &resolution, 2, &ctype, DATE);
    assert_eq!(plan.status, 200);
    assert!(plan.send_body);
    assert!(plan.headers.contains("Content-Type: text/html\r\n"));
    assert!(plan.headers.contains("Content-Length: 2\r\n"));
}

#[test]
fn scenario_traversal_escape() {
    let req = parse_request("GET /a/../../etc/passwd HTTP/1.0").unwrap();
    assert_eq!(req.path, "a/../../etc/passwd");
    // The filesystem canonicalizes the joined path to /etc/passwd, which
    // the containment check must reject.
    let resolution = resolve_path("/srv", "/etc/passwd", false, true);
    assert_eq!(resolution.status, 403);
    let plan = plan_response(&req.method, &resolution, 0, "", DATE);
    assert_eq!(plan.status, 403);
    assert!(!plan.send_body);
    assert!(plan.headers.starts_with("HTTP/1.0 403 Forbidden\r\n"));
}

#[test]
fn scenario_directory_without_index() {
    let resolution = resolve_path("/srv", "", true, false);
    let plan = plan_response("GET", &resolution, 0, "", DATE);
    assert_eq!(plan.status, 403);
    assert!(!plan.send_body);
}

#[test]
fn scenario_directory_with_index() {
    let candidate = final_candidate("/srv/docs", true);
    assert_eq!(candidate, "/srv/docs/index.html");
    let resolution = resolve_path("/srv", "/srv/docs/index.html", true, true);
    assert_eq!(resolution.status, 200);
    let ctype = content_type_for(&candidate);
    let plan = plan_response("GET", &resolution, 10, &ctype, DATE);
    assert_eq!(plan.status, 200);
    assert!(plan.send_body);
    assert!(plan.headers.contains("Content-Type: text/html\r\n"));
}
