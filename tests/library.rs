use headers::method::{get_method, HttpMethod, MethodFlags};
use headers::render::{column_width, header_line, pad_name, print_headers, value_text, Header};
use headers::request::request_spec;
use headers::url::{check_proto, starts_with};

fn no_flags() -> MethodFlags {
    MethodFlags {
        get: false,
        post: false,
        put: false,
        delete: false,
        patch: false,
        options: false,
        trace: false,
        head: false,
    }
}

fn header(name: &str, value: &str) -> Header {
    Header { name: name.to_string(), value: value.as_bytes().to_vec() }
}

#[test]
fn bare_host_gets_https() {
    assert_eq!(check_proto(&"example.com".to_string()), "https://example.com");
}

#[test]
fn http_url_unchanged() {
    assert_eq!(check_proto(&"http://example.com/a".to_string()), "http://example.com/a");
}

#[test]
fn https_url_unchanged() {
    assert_eq!(check_proto(&"https://example.com".to_string()), "https://example.com");
}

#[test]
fn empty_target_gets_https() {
    assert_eq!(check_proto(&String::new()), "https://");
}

#[test]
fn scheme_check_is_case_sensitive() {
    assert_eq!(check_proto(&"HTTP://x".to_string()), "https://HTTP://x");
    assert_eq!(check_proto(&"ftp://x".to_string()), "https://ftp://x");
    assert_eq!(check_proto(&"http:/x".to_string()), "https://http:/x");
}

#[test]
fn prefix_check() {
    assert!(starts_with("https://a", "https://"));
    assert!(!starts_with("http", "http://"));
    assert!(starts_with("abc", ""));
}

#[test]
fn no_flag_gives_head() {
    assert_eq!(get_method(&no_flags()), Some(HttpMethod::Head));
}

#[test]
fn each_single_flag_gives_its_method() {
    let cases: Vec<(fn(&mut MethodFlags), HttpMethod)> = vec![
        (|f| f.get = true, HttpMethod::Get),
        (|f| f.post = true, HttpMethod::Post),
        (|f| f.put = true, HttpMethod::Put),
        (|f| f.delete = true, HttpMethod::Delete),
        (|f| f.patch = true, HttpMethod::Patch),
        (|f| f.options = true, HttpMethod::Options),
        (|f| f.trace = true, HttpMethod::Trace),
        (|f| f.head = true, HttpMethod::Head),
    ];
    for (set, m) in cases {
        let mut f = no_flags();
        set(&mut f);
        assert_eq!(get_method(&f), Some(m));
    }
}

#[test]
fn post_and_get_together_refused() {
    let mut f = no_flags();
    f.post = true;
    f.get = true;
    assert_eq!(get_method(&f), None);
    assert!(request_spec(&"example.com".to_string(), &f).is_none());
}

#[test]
fn method_names() {
    assert_eq!(HttpMethod::Get.as_str(), "GET");
    assert_eq!(HttpMethod::Options.as_str(), "OPTIONS");
    assert_eq!(HttpMethod::Head.as_str(), "HEAD");
}

#[test]
fn example_request() {
    let q = request_spec(&"example.com".to_string(), &no_flags()).unwrap();
    assert_eq!(q.url, "https://example.com");
    assert_eq!(q.method, HttpMethod::Head);
}

#[test]
fn width_is_longest_name_plus_three() {
    let hs = vec![header("content-type", "text/html"), header("x-id", "42")];
    assert_eq!(column_width(&hs), 15);
    assert_eq!(column_width(&Vec::new()), 3);
}

#[test]
fn example_rendering() {
    let hs = vec![header("Content-Type", "text/html"), header("X-Id", "42")];
    let r = print_headers(&hs);
    assert!(r.complete);
    assert_eq!(r.lines.len(), 2);
    assert_eq!(r.lines[0].name, "CONTENT-TYPE   ");
    assert_eq!(r.lines[0].value, "text/html");
    assert_eq!(r.lines[1].name, "X-ID           ");
    assert_eq!(r.lines[1].value, "42");
    assert!(r.lines.iter().all(|l| l.name.len() == 15));
}

#[test]
fn duplicates_and_order_kept() {
    let hs = vec![
        header("set-cookie", "a=1"),
        header("date", "today"),
        header("set-cookie", "b=2"),
    ];
    let r = print_headers(&hs);
    assert!(r.complete);
    let got: Vec<(String, String)> =
        r.lines.iter().map(|l| (l.name.clone(), l.value.clone())).collect();
    assert_eq!(
        got,
        vec![
            ("SET-COOKIE   ".to_string(), "a=1".to_string()),
            ("DATE         ".to_string(), "today".to_string()),
            ("SET-COOKIE   ".to_string(), "b=2".to_string()),
        ]
    );
}

#[test]
fn empty_block() {
    let r = print_headers(&Vec::new());
    assert!(r.complete);
    assert!(r.lines.is_empty());
}

#[test]
fn rendering_stops_at_undecodable_value() {
    let hs = vec![
        header("a", "ok"),
        Header { name: "b".to_string(), value: vec![0xff, 0x41] },
        header("c", "never"),
    ];
    let r = print_headers(&hs);
    assert!(!r.complete);
    assert_eq!(r.lines.len(), 1);
    assert_eq!(r.lines[0].name, "A   ");
}

#[test]
fn value_text_accepts_visible_ascii_and_tab() {
    assert_eq!(value_text(&b"a b\tc~".to_vec()), Some("a b\tc~".to_string()));
    assert_eq!(value_text(&Vec::new()), Some(String::new()));
    assert_eq!(value_text(&vec![0x7f]), None);
    assert_eq!(value_text(&vec![0x0a]), None);
    assert_eq!(value_text(&vec![0xc3, 0xa9]), None);
}

#[test]
fn pad_keeps_long_names_whole() {
    assert_eq!(pad_name(&"abc".to_string(), 5), "abc  ");
    assert_eq!(pad_name(&"abcdef".to_string(), 3), "abcdef");
    assert_eq!(pad_name(&"abc".to_string(), 3), "abc");
}

#[test]
fn header_line_uses_given_name() {
    let l = header_line(&"X-ID".to_string(), &b"42".to_vec(), 7).unwrap();
    assert_eq!(l.name, "X-ID   ");
    assert_eq!(l.value, "42");
    assert!(header_line(&"X".to_string(), &vec![1], 4).is_none());
}
