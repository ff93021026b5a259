use yamaha_rcp::{extract_header, extract_host_port, extract_path, extract_xml};

#[test]
fn header_found_in_any_case() {
    let text = "HTTP/1.1 200 OK\r\nCache-Control: max-age=1800\r\nLocation: http://10.0.0.5:49154/desc.xml\r\nST: upnp:rootdevice\r\n\r\n";
    assert_eq!(
        extract_header(text, "LOCATION"),
        Some("http://10.0.0.5:49154/desc.xml".to_string())
    );
    assert_eq!(
        extract_header(text, "location"),
        Some("http://10.0.0.5:49154/desc.xml".to_string())
    );
    let upper = "LOCATION: value";
    assert_eq!(extract_header(upper, "x-none"), None);
    assert_eq!(extract_header("X: value", "x"), Some("value".to_string()));
    assert_eq!(extract_header("x: value", "X"), Some("value".to_string()));
}

#[test]
fn header_absent_gives_none() {
    let text = "HTTP/1.1 200 OK\r\nST: ssdp:all\r\nUSN: uuid:1\r\n\r\n";
    assert_eq!(extract_header(text, "LOCATION"), None);
    assert_eq!(extract_header("", "LOCATION"), None);
}

#[test]
fn header_line_without_colon_is_skipped() {
    let text = "LOCATION is missing here\nLOCATION: http://a/b\n";
    assert_eq!(extract_header(text, "location"), Some("http://a/b".to_string()));
}

#[test]
fn header_value_is_trimmed_and_first_match_wins() {
    let text = "  location:   http://first/x  \r\nLOCATION: http://second/y\r\n";
    assert_eq!(extract_header(text, "LOCATION"), Some("http://first/x".to_string()));
}

#[test]
fn header_value_keeps_later_colons() {
    let text = "Location: http://10.0.0.5:80/d.xml";
    assert_eq!(
        extract_header(text, "location"),
        Some("http://10.0.0.5:80/d.xml".to_string())
    );
}

#[test]
fn tag_text_found() {
    assert_eq!(extract_xml("<a>hello</a>", "a"), Some("hello".to_string()));
}

#[test]
fn tag_missing_close_gives_none() {
    assert_eq!(extract_xml("<a>hello", "a"), None);
}

#[test]
fn tag_of_other_name_gives_none() {
    assert_eq!(extract_xml("<b>x</b>", "a"), None);
}

#[test]
fn tag_text_is_trimmed_and_first_taken() {
    let doc = "<root><friendlyName>  Living Room \n</friendlyName><friendlyName>Other</friendlyName></root>";
    assert_eq!(extract_xml(doc, "friendlyName"), Some("Living Room".to_string()));
}

#[test]
fn tag_close_before_open_gives_none() {
    assert_eq!(extract_xml("</a>text<a>", "a"), None);
}

#[test]
fn location_url_with_path() {
    let url = "http://10.0.0.5:49154/desc.xml";
    assert_eq!(extract_host_port(url), Some("10.0.0.5:49154".to_string()));
    assert_eq!(extract_path(url), Some("/desc.xml".to_string()));
}

#[test]
fn location_url_without_path() {
    let url = "http://10.0.0.5";
    assert_eq!(extract_host_port(url), Some("10.0.0.5".to_string()));
    assert_eq!(extract_path(url), Some("/".to_string()));
}

#[test]
fn location_url_with_nested_path() {
    let url = "http://host:8080/a/b/c.xml";
    assert_eq!(extract_host_port(url), Some("host:8080".to_string()));
    assert_eq!(extract_path(url), Some("/a/b/c.xml".to_string()));
}

#[test]
fn location_url_without_scheme() {
    assert_eq!(extract_host_port("10.0.0.5/desc.xml"), None);
    assert_eq!(extract_path("10.0.0.5/desc.xml"), None);
}

#[test]
fn header_trims_unicode_whitespace_like_str_trim() {
    let text = "\u{a0}Location:\u{3000} http://a/b \u{2009}\u{85}";
    assert_eq!(extract_header(text, "location"), Some("http://a/b".to_string()));
    for c in ['\u{1680}', '\u{2000}', '\u{200a}', '\u{2028}', '\u{202f}', '\u{205f}', '\u{b}', '\u{c}'] {
        let line = format!("{}X:{}v{}", c, c, c);
        assert_eq!(extract_header(&line, "x"), Some(line.trim()[2..].trim().to_string()));
    }
    let not_space = "X: v\u{200b}";
    assert_eq!(extract_header(not_space, "x"), Some("v\u{200b}".to_string()));
}

#[test]
fn header_without_space_after_colon() {
    assert_eq!(extract_header("Ab\nkEY:value  \r\n", "key"), Some("value".to_string()));
    assert_eq!(extract_header("Key:", "key"), Some(String::new()));
}
