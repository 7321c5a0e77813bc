use ddns_server::store::{containing_dir, stored_ip};
use ddns_server::text::{parse_u16, trim};

#[test]
fn trim_removes_unicode_whitespace() {
    assert_eq!(trim("  1.2.3.4\r\n"), "1.2.3.4");
    assert_eq!(trim("\u{3000}a b\u{2009}"), "a b");
    assert_eq!(trim(" \t "), "");
    assert_eq!(trim(""), "");
    assert_eq!(stored_ip("1.2.3.4\n"), "1.2.3.4");
}

#[test]
fn parse_u16_like_std() {
    assert_eq!(parse_u16("8080"), Some(8080));
    assert_eq!(parse_u16("+65535"), Some(65535));
    assert_eq!(parse_u16("0007"), Some(7));
    assert_eq!(parse_u16("65536"), None);
    assert_eq!(parse_u16("999999999999"), None);
    assert_eq!(parse_u16(""), None);
    assert_eq!(parse_u16("+"), None);
    assert_eq!(parse_u16("-1"), None);
    assert_eq!(parse_u16(" 80"), None);
    assert_eq!(parse_u16("8o"), None);
}

#[test]
fn containing_dir_of_paths() {
    assert_eq!(containing_dir("/config/ip.conf"), Some(String::from("/config")));
    assert_eq!(containing_dir("data/dir/ip.conf"), Some(String::from("data/dir")));
    assert_eq!(containing_dir("ip.conf"), None);
    assert_eq!(containing_dir("/"), None);
}
