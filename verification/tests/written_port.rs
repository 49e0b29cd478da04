use proxy_router::url_parts::UrlParts;
use proxy_router::written_port::find_written_port;

fn parts(port: Option<u16>) -> UrlParts {
    UrlParts {
        scheme: "https".to_string(),
        host: Some("h".to_string()),
        port,
        username: "u".to_string(),
        password: Some("pw".to_string()),
    }
}

#[test]
fn port_after_the_host_is_read() {
    assert_eq!(find_written_port("https://h:443"), Some(443));
    assert_eq!(find_written_port("http://h:80"), Some(80));
    assert_eq!(find_written_port("socks5://h:1080"), Some(1080));
    assert_eq!(find_written_port("https://u:pw@h:443"), Some(443));
    assert_eq!(find_written_port("https://h:0"), Some(0));
    assert_eq!(find_written_port("https://h:65535"), Some(65535));
}

#[test]
fn port_is_read_whatever_follows_the_authority() {
    assert_eq!(find_written_port("https://h:443/"), Some(443));
    assert_eq!(find_written_port("https://h:443/a/b:1"), Some(443));
    assert_eq!(find_written_port("https://h:443?q=1"), Some(443));
    assert_eq!(find_written_port("https://h:443#top"), Some(443));
    assert_eq!(find_written_port("https://h:443\\a"), Some(443));
    assert_eq!(find_written_port("https://u:pw@h:443/path?q=:1#:2"), Some(443));
}

#[test]
fn port_is_read_after_any_host() {
    assert_eq!(find_written_port("https://[::1]:443"), Some(443));
    assert_eq!(find_written_port("https://[2001:db8::1]:8443/x"), Some(8443));
    assert_eq!(find_written_port("https://10.0.0.7:443"), Some(443));
    assert_eq!(find_written_port("https://h1:443"), Some(443));
    assert_eq!(find_written_port("https://\u{43f}\u{440}\u{438}\u{43c}\u{435}\u{440}.\u{440}\u{444}:443"), Some(443));
    assert_eq!(find_written_port("  https://h:443"), Some(443));
    assert_eq!(find_written_port("HTTPS://H:443"), Some(443));
}

#[test]
fn leading_zeros_do_not_change_the_port() {
    assert_eq!(find_written_port("https://h:0443"), Some(443));
    assert_eq!(find_written_port("https://h:000000000000000000000443"), Some(443));
    assert_eq!(find_written_port("https://h:00"), Some(0));
}

#[test]
fn number_too_large_for_a_port_is_no_port() {
    assert_eq!(find_written_port("https://h:65536"), None);
    assert_eq!(find_written_port("https://h:99999"), None);
    assert_eq!(find_written_port("https://h:4294967296"), None);
    assert_eq!(find_written_port("https://h:99999999999999999999999999"), None);
}

#[test]
fn url_without_port_writes_none() {
    assert_eq!(find_written_port("https://h"), None);
    assert_eq!(find_written_port("https://h/"), None);
    assert_eq!(find_written_port("https://h:"), None);
    assert_eq!(find_written_port("https://h:/"), None);
    assert_eq!(find_written_port("https://u:pw@h"), None);
    assert_eq!(find_written_port("https://u:123@h"), None);
    assert_eq!(find_written_port("https://[::1]"), None);
    assert_eq!(find_written_port("https://10.0.0.7"), None);
    assert_eq!(find_written_port("https://123"), None);
    assert_eq!(find_written_port("https://u@123"), None);
    assert_eq!(find_written_port("https://h:4x3"), None);
    assert_eq!(find_written_port("https://h:-1"), None);
}

#[test]
fn digits_outside_the_authority_are_no_port() {
    assert_eq!(find_written_port("https://h/:443"), None);
    assert_eq!(find_written_port("https://h/a:443"), None);
    assert_eq!(find_written_port("https://h?p=:443"), None);
    assert_eq!(find_written_port("https://h#:443"), None);
    assert_eq!(find_written_port("https://h\\x:443"), None);
}

#[test]
fn text_in_another_form_writes_no_port() {
    assert_eq!(find_written_port(""), None);
    assert_eq!(find_written_port(":"), None);
    assert_eq!(find_written_port("://"), None);
    assert_eq!(find_written_port("h:443"), None);
    assert_eq!(find_written_port("https:h:443"), None);
    assert_eq!(find_written_port("https:/h:443"), None);
    assert_eq!(find_written_port("//h:443"), None);
    assert_eq!(find_written_port("mailto:someone@example.com"), None);
}

#[test]
fn written_port_is_put_back_only_where_none_is_held() {
    assert_eq!(parts(None).with_written_port("https://u:pw@h:443"), parts(Some(443)));
    assert_eq!(parts(None).with_written_port("https://u:pw@h"), parts(None));
    assert_eq!(parts(Some(8443)).with_written_port("https://u:pw@h:443"), parts(Some(8443)));
    assert_eq!(parts(Some(8443)).with_written_port("https://u:pw@h"), parts(Some(8443)));
}
