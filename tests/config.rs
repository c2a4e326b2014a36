use portfolio::config::{parse_port, Config};

#[test]
fn ports_parse_as_unsigned_sixteen_bit_numbers() {
    assert_eq!(parse_port("8787"), Some(8787));
    assert_eq!(parse_port("+1965"), Some(1965));
    assert_eq!(parse_port("0080"), Some(80));
    assert_eq!(parse_port("0"), Some(0));
    assert_eq!(parse_port("65535"), Some(65535));
    assert_eq!(parse_port("65536"), None);
    assert_eq!(parse_port("99999999999"), None);
    assert_eq!(parse_port("-1"), None);
    assert_eq!(parse_port(""), None);
    assert_eq!(parse_port("+"), None);
    assert_eq!(parse_port(" 80"), None);
    assert_eq!(parse_port("80a"), None);
    assert_eq!(parse_port("١٢"), None);
    for s in ["1", "443", "+7", "65535", "65536", "-0", "1e3", ""] {
        assert_eq!(parse_port(s), s.parse::<u16>().ok(), "{s}");
    }
}

#[test]
fn settings_fall_back_to_defaults() {
    let c = Config::from_values(None, None, None, None);
    assert_eq!(c.gemini_hostname, "average.name");
    assert_eq!(c.gemini_certs_dir.as_deref(), Some(".certs"));
    assert_eq!(c.gemini_port, 1965);
    assert_eq!(c.http_port, 8787);
    assert_eq!(c.http_address, [0, 0, 0, 0]);

    let c = Config::from_values(Some("example.org"), Some("/etc/certs"), Some("1966"), Some("not a port"));
    assert_eq!(c.gemini_hostname, "example.org");
    assert_eq!(c.gemini_certs_dir.as_deref(), Some("/etc/certs"));
    assert_eq!(c.gemini_port, 1966);
    assert_eq!(c.http_port, 8787);
}
