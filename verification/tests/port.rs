use lobby_server::port::{listen_port, parse_port};

#[test]
fn port_is_read_from_digits() {
    assert_eq!(parse_port("8080"), Some(8080));
    assert_eq!(parse_port("0"), Some(0));
    assert_eq!(parse_port("65535"), Some(65535));
    assert_eq!(parse_port("+443"), Some(443));
    assert_eq!(parse_port("0000000000000000000080"), Some(80));
}

#[test]
fn what_is_not_a_port_is_refused() {
    for text in [
        "", "+", "-", "-1", "-0", "++1", "1+", " 80", "80 ", "8 0", "65536", "99999999999999999999",
        "0x50", "80a", "1_000", "\u{0663}", "65535x", "65536x", "8080\n",
    ] {
        assert_eq!(parse_port(text), None, "{:?}", text);
    }
}

#[test]
fn ports_are_read_as_the_standard_library_reads_them() {
    for n in 0..70000u32 {
        let text = n.to_string();
        assert_eq!(parse_port(&text), text.parse::<u16>().ok());
    }
    for text in ["", "+", "+0", "+65535", "+65536", "007", "-7", "7-", "a", "\u{ff11}"] {
        assert_eq!(parse_port(text), text.parse::<u16>().ok());
    }
}

#[test]
fn default_port_is_for_an_unset_variable_only() {
    assert_eq!(listen_port(None, 9081), Some(9081));
    assert_eq!(listen_port(Some("80"), 9081), Some(80));
    assert_eq!(listen_port(Some(""), 9081), None);
    assert_eq!(listen_port(Some("http"), 9081), None);
}
