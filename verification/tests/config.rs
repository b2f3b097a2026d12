use apqp::config::{parse_port, Config, PortError};

#[test]
fn defaults() {
    let c = Config::from_values(None, None, None, None, None).unwrap();
    assert_eq!(c.surreal_url, "ws://localhost:8000");
    assert_eq!(c.surreal_user, "root");
    assert_eq!(c.surreal_pass, "root");
    assert_eq!(c.surreal_ns, "opcaq");
    assert_eq!(c.port, 8081);
}

#[test]
fn given_values() {
    let c = Config::from_values(Some("ws://db:8000".into()), Some("u".into()), Some("p".into()), Some("n".into()), Some("9000".into())).unwrap();
    assert_eq!((c.surreal_url.as_str(), c.surreal_user.as_str(), c.port), ("ws://db:8000", "u", 9000));
    assert_eq!(Config::from_values(None, None, None, None, Some("x".into())).unwrap_err(), PortError::InvalidDigit);
}

#[test]
fn ports_parse_like_std() {
    for s in ["0", "80", "+80", "65535", "65536", "", "+", "-1", "8x", "00080", "99999999999", "１"] {
        let mine = parse_port(s);
        let std = s.parse::<u16>();
        match (mine, std) {
            (Ok(a), Ok(b)) => assert_eq!(a, b),
            (Err(e), Err(f)) => assert_eq!(e.message(), f.to_string(), "{s}"),
            (m, f) => panic!("{s}: {:?} vs {:?}", m, f),
        }
    }
}
