use croak::email::{mx_domain, sort_mx_records, EmailError, MxRecord};

#[test]
fn domain_is_second_at_sign_segment() {
    assert_eq!(mx_domain("user@example.com").ok(), Some("example.com".to_string()));
    assert_eq!(mx_domain("a@b@c").ok(), Some("b".to_string()));
    assert_eq!(mx_domain("a@").ok(), Some("".to_string()));
    for e in ["user@example.com", "a@b@c", "a@", "@x"] {
        assert_eq!(mx_domain(e).ok().as_deref(), e.split('@').nth(1));
    }
    match mx_domain("nobody") {
        Err(e) => {
            assert!(matches!(e, EmailError::InvalidAddress(ref a) if a == "nobody"));
            assert_eq!(e.message(), "Invalid email address: nobody");
        },
        Ok(_) => panic!("address without at sign accepted"),
    }
}

#[test]
fn exchangers_sorted_by_preference() {
    let mx = |p: u16, h: &str| MxRecord { preference: p, exchange: h.to_string() };
    let sorted = sort_mx_records(vec![mx(30, "c"), mx(10, "a"), mx(20, "b")]);
    let prefs: Vec<u16> = sorted.iter().map(|m| m.preference).collect();
    assert_eq!(prefs, vec![10, 20, 30]);
    let hosts: Vec<&str> = sorted.iter().map(|m| m.exchange.as_str()).collect();
    assert_eq!(hosts, vec!["a", "b", "c"]);
    assert!(sort_mx_records(vec![]).is_empty());
}
