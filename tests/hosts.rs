use curto::hosts::hosts_match;

#[test]
fn test_hosts_match() {
    assert!(hosts_match("0.0.0.0", "0.0.0.0"));
    assert!(hosts_match("localhost", "0.0.0.0"));
    assert!(hosts_match("127.0.0.1", "0.0.0.0"));
    assert!(hosts_match("localhost", "127.0.0.1"));
    assert!(hosts_match("localhost:7229", "127.0.0.1:7229"));
    assert!(hosts_match("real.site:420", "real.site:420"));

    assert!(!hosts_match("google.com", "bing.com"));
    assert!(!hosts_match("127.0.0.1", "127.0.0.1:7229"));
    assert!(!hosts_match("127.0.0.1:7229", "127.0.0.1"));
    assert!(!hosts_match("localhost:7229", "0.0.0.0:7228"));
    assert!(!hosts_match("localhost", "localhost:722"));
    assert!(!hosts_match("localhost", "crates.io"));
}

#[test]
fn hosts_match_loopback_prefixes_and_ports() {
    assert!(hosts_match("localhost.example:80", "127.0.0.1:80"));
    assert!(hosts_match("", ""));
    assert!(!hosts_match("", "localhost"));
    assert!(!hosts_match("real.site:420", "real.site:421"));
    assert!(!hosts_match("real.site", "localhost"));
    assert!(hosts_match("0.0.0.0:", "localhost:"));
}
