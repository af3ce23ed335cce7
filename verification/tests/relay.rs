use clusterflux_coordinator::relay::relay_urls_match;

#[test]
fn relay_policy_accepts_iroh_root_slash_canonicalization_only() {
    assert!(relay_urls_match(
        "https://relay.clusterflux.example",
        "https://relay.clusterflux.example/"
    ));
    assert!(relay_urls_match(
        "https://relay.clusterflux.example/",
        "https://relay.clusterflux.example"
    ));
    assert!(!relay_urls_match(
        "https://relay.clusterflux.example",
        "https://relay.clusterflux.example/other"
    ));
}
