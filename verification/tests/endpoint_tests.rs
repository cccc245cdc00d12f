use bitcoin_data_mcp::endpoint::{
    decode_variant, resolve, resolve_tag, Backend, BitcoinNetwork, LiquidNetwork, ServiceFamily,
};

#[test]
fn every_backend_has_its_own_address() {
    let all = [
        (Backend::Bitcoin(BitcoinNetwork::Mainnet), "https://blockstream.info/api"),
        (Backend::Bitcoin(BitcoinNetwork::Testnet), "https://blockstream.info/testnet/api"),
        (Backend::Bitcoin(BitcoinNetwork::Signet), "https://blockstream.info/signet/api"),
        (Backend::Liquid(LiquidNetwork::Mainnet), "https://blockstream.info/liquid/api"),
        (Backend::Liquid(LiquidNetwork::Testnet), "https://blockstream.info/liquidtestnet/api"),
    ];
    for (backend, address) in all {
        assert_eq!(resolve(backend), address);
        assert!(!resolve(backend).is_empty());
    }
    for (i, (a, _)) in all.iter().enumerate() {
        for (j, (b, _)) in all.iter().enumerate() {
            if i != j {
                assert_ne!(resolve(*a), resolve(*b));
            }
        }
    }
}

#[test]
fn tags_decode_within_their_family() {
    assert_eq!(
        decode_variant(ServiceFamily::Bitcoin, "mainnet").unwrap(),
        Backend::Bitcoin(BitcoinNetwork::Mainnet)
    );
    assert_eq!(
        decode_variant(ServiceFamily::Bitcoin, "testnet").unwrap(),
        Backend::Bitcoin(BitcoinNetwork::Testnet)
    );
    assert_eq!(
        decode_variant(ServiceFamily::Bitcoin, "signet").unwrap(),
        Backend::Bitcoin(BitcoinNetwork::Signet)
    );
    assert_eq!(
        decode_variant(ServiceFamily::Liquid, "mainnet").unwrap(),
        Backend::Liquid(LiquidNetwork::Mainnet)
    );
    assert_eq!(
        decode_variant(ServiceFamily::Liquid, "testnet").unwrap(),
        Backend::Liquid(LiquidNetwork::Testnet)
    );
}

#[test]
fn a_tag_of_another_family_is_rejected() {
    let e = decode_variant(ServiceFamily::Liquid, "signet").unwrap_err();
    assert_eq!(e.family, ServiceFamily::Liquid);
    assert_eq!(e.tag, "signet");
}

#[test]
fn an_unknown_tag_is_rejected() {
    for family in [ServiceFamily::Bitcoin, ServiceFamily::Liquid] {
        for tag in ["", "Mainnet", "mainnet ", "regtest", "main"] {
            let e = decode_variant(family, tag).unwrap_err();
            assert_eq!(e.family, family);
            assert_eq!(e.tag, tag);
        }
    }
}

#[test]
fn tags_and_families_round_trip() {
    let all = [
        Backend::Bitcoin(BitcoinNetwork::Mainnet),
        Backend::Bitcoin(BitcoinNetwork::Testnet),
        Backend::Bitcoin(BitcoinNetwork::Signet),
        Backend::Liquid(LiquidNetwork::Mainnet),
        Backend::Liquid(LiquidNetwork::Testnet),
    ];
    for backend in all {
        assert_eq!(decode_variant(backend.family(), backend.tag()).unwrap(), backend);
    }
}

#[test]
fn family_tags_are_listed_in_order() {
    assert_eq!(ServiceFamily::Bitcoin.tags(), vec!["mainnet", "testnet", "signet"]);
    assert_eq!(ServiceFamily::Liquid.tags(), vec!["mainnet", "testnet"]);
    assert_eq!(ServiceFamily::Bitcoin.label(), "bitcoin");
    assert_eq!(ServiceFamily::Liquid.label(), "liquid");
}

#[test]
fn resolve_tag_uses_the_default_without_a_tag() {
    assert_eq!(
        resolve_tag(ServiceFamily::Bitcoin, None).unwrap(),
        "https://blockstream.info/api"
    );
    assert_eq!(
        resolve_tag(ServiceFamily::Liquid, None).unwrap(),
        "https://blockstream.info/liquid/api"
    );
    assert_eq!(
        ServiceFamily::Bitcoin.default_variant(),
        Backend::Bitcoin(BitcoinNetwork::Mainnet)
    );
    assert_eq!(
        ServiceFamily::Liquid.default_variant(),
        Backend::Liquid(LiquidNetwork::Mainnet)
    );
}

#[test]
fn resolve_tag_follows_the_tag() {
    assert_eq!(
        resolve_tag(ServiceFamily::Bitcoin, Some("signet")).unwrap(),
        "https://blockstream.info/signet/api"
    );
    assert_eq!(
        resolve_tag(ServiceFamily::Liquid, Some("testnet")).unwrap(),
        "https://blockstream.info/liquidtestnet/api"
    );
}

#[test]
fn resolve_tag_never_substitutes_an_address() {
    let e = resolve_tag(ServiceFamily::Liquid, Some("signet")).unwrap_err();
    assert_eq!(e.family, ServiceFamily::Liquid);
    assert_eq!(e.tag, "signet");
    let f = e.into_failure();
    assert_eq!(f.message, "Invalid parameters: unsupported network `signet` for liquid");
    let e = resolve_tag(ServiceFamily::Bitcoin, Some("liquid")).unwrap_err();
    assert_eq!(
        e.into_failure().message,
        "Invalid parameters: unsupported network `liquid` for bitcoin"
    );
}
