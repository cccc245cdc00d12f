use bitcoin_data_mcp::backend::{Handler, Resource};
use bitcoin_data_mcp::endpoint::ServiceFamily;
use bitcoin_data_mcp::registry::{Registry, ToolDefinition};

fn handler(family: ServiceFamily, resource: Resource) -> Handler {
    Handler { family, resource }
}

#[test]
fn the_catalog_lists_four_tools_in_order() {
    let registry = Registry::standard();
    assert_eq!(registry.len(), 4);
    let listing = registry.list();
    let names: Vec<&str> = listing.iter().map(|t| t.name.as_str()).collect();
    assert_eq!(
        names,
        vec!["get_bitcoin_tx", "get_liquid_tx", "get_bitcoin_block", "get_liquid_block"]
    );
    assert_eq!(
        listing[0].description,
        "Get a Bitcoin transaction by its txid from the Esplora API. Returns full transaction data including confirmation status and block height."
    );
    assert_eq!(
        listing[1].description,
        "Get a Liquid transaction by its txid from the Esplora API. Returns full transaction data including confirmation status and block height."
    );
    assert_eq!(
        listing[2].description,
        "Get a Bitcoin block by its hash from the Esplora API. Returns block data including height, timestamp, tx_count, size, and weight."
    );
    assert_eq!(
        listing[3].description,
        "Get a Liquid block by its hash from the Esplora API. Returns block data including height, timestamp, tx_count, size, and weight."
    );
}

#[test]
fn a_listing_holds_each_tool_once() {
    let registry = Registry::standard();
    for _ in 0..3 {
        let listing = registry.list();
        assert_eq!(listing.len(), registry.len());
        for i in 0..listing.len() {
            for j in 0..listing.len() {
                if i != j {
                    assert_ne!(listing[i].name, listing[j].name);
                }
            }
        }
    }
    let first: Vec<String> = registry.list().into_iter().map(|t| t.name).collect();
    let second: Vec<String> = registry.list().into_iter().map(|t| t.name).collect();
    assert_eq!(first, second);
}

#[test]
fn every_listed_schema_is_the_tools_own() {
    let registry = Registry::standard();
    for entry in registry.list() {
        let tool = registry.lookup(&entry.name).unwrap();
        assert_eq!(tool.name(), entry.name);
        assert_eq!(tool.description(), entry.description);
        assert_eq!(tool.schema().to_json(), entry.schema.to_json());
        assert_eq!(entry.schema.fields.len(), 2);
        assert!(!entry.schema.to_json().is_empty());
    }
}

#[test]
fn lookup_finds_a_tool_by_its_exact_name() {
    let registry = Registry::standard();
    let tool = registry.lookup("get_liquid_block").unwrap();
    assert_eq!(tool.name(), "get_liquid_block");
    assert_eq!(tool.handler(), handler(ServiceFamily::Liquid, Resource::Block));
    assert_eq!(tool.schema().fields[0].name, "hash");
    let tool = registry.lookup("get_bitcoin_tx").unwrap();
    assert_eq!(tool.handler(), handler(ServiceFamily::Bitcoin, Resource::Transaction));
    assert_eq!(tool.schema().fields[0].name, "txid");
    assert!(registry.lookup("get_bitcoin").is_none());
    assert!(registry.lookup("Get_bitcoin_tx").is_none());
    assert!(registry.lookup("get_bitcoin_tx ").is_none());
    assert!(registry.lookup("").is_none());
}

#[test]
fn building_keeps_the_order_of_the_definitions() {
    let definitions = vec![
        ToolDefinition::new("b", "second letter", handler(ServiceFamily::Liquid, Resource::Block)),
        ToolDefinition::new("a", "first letter", handler(ServiceFamily::Bitcoin, Resource::Block)),
    ];
    let registry = Registry::build(definitions).unwrap();
    let listing = registry.list();
    assert_eq!(listing.len(), 2);
    assert_eq!(listing[0].name, "b");
    assert_eq!(listing[0].description, "second letter");
    assert_eq!(listing[1].name, "a");
    assert_eq!(listing[0].schema.fields[1].allowed.as_ref().unwrap().len(), 2);
    assert_eq!(listing[1].schema.fields[1].allowed.as_ref().unwrap().len(), 3);
}

#[test]
fn building_fails_on_a_repeated_name() {
    let definitions = vec![
        ToolDefinition::new("a", "", handler(ServiceFamily::Bitcoin, Resource::Block)),
        ToolDefinition::new("b", "", handler(ServiceFamily::Bitcoin, Resource::Block)),
        ToolDefinition::new("c", "", handler(ServiceFamily::Bitcoin, Resource::Block)),
        ToolDefinition::new("b", "", handler(ServiceFamily::Liquid, Resource::Transaction)),
        ToolDefinition::new("a", "", handler(ServiceFamily::Liquid, Resource::Transaction)),
    ];
    let e = Registry::build(definitions).unwrap_err();
    assert_eq!(e.name, "b");
}

#[test]
fn an_empty_registry_can_be_built() {
    let registry = Registry::build(Vec::new()).unwrap();
    assert_eq!(registry.len(), 0);
    assert!(registry.list().is_empty());
    assert!(registry.lookup("get_bitcoin_tx").is_none());
}

#[test]
fn a_definition_carries_the_schema_of_its_handler() {
    let tool = ToolDefinition::new(
        "lookup",
        "Looks up.",
        handler(ServiceFamily::Liquid, Resource::Transaction),
    );
    assert_eq!(tool.name(), "lookup");
    assert_eq!(tool.description(), "Looks up.");
    let schema = tool.schema();
    assert_eq!(schema.fields.len(), 2);
    assert_eq!(schema.fields[0].name, "txid");
    assert!(schema.fields[0].required);
    assert_eq!(schema.fields[1].name, "network");
    assert!(!schema.fields[1].required);
    assert_eq!(
        schema.fields[1].allowed,
        Some(vec!["mainnet".to_string(), "testnet".to_string()])
    );
}
