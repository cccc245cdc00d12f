//! The catalog of this server: four lookups, a transaction and a block for
//! each of the two families.

use crate::backend::{shape_of, Handler, Resource};
use crate::endpoint::ServiceFamily;
use crate::registry::{
    first_repeat_at, registry_ok, tools_view, Registry, ToolDefinition, ToolView,
};
use crate::schema::schema_of;
use vstd::prelude::*;

verus! {

/// A tool of the catalog, with the schema generated for its handler.
pub open spec fn catalog_tool(name: Seq<char>, description: Seq<char>, handler: Handler) -> ToolView {
    ToolView { name, description, schema: schema_of(shape_of(handler)), handler }
}

/// The tools of the catalog, in the order in which they are listed.
pub open spec fn standard_tools() -> Seq<ToolView> {
    seq![
        catalog_tool(
            "get_bitcoin_tx"@,
            "Get a Bitcoin transaction by its txid from the Esplora API. Returns full transaction data including confirmation status and block height."@,
            Handler { family: ServiceFamily::Bitcoin, resource: Resource::Transaction },
        ),
        catalog_tool(
            "get_liquid_tx"@,
            "Get a Liquid transaction by its txid from the Esplora API. Returns full transaction data including confirmation status and block height."@,
            Handler { family: ServiceFamily::Liquid, resource: Resource::Transaction },
        ),
        catalog_tool(
            "get_bitcoin_block"@,
            "Get a Bitcoin block by its hash from the Esplora API. Returns block data including height, timestamp, tx_count, size, and weight."@,
            Handler { family: ServiceFamily::Bitcoin, resource: Resource::Block },
        ),
        catalog_tool(
            "get_liquid_block"@,
            "Get a Liquid block by its hash from the Esplora API. Returns block data including height, timestamp, tx_count, size, and weight."@,
            Handler { family: ServiceFamily::Liquid, resource: Resource::Block },
        ),
    ]
}

/// The catalog can stand in a registry: its four names differ, and every
/// schema is the one generated for the tool's handler.
pub proof fn lemma_standard_tools_ok()
    ensures
        registry_ok(standard_tools()),
        standard_tools().len() == 4,
{
    reveal_strlit("get_bitcoin_tx");
    reveal_strlit("get_liquid_tx");
    reveal_strlit("get_bitcoin_block");
    reveal_strlit("get_liquid_block");
    let tools = standard_tools();
    assert(tools[0].name.len() == 14);
    assert(tools[1].name.len() == 13);
    assert(tools[2].name.len() == 17);
    assert(tools[3].name.len() == 16);
}

impl Registry {
    /// The registry of this server's catalog.
    pub fn standard() -> (r: Registry)
        ensures
            r@ == standard_tools(),
            registry_ok(r@),
    {
        let bitcoin_tx = ToolDefinition::new(
            "get_bitcoin_tx",
            "Get a Bitcoin transaction by its txid from the Esplora API. Returns full transaction data including confirmation status and block height.",
            Handler { family: ServiceFamily::Bitcoin, resource: Resource::Transaction },
        );
        let liquid_tx = ToolDefinition::new(
            "get_liquid_tx",
            "Get a Liquid transaction by its txid from the Esplora API. Returns full transaction data including confirmation status and block height.",
            Handler { family: ServiceFamily::Liquid, resource: Resource::Transaction },
        );
        let bitcoin_block = ToolDefinition::new(
            "get_bitcoin_block",
            "Get a Bitcoin block by its hash from the Esplora API. Returns block data including height, timestamp, tx_count, size, and weight.",
            Handler { family: ServiceFamily::Bitcoin, resource: Resource::Block },
        );
        let liquid_block = ToolDefinition::new(
            "get_liquid_block",
            "Get a Liquid block by its hash from the Esplora API. Returns block data including height, timestamp, tx_count, size, and weight.",
            Handler { family: ServiceFamily::Liquid, resource: Resource::Block },
        );
        let mut definitions: Vec<ToolDefinition> = Vec::new();
        definitions.push(bitcoin_tx);
        definitions.push(liquid_tx);
        definitions.push(bitcoin_block);
        definitions.push(liquid_block);
        proof {
            assert(tools_view(definitions@) =~= standard_tools());
            lemma_standard_tools_ok();
        }
        match Registry::build(definitions) {
            Ok(registry) => registry,
            Err(_) => {
                proof {
                    let tools = standard_tools();
                    let j = choose|j: int| first_repeat_at(tools, j);
                    let i = choose|i: int| 0 <= i < j && (#[trigger] tools[i]).name == tools[j].name;
                    assert(tools[i].name != tools[j].name);
                }
                unreached()
            },
        }
    }
}

} // verus!
