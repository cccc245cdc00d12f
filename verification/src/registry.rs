//! The tool registry: the fixed catalog of tools, built once and read-only
//! from then on.

use crate::backend::{shape_of, Handler};
use crate::render::{lemma_schema_json_nonempty, schema_json};
use crate::schema::{generate, schema_of, FieldSchemaView, SchemaDoc};
use crate::text::same_text;
use vstd::prelude::*;

verus! {

/// The mathematical value of a tool: its name, its description, its schema
/// document and its binding.
pub struct ToolView {
    pub name: Seq<char>,
    pub description: Seq<char>,
    pub schema: Seq<FieldSchemaView>,
    pub handler: Handler,
}

/// Whether a tool's schema is the one generated from its handler's shape.
pub open spec fn tool_ok(tool: ToolView) -> bool {
    tool.schema == schema_of(shape_of(tool.handler))
}

/// Whether no two tools of a list share a name.
pub open spec fn names_distinct(tools: Seq<ToolView>) -> bool {
    forall|i: int, j: int|
        0 <= i < j < tools.len() ==> (#[trigger] tools[i]).name != (#[trigger] tools[j]).name
}

/// Whether a list of tools can stand in a registry: every schema is the one
/// generated for the tool's handler, and no name occurs twice.
pub open spec fn registry_ok(tools: Seq<ToolView>) -> bool {
    &&& forall|i: int| 0 <= i < tools.len() ==> tool_ok(#[trigger] tools[i])
    &&& names_distinct(tools)
}

/// Whether a list of tools holds one under a name.
pub open spec fn holds_name(tools: Seq<ToolView>, name: Seq<char>) -> bool {
    exists|i: int| 0 <= i < tools.len() && (#[trigger] tools[i]).name == name
}

/// Whether position `i` is the first of a list that holds a tool under a
/// name.
pub open spec fn first_named_at(tools: Seq<ToolView>, name: Seq<char>, i: int) -> bool {
    &&& 0 <= i < tools.len()
    &&& tools[i].name == name
    &&& forall|j: int| 0 <= j < i ==> (#[trigger] tools[j]).name != name
}

/// The tool under a name, if a list holds one.
pub open spec fn find_tool(tools: Seq<ToolView>, name: Seq<char>) -> Option<ToolView> {
    if holds_name(tools, name) {
        Some(tools[choose|i: int| first_named_at(tools, name, i)])
    } else {
        None
    }
}

/// Where position `i` is the first to hold a tool under a name, that tool is
/// the one found under the name.
pub proof fn lemma_find_first(tools: Seq<ToolView>, name: Seq<char>, i: int)
    requires
        first_named_at(tools, name, i),
    ensures
        find_tool(tools, name) == Some(tools[i]),
{
    assert(tools[i].name == name);
    let k = choose|k: int| first_named_at(tools, name, k);
    if k < i {
        assert(tools[k].name != name);
    }
    if i < k {
        assert(tools[i].name != name);
    }
}

/// A tool: a name, a description for people, the schema of its parameters
/// and the handler that it is bound to. The schema is generated from the
/// handler's shape when the tool is defined and kept from then on.
#[derive(Debug)]
pub struct ToolDefinition {
    name: String,
    description: String,
    schema: SchemaDoc,
    handler: Handler,
}

impl View for ToolDefinition {
    type V = ToolView;

    closed spec fn view(&self) -> ToolView {
        ToolView {
            name: self.name@,
            description: self.description@,
            schema: self.schema@,
            handler: self.handler,
        }
    }
}

impl ToolDefinition {
    #[verifier::type_invariant]
    spec fn well_formed(self) -> bool {
        tool_ok(self@)
    }

    /// Define a tool bound to a handler.
    pub fn new(name: &str, description: &str, handler: Handler) -> (r: ToolDefinition)
        ensures
            r@.name == name@,
            r@.description == description@,
            r@.handler == handler,
            tool_ok(r@),
    {
        let shape = handler.shape();
        let schema = generate(&shape);
        ToolDefinition {
            name: String::from_str(name),
            description: String::from_str(description),
            schema,
            handler,
        }
    }

    /// The name of this tool.
    pub fn name(&self) -> (r: &str)
        ensures
            r@ == self@.name,
    {
        self.name.as_str()
    }

    /// The description of this tool.
    pub fn description(&self) -> (r: &str)
        ensures
            r@ == self@.description,
    {
        self.description.as_str()
    }

    /// The schema document of this tool's parameters.
    pub fn schema(&self) -> (r: &SchemaDoc)
        ensures
            r@ == self@.schema,
            tool_ok(self@),
    {
        proof {
            use_type_invariant(self);
        }
        &self.schema
    }

    /// The handler that this tool is bound to.
    pub fn handler(&self) -> (r: Handler)
        ensures
            r == self@.handler,
    {
        self.handler
    }
}

/// One entry of a tool listing: what a caller is told of a tool.
#[derive(Debug)]
pub struct ToolListing {
    pub name: String,
    pub description: String,
    pub schema: SchemaDoc,
}

/// The mathematical value of a [`ToolListing`].
pub struct ToolListingView {
    pub name: Seq<char>,
    pub description: Seq<char>,
    pub schema: Seq<FieldSchemaView>,
}

impl View for ToolListing {
    type V = ToolListingView;

    open spec fn view(&self) -> ToolListingView {
        ToolListingView { name: self.name@, description: self.description@, schema: self.schema@ }
    }
}

/// What a listing says of one tool.
pub open spec fn listing_of(tool: ToolView) -> ToolListingView {
    ToolListingView { name: tool.name, description: tool.description, schema: tool.schema }
}

/// The listing of a registry: one entry for each tool, in the registry's
/// order.
pub open spec fn catalog_of(tools: Seq<ToolView>) -> Seq<ToolListingView> {
    Seq::new(tools.len(), |i: int| listing_of(tools[i]))
}

/// The entries of a listing, as mathematical values.
pub open spec fn listings_view(listings: Seq<ToolListing>) -> Seq<ToolListingView> {
    Seq::new(listings.len(), |i: int| listings[i]@)
}

/// The tools of a list of definitions, as mathematical values.
pub open spec fn tools_view(tools: Seq<ToolDefinition>) -> Seq<ToolView> {
    Seq::new(tools.len(), |i: int| tools[i]@)
}

/// Whether position `j` holds the first name of a list that an earlier
/// position holds already.
pub open spec fn first_repeat_at(tools: Seq<ToolView>, j: int) -> bool {
    &&& 0 <= j < tools.len()
    &&& exists|i: int| 0 <= i < j && (#[trigger] tools[i]).name == tools[j].name
    &&& names_distinct(tools.take(j))
}

/// A registry cannot be built from definitions of which two share a name.
#[derive(Debug)]
pub struct DuplicateName {
    pub name: String,
}

/// The registry of tools.
#[derive(Debug)]
pub struct Registry {
    tools: Vec<ToolDefinition>,
}

impl View for Registry {
    type V = Seq<ToolView>;

    closed spec fn view(&self) -> Seq<ToolView> {
        tools_view(self.tools@)
    }
}

impl Registry {
    #[verifier::type_invariant]
    spec fn well_formed(self) -> bool {
        registry_ok(self@)
    }

    /// Build a registry from a list of definitions, in the list's order. The
    /// build fails if a name occurs twice, and names the first that does.
    pub fn build(definitions: Vec<ToolDefinition>) -> (r: Result<Registry, DuplicateName>)
        ensures
            r is Ok <==> names_distinct(tools_view(definitions@)),
            match r {
                Ok(registry) => registry@ == tools_view(definitions@) && registry_ok(registry@),
                Err(e) => exists|j: int|
                    first_repeat_at(tools_view(definitions@), j) && e.name@ == tools_view(
                        definitions@,
                    )[j].name,
            },
    {
        let ghost tools = tools_view(definitions@);
        let mut j: usize = 0;
        while j < definitions.len()
            invariant
                j <= definitions.len(),
                tools == tools_view(definitions@),
                names_distinct(tools.take(j as int)),
                forall|k: int| 0 <= k < j ==> tool_ok(#[trigger] tools[k]),
            decreases definitions.len() - j,
        {
            let current = &definitions[j];
            proof {
                use_type_invariant(current);
                assert(tools[j as int] == current@);
            }
            let mut i: usize = 0;
            while i < j
                invariant
                    i <= j,
                    j < definitions.len(),
                    tools == tools_view(definitions@),
                    names_distinct(tools.take(j as int)),
                    forall|k: int| 0 <= k < i ==> (#[trigger] tools[k]).name != tools[j as int].name,
                decreases j - i,
            {
                if same_text(definitions[i].name(), definitions[j].name()) {
                    assert(tools[i as int].name == tools[j as int].name);
                    assert(first_repeat_at(tools, j as int));
                    assert(!names_distinct(tools));
                    return Err(DuplicateName { name: definitions[j].name.clone() });
                }
                i = i + 1;
            }
            proof {
                let next = tools.take(j + 1);
                assert forall|a: int, b: int| 0 <= a < b < next.len() implies (#[trigger] next[a]).name
                    != (#[trigger] next[b]).name by {
                    if b < j {
                        assert(tools.take(j as int)[a] == tools[a]);
                        assert(tools.take(j as int)[b] == tools[b]);
                    }
                }
            }
            j = j + 1;
        }
        proof {
            assert(tools.take(definitions@.len() as int) =~= tools);
        }
        Ok(Registry { tools: definitions })
    }

    /// The number of tools.
    pub fn len(&self) -> (r: usize)
        ensures
            r == self@.len(),
    {
        self.tools.len()
    }

    /// The tool under a name, if the registry holds one.
    pub fn lookup(&self, name: &str) -> (r: Option<&ToolDefinition>)
        ensures
            registry_ok(self@),
            match r {
                Some(tool) => find_tool(self@, name@) == Some(tool@) && tool@.name == name@
                    && tool_ok(tool@),
                None => find_tool(self@, name@) is None,
            },
    {
        proof {
            use_type_invariant(self);
        }
        let mut i: usize = 0;
        while i < self.tools.len()
            invariant
                i <= self.tools.len(),
                self@.len() == self.tools@.len(),
                registry_ok(self@),
                forall|k: int| 0 <= k < i ==> (#[trigger] self@[k]).name != name@,
            decreases self.tools.len() - i,
        {
            if same_text(self.tools[i].name(), name) {
                proof {
                    assert(self@[i as int] == self.tools@[i as int]@);
                    lemma_find_first(self@, name@, i as int);
                }
                return Some(&self.tools[i]);
            }
            i = i + 1;
        }
        None
    }

    /// The listing of the registry: the name, the description and the schema
    /// of each tool, once, in the registry's order.
    pub fn list(&self) -> (r: Vec<ToolListing>)
        ensures
            registry_ok(self@),
            listings_view(r@) == catalog_of(self@),
    {
        proof {
            use_type_invariant(self);
        }
        let mut out: Vec<ToolListing> = Vec::new();
        let mut i: usize = 0;
        while i < self.tools.len()
            invariant
                i <= self.tools.len(),
                self@.len() == self.tools@.len(),
                out@.len() == i,
                forall|k: int| 0 <= k < i ==> out@[k]@ == listing_of(self@[k]),
            decreases self.tools.len() - i,
        {
            let tool = &self.tools[i];
            assert(self@[i as int] == tool@);
            out.push(
                ToolListing {
                    name: tool.name.clone(),
                    description: tool.description.clone(),
                    schema: tool.schema.duplicate(),
                },
            );
            i = i + 1;
        }
        assert(listings_view(out@) =~= catalog_of(self@));
        out
    }
}

/// A listing holds each tool of the registry exactly once: it has one entry
/// for each tool, in the registry's order, and no two entries share a name.
pub proof fn lemma_listing_holds_each_tool_once(tools: Seq<ToolView>)
    requires
        registry_ok(tools),
    ensures
        catalog_of(tools).len() == tools.len(),
        forall|i: int| 0 <= i < tools.len() ==> #[trigger] catalog_of(tools)[i] == listing_of(tools[i]),
        forall|i: int, j: int|
            0 <= i < j < tools.len() ==> (#[trigger] catalog_of(tools)[i]).name != (
            #[trigger] catalog_of(tools)[j]).name,
{
    assert forall|i: int, j: int| 0 <= i < j < tools.len() implies (#[trigger] catalog_of(
        tools,
    )[i]).name != (#[trigger] catalog_of(tools)[j]).name by {
        assert(tools[i].name != tools[j].name);
    }
}

/// In a registry a name finds at most one tool: the tool at any position is
/// the one found under its own name.
pub proof fn lemma_name_finds_its_tool(tools: Seq<ToolView>, i: int)
    requires
        registry_ok(tools),
        0 <= i < tools.len(),
    ensures
        find_tool(tools, tools[i].name) == Some(tools[i]),
{
    assert forall|j: int| 0 <= j < i implies (#[trigger] tools[j]).name != tools[i].name by {
        assert(tools[j].name != tools[i].name);
    }
    lemma_find_first(tools, tools[i].name, i);
}

/// A name that no tool carries finds nothing.
pub proof fn lemma_absent_name_finds_nothing(tools: Seq<ToolView>, name: Seq<char>)
    requires
        forall|i: int| 0 <= i < tools.len() ==> (#[trigger] tools[i]).name != name,
    ensures
        find_tool(tools, name) is None,
{
}

/// A tool that is found under a name stands in the list and carries that
/// name.
pub proof fn lemma_found_tool_is_listed(tools: Seq<ToolView>, name: Seq<char>)
    requires
        find_tool(tools, name) is Some,
    ensures
        find_tool(tools, name)->Some_0.name == name,
        exists|i: int| 0 <= i < tools.len() && #[trigger] tools[i] == find_tool(tools, name)->Some_0,
{
    let k = choose|k: int| 0 <= k < tools.len() && (#[trigger] tools[k]).name == name;
    lemma_first_named_up_to(tools, name, k);
    let i = choose|i: int| first_named_at(tools, name, i);
    assert(tools[i] == find_tool(tools, name)->Some_0);
}

proof fn lemma_first_named_up_to(tools: Seq<ToolView>, name: Seq<char>, k: int)
    requires
        0 <= k < tools.len(),
        tools[k].name == name,
    ensures
        exists|i: int| first_named_at(tools, name, i),
    decreases k,
{
    if exists|m: int| 0 <= m < k && (#[trigger] tools[m]).name == name {
        let m = choose|m: int| 0 <= m < k && (#[trigger] tools[m]).name == name;
        lemma_first_named_up_to(tools, name, m);
    } else {
        assert(first_named_at(tools, name, k));
    }
}

/// Every tool of a registry has a schema that is not empty: it has fields,
/// and its text is an object.
pub proof fn lemma_registered_schema_is_not_empty(tools: Seq<ToolView>, i: int)
    requires
        registry_ok(tools),
        0 <= i < tools.len(),
    ensures
        tools[i].schema.len() > 0,
        schema_json(tools[i].schema).len() > 0,
        schema_json(tools[i].schema)[0] == '{',
{
    assert(tool_ok(tools[i]));
    lemma_schema_json_nonempty(tools[i].schema);
}

} // verus!
