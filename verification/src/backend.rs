//! The handlers behind the tools: which explorer resource a tool reads, the
//! parameter shape it takes, and the request it makes of the backend.
//!
//! Nothing here talks to the network. A handler turns decoded parameters into
//! a [`FetchRequest`]; performing it is the caller's part.

use crate::endpoint::{
    address_of, backend_for, decode_variant, default_backend, family_tags, resolve, tag_of,
    unsupported_failure, ServiceFamily,
};
use crate::failure::{invalid_parameters_message, Failure, FailureKind, FailureView};
use crate::schema::{
    shape_view, FieldSpec, FieldSpecView, FieldType, TypedValue, TypedValueView,
};
use vstd::prelude::*;

verus! {

/// A request to the backend: one absolute address to fetch.
#[derive(Debug)]
pub struct FetchRequest {
    pub url: String,
}

impl View for FetchRequest {
    type V = Seq<char>;

    open spec fn view(&self) -> Seq<char> {
        self.url@
    }
}

/// The kind of explorer resource that a tool reads.
#[derive(Clone, Copy, Debug, PartialEq, Eq, Structural)]
pub enum Resource {
    Transaction,
    Block,
}

/// The binding of a tool: a resource of a family.
#[derive(Clone, Copy, Debug, PartialEq, Eq, Structural)]
pub struct Handler {
    pub family: ServiceFamily,
    pub resource: Resource,
}

/// The address of a transaction under a base address.
pub open spec fn transaction_url(base_url: Seq<char>, txid: Seq<char>) -> Seq<char> {
    base_url + "/tx/"@ + txid
}

/// The address of a block under a base address.
pub open spec fn block_url(base_url: Seq<char>, hash: Seq<char>) -> Seq<char> {
    base_url + "/block/"@ + hash
}

/// The address of a resource under a base address.
pub open spec fn resource_url(resource: Resource, base_url: Seq<char>, id: Seq<char>) -> Seq<char> {
    match resource {
        Resource::Transaction => transaction_url(base_url, id),
        Resource::Block => block_url(base_url, id),
    }
}

/// The request for a transaction by its id.
pub fn fetch_transaction(base_url: &str, txid: &str) -> (r: FetchRequest)
    ensures
        r@ == transaction_url(base_url@, txid@),
{
    let mut url = String::from_str(base_url);
    url.append("/tx/");
    url.append(txid);
    FetchRequest { url }
}

/// The request for a block by its hash.
pub fn fetch_block(base_url: &str, hash: &str) -> (r: FetchRequest)
    ensures
        r@ == block_url(base_url@, hash@),
{
    let mut url = String::from_str(base_url);
    url.append("/block/");
    url.append(hash);
    FetchRequest { url }
}

/// The name of the field that identifies a resource.
pub open spec fn id_field_name(resource: Resource) -> Seq<char> {
    match resource {
        Resource::Transaction => "txid"@,
        Resource::Block => "hash"@,
    }
}

/// The description of the field that identifies a resource.
pub open spec fn id_field_description(resource: Resource) -> Seq<char> {
    match resource {
        Resource::Transaction => "The transaction ID (txid) hash to look up."@,
        Resource::Block => "The block hash to look up."@,
    }
}

/// The field that identifies the resource: a text that the caller must
/// supply.
pub open spec fn id_field(resource: Resource) -> FieldSpecView {
    FieldSpecView {
        name: id_field_name(resource),
        ty: FieldType::Text,
        description: id_field_description(resource),
        default: None,
        allowed: None,
    }
}

/// The field that selects the network: one of the family's tags, and the
/// family's default where the caller leaves it out.
pub open spec fn network_field(family: ServiceFamily) -> FieldSpecView {
    FieldSpecView {
        name: "network"@,
        ty: FieldType::Text,
        description: "The network to query. Defaults to mainnet."@,
        default: Some(TypedValueView::Text(tag_of(default_backend(family)))),
        allowed: Some(family_tags(family)),
    }
}

/// The parameter shape of a handler: the identifying field, then the network.
pub open spec fn shape_of(handler: Handler) -> Seq<FieldSpecView> {
    seq![id_field(handler.resource), network_field(handler.family)]
}

/// The failure for decoded parameters that do not have a handler's shape.
pub open spec fn malformed_failure() -> FailureView {
    FailureView {
        kind: FailureKind::InvalidParameters,
        message: invalid_parameters_message("malformed argument container"@),
    }
}

/// What a handler makes of decoded parameters: the address of its resource
/// under the base address of the network they name, or a failure where they
/// are not an id and a network tag, or name a network that the family does
/// not serve.
pub open spec fn plan_of(handler: Handler, values: Seq<TypedValueView>) -> Result<
    Seq<char>,
    FailureView,
> {
    if values.len() == 2 && values[0] is Text && values[1] is Text {
        let id = values[0]->Text_0;
        let tag = values[1]->Text_0;
        match backend_for(handler.family, tag) {
            Some(b) => Ok(resource_url(handler.resource, address_of(b), id)),
            None => Err(unsupported_failure(handler.family, tag)),
        }
    } else {
        Err(malformed_failure())
    }
}

impl Resource {
    /// The name of the field that identifies this resource.
    pub fn id_name(self) -> (r: &'static str)
        ensures
            r@ == id_field_name(self),
    {
        match self {
            Resource::Transaction => "txid",
            Resource::Block => "hash",
        }
    }

    /// The description of the field that identifies this resource.
    pub fn id_description(self) -> (r: &'static str)
        ensures
            r@ == id_field_description(self),
    {
        match self {
            Resource::Transaction => "The transaction ID (txid) hash to look up.",
            Resource::Block => "The block hash to look up.",
        }
    }

    /// The request for this resource by its id, under a base address.
    pub fn request(self, base_url: &str, id: &str) -> (r: FetchRequest)
        ensures
            r@ == resource_url(self, base_url@, id@),
    {
        match self {
            Resource::Transaction => fetch_transaction(base_url, id),
            Resource::Block => fetch_block(base_url, id),
        }
    }
}

impl Handler {
    /// The parameter shape of this handler.
    pub fn shape(self) -> (r: Vec<FieldSpec>)
        ensures
            shape_view(r@) == shape_of(self),
    {
        let id = FieldSpec {
            name: String::from_str(self.resource.id_name()),
            ty: FieldType::Text,
            description: String::from_str(self.resource.id_description()),
            default: None,
            allowed: None,
        };
        let network = FieldSpec {
            name: String::from_str("network"),
            ty: FieldType::Text,
            description: String::from_str("The network to query. Defaults to mainnet."),
            default: Some(TypedValue::Text(String::from_str(self.family.default_variant().tag()))),
            allowed: Some(self.family.tags()),
        };
        let mut out: Vec<FieldSpec> = Vec::new();
        out.push(id);
        out.push(network);
        assert(shape_view(out@) =~= shape_of(self));
        out
    }

    /// Turn decoded parameters into the request to make of the backend.
    pub fn plan(self, values: &Vec<TypedValue>) -> (r: Result<FetchRequest, Failure>)
        ensures
            match r {
                Ok(request) => plan_of(self, crate::decode::values_view(values@)) == Ok::<
                    Seq<char>,
                    FailureView,
                >(request@),
                Err(f) => plan_of(self, crate::decode::values_view(values@)) == Err::<
                    Seq<char>,
                    FailureView,
                >(f@),
            },
    {
        if values.len() != 2 {
            return Err(Failure::invalid_parameters("malformed argument container"));
        }
        match (&values[0], &values[1]) {
            (TypedValue::Text(id), TypedValue::Text(tag)) => {
                match decode_variant(self.family, tag.as_str()) {
                    Ok(backend) => Ok(self.resource.request(resolve(backend), id.as_str())),
                    Err(e) => Err(e.into_failure()),
                }
            },
            _ => Err(Failure::invalid_parameters("malformed argument container")),
        }
    }
}

} // verus!
