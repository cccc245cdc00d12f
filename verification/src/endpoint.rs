//! The endpoint table: which base address serves which network of which
//! service family.
//!
//! Each family has its own closed set of networks, so a [`Backend`] value can
//! only name a combination that the table holds. Text tags are turned into
//! such values by [`decode_variant`], which is where an unsupported network
//! is rejected.

use crate::failure::{invalid_parameters_message, Failure, FailureKind, FailureView};
use crate::text::same_text;
use vstd::prelude::*;

verus! {

/// A family of backend services.
#[derive(Clone, Copy, Debug, PartialEq, Eq, Structural)]
pub enum ServiceFamily {
    Bitcoin,
    Liquid,
}

/// The networks of the Bitcoin family.
#[derive(Clone, Copy, Debug, PartialEq, Eq, Structural)]
pub enum BitcoinNetwork {
    Mainnet,
    Testnet,
    Signet,
}

/// The networks of the Liquid family.
#[derive(Clone, Copy, Debug, PartialEq, Eq, Structural)]
pub enum LiquidNetwork {
    Mainnet,
    Testnet,
}

/// One entry of the endpoint table: a family together with one of its own
/// networks.
#[derive(Clone, Copy, Debug, PartialEq, Eq, Structural)]
pub enum Backend {
    Bitcoin(BitcoinNetwork),
    Liquid(LiquidNetwork),
}

/// A network tag that the requested family does not serve.
#[derive(Debug)]
pub struct UnsupportedNetwork {
    pub family: ServiceFamily,
    pub tag: String,
}

/// The family that a backend belongs to.
pub open spec fn family_of(b: Backend) -> ServiceFamily {
    match b {
        Backend::Bitcoin(_) => ServiceFamily::Bitcoin,
        Backend::Liquid(_) => ServiceFamily::Liquid,
    }
}

/// The text tag of a backend's network.
pub open spec fn tag_of(b: Backend) -> Seq<char> {
    match b {
        Backend::Bitcoin(BitcoinNetwork::Mainnet) => "mainnet"@,
        Backend::Bitcoin(BitcoinNetwork::Testnet) => "testnet"@,
        Backend::Bitcoin(BitcoinNetwork::Signet) => "signet"@,
        Backend::Liquid(LiquidNetwork::Mainnet) => "mainnet"@,
        Backend::Liquid(LiquidNetwork::Testnet) => "testnet"@,
    }
}

/// The backend that a tag names within a family, if the family serves it.
pub open spec fn backend_for(family: ServiceFamily, tag: Seq<char>) -> Option<Backend> {
    match family {
        ServiceFamily::Bitcoin => if tag == "mainnet"@ {
            Some(Backend::Bitcoin(BitcoinNetwork::Mainnet))
        } else if tag == "testnet"@ {
            Some(Backend::Bitcoin(BitcoinNetwork::Testnet))
        } else if tag == "signet"@ {
            Some(Backend::Bitcoin(BitcoinNetwork::Signet))
        } else {
            None
        },
        ServiceFamily::Liquid => if tag == "mainnet"@ {
            Some(Backend::Liquid(LiquidNetwork::Mainnet))
        } else if tag == "testnet"@ {
            Some(Backend::Liquid(LiquidNetwork::Testnet))
        } else {
            None
        },
    }
}

/// The tags of the networks that a family serves, in the order in which its
/// schema lists them.
pub open spec fn family_tags(family: ServiceFamily) -> Seq<Seq<char>> {
    match family {
        ServiceFamily::Bitcoin => seq!["mainnet"@, "testnet"@, "signet"@],
        ServiceFamily::Liquid => seq!["mainnet"@, "testnet"@],
    }
}

/// The name of a family in messages.
pub open spec fn family_label(family: ServiceFamily) -> Seq<char> {
    match family {
        ServiceFamily::Bitcoin => "bitcoin"@,
        ServiceFamily::Liquid => "liquid"@,
    }
}

/// What a rejected network says in a failure message: the tag as the caller
/// wrote it, and the family that does not serve it.
pub open spec fn unsupported_detail(family: ServiceFamily, tag: Seq<char>) -> Seq<char> {
    "unsupported network `"@ + tag + "` for "@ + family_label(family)
}

/// The failure that a rejected network becomes at the dispatcher's boundary.
pub open spec fn unsupported_failure(family: ServiceFamily, tag: Seq<char>) -> FailureView {
    FailureView {
        kind: FailureKind::InvalidParameters,
        message: invalid_parameters_message(unsupported_detail(family, tag)),
    }
}

/// The backend used when a caller names no network.
pub open spec fn default_backend(family: ServiceFamily) -> Backend {
    match family {
        ServiceFamily::Bitcoin => Backend::Bitcoin(BitcoinNetwork::Mainnet),
        ServiceFamily::Liquid => Backend::Liquid(LiquidNetwork::Mainnet),
    }
}

/// The base address of a backend.
pub open spec fn address_of(b: Backend) -> Seq<char> {
    match b {
        Backend::Bitcoin(BitcoinNetwork::Mainnet) => "https://blockstream.info/api"@,
        Backend::Bitcoin(BitcoinNetwork::Testnet) => "https://blockstream.info/testnet/api"@,
        Backend::Bitcoin(BitcoinNetwork::Signet) => "https://blockstream.info/signet/api"@,
        Backend::Liquid(LiquidNetwork::Mainnet) => "https://blockstream.info/liquid/api"@,
        Backend::Liquid(LiquidNetwork::Testnet) => "https://blockstream.info/liquidtestnet/api"@,
    }
}

impl Backend {
    /// The family of this backend.
    pub fn family(self) -> (r: ServiceFamily)
        ensures
            r == family_of(self),
    {
        match self {
            Backend::Bitcoin(_) => ServiceFamily::Bitcoin,
            Backend::Liquid(_) => ServiceFamily::Liquid,
        }
    }

    /// The tag under which callers name this backend's network.
    pub fn tag(self) -> (r: &'static str)
        ensures
            r@ == tag_of(self),
    {
        match self {
            Backend::Bitcoin(BitcoinNetwork::Mainnet) => "mainnet",
            Backend::Bitcoin(BitcoinNetwork::Testnet) => "testnet",
            Backend::Bitcoin(BitcoinNetwork::Signet) => "signet",
            Backend::Liquid(LiquidNetwork::Mainnet) => "mainnet",
            Backend::Liquid(LiquidNetwork::Testnet) => "testnet",
        }
    }
}

impl UnsupportedNetwork {
    /// This rejection as an invalid-parameters failure.
    pub fn into_failure(self) -> (r: Failure)
        ensures
            r@ == unsupported_failure(self.family, self.tag@),
    {
        let mut detail = String::from_str("unsupported network `");
        detail.append(self.tag.as_str());
        detail.append("` for ");
        detail.append(self.family.label());
        Failure::invalid_parameters(detail.as_str())
    }
}

impl ServiceFamily {
    /// The name of this family in messages.
    pub fn label(self) -> (r: &'static str)
        ensures
            r@ == family_label(self),
    {
        match self {
            ServiceFamily::Bitcoin => "bitcoin",
            ServiceFamily::Liquid => "liquid",
        }
    }

    /// The tags of the networks that this family serves.
    pub fn tags(self) -> (r: Vec<String>)
        ensures
            crate::schema::texts_of(r@) == family_tags(self),
    {
        let mut out: Vec<String> = Vec::new();
        out.push(String::from_str("mainnet"));
        out.push(String::from_str("testnet"));
        match self {
            ServiceFamily::Bitcoin => {
                out.push(String::from_str("signet"));
            },
            ServiceFamily::Liquid => {},
        }
        assert(crate::schema::texts_of(out@) =~= family_tags(self));
        out
    }

    /// The backend used when a caller names no network.
    pub fn default_variant(self) -> (r: Backend)
        ensures
            r == default_backend(self),
    {
        match self {
            ServiceFamily::Bitcoin => Backend::Bitcoin(BitcoinNetwork::Mainnet),
            ServiceFamily::Liquid => Backend::Liquid(LiquidNetwork::Mainnet),
        }
    }
}

/// Turn a network tag into a backend of the given family. A tag that the
/// family does not serve is rejected, whether or not another family serves it.
pub fn decode_variant(family: ServiceFamily, tag: &str) -> (r: Result<Backend, UnsupportedNetwork>)
    ensures
        match r {
            Ok(b) => backend_for(family, tag@) == Some(b),
            Err(e) => backend_for(family, tag@) is None && e.family == family && e.tag@ == tag@,
        },
{
    let mainnet = same_text(tag, "mainnet");
    let testnet = same_text(tag, "testnet");
    let signet = same_text(tag, "signet");
    match family {
        ServiceFamily::Bitcoin => {
            if mainnet {
                Ok(Backend::Bitcoin(BitcoinNetwork::Mainnet))
            } else if testnet {
                Ok(Backend::Bitcoin(BitcoinNetwork::Testnet))
            } else if signet {
                Ok(Backend::Bitcoin(BitcoinNetwork::Signet))
            } else {
                Err(UnsupportedNetwork { family, tag: tag.to_owned() })
            }
        },
        ServiceFamily::Liquid => {
            if mainnet {
                Ok(Backend::Liquid(LiquidNetwork::Mainnet))
            } else if testnet {
                Ok(Backend::Liquid(LiquidNetwork::Testnet))
            } else {
                Err(UnsupportedNetwork { family, tag: tag.to_owned() })
            }
        },
    }
}

/// The base address to contact for a backend.
pub fn resolve(backend: Backend) -> (r: &'static str)
    ensures
        r@ == address_of(backend),
        r@.len() > 0,
{
    proof {
        lemma_address_nonempty(backend);
    }
    match backend {
        Backend::Bitcoin(BitcoinNetwork::Mainnet) => "https://blockstream.info/api",
        Backend::Bitcoin(BitcoinNetwork::Testnet) => "https://blockstream.info/testnet/api",
        Backend::Bitcoin(BitcoinNetwork::Signet) => "https://blockstream.info/signet/api",
        Backend::Liquid(LiquidNetwork::Mainnet) => "https://blockstream.info/liquid/api",
        Backend::Liquid(LiquidNetwork::Testnet) => "https://blockstream.info/liquidtestnet/api",
    }
}

/// The base address for a family and an optional network tag: the family's
/// default when no tag is given, the tag's own address when the family serves
/// it, and a rejection otherwise. No address stands in for a rejected tag.
pub fn resolve_tag(family: ServiceFamily, tag: Option<&str>) -> (r: Result<
    &'static str,
    UnsupportedNetwork,
>)
    ensures
        match tag {
            None => r matches Ok(a) && a@ == address_of(default_backend(family)),
            Some(t) => match backend_for(family, t@) {
                Some(b) => r matches Ok(a) && a@ == address_of(b),
                None => r matches Err(e) && e.family == family && e.tag@ == t@,
            },
        },
{
    match tag {
        None => Ok(resolve(family.default_variant())),
        Some(t) => match decode_variant(family, t) {
            Ok(b) => Ok(resolve(b)),
            Err(e) => Err(e),
        },
    }
}

/// Every entry of the endpoint table has a non-empty address.
pub proof fn lemma_address_nonempty(b: Backend)
    ensures
        address_of(b).len() > 0,
{
    reveal_strlit("https://blockstream.info/api");
    reveal_strlit("https://blockstream.info/testnet/api");
    reveal_strlit("https://blockstream.info/signet/api");
    reveal_strlit("https://blockstream.info/liquid/api");
    reveal_strlit("https://blockstream.info/liquidtestnet/api");
}

/// A backend's own tag, decoded within its own family, names that backend
/// again: every variant of every family can be reached by its tag.
pub proof fn lemma_tag_roundtrip(b: Backend)
    ensures
        backend_for(family_of(b), tag_of(b)) == Some(b),
{
    lemma_tags_distinct();
}

/// A decoded tag always yields a backend of the family it was decoded for,
/// and one that carries that very tag.
pub proof fn lemma_backend_for_sound(family: ServiceFamily, tag: Seq<char>)
    ensures
        backend_for(family, tag) matches Some(b) ==> family_of(b) == family && tag_of(b) == tag,
{
}

/// A family's tags are exactly the tags that decode within it.
pub proof fn lemma_family_tags_are_the_legal_tags(family: ServiceFamily, tag: Seq<char>)
    ensures
        family_tags(family).contains(tag) <==> backend_for(family, tag) is Some,
{
    let tags = family_tags(family);
    if backend_for(family, tag) is Some {
        if tag == "mainnet"@ {
            assert(tags[0] == tag);
        } else if tag == "testnet"@ {
            assert(tags[1] == tag);
        } else {
            assert(tags[2] == tag);
        }
    }
}

/// The default backend of a family is the one that its own tag decodes to,
/// and that tag is among the family's tags.
pub proof fn lemma_default_is_legal(family: ServiceFamily)
    ensures
        family_of(default_backend(family)) == family,
        backend_for(family, tag_of(default_backend(family))) == Some(default_backend(family)),
        family_tags(family).contains(tag_of(default_backend(family))),
{
    lemma_tag_roundtrip(default_backend(family));
    lemma_family_tags_are_the_legal_tags(family, tag_of(default_backend(family)));
}

/// The three network tags are pairwise different.
pub proof fn lemma_tags_distinct()
    ensures
        "mainnet"@ != "testnet"@,
        "mainnet"@ != "signet"@,
        "testnet"@ != "signet"@,
{
    reveal_strlit("mainnet");
    reveal_strlit("testnet");
    reveal_strlit("signet");
    assert("mainnet"@[0] != "testnet"@[0]);
    assert("mainnet"@.len() != "signet"@.len());
    assert("testnet"@.len() != "signet"@.len());
}

/// Different backends have different addresses: no two entries of the table
/// share one.
pub proof fn lemma_addresses_distinct(a: Backend, b: Backend)
    requires
        a != b,
    ensures
        address_of(a) != address_of(b),
{
    reveal_strlit("https://blockstream.info/api");
    reveal_strlit("https://blockstream.info/testnet/api");
    reveal_strlit("https://blockstream.info/signet/api");
    reveal_strlit("https://blockstream.info/liquid/api");
    reveal_strlit("https://blockstream.info/liquidtestnet/api");
    if address_of(a).len() == address_of(b).len() {
        assert(address_of(a)[25] != address_of(b)[25]);
    }
}

} // verus!
