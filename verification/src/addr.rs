//! Seed-node addresses: validated endpoint descriptors.
//!
//! Raw user input (URI-like strings of the form `redis://host:port`) is turned
//! into [`NodeAddress`] values once, at manager-construction time, by the
//! address resolver of the underlying client crate. A `NodeAddress` is
//! immutable after that.

use vstd::prelude::*;
use redis_cluster_rs::redis::{ConnectionAddr, ConnectionInfo, IntoConnectionInfo, RedisError};

verus! {

#[verifier::external_type_specification]
#[verifier::external_body]
pub struct ExConnectionInfo(ConnectionInfo);

#[verifier::external_type_specification]
#[verifier::external_body]
pub struct ExRedisError(RedisError);

/// The abstract value of a [`NodeAddress`]: the endpoint data the resolver
/// extracted from one raw descriptor.
pub struct NodeAddressView {
    pub host: Seq<char>,
    pub port: u16,
    /// A credential embedded in the descriptor itself
    /// (`redis://:credential@host:port`), if any. The cluster client falls
    /// back on it when the manager supplies no credential of its own.
    pub passwd: Option<Seq<char>>,
}

/// A validated TCP endpoint of one seed node.
///
/// Besides the host, port and embedded credential it keeps the resolver's own
/// endpoint value, so that a session is later opened against exactly what the
/// resolver produced.
#[derive(Debug)]
pub struct NodeAddress {
    host: String,
    port: u16,
    passwd: Option<String>,
    pub(crate) info: ConnectionInfo,
}

impl View for NodeAddress {
    type V = NodeAddressView;

    closed spec fn view(&self) -> NodeAddressView {
        NodeAddressView {
            host: self.host@,
            port: self.port,
            passwd: match self.passwd {
                Some(p) => Some(p@),
                None => None,
            },
        }
    }
}

/// The abstract values of a sequence of seed endpoints, in order.
pub open spec fn seed_views(nodes: Seq<NodeAddress>) -> Seq<NodeAddressView> {
    nodes.map_values(|n: NodeAddress| n@)
}

/// Whether every seed of a set carries the same embedded credential (or,
/// alike, none). The cluster client refuses to open over seeds with differing
/// embedded credentials unless the manager supplies a credential of its own.
pub open spec fn uniform_credential(nodes: Seq<NodeAddressView>) -> bool {
    forall|i: int| 0 <= i < nodes.len() ==> #[trigger] nodes[i].passwd == nodes[0].passwd
}

impl NodeAddress {
    /// The host name or address, as the resolver extracted it.
    pub fn host(&self) -> (r: &String)
        ensures
            r@ == self@.host,
    {
        &self.host
    }

    /// The TCP port, as the resolver extracted it (the scheme's default port
    /// when the descriptor named none).
    pub fn port(&self) -> (r: u16)
        ensures
            r == self@.port,
    {
        self.port
    }

    /// The credential embedded in the descriptor, if it carried one.
    pub fn embedded_credential(&self) -> (r: &Option<String>)
        ensures
            (*r) is Some <==> self@.passwd is Some,
            (*r) is Some ==> (*r)->0@ == self@.passwd->0,
    {
        &self.passwd
    }
}

/// What the resolver makes of one raw descriptor.
pub enum ResolvedAddr {
    /// The descriptor does not parse as a URI of the store's scheme.
    Malformed,
    /// The descriptor parses, but not to a TCP endpoint; the cluster client
    /// addresses nodes by host and port only, so such a descriptor cannot
    /// serve as a seed.
    NotTcp,
    /// A validated TCP endpoint.
    Endpoint(NodeAddressView),
}

/// What the underlying resolver returns for a given descriptor. The result
/// depends on the characters of the descriptor alone.
pub uninterp spec fn resolve_spec(s: Seq<char>) -> ResolvedAddr;

/// Relies on redis's `IntoConnectionInfo` for `&str`: it parses a
/// `redis://host:port` URI (an omitted port defaults to the scheme's port,
/// an embedded credential is percent-decoded), or a unix-socket URI, and
/// fails on anything else. The arms of the parsed address are told apart
/// here: only a TCP endpoint becomes a `NodeAddress`.
#[verifier::external_body]
pub(crate) fn resolve_node(s: &str) -> (r: Result<Option<NodeAddress>, RedisError>)
    ensures
        r is Err <==> resolve_spec(s@) is Malformed,
        (r is Ok && r->Ok_0 is None) <==> resolve_spec(s@) is NotTcp,
        (r is Ok && r->Ok_0 is Some) ==> r->Ok_0->0@ == resolve_spec(s@)->Endpoint_0,
{
    let info = match s.into_connection_info() {
        Ok(info) => info,
        Err(e) => {
            return Err(e);
        }
    };
    let (host, port) = match &*info.addr {
        ConnectionAddr::Tcp(host, port) => (host.clone(), *port),
        ConnectionAddr::Unix(_) => {
            return Ok(None);
        }
    };
    let passwd = info.passwd.clone();
    Ok(Some(NodeAddress { host, port, passwd, info }))
}

} // verus!
